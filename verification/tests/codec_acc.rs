//! Round-trip and field-level checks for the Assetto Corsa Competizione
//! record codecs.

use race_sdk::acc::types::Graphics;
use race_sdk::acc::types::Physics;
use race_sdk::acc::types::StaticInfo;
use race_sdk::acc::types::GRAPHICS_SIZE;
use race_sdk::acc::types::PHYSICS_SIZE;
use race_sdk::acc::types::STATIC_INFO_SIZE;

fn patterned(len: usize) -> Vec<u8> {
    let mut out = Vec::with_capacity(len);
    let mut i: usize = 0;
    while i < len {
        out.push(((i * 11 + 5) % 241) as u8);
        i += 1;
    }
    out
}

#[test]
fn acc_physics_round_trip() {
    let b = patterned(PHYSICS_SIZE + 4);
    let p = Physics::decode(&b);
    assert_eq!(p.encode(), b[..PHYSICS_SIZE].to_vec());
}

#[test]
fn acc_graphics_round_trip() {
    let b = patterned(GRAPHICS_SIZE);
    let g = Graphics::decode(&b);
    assert_eq!(g.encode(), b);
}

#[test]
fn acc_static_info_round_trip() {
    let b = patterned(STATIC_INFO_SIZE);
    let s = StaticInfo::decode(&b);
    assert_eq!(s.encode(), b);
}

#[test]
fn acc_defaults_encode_to_all_zero_bytes() {
    assert_eq!(Physics::default().encode(), vec![0u8; PHYSICS_SIZE]);
    assert_eq!(Graphics::default().encode(), vec![0u8; GRAPHICS_SIZE]);
    assert_eq!(StaticInfo::default().encode(), vec![0u8; STATIC_INFO_SIZE]);
}

#[test]
fn acc_specific_fields_decode() {
    let mut b = vec![0u8; PHYSICS_SIZE];
    // water_temp sits after the shared classic fields and the ACC-only
    // tyre arrays; the first ACC-only field, p2p_activation, starts where
    // the classic physics record ends (offset 580).
    b[580..584].copy_from_slice(&3i32.to_le_bytes());
    let p = Physics::decode(&b);
    assert_eq!(p.p2p_activation, 3);
}

#[test]
fn acc_graphics_car_arrays_decode() {
    let mut b = vec![0u8; GRAPHICS_SIZE];
    // car_id: 60 entries starting at byte offset 976
    b[976..980].copy_from_slice(&17i32.to_le_bytes());
    b[980..984].copy_from_slice(&(-1i32).to_le_bytes());
    let g = Graphics::decode(&b);
    assert_eq!(g.car_id.len(), 60);
    assert_eq!(g.car_id[0], 17);
    assert_eq!(g.car_id[1], -1);
}
