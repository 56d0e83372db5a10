//! Round-trip and field-level checks for the Assetto Corsa record codecs.

use race_sdk::ac::types::Graphics;
use race_sdk::ac::types::Physics;
use race_sdk::ac::types::StaticInfo;
use race_sdk::ac::types::GRAPHICS_SIZE;
use race_sdk::ac::types::PHYSICS_SIZE;
use race_sdk::ac::types::STATIC_INFO_SIZE;

fn patterned(len: usize) -> Vec<u8> {
    let mut out = Vec::with_capacity(len);
    let mut i: usize = 0;
    while i < len {
        out.push(((i * 7 + 3) % 251) as u8);
        i += 1;
    }
    out
}

#[test]
fn physics_round_trip() {
    let b = patterned(PHYSICS_SIZE + 16);
    let p = Physics::decode(&b);
    assert_eq!(p.encode(), b[..PHYSICS_SIZE].to_vec());
}

#[test]
fn graphics_round_trip() {
    let mut b = patterned(GRAPHICS_SIZE);
    // the two alignment-padding bytes after the tyre compound text
    b[242] = 0;
    b[243] = 0;
    let g = Graphics::decode(&b);
    assert_eq!(g.encode(), b);
}

#[test]
fn static_info_round_trip() {
    let mut b = patterned(STATIC_INFO_SIZE);
    for off in [398usize, 554, 634] {
        b[off] = 0;
        b[off + 1] = 0;
    }
    let s = StaticInfo::decode(&b);
    assert_eq!(s.encode(), b);
}

#[test]
fn decode_then_encode_then_decode_is_stable() {
    let b = patterned(PHYSICS_SIZE);
    let p = Physics::decode(&b);
    let q = Physics::decode(&p.encode());
    assert!(p == q);
}

#[test]
fn physics_fields_decode_little_endian() {
    let mut b = vec![0u8; PHYSICS_SIZE];
    b[0..4].copy_from_slice(&42i32.to_le_bytes());
    b[4..8].copy_from_slice(&0.75f32.to_bits().to_le_bytes());
    b[16..20].copy_from_slice(&(-3i32).to_le_bytes());
    b[20..24].copy_from_slice(&8421i32.to_le_bytes());
    let p = Physics::decode(&b);
    assert_eq!(p.packet_id, 42);
    assert_eq!(p.gas, 0.75f32.to_bits());
    assert_eq!(p.gear, -3);
    assert_eq!(p.rpms, 8421);
}

#[test]
fn graphics_text_field_decodes() {
    let mut b = vec![0u8; GRAPHICS_SIZE];
    // current_time occupies 15 code units starting at byte offset 12
    for (i, u) in "1:23:456".encode_utf16().enumerate() {
        b[12 + 2 * i..12 + 2 * i + 2].copy_from_slice(&u.to_le_bytes());
    }
    let g = Graphics::decode(&b);
    assert_eq!(g.current_time_str(), "1:23:456");
    assert_eq!(g.last_time_str(), "");
}

#[test]
fn static_info_text_fields_decode() {
    let mut b = vec![0u8; STATIC_INFO_SIZE];
    // car_model occupies 33 code units starting at byte offset 68
    for (i, u) in "ks_mazda_mx5".encode_utf16().enumerate() {
        b[68 + 2 * i..68 + 2 * i + 2].copy_from_slice(&u.to_le_bytes());
    }
    let s = StaticInfo::decode(&b);
    assert_eq!(s.car_model_str(), "ks_mazda_mx5");
    assert_eq!(s.track_str(), "");
}

#[test]
fn default_records_encode_to_all_zero_bytes() {
    assert_eq!(Physics::default().encode(), vec![0u8; PHYSICS_SIZE]);
    assert_eq!(Graphics::default().encode(), vec![0u8; GRAPHICS_SIZE]);
    assert_eq!(StaticInfo::default().encode(), vec![0u8; STATIC_INFO_SIZE]);
}

#[test]
fn mutated_default_round_trips() {
    let mut p = Physics::default();
    p.packet_id = 7;
    p.fuel = 13.5f32.to_bits();
    p.velocity = vec![1.0f32.to_bits(), 2.0f32.to_bits(), 3.0f32.to_bits()];
    let q = Physics::decode(&p.encode());
    assert!(p == q);
}
