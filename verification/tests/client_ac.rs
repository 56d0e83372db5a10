//! Connection state machine of the Assetto Corsa client, driven against the
//! in-process shared-memory backend.

use race_sdk::ac::AssettoCorsa;
use race_sdk::ac::AssettoCorsaError;
use race_sdk::ac::ConnectionStatus;
use race_sdk::ac::types::Physics;
use race_sdk::ac::types::GRAPHICS_SIZE;
use race_sdk::ac::types::PHYSICS_SIZE;
use race_sdk::ac::types::STATIC_INFO_SIZE;
use race_sdk::utils::InMemoryOpener;

const PHYSICS_NAME: &str = "Local\\acpmf_physics";
const GRAPHICS_NAME: &str = "Local\\acpmf_graphics";
const STATIC_NAME: &str = "Local\\acpmf_static";

fn patterned(len: usize) -> Vec<u8> {
    let mut out = Vec::with_capacity(len);
    let mut i: usize = 0;
    while i < len {
        out.push(((i * 13 + 1) % 239) as u8);
        i += 1;
    }
    out
}

fn full_opener() -> InMemoryOpener {
    let mut opener = InMemoryOpener::new();
    opener.publish(PHYSICS_NAME, patterned(PHYSICS_SIZE));
    opener.publish(GRAPHICS_NAME, vec![0u8; GRAPHICS_SIZE]);
    opener.publish(STATIC_NAME, vec![0u8; STATIC_INFO_SIZE]);
    opener
}

#[test]
fn not_connected_before_connect() {
    let reader = AssettoCorsa::new(InMemoryOpener::new());
    assert!(!reader.is_connected());
    assert!(reader.status() == ConnectionStatus::Disconnected);
}

#[test]
fn reads_before_connect_report_absence() {
    let reader = AssettoCorsa::new(full_opener());
    assert!(reader.get_physics().is_none());
    assert!(reader.get_graphics().is_none());
    assert!(reader.get_static_info().is_none());
}

#[test]
fn connect_succeeds_with_all_three_regions() {
    let mut reader = AssettoCorsa::new(full_opener());
    assert!(reader.connect().is_ok());
    assert!(reader.is_connected());
    assert!(reader.status() == ConnectionStatus::Connected);
}

#[test]
fn snapshot_equals_bytes_placed_at_connect_time() {
    let phys = patterned(PHYSICS_SIZE);
    let mut reader = AssettoCorsa::new(full_opener());
    assert!(reader.connect().is_ok());
    let snap = reader.get_physics().unwrap();
    assert!(snap == Physics::decode(&phys));
    assert!(reader.get_graphics().is_some());
    assert!(reader.get_static_info().is_some());
}

#[test]
fn missing_region_yields_not_found_with_its_name() {
    let mut reader = AssettoCorsa::new(InMemoryOpener::new());
    match reader.connect() {
        Err(AssettoCorsaError::SharedMemoryNotFound(msg)) => {
            assert!(msg.contains(PHYSICS_NAME));
        },
        _ => panic!("expected SharedMemoryNotFound"),
    }
    assert!(!reader.is_connected());
    assert!(reader.get_physics().is_none());
    assert!(reader.get_graphics().is_none());
    assert!(reader.get_static_info().is_none());
}

#[test]
fn one_missing_region_tears_the_others_down() {
    let mut opener = InMemoryOpener::new();
    opener.publish(PHYSICS_NAME, vec![0u8; PHYSICS_SIZE]);
    opener.publish(GRAPHICS_NAME, vec![0u8; GRAPHICS_SIZE]);
    // no static region
    let mut reader = AssettoCorsa::new(opener);
    match reader.connect() {
        Err(AssettoCorsaError::SharedMemoryNotFound(msg)) => {
            assert!(msg.contains(STATIC_NAME));
        },
        _ => panic!("expected SharedMemoryNotFound"),
    }
    assert!(!reader.is_connected());
    assert!(reader.get_physics().is_none());
    assert!(reader.get_graphics().is_none());
}

#[test]
fn first_failing_region_is_the_one_named() {
    // physics opens; graphics is the first missing region and must be named
    let mut opener = InMemoryOpener::new();
    opener.publish(PHYSICS_NAME, vec![0u8; PHYSICS_SIZE]);
    opener.publish(STATIC_NAME, vec![0u8; STATIC_INFO_SIZE]);
    let mut reader = AssettoCorsa::new(opener);
    match reader.connect() {
        Err(AssettoCorsaError::SharedMemoryNotFound(msg)) => {
            assert!(msg.contains(GRAPHICS_NAME));
        },
        _ => panic!("expected SharedMemoryNotFound"),
    }
    assert!(!reader.is_connected());
}

#[test]
fn undersized_region_fails_to_map() {
    let mut opener = InMemoryOpener::new();
    opener.publish(PHYSICS_NAME, vec![0u8; PHYSICS_SIZE - 1]);
    opener.publish(GRAPHICS_NAME, vec![0u8; GRAPHICS_SIZE]);
    opener.publish(STATIC_NAME, vec![0u8; STATIC_INFO_SIZE]);
    let mut reader = AssettoCorsa::new(opener);
    match reader.connect() {
        Err(AssettoCorsaError::ConnectionFailed(_)) => {},
        _ => panic!("expected ConnectionFailed"),
    }
    assert!(!reader.is_connected());
}

#[test]
fn republished_region_shadows_the_old_image() {
    let mut opener = InMemoryOpener::new();
    opener.publish(PHYSICS_NAME, vec![0u8; PHYSICS_SIZE]);
    opener.publish(GRAPHICS_NAME, vec![0u8; GRAPHICS_SIZE]);
    opener.publish(STATIC_NAME, vec![0u8; STATIC_INFO_SIZE]);
    let newer = patterned(PHYSICS_SIZE);
    opener.publish(PHYSICS_NAME, newer.clone());
    let mut reader = AssettoCorsa::new(opener);
    assert!(reader.connect().is_ok());
    assert!(reader.get_physics().unwrap() == Physics::decode(&newer));
}

#[test]
fn reconnect_is_an_idempotent_reopen() {
    let mut reader = AssettoCorsa::new(full_opener());
    assert!(reader.connect().is_ok());
    assert!(reader.connect().is_ok());
    assert!(reader.is_connected());
}
