//! The Competizione and Evo facades run the same state machine over their
//! own schemas.

use race_sdk::acc::AssettoCorsaCompetizione;
use race_sdk::acc::AssettoCorsaCompetizioneError;
use race_sdk::ace::AssettoCorsaEvo;
use race_sdk::ace::AssettoCorsaEvoError;
use race_sdk::utils::InMemoryOpener;

const PHYSICS_NAME: &str = "Local\\acpmf_physics";
const GRAPHICS_NAME: &str = "Local\\acpmf_graphics";
const STATIC_NAME: &str = "Local\\acpmf_static";

#[test]
fn acc_connects_against_its_region_sizes() {
    let mut opener = InMemoryOpener::new();
    opener.publish(PHYSICS_NAME, vec![0u8; race_sdk::acc::types::PHYSICS_SIZE]);
    opener.publish(GRAPHICS_NAME, vec![0u8; race_sdk::acc::types::GRAPHICS_SIZE]);
    opener.publish(STATIC_NAME, vec![0u8; race_sdk::acc::types::STATIC_INFO_SIZE]);
    let mut reader = AssettoCorsaCompetizione::new(opener);
    assert!(reader.connect().is_ok());
    assert!(reader.is_connected());
    let snap = reader.get_physics().unwrap();
    assert_eq!(snap.packet_id, 0);
}

#[test]
fn acc_missing_region_reports_not_found() {
    let mut reader = AssettoCorsaCompetizione::new(InMemoryOpener::new());
    match reader.connect() {
        Err(AssettoCorsaCompetizioneError::SharedMemoryNotFound(msg)) => {
            assert!(msg.contains(PHYSICS_NAME));
        },
        _ => panic!("expected SharedMemoryNotFound"),
    }
    assert!(!reader.is_connected());
    assert!(reader.get_physics().is_none());
}

#[test]
fn evo_connects_with_classic_page_sizes() {
    let mut opener = InMemoryOpener::new();
    opener.publish(PHYSICS_NAME, vec![0u8; race_sdk::ac::types::PHYSICS_SIZE]);
    opener.publish(GRAPHICS_NAME, vec![0u8; race_sdk::ac::types::GRAPHICS_SIZE]);
    opener.publish(STATIC_NAME, vec![0u8; race_sdk::ac::types::STATIC_INFO_SIZE]);
    let mut reader = AssettoCorsaEvo::new(opener);
    assert!(reader.connect().is_ok());
    assert!(reader.is_connected());
    assert!(reader.get_static_info().is_some());
}

#[test]
fn evo_missing_region_reports_not_found() {
    let mut reader = AssettoCorsaEvo::new(InMemoryOpener::new());
    match reader.connect() {
        Err(AssettoCorsaEvoError::SharedMemoryNotFound(msg)) => {
            assert!(msg.contains(PHYSICS_NAME));
        },
        _ => panic!("expected SharedMemoryNotFound"),
    }
    assert!(!reader.is_connected());
}

#[test]
fn acc_undersized_region_reports_connection_failed() {
    let mut opener = InMemoryOpener::new();
    // the classic page is smaller than what Competizione expects
    opener.publish(PHYSICS_NAME, vec![0u8; race_sdk::ac::types::PHYSICS_SIZE]);
    opener.publish(GRAPHICS_NAME, vec![0u8; race_sdk::acc::types::GRAPHICS_SIZE]);
    opener.publish(STATIC_NAME, vec![0u8; race_sdk::acc::types::STATIC_INFO_SIZE]);
    let mut reader = AssettoCorsaCompetizione::new(opener);
    match reader.connect() {
        Err(AssettoCorsaCompetizioneError::ConnectionFailed(_)) => {},
        _ => panic!("expected ConnectionFailed"),
    }
    assert!(!reader.is_connected());
}
