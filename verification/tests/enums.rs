//! Raw-value mapping of the status, session, flag, penalty, grip and rain
//! categories.

use race_sdk::ac::AcFlagType;
use race_sdk::ac::AcSessionType;
use race_sdk::ac::AcStatus;
use race_sdk::acc::AccPenaltyType;
use race_sdk::acc::AccRainIntensity;
use race_sdk::acc::AccSessionType;
use race_sdk::acc::AccStatus;
use race_sdk::acc::AccTrackGripStatus;

#[test]
fn ac_status_from_raw() {
    assert!(AcStatus::from_raw(0) == Some(AcStatus::Off));
    assert!(AcStatus::from_raw(2) == Some(AcStatus::Live));
    assert!(AcStatus::from_raw(3) == Some(AcStatus::Pause));
    assert!(AcStatus::from_raw(4).is_none());
}

#[test]
fn ac_session_from_raw_covers_unknown() {
    assert!(AcSessionType::from_raw(-1) == Some(AcSessionType::Unknown));
    assert!(AcSessionType::from_raw(2) == Some(AcSessionType::Race));
    assert!(AcSessionType::from_raw(6) == Some(AcSessionType::Drag));
    assert!(AcSessionType::from_raw(7).is_none());
    assert!(AcSessionType::from_raw(-2).is_none());
}

#[test]
fn ac_flag_from_raw() {
    assert!(AcFlagType::from_raw(0) == Some(AcFlagType::NoFlag));
    assert!(AcFlagType::from_raw(5) == Some(AcFlagType::CheckeredFlag));
    assert!(AcFlagType::from_raw(7).is_none());
}

#[test]
fn ac_status_names() {
    assert_eq!(AcStatus::Live.name(), "Live");
    assert_eq!(AcStatus::Off.name(), "Off");
    assert_eq!(AccStatus::Pause.name(), "Pause");
}

#[test]
fn acc_status_and_session_from_raw() {
    assert!(AccStatus::from_raw(1) == Some(AccStatus::Replay));
    assert!(AccSessionType::from_raw(7) == Some(AccSessionType::HotlapSuperpole));
    assert!(AccSessionType::from_raw(8).is_none());
}

#[test]
fn acc_penalty_grip_rain_from_raw() {
    assert!(AccPenaltyType::from_raw(0) == Some(AccPenaltyType::NoPenalty));
    assert!(AccPenaltyType::from_raw(4) == Some(AccPenaltyType::PitLane));
    assert!(AccPenaltyType::from_raw(5).is_none());
    assert!(AccTrackGripStatus::from_raw(5) == Some(AccTrackGripStatus::Flooded));
    assert!(AccTrackGripStatus::from_raw(6).is_none());
    assert!(AccRainIntensity::from_raw(0) == Some(AccRainIntensity::NoRain));
    assert!(AccRainIntensity::from_raw(5) == Some(AccRainIntensity::Thunderstorm));
    assert!(AccRainIntensity::from_raw(6).is_none());
}
