//! Snapshot record schemas for Assetto Corsa Competizione.
//!
//! Each record is a fixed-layout wire format shared with the producer
//! process: field order, widths and array lengths must not change.
//! Floating-point telemetry values are carried as their raw little-endian
//! bit patterns (`u32`); text fields are fixed-width arrays of 16-bit code
//! units, null-terminated or filled to capacity.

use crate::utils::bytes::dwords_at;
use crate::utils::bytes::enc_dwords;
use crate::utils::bytes::enc_i32s;
use crate::utils::bytes::enc_words;
use crate::utils::bytes::i32s_at;
use crate::utils::bytes::le32_at;
use crate::utils::bytes::lemma_enc_dwords_len;
use crate::utils::bytes::lemma_enc_i32s_len;
use crate::utils::bytes::lemma_enc_of_dwords_at;
use crate::utils::bytes::lemma_enc_of_i32s_at;
use crate::utils::bytes::lemma_enc_of_le32;
use crate::utils::bytes::lemma_enc_of_words_at;
use crate::utils::bytes::lemma_enc_words_len;
use crate::utils::bytes::lemma_i32_raw_round_trip;
use crate::utils::bytes::read_dwords_at;
use crate::utils::bytes::read_i32_at;
use crate::utils::bytes::read_i32s_at;
use crate::utils::bytes::read_u32_at;
use crate::utils::bytes::read_words_at;
use crate::utils::bytes::spec_i32_from_raw;
use crate::utils::bytes::spec_i32_to_raw;
use crate::utils::bytes::words_at;
use crate::utils::bytes::write_dwords;
use crate::utils::bytes::write_i32;
use crate::utils::bytes::write_i32s;
use crate::utils::bytes::write_u32;
use crate::utils::bytes::write_words;
use crate::utils::bytes::zero_dwords;
use crate::utils::bytes::zero_i32s;
use crate::utils::bytes::zero_words;
use crate::utils::text::utf16_text;
use crate::utils::text::utf16_lossy;
use vstd::bytes::spec_u32_to_le_bytes;
use vstd::prelude::*;

verus! {

/// Total bytes of one physics record.
pub const PHYSICS_SIZE: usize = 800;

/// Total bytes of one graphics record.
pub const GRAPHICS_SIZE: usize = 1580;

/// Total bytes of one static-info record.
pub const STATIC_INFO_SIZE: usize = 820;

/// The running state of the simulator session.
///
/// Records store this category as its raw wire value; `from_raw` maps a
/// raw value back to the category, or to `None` for a value the producer
/// never documented.
#[derive(Debug, Clone, Copy, PartialEq, Eq, Structural)]
pub enum AccStatus {
    Off,
    Replay,
    Live,
    Pause,
}

impl AccStatus {
    /// The raw value this category is stored as in a record.
    pub open spec fn raw_value(self) -> u32 {
        match self {
            AccStatus::Off => 0,
            AccStatus::Replay => 1,
            AccStatus::Live => 2,
            AccStatus::Pause => 3,
        }
    }

    /// The category stored as raw value `v`, if it is a documented one.
    pub fn from_raw(v: u32) -> (r: Option<AccStatus>)
        ensures
            r matches Some(s) ==> s.raw_value() == v,
            r is Some <==> v <= 3,
    {
        match v {
            0 => Some(AccStatus::Off),
            1 => Some(AccStatus::Replay),
            2 => Some(AccStatus::Live),
            3 => Some(AccStatus::Pause),
            _ => None,
        }
    }

    /// The display name of this state.
    pub fn name(&self) -> (r: String)
        ensures
            r@ == (match *self {
                AccStatus::Off => "Off"@,
                AccStatus::Replay => "Replay"@,
                AccStatus::Live => "Live"@,
                AccStatus::Pause => "Pause"@,
            }),
    {
        match self {
            AccStatus::Off => "Off".to_owned(),
            AccStatus::Replay => "Replay".to_owned(),
            AccStatus::Live => "Live".to_owned(),
            AccStatus::Pause => "Pause".to_owned(),
        }
    }
}

/// The kind of session being driven.
///
/// Records store this category as its raw wire value; `from_raw` maps a
/// raw value back to the category, or to `None` for a value the producer
/// never documented.
#[derive(Debug, Clone, Copy, PartialEq, Eq, Structural)]
pub enum AccSessionType {
    Unknown,
    Practice,
    Qualify,
    Race,
    Hotlap,
    TimeAttack,
    Superpole,
    Hotstint,
    HotlapSuperpole,
}

impl AccSessionType {
    /// The raw value this category is stored as in a record.
    pub open spec fn raw_value(self) -> i32 {
        match self {
            AccSessionType::Unknown => -1i32,
            AccSessionType::Practice => 0i32,
            AccSessionType::Qualify => 1i32,
            AccSessionType::Race => 2i32,
            AccSessionType::Hotlap => 3i32,
            AccSessionType::TimeAttack => 4i32,
            AccSessionType::Superpole => 5i32,
            AccSessionType::Hotstint => 6i32,
            AccSessionType::HotlapSuperpole => 7i32,
        }
    }

    /// The category stored as raw value `v`, if it is a documented one.
    pub fn from_raw(v: i32) -> (r: Option<AccSessionType>)
        ensures
            r matches Some(s) ==> s.raw_value() == v,
            r is Some <==> -1 <= v <= 7,
    {
        match v {
            -1 => Some(AccSessionType::Unknown),
            0 => Some(AccSessionType::Practice),
            1 => Some(AccSessionType::Qualify),
            2 => Some(AccSessionType::Race),
            3 => Some(AccSessionType::Hotlap),
            4 => Some(AccSessionType::TimeAttack),
            5 => Some(AccSessionType::Superpole),
            6 => Some(AccSessionType::Hotstint),
            7 => Some(AccSessionType::HotlapSuperpole),
            _ => None,
        }
    }
}

/// The marshalling flag currently shown to the player.
///
/// Records store this category as its raw wire value; `from_raw` maps a
/// raw value back to the category, or to `None` for a value the producer
/// never documented.
#[derive(Debug, Clone, Copy, PartialEq, Eq, Structural)]
pub enum AccFlagType {
    NoFlag,
    BlueFlag,
    YellowFlag,
    BlackFlag,
    WhiteFlag,
    CheckeredFlag,
    PenaltyFlag,
    GreenFlag,
}

impl AccFlagType {
    /// The raw value this category is stored as in a record.
    pub open spec fn raw_value(self) -> u32 {
        match self {
            AccFlagType::NoFlag => 0,
            AccFlagType::BlueFlag => 1,
            AccFlagType::YellowFlag => 2,
            AccFlagType::BlackFlag => 3,
            AccFlagType::WhiteFlag => 4,
            AccFlagType::CheckeredFlag => 5,
            AccFlagType::PenaltyFlag => 6,
            AccFlagType::GreenFlag => 7,
        }
    }

    /// The category stored as raw value `v`, if it is a documented one.
    pub fn from_raw(v: u32) -> (r: Option<AccFlagType>)
        ensures
            r matches Some(s) ==> s.raw_value() == v,
            r is Some <==> v <= 7,
    {
        match v {
            0 => Some(AccFlagType::NoFlag),
            1 => Some(AccFlagType::BlueFlag),
            2 => Some(AccFlagType::YellowFlag),
            3 => Some(AccFlagType::BlackFlag),
            4 => Some(AccFlagType::WhiteFlag),
            5 => Some(AccFlagType::CheckeredFlag),
            6 => Some(AccFlagType::PenaltyFlag),
            7 => Some(AccFlagType::GreenFlag),
            _ => None,
        }
    }
}

/// The penalty currently applied to the player.
///
/// Records store this category as its raw wire value; `from_raw` maps a
/// raw value back to the category, or to `None` for a value the producer
/// never documented.
#[derive(Debug, Clone, Copy, PartialEq, Eq, Structural)]
pub enum AccPenaltyType {
    NoPenalty,
    DriveThrough,
    StopAndGo,
    TimePenalty,
    PitLane,
}

impl AccPenaltyType {
    /// The raw value this category is stored as in a record.
    pub open spec fn raw_value(self) -> u32 {
        match self {
            AccPenaltyType::NoPenalty => 0,
            AccPenaltyType::DriveThrough => 1,
            AccPenaltyType::StopAndGo => 2,
            AccPenaltyType::TimePenalty => 3,
            AccPenaltyType::PitLane => 4,
        }
    }

    /// The category stored as raw value `v`, if it is a documented one.
    pub fn from_raw(v: u32) -> (r: Option<AccPenaltyType>)
        ensures
            r matches Some(s) ==> s.raw_value() == v,
            r is Some <==> v <= 4,
    {
        match v {
            0 => Some(AccPenaltyType::NoPenalty),
            1 => Some(AccPenaltyType::DriveThrough),
            2 => Some(AccPenaltyType::StopAndGo),
            3 => Some(AccPenaltyType::TimePenalty),
            4 => Some(AccPenaltyType::PitLane),
            _ => None,
        }
    }
}

/// The grip level of the track surface.
///
/// Records store this category as its raw wire value; `from_raw` maps a
/// raw value back to the category, or to `None` for a value the producer
/// never documented.
#[derive(Debug, Clone, Copy, PartialEq, Eq, Structural)]
pub enum AccTrackGripStatus {
    Green,
    Fast,
    Optimum,
    Greasy,
    Wet,
    Flooded,
}

impl AccTrackGripStatus {
    /// The raw value this category is stored as in a record.
    pub open spec fn raw_value(self) -> u32 {
        match self {
            AccTrackGripStatus::Green => 0,
            AccTrackGripStatus::Fast => 1,
            AccTrackGripStatus::Optimum => 2,
            AccTrackGripStatus::Greasy => 3,
            AccTrackGripStatus::Wet => 4,
            AccTrackGripStatus::Flooded => 5,
        }
    }

    /// The category stored as raw value `v`, if it is a documented one.
    pub fn from_raw(v: u32) -> (r: Option<AccTrackGripStatus>)
        ensures
            r matches Some(s) ==> s.raw_value() == v,
            r is Some <==> v <= 5,
    {
        match v {
            0 => Some(AccTrackGripStatus::Green),
            1 => Some(AccTrackGripStatus::Fast),
            2 => Some(AccTrackGripStatus::Optimum),
            3 => Some(AccTrackGripStatus::Greasy),
            4 => Some(AccTrackGripStatus::Wet),
            5 => Some(AccTrackGripStatus::Flooded),
            _ => None,
        }
    }
}

/// How hard it is raining.
///
/// Records store this category as its raw wire value; `from_raw` maps a
/// raw value back to the category, or to `None` for a value the producer
/// never documented.
#[derive(Debug, Clone, Copy, PartialEq, Eq, Structural)]
pub enum AccRainIntensity {
    NoRain,
    Drizzle,
    LightRain,
    MediumRain,
    HeavyRain,
    Thunderstorm,
}

impl AccRainIntensity {
    /// The raw value this category is stored as in a record.
    pub open spec fn raw_value(self) -> u32 {
        match self {
            AccRainIntensity::NoRain => 0,
            AccRainIntensity::Drizzle => 1,
            AccRainIntensity::LightRain => 2,
            AccRainIntensity::MediumRain => 3,
            AccRainIntensity::HeavyRain => 4,
            AccRainIntensity::Thunderstorm => 5,
        }
    }

    /// The category stored as raw value `v`, if it is a documented one.
    pub fn from_raw(v: u32) -> (r: Option<AccRainIntensity>)
        ensures
            r matches Some(s) ==> s.raw_value() == v,
            r is Some <==> v <= 5,
    {
        match v {
            0 => Some(AccRainIntensity::NoRain),
            1 => Some(AccRainIntensity::Drizzle),
            2 => Some(AccRainIntensity::LightRain),
            3 => Some(AccRainIntensity::MediumRain),
            4 => Some(AccRainIntensity::HeavyRain),
            5 => Some(AccRainIntensity::Thunderstorm),
            _ => None,
        }
    }
}

/// A three-component vector as the producer lays it out: the raw bit
/// patterns of three 32-bit floating-point values.
#[derive(Debug, Clone, Copy, PartialEq, Eq, Structural)]
pub struct Coordinates {
    pub x: u32,
    pub y: u32,
    pub z: u32,
}

/// The `n` coordinate triples stored consecutively at byte offset `i`.
pub open spec fn coords_at(b: Seq<u8>, i: int, n: nat) -> Seq<Coordinates> {
    Seq::new(
        n,
        |k: int|
            Coordinates {
                x: le32_at(b, i + 12 * k),
                y: le32_at(b, i + 12 * k + 4),
                z: le32_at(b, i + 12 * k + 8),
            },
    )
}

/// The little-endian encoding of a sequence of coordinate triples.
pub open spec fn enc_coords(s: Seq<Coordinates>) -> Seq<u8>
    decreases s.len(),
{
    if s.len() == 0 {
        Seq::empty()
    } else {
        spec_u32_to_le_bytes(s[0].x) + spec_u32_to_le_bytes(s[0].y) + spec_u32_to_le_bytes(s[0].z)
            + enc_coords(s.drop_first())
    }
}

/// Reads `n` consecutive coordinate triples starting at byte offset `i`.
pub fn read_coords_at(b: &[u8], i: usize, n: usize) -> (r: Vec<Coordinates>)
    requires
        i + 12 * n <= b@.len(),
    ensures
        r@ == coords_at(b@, i as int, n as nat),
{
    let _len = b.len();
    let mut out: Vec<Coordinates> = Vec::new();
    let mut k: usize = 0;
    while k < n
        invariant
            k <= n,
            i + 12 * n <= b@.len(),
            b@.len() <= usize::MAX,
            out@ == coords_at(b@, i as int, k as nat),
        decreases n - k,
    {
        let c = Coordinates {
            x: read_u32_at(b, i + 12 * k),
            y: read_u32_at(b, i + 12 * k + 4),
            z: read_u32_at(b, i + 12 * k + 8),
        };
        out.push(c);
        k = k + 1;
        assert(out@ =~= coords_at(b@, i as int, k as nat));
    }
    out
}

/// Appends the little-endian encoding of every triple in `s` to `out`.
pub fn write_coords(out: &mut Vec<u8>, s: &Vec<Coordinates>)
    ensures
        final(out)@ == old(out)@ + enc_coords(s@),
{
    let mut k: usize = 0;
    while k < s.len()
        invariant
            k <= s@.len(),
            out@ == old(out)@ + enc_coords(s@.take(k as int)),
        decreases s@.len() - k,
    {
        let c = s[k];
        write_u32(out, c.x);
        write_u32(out, c.y);
        write_u32(out, c.z);
        k = k + 1;
        proof {
            lemma_enc_coords_step(s@, k as int);
        }
    }
    assert(s@.take(s@.len() as int) =~= s@);
}

/// A vector of `n` zero coordinate triples.
pub fn zero_coords(n: usize) -> (r: Vec<Coordinates>)
    ensures
        r@ == Seq::new(n as nat, |k: int| Coordinates { x: 0u32, y: 0u32, z: 0u32 }),
{
    let mut out: Vec<Coordinates> = Vec::new();
    let mut k: usize = 0;
    while k < n
        invariant
            k <= n,
            out@ == Seq::new(k as nat, |j: int| Coordinates { x: 0u32, y: 0u32, z: 0u32 }),
        decreases n - k,
    {
        out.push(Coordinates { x: 0, y: 0, z: 0 });
        k = k + 1;
        assert(out@ =~= Seq::new(k as nat, |j: int| Coordinates { x: 0u32, y: 0u32, z: 0u32 }));
    }
    out
}

proof fn lemma_enc_coords_step(s: Seq<Coordinates>, k: int)
    requires
        0 < k <= s.len(),
    ensures
        enc_coords(s.take(k)) == enc_coords(s.take(k - 1)) + spec_u32_to_le_bytes(s[k - 1].x)
            + spec_u32_to_le_bytes(s[k - 1].y) + spec_u32_to_le_bytes(s[k - 1].z),
    decreases k,
{
    let t = s.take(k);
    if k == 1 {
        assert(t.drop_first() =~= Seq::<Coordinates>::empty());
        assert(enc_coords(t) == spec_u32_to_le_bytes(s[0].x) + spec_u32_to_le_bytes(s[0].y)
            + spec_u32_to_le_bytes(s[0].z) + enc_coords(t.drop_first()));
        assert(enc_coords(s.take(0)) =~~= Seq::<u8>::empty());
        assert(enc_coords(s.take(0)) + spec_u32_to_le_bytes(s[0].x) + spec_u32_to_le_bytes(s[0].y)
            + spec_u32_to_le_bytes(s[0].z) =~= spec_u32_to_le_bytes(s[0].x) + spec_u32_to_le_bytes(
            s[0].y,
        ) + spec_u32_to_le_bytes(s[0].z) + enc_coords(t.drop_first()));
    } else {
        lemma_enc_coords_step(s.drop_first(), k - 1);
        assert(t.drop_first() =~= s.drop_first().take(k - 1));
        assert(s.take(k - 1).drop_first() =~= s.drop_first().take(k - 2));
        assert(s.drop_first()[k - 2] == s[k - 1]);
        assert(enc_coords(s.take(k - 1)) + spec_u32_to_le_bytes(s[k - 1].x) + spec_u32_to_le_bytes(
            s[k - 1].y,
        ) + spec_u32_to_le_bytes(s[k - 1].z) =~= spec_u32_to_le_bytes(s[0].x)
            + spec_u32_to_le_bytes(s[0].y) + spec_u32_to_le_bytes(s[0].z) + (enc_coords(
            s.drop_first().take(k - 2),
        ) + spec_u32_to_le_bytes(s[k - 1].x) + spec_u32_to_le_bytes(s[k - 1].y)
            + spec_u32_to_le_bytes(s[k - 1].z)));
    }
}

/// The encoding of `n` coordinate triples is `12 * n` bytes long.
pub proof fn lemma_enc_coords_len(s: Seq<Coordinates>)
    ensures
        enc_coords(s).len() == 12 * s.len(),
    decreases s.len(),
{
    if s.len() > 0 {
        lemma_enc_coords_len(s.drop_first());
        vstd::bytes::lemma_auto_spec_u32_to_from_le_bytes();
    }
}

/// Encoding the `n` coordinate triples read at offset `i` reproduces the
/// `12 * n` bytes at offset `i`.
pub proof fn lemma_enc_of_coords_at(b: Seq<u8>, i: int, n: nat)
    requires
        0 <= i,
        i + 12 * n <= b.len(),
    ensures
        enc_coords(coords_at(b, i, n)) == b.subrange(i, i + 12 * n),
    decreases n,
{
    if n == 0 {
        assert(enc_coords(coords_at(b, i, n)) =~= b.subrange(i, i));
    } else {
        lemma_enc_of_coords_at(b, i + 12, (n - 1) as nat);
        lemma_enc_of_le32(b, i);
        lemma_enc_of_le32(b, i + 4);
        lemma_enc_of_le32(b, i + 8);
        let s = coords_at(b, i, n);
        assert(s.drop_first() =~= coords_at(b, i + 12, (n - 1) as nat));
        assert(b.subrange(i, i + 4) + b.subrange(i + 4, i + 8) =~= b.subrange(i, i + 8));
        assert(b.subrange(i, i + 8) + b.subrange(i + 8, i + 12) =~= b.subrange(i, i + 12));
        assert(b.subrange(i, i + 12) + b.subrange(i + 12, i + 12 * n) =~= b.subrange(
            i,
            i + 12 * n,
        ));
    }
}


/// One physics snapshot: car dynamics sampled at the producer's physics rate.
///
/// The field order, widths and offsets mirror the producer's in-memory
/// struct byte for byte; `matches_bytes` is that layout, stated once.
#[derive(Debug, Clone, PartialEq)]
pub struct Physics {
    pub packet_id: i32,
    pub gas: u32,
    pub brake: u32,
    pub fuel: u32,
    pub gear: i32,
    pub rpms: i32,
    pub steer_angle: u32,
    pub speed_kmh: u32,
    pub velocity: Vec<u32>,
    pub acc_g: Vec<u32>,
    pub wheel_slip: Vec<u32>,
    pub wheel_load: Vec<u32>,
    pub wheels_pressure: Vec<u32>,
    pub wheel_angular_speed: Vec<u32>,
    pub tyre_wear: Vec<u32>,
    pub tyre_dirty_level: Vec<u32>,
    pub tyre_core_temperature: Vec<u32>,
    pub camber_rad: Vec<u32>,
    pub suspension_travel: Vec<u32>,
    pub drs: u32,
    pub tc: u32,
    pub heading: u32,
    pub pitch: u32,
    pub roll: u32,
    pub cg_height: u32,
    pub car_damage: Vec<u32>,
    pub number_of_tyres_out: i32,
    pub pit_limiter_on: i32,
    pub abs: u32,
    pub kers_charge: u32,
    pub kers_input: u32,
    pub auto_shifter_on: i32,
    pub ride_height: Vec<u32>,
    pub turbo_boost: u32,
    pub ballast: u32,
    pub air_density: u32,
    pub air_temp: u32,
    pub road_temp: u32,
    pub local_angular_velocity: Vec<u32>,
    pub final_ff: u32,
    pub performance_meter: u32,
    pub engine_brake: i32,
    pub ers_recovery_level: i32,
    pub ers_power_level: i32,
    pub ers_heat_charging: i32,
    pub ers_is_charging: i32,
    pub kers_current_kj: u32,
    pub drs_available: i32,
    pub drs_enabled: i32,
    pub brake_temp: Vec<u32>,
    pub clutch: u32,
    pub tyre_temp_i: Vec<u32>,
    pub tyre_temp_m: Vec<u32>,
    pub tyre_temp_o: Vec<u32>,
    pub is_ai_controlled: i32,
    pub tyre_contact_point: Vec<Coordinates>,
    pub tyre_contact_normal: Vec<Coordinates>,
    pub tyre_contact_heading: Vec<Coordinates>,
    pub brake_bias: u32,
    pub local_velocity: Vec<u32>,
    pub p2p_activation: i32,
    pub p2p_status: i32,
    pub current_max_rpm: u32,
    pub mz: Vec<u32>,
    pub fx: Vec<u32>,
    pub fy: Vec<u32>,
    pub slip_ratio: Vec<u32>,
    pub slip_angle: Vec<u32>,
    pub tc_in_action: i32,
    pub abs_in_action: i32,
    pub suspension_damage: Vec<u32>,
    pub tyre_temp: Vec<u32>,
    pub water_temp: u32,
    pub brake_pressure: Vec<u32>,
    pub front_brake_compound: i32,
    pub rear_brake_compound: i32,
    pub pad_life: Vec<u32>,
    pub disc_life: Vec<u32>,
    pub ignition_on: i32,
    pub starter_engine_on: i32,
    pub is_engine_running: i32,
    pub kerb_vibration: u32,
    pub slip_vibrations: u32,
    pub g_vibrations: u32,
    pub abs_vibrations: u32,
}

impl Physics {
    /// Every array-valued field has its fixed layout width.
    pub open spec fn wf(self) -> bool {
        &&& self.velocity@.len() == 3
        &&& self.acc_g@.len() == 3
        &&& self.wheel_slip@.len() == 4
        &&& self.wheel_load@.len() == 4
        &&& self.wheels_pressure@.len() == 4
        &&& self.wheel_angular_speed@.len() == 4
        &&& self.tyre_wear@.len() == 4
        &&& self.tyre_dirty_level@.len() == 4
        &&& self.tyre_core_temperature@.len() == 4
        &&& self.camber_rad@.len() == 4
        &&& self.suspension_travel@.len() == 4
        &&& self.car_damage@.len() == 5
        &&& self.ride_height@.len() == 2
        &&& self.local_angular_velocity@.len() == 3
        &&& self.brake_temp@.len() == 4
        &&& self.tyre_temp_i@.len() == 4
        &&& self.tyre_temp_m@.len() == 4
        &&& self.tyre_temp_o@.len() == 4
        &&& self.tyre_contact_point@.len() == 4
        &&& self.tyre_contact_normal@.len() == 4
        &&& self.tyre_contact_heading@.len() == 4
        &&& self.local_velocity@.len() == 3
        &&& self.mz@.len() == 4
        &&& self.fx@.len() == 4
        &&& self.fy@.len() == 4
        &&& self.slip_ratio@.len() == 4
        &&& self.slip_angle@.len() == 4
        &&& self.suspension_damage@.len() == 4
        &&& self.tyre_temp@.len() == 4
        &&& self.brake_pressure@.len() == 4
        &&& self.pad_life@.len() == 4
        &&& self.disc_life@.len() == 4
    }

    /// The layout contract: how each field is stored in the record's bytes.
    pub open spec fn matches_bytes(self, b: Seq<u8>) -> bool {
        &&& self.packet_id == spec_i32_from_raw(le32_at(b, 0))
        &&& self.gas == le32_at(b, 4)
        &&& self.brake == le32_at(b, 8)
        &&& self.fuel == le32_at(b, 12)
        &&& self.gear == spec_i32_from_raw(le32_at(b, 16))
        &&& self.rpms == spec_i32_from_raw(le32_at(b, 20))
        &&& self.steer_angle == le32_at(b, 24)
        &&& self.speed_kmh == le32_at(b, 28)
        &&& self.velocity@ == dwords_at(b, 32, 3)
        &&& self.acc_g@ == dwords_at(b, 44, 3)
        &&& self.wheel_slip@ == dwords_at(b, 56, 4)
        &&& self.wheel_load@ == dwords_at(b, 72, 4)
        &&& self.wheels_pressure@ == dwords_at(b, 88, 4)
        &&& self.wheel_angular_speed@ == dwords_at(b, 104, 4)
        &&& self.tyre_wear@ == dwords_at(b, 120, 4)
        &&& self.tyre_dirty_level@ == dwords_at(b, 136, 4)
        &&& self.tyre_core_temperature@ == dwords_at(b, 152, 4)
        &&& self.camber_rad@ == dwords_at(b, 168, 4)
        &&& self.suspension_travel@ == dwords_at(b, 184, 4)
        &&& self.drs == le32_at(b, 200)
        &&& self.tc == le32_at(b, 204)
        &&& self.heading == le32_at(b, 208)
        &&& self.pitch == le32_at(b, 212)
        &&& self.roll == le32_at(b, 216)
        &&& self.cg_height == le32_at(b, 220)
        &&& self.car_damage@ == dwords_at(b, 224, 5)
        &&& self.number_of_tyres_out == spec_i32_from_raw(le32_at(b, 244))
        &&& self.pit_limiter_on == spec_i32_from_raw(le32_at(b, 248))
        &&& self.abs == le32_at(b, 252)
        &&& self.kers_charge == le32_at(b, 256)
        &&& self.kers_input == le32_at(b, 260)
        &&& self.auto_shifter_on == spec_i32_from_raw(le32_at(b, 264))
        &&& self.ride_height@ == dwords_at(b, 268, 2)
        &&& self.turbo_boost == le32_at(b, 276)
        &&& self.ballast == le32_at(b, 280)
        &&& self.air_density == le32_at(b, 284)
        &&& self.air_temp == le32_at(b, 288)
        &&& self.road_temp == le32_at(b, 292)
        &&& self.local_angular_velocity@ == dwords_at(b, 296, 3)
        &&& self.final_ff == le32_at(b, 308)
        &&& self.performance_meter == le32_at(b, 312)
        &&& self.engine_brake == spec_i32_from_raw(le32_at(b, 316))
        &&& self.ers_recovery_level == spec_i32_from_raw(le32_at(b, 320))
        &&& self.ers_power_level == spec_i32_from_raw(le32_at(b, 324))
        &&& self.ers_heat_charging == spec_i32_from_raw(le32_at(b, 328))
        &&& self.ers_is_charging == spec_i32_from_raw(le32_at(b, 332))
        &&& self.kers_current_kj == le32_at(b, 336)
        &&& self.drs_available == spec_i32_from_raw(le32_at(b, 340))
        &&& self.drs_enabled == spec_i32_from_raw(le32_at(b, 344))
        &&& self.brake_temp@ == dwords_at(b, 348, 4)
        &&& self.clutch == le32_at(b, 364)
        &&& self.tyre_temp_i@ == dwords_at(b, 368, 4)
        &&& self.tyre_temp_m@ == dwords_at(b, 384, 4)
        &&& self.tyre_temp_o@ == dwords_at(b, 400, 4)
        &&& self.is_ai_controlled == spec_i32_from_raw(le32_at(b, 416))
        &&& self.tyre_contact_point@ == coords_at(b, 420, 4)
        &&& self.tyre_contact_normal@ == coords_at(b, 468, 4)
        &&& self.tyre_contact_heading@ == coords_at(b, 516, 4)
        &&& self.brake_bias == le32_at(b, 564)
        &&& self.local_velocity@ == dwords_at(b, 568, 3)
        &&& self.p2p_activation == spec_i32_from_raw(le32_at(b, 580))
        &&& self.p2p_status == spec_i32_from_raw(le32_at(b, 584))
        &&& self.current_max_rpm == le32_at(b, 588)
        &&& self.mz@ == dwords_at(b, 592, 4)
        &&& self.fx@ == dwords_at(b, 608, 4)
        &&& self.fy@ == dwords_at(b, 624, 4)
        &&& self.slip_ratio@ == dwords_at(b, 640, 4)
        &&& self.slip_angle@ == dwords_at(b, 656, 4)
        &&& self.tc_in_action == spec_i32_from_raw(le32_at(b, 672))
        &&& self.abs_in_action == spec_i32_from_raw(le32_at(b, 676))
        &&& self.suspension_damage@ == dwords_at(b, 680, 4)
        &&& self.tyre_temp@ == dwords_at(b, 696, 4)
        &&& self.water_temp == le32_at(b, 712)
        &&& self.brake_pressure@ == dwords_at(b, 716, 4)
        &&& self.front_brake_compound == spec_i32_from_raw(le32_at(b, 732))
        &&& self.rear_brake_compound == spec_i32_from_raw(le32_at(b, 736))
        &&& self.pad_life@ == dwords_at(b, 740, 4)
        &&& self.disc_life@ == dwords_at(b, 756, 4)
        &&& self.ignition_on == spec_i32_from_raw(le32_at(b, 772))
        &&& self.starter_engine_on == spec_i32_from_raw(le32_at(b, 776))
        &&& self.is_engine_running == spec_i32_from_raw(le32_at(b, 780))
        &&& self.kerb_vibration == le32_at(b, 784)
        &&& self.slip_vibrations == le32_at(b, 788)
        &&& self.g_vibrations == le32_at(b, 792)
        &&& self.abs_vibrations == le32_at(b, 796)
    }

    /// The canonical encoding of this record, padding included.
    pub open spec fn spec_encode(self) -> Seq<u8> {
        spec_u32_to_le_bytes(spec_i32_to_raw(self.packet_id)) + spec_u32_to_le_bytes(self.gas) + spec_u32_to_le_bytes(self.brake) + spec_u32_to_le_bytes(self.fuel) + spec_u32_to_le_bytes(spec_i32_to_raw(self.gear)) + spec_u32_to_le_bytes(spec_i32_to_raw(self.rpms)) + spec_u32_to_le_bytes(self.steer_angle) + spec_u32_to_le_bytes(self.speed_kmh) + enc_dwords(self.velocity@) + enc_dwords(self.acc_g@) + enc_dwords(self.wheel_slip@) + enc_dwords(self.wheel_load@) + enc_dwords(self.wheels_pressure@) + enc_dwords(self.wheel_angular_speed@) + enc_dwords(self.tyre_wear@) + enc_dwords(self.tyre_dirty_level@) + enc_dwords(self.tyre_core_temperature@) + enc_dwords(self.camber_rad@) + enc_dwords(self.suspension_travel@) + spec_u32_to_le_bytes(self.drs) + spec_u32_to_le_bytes(self.tc) + spec_u32_to_le_bytes(self.heading) + spec_u32_to_le_bytes(self.pitch) + spec_u32_to_le_bytes(self.roll) + spec_u32_to_le_bytes(self.cg_height) + enc_dwords(self.car_damage@) + spec_u32_to_le_bytes(spec_i32_to_raw(self.number_of_tyres_out)) + spec_u32_to_le_bytes(spec_i32_to_raw(self.pit_limiter_on)) + spec_u32_to_le_bytes(self.abs) + spec_u32_to_le_bytes(self.kers_charge) + spec_u32_to_le_bytes(self.kers_input) + spec_u32_to_le_bytes(spec_i32_to_raw(self.auto_shifter_on)) + enc_dwords(self.ride_height@) + spec_u32_to_le_bytes(self.turbo_boost) + spec_u32_to_le_bytes(self.ballast) + spec_u32_to_le_bytes(self.air_density) + spec_u32_to_le_bytes(self.air_temp) + spec_u32_to_le_bytes(self.road_temp) + enc_dwords(self.local_angular_velocity@) + spec_u32_to_le_bytes(self.final_ff) + spec_u32_to_le_bytes(self.performance_meter) + spec_u32_to_le_bytes(spec_i32_to_raw(self.engine_brake)) + spec_u32_to_le_bytes(spec_i32_to_raw(self.ers_recovery_level)) + spec_u32_to_le_bytes(spec_i32_to_raw(self.ers_power_level)) + spec_u32_to_le_bytes(spec_i32_to_raw(self.ers_heat_charging)) + spec_u32_to_le_bytes(spec_i32_to_raw(self.ers_is_charging)) + spec_u32_to_le_bytes(self.kers_current_kj) + spec_u32_to_le_bytes(spec_i32_to_raw(self.drs_available)) + spec_u32_to_le_bytes(spec_i32_to_raw(self.drs_enabled)) + enc_dwords(self.brake_temp@) + spec_u32_to_le_bytes(self.clutch) + enc_dwords(self.tyre_temp_i@) + enc_dwords(self.tyre_temp_m@) + enc_dwords(self.tyre_temp_o@) + spec_u32_to_le_bytes(spec_i32_to_raw(self.is_ai_controlled)) + enc_coords(self.tyre_contact_point@) + enc_coords(self.tyre_contact_normal@) + enc_coords(self.tyre_contact_heading@) + spec_u32_to_le_bytes(self.brake_bias) + enc_dwords(self.local_velocity@) + spec_u32_to_le_bytes(spec_i32_to_raw(self.p2p_activation)) + spec_u32_to_le_bytes(spec_i32_to_raw(self.p2p_status)) + spec_u32_to_le_bytes(self.current_max_rpm) + enc_dwords(self.mz@) + enc_dwords(self.fx@) + enc_dwords(self.fy@) + enc_dwords(self.slip_ratio@) + enc_dwords(self.slip_angle@) + spec_u32_to_le_bytes(spec_i32_to_raw(self.tc_in_action)) + spec_u32_to_le_bytes(spec_i32_to_raw(self.abs_in_action)) + enc_dwords(self.suspension_damage@) + enc_dwords(self.tyre_temp@) + spec_u32_to_le_bytes(self.water_temp) + enc_dwords(self.brake_pressure@) + spec_u32_to_le_bytes(spec_i32_to_raw(self.front_brake_compound)) + spec_u32_to_le_bytes(spec_i32_to_raw(self.rear_brake_compound)) + enc_dwords(self.pad_life@) + enc_dwords(self.disc_life@) + spec_u32_to_le_bytes(spec_i32_to_raw(self.ignition_on)) + spec_u32_to_le_bytes(spec_i32_to_raw(self.starter_engine_on)) + spec_u32_to_le_bytes(spec_i32_to_raw(self.is_engine_running)) + spec_u32_to_le_bytes(self.kerb_vibration) + spec_u32_to_le_bytes(self.slip_vibrations) + spec_u32_to_le_bytes(self.g_vibrations) + spec_u32_to_le_bytes(self.abs_vibrations)
    }

    /// Decodes the leading `PHYSICS_SIZE` bytes of a region into a snapshot.
    #[verifier::spinoff_prover]
    #[verifier::rlimit(100)]
    pub fn decode(bytes: &[u8]) -> (r: Self)
        requires
            bytes@.len() >= PHYSICS_SIZE,
        ensures
            r.wf(),
            r.matches_bytes(bytes@),
    {
        Physics {
            packet_id: read_i32_at(bytes, 0),
            gas: read_u32_at(bytes, 4),
            brake: read_u32_at(bytes, 8),
            fuel: read_u32_at(bytes, 12),
            gear: read_i32_at(bytes, 16),
            rpms: read_i32_at(bytes, 20),
            steer_angle: read_u32_at(bytes, 24),
            speed_kmh: read_u32_at(bytes, 28),
            velocity: read_dwords_at(bytes, 32, 3),
            acc_g: read_dwords_at(bytes, 44, 3),
            wheel_slip: read_dwords_at(bytes, 56, 4),
            wheel_load: read_dwords_at(bytes, 72, 4),
            wheels_pressure: read_dwords_at(bytes, 88, 4),
            wheel_angular_speed: read_dwords_at(bytes, 104, 4),
            tyre_wear: read_dwords_at(bytes, 120, 4),
            tyre_dirty_level: read_dwords_at(bytes, 136, 4),
            tyre_core_temperature: read_dwords_at(bytes, 152, 4),
            camber_rad: read_dwords_at(bytes, 168, 4),
            suspension_travel: read_dwords_at(bytes, 184, 4),
            drs: read_u32_at(bytes, 200),
            tc: read_u32_at(bytes, 204),
            heading: read_u32_at(bytes, 208),
            pitch: read_u32_at(bytes, 212),
            roll: read_u32_at(bytes, 216),
            cg_height: read_u32_at(bytes, 220),
            car_damage: read_dwords_at(bytes, 224, 5),
            number_of_tyres_out: read_i32_at(bytes, 244),
            pit_limiter_on: read_i32_at(bytes, 248),
            abs: read_u32_at(bytes, 252),
            kers_charge: read_u32_at(bytes, 256),
            kers_input: read_u32_at(bytes, 260),
            auto_shifter_on: read_i32_at(bytes, 264),
            ride_height: read_dwords_at(bytes, 268, 2),
            turbo_boost: read_u32_at(bytes, 276),
            ballast: read_u32_at(bytes, 280),
            air_density: read_u32_at(bytes, 284),
            air_temp: read_u32_at(bytes, 288),
            road_temp: read_u32_at(bytes, 292),
            local_angular_velocity: read_dwords_at(bytes, 296, 3),
            final_ff: read_u32_at(bytes, 308),
            performance_meter: read_u32_at(bytes, 312),
            engine_brake: read_i32_at(bytes, 316),
            ers_recovery_level: read_i32_at(bytes, 320),
            ers_power_level: read_i32_at(bytes, 324),
            ers_heat_charging: read_i32_at(bytes, 328),
            ers_is_charging: read_i32_at(bytes, 332),
            kers_current_kj: read_u32_at(bytes, 336),
            drs_available: read_i32_at(bytes, 340),
            drs_enabled: read_i32_at(bytes, 344),
            brake_temp: read_dwords_at(bytes, 348, 4),
            clutch: read_u32_at(bytes, 364),
            tyre_temp_i: read_dwords_at(bytes, 368, 4),
            tyre_temp_m: read_dwords_at(bytes, 384, 4),
            tyre_temp_o: read_dwords_at(bytes, 400, 4),
            is_ai_controlled: read_i32_at(bytes, 416),
            tyre_contact_point: read_coords_at(bytes, 420, 4),
            tyre_contact_normal: read_coords_at(bytes, 468, 4),
            tyre_contact_heading: read_coords_at(bytes, 516, 4),
            brake_bias: read_u32_at(bytes, 564),
            local_velocity: read_dwords_at(bytes, 568, 3),
            p2p_activation: read_i32_at(bytes, 580),
            p2p_status: read_i32_at(bytes, 584),
            current_max_rpm: read_u32_at(bytes, 588),
            mz: read_dwords_at(bytes, 592, 4),
            fx: read_dwords_at(bytes, 608, 4),
            fy: read_dwords_at(bytes, 624, 4),
            slip_ratio: read_dwords_at(bytes, 640, 4),
            slip_angle: read_dwords_at(bytes, 656, 4),
            tc_in_action: read_i32_at(bytes, 672),
            abs_in_action: read_i32_at(bytes, 676),
            suspension_damage: read_dwords_at(bytes, 680, 4),
            tyre_temp: read_dwords_at(bytes, 696, 4),
            water_temp: read_u32_at(bytes, 712),
            brake_pressure: read_dwords_at(bytes, 716, 4),
            front_brake_compound: read_i32_at(bytes, 732),
            rear_brake_compound: read_i32_at(bytes, 736),
            pad_life: read_dwords_at(bytes, 740, 4),
            disc_life: read_dwords_at(bytes, 756, 4),
            ignition_on: read_i32_at(bytes, 772),
            starter_engine_on: read_i32_at(bytes, 776),
            is_engine_running: read_i32_at(bytes, 780),
            kerb_vibration: read_u32_at(bytes, 784),
            slip_vibrations: read_u32_at(bytes, 788),
            g_vibrations: read_u32_at(bytes, 792),
            abs_vibrations: read_u32_at(bytes, 796),
        }
    }

    /// Encodes the snapshot back into its wire layout, padding zeroed.
    #[verifier::spinoff_prover]
    #[verifier::rlimit(100)]
    pub fn encode(&self) -> (out: Vec<u8>)
        ensures
            out@ == self.spec_encode(),
            self.wf() ==> out@.len() == PHYSICS_SIZE,
    {
        let mut out: Vec<u8> = Vec::new();
        write_i32(&mut out, self.packet_id);
        assert(out@ =~= spec_u32_to_le_bytes(spec_i32_to_raw(self.packet_id)));
        write_u32(&mut out, self.gas);
        write_u32(&mut out, self.brake);
        write_u32(&mut out, self.fuel);
        write_i32(&mut out, self.gear);
        write_i32(&mut out, self.rpms);
        write_u32(&mut out, self.steer_angle);
        write_u32(&mut out, self.speed_kmh);
        write_dwords(&mut out, &self.velocity);
        write_dwords(&mut out, &self.acc_g);
        write_dwords(&mut out, &self.wheel_slip);
        write_dwords(&mut out, &self.wheel_load);
        write_dwords(&mut out, &self.wheels_pressure);
        write_dwords(&mut out, &self.wheel_angular_speed);
        write_dwords(&mut out, &self.tyre_wear);
        write_dwords(&mut out, &self.tyre_dirty_level);
        write_dwords(&mut out, &self.tyre_core_temperature);
        write_dwords(&mut out, &self.camber_rad);
        write_dwords(&mut out, &self.suspension_travel);
        write_u32(&mut out, self.drs);
        write_u32(&mut out, self.tc);
        write_u32(&mut out, self.heading);
        write_u32(&mut out, self.pitch);
        write_u32(&mut out, self.roll);
        write_u32(&mut out, self.cg_height);
        write_dwords(&mut out, &self.car_damage);
        write_i32(&mut out, self.number_of_tyres_out);
        write_i32(&mut out, self.pit_limiter_on);
        write_u32(&mut out, self.abs);
        write_u32(&mut out, self.kers_charge);
        write_u32(&mut out, self.kers_input);
        write_i32(&mut out, self.auto_shifter_on);
        write_dwords(&mut out, &self.ride_height);
        write_u32(&mut out, self.turbo_boost);
        write_u32(&mut out, self.ballast);
        write_u32(&mut out, self.air_density);
        write_u32(&mut out, self.air_temp);
        write_u32(&mut out, self.road_temp);
        write_dwords(&mut out, &self.local_angular_velocity);
        write_u32(&mut out, self.final_ff);
        write_u32(&mut out, self.performance_meter);
        write_i32(&mut out, self.engine_brake);
        write_i32(&mut out, self.ers_recovery_level);
        write_i32(&mut out, self.ers_power_level);
        write_i32(&mut out, self.ers_heat_charging);
        write_i32(&mut out, self.ers_is_charging);
        write_u32(&mut out, self.kers_current_kj);
        write_i32(&mut out, self.drs_available);
        write_i32(&mut out, self.drs_enabled);
        write_dwords(&mut out, &self.brake_temp);
        write_u32(&mut out, self.clutch);
        write_dwords(&mut out, &self.tyre_temp_i);
        write_dwords(&mut out, &self.tyre_temp_m);
        write_dwords(&mut out, &self.tyre_temp_o);
        write_i32(&mut out, self.is_ai_controlled);
        write_coords(&mut out, &self.tyre_contact_point);
        write_coords(&mut out, &self.tyre_contact_normal);
        write_coords(&mut out, &self.tyre_contact_heading);
        write_u32(&mut out, self.brake_bias);
        write_dwords(&mut out, &self.local_velocity);
        write_i32(&mut out, self.p2p_activation);
        write_i32(&mut out, self.p2p_status);
        write_u32(&mut out, self.current_max_rpm);
        write_dwords(&mut out, &self.mz);
        write_dwords(&mut out, &self.fx);
        write_dwords(&mut out, &self.fy);
        write_dwords(&mut out, &self.slip_ratio);
        write_dwords(&mut out, &self.slip_angle);
        write_i32(&mut out, self.tc_in_action);
        write_i32(&mut out, self.abs_in_action);
        write_dwords(&mut out, &self.suspension_damage);
        write_dwords(&mut out, &self.tyre_temp);
        write_u32(&mut out, self.water_temp);
        write_dwords(&mut out, &self.brake_pressure);
        write_i32(&mut out, self.front_brake_compound);
        write_i32(&mut out, self.rear_brake_compound);
        write_dwords(&mut out, &self.pad_life);
        write_dwords(&mut out, &self.disc_life);
        write_i32(&mut out, self.ignition_on);
        write_i32(&mut out, self.starter_engine_on);
        write_i32(&mut out, self.is_engine_running);
        write_u32(&mut out, self.kerb_vibration);
        write_u32(&mut out, self.slip_vibrations);
        write_u32(&mut out, self.g_vibrations);
        write_u32(&mut out, self.abs_vibrations);
        proof {
            if self.wf() {
                Self::lemma_encode_len(*self);
            }
        }
        assert(out@ == self.spec_encode());
        out
    }

    /// A well-formed snapshot encodes to exactly the record size.
    pub proof fn lemma_encode_len(p: Self)
        requires
            p.wf(),
        ensures
            p.spec_encode().len() == PHYSICS_SIZE,
    {
        vstd::bytes::lemma_auto_spec_u32_to_from_le_bytes();
        lemma_enc_dwords_len(p.velocity@);
        lemma_enc_dwords_len(p.acc_g@);
        lemma_enc_dwords_len(p.wheel_slip@);
        lemma_enc_dwords_len(p.wheel_load@);
        lemma_enc_dwords_len(p.wheels_pressure@);
        lemma_enc_dwords_len(p.wheel_angular_speed@);
        lemma_enc_dwords_len(p.tyre_wear@);
        lemma_enc_dwords_len(p.tyre_dirty_level@);
        lemma_enc_dwords_len(p.tyre_core_temperature@);
        lemma_enc_dwords_len(p.camber_rad@);
        lemma_enc_dwords_len(p.suspension_travel@);
        lemma_enc_dwords_len(p.car_damage@);
        lemma_enc_dwords_len(p.ride_height@);
        lemma_enc_dwords_len(p.local_angular_velocity@);
        lemma_enc_dwords_len(p.brake_temp@);
        lemma_enc_dwords_len(p.tyre_temp_i@);
        lemma_enc_dwords_len(p.tyre_temp_m@);
        lemma_enc_dwords_len(p.tyre_temp_o@);
        lemma_enc_coords_len(p.tyre_contact_point@);
        lemma_enc_coords_len(p.tyre_contact_normal@);
        lemma_enc_coords_len(p.tyre_contact_heading@);
        lemma_enc_dwords_len(p.local_velocity@);
        lemma_enc_dwords_len(p.mz@);
        lemma_enc_dwords_len(p.fx@);
        lemma_enc_dwords_len(p.fy@);
        lemma_enc_dwords_len(p.slip_ratio@);
        lemma_enc_dwords_len(p.slip_angle@);
        lemma_enc_dwords_len(p.suspension_damage@);
        lemma_enc_dwords_len(p.tyre_temp@);
        lemma_enc_dwords_len(p.brake_pressure@);
        lemma_enc_dwords_len(p.pad_life@);
        lemma_enc_dwords_len(p.disc_life@);
    }

    /// Decoding a buffer and re-encoding the fields reproduces the
    /// buffer's leading `PHYSICS_SIZE` bytes.
    #[verifier::spinoff_prover]
    #[verifier::rlimit(100)]
    pub proof fn lemma_round_trip(p: Self, b: Seq<u8>)
        requires
            b.len() >= PHYSICS_SIZE,
            p.matches_bytes(b),
        ensures
            p.spec_encode() == b.subrange(0, PHYSICS_SIZE as int),
    {
        lemma_i32_raw_round_trip(le32_at(b, 0));
        lemma_enc_of_le32(b, 0);
        assert(spec_u32_to_le_bytes(spec_i32_to_raw(p.packet_id)) == b.subrange(0, 4));
        lemma_enc_of_le32(b, 4);
        assert(spec_u32_to_le_bytes(p.gas) == b.subrange(4, 8));
        lemma_enc_of_le32(b, 8);
        assert(spec_u32_to_le_bytes(p.brake) == b.subrange(8, 12));
        lemma_enc_of_le32(b, 12);
        assert(spec_u32_to_le_bytes(p.fuel) == b.subrange(12, 16));
        lemma_i32_raw_round_trip(le32_at(b, 16));
        lemma_enc_of_le32(b, 16);
        assert(spec_u32_to_le_bytes(spec_i32_to_raw(p.gear)) == b.subrange(16, 20));
        lemma_i32_raw_round_trip(le32_at(b, 20));
        lemma_enc_of_le32(b, 20);
        assert(spec_u32_to_le_bytes(spec_i32_to_raw(p.rpms)) == b.subrange(20, 24));
        lemma_enc_of_le32(b, 24);
        assert(spec_u32_to_le_bytes(p.steer_angle) == b.subrange(24, 28));
        lemma_enc_of_le32(b, 28);
        assert(spec_u32_to_le_bytes(p.speed_kmh) == b.subrange(28, 32));
        lemma_enc_of_dwords_at(b, 32, 3);
        assert(enc_dwords(p.velocity@) == b.subrange(32, 44));
        lemma_enc_of_dwords_at(b, 44, 3);
        assert(enc_dwords(p.acc_g@) == b.subrange(44, 56));
        lemma_enc_of_dwords_at(b, 56, 4);
        assert(enc_dwords(p.wheel_slip@) == b.subrange(56, 72));
        lemma_enc_of_dwords_at(b, 72, 4);
        assert(enc_dwords(p.wheel_load@) == b.subrange(72, 88));
        lemma_enc_of_dwords_at(b, 88, 4);
        assert(enc_dwords(p.wheels_pressure@) == b.subrange(88, 104));
        lemma_enc_of_dwords_at(b, 104, 4);
        assert(enc_dwords(p.wheel_angular_speed@) == b.subrange(104, 120));
        lemma_enc_of_dwords_at(b, 120, 4);
        assert(enc_dwords(p.tyre_wear@) == b.subrange(120, 136));
        lemma_enc_of_dwords_at(b, 136, 4);
        assert(enc_dwords(p.tyre_dirty_level@) == b.subrange(136, 152));
        lemma_enc_of_dwords_at(b, 152, 4);
        assert(enc_dwords(p.tyre_core_temperature@) == b.subrange(152, 168));
        lemma_enc_of_dwords_at(b, 168, 4);
        assert(enc_dwords(p.camber_rad@) == b.subrange(168, 184));
        lemma_enc_of_dwords_at(b, 184, 4);
        assert(enc_dwords(p.suspension_travel@) == b.subrange(184, 200));
        lemma_enc_of_le32(b, 200);
        assert(spec_u32_to_le_bytes(p.drs) == b.subrange(200, 204));
        lemma_enc_of_le32(b, 204);
        assert(spec_u32_to_le_bytes(p.tc) == b.subrange(204, 208));
        lemma_enc_of_le32(b, 208);
        assert(spec_u32_to_le_bytes(p.heading) == b.subrange(208, 212));
        lemma_enc_of_le32(b, 212);
        assert(spec_u32_to_le_bytes(p.pitch) == b.subrange(212, 216));
        lemma_enc_of_le32(b, 216);
        assert(spec_u32_to_le_bytes(p.roll) == b.subrange(216, 220));
        lemma_enc_of_le32(b, 220);
        assert(spec_u32_to_le_bytes(p.cg_height) == b.subrange(220, 224));
        lemma_enc_of_dwords_at(b, 224, 5);
        assert(enc_dwords(p.car_damage@) == b.subrange(224, 244));
        lemma_i32_raw_round_trip(le32_at(b, 244));
        lemma_enc_of_le32(b, 244);
        assert(spec_u32_to_le_bytes(spec_i32_to_raw(p.number_of_tyres_out)) == b.subrange(244, 248));
        lemma_i32_raw_round_trip(le32_at(b, 248));
        lemma_enc_of_le32(b, 248);
        assert(spec_u32_to_le_bytes(spec_i32_to_raw(p.pit_limiter_on)) == b.subrange(248, 252));
        lemma_enc_of_le32(b, 252);
        assert(spec_u32_to_le_bytes(p.abs) == b.subrange(252, 256));
        lemma_enc_of_le32(b, 256);
        assert(spec_u32_to_le_bytes(p.kers_charge) == b.subrange(256, 260));
        lemma_enc_of_le32(b, 260);
        assert(spec_u32_to_le_bytes(p.kers_input) == b.subrange(260, 264));
        lemma_i32_raw_round_trip(le32_at(b, 264));
        lemma_enc_of_le32(b, 264);
        assert(spec_u32_to_le_bytes(spec_i32_to_raw(p.auto_shifter_on)) == b.subrange(264, 268));
        lemma_enc_of_dwords_at(b, 268, 2);
        assert(enc_dwords(p.ride_height@) == b.subrange(268, 276));
        lemma_enc_of_le32(b, 276);
        assert(spec_u32_to_le_bytes(p.turbo_boost) == b.subrange(276, 280));
        lemma_enc_of_le32(b, 280);
        assert(spec_u32_to_le_bytes(p.ballast) == b.subrange(280, 284));
        lemma_enc_of_le32(b, 284);
        assert(spec_u32_to_le_bytes(p.air_density) == b.subrange(284, 288));
        lemma_enc_of_le32(b, 288);
        assert(spec_u32_to_le_bytes(p.air_temp) == b.subrange(288, 292));
        lemma_enc_of_le32(b, 292);
        assert(spec_u32_to_le_bytes(p.road_temp) == b.subrange(292, 296));
        lemma_enc_of_dwords_at(b, 296, 3);
        assert(enc_dwords(p.local_angular_velocity@) == b.subrange(296, 308));
        lemma_enc_of_le32(b, 308);
        assert(spec_u32_to_le_bytes(p.final_ff) == b.subrange(308, 312));
        lemma_enc_of_le32(b, 312);
        assert(spec_u32_to_le_bytes(p.performance_meter) == b.subrange(312, 316));
        lemma_i32_raw_round_trip(le32_at(b, 316));
        lemma_enc_of_le32(b, 316);
        assert(spec_u32_to_le_bytes(spec_i32_to_raw(p.engine_brake)) == b.subrange(316, 320));
        lemma_i32_raw_round_trip(le32_at(b, 320));
        lemma_enc_of_le32(b, 320);
        assert(spec_u32_to_le_bytes(spec_i32_to_raw(p.ers_recovery_level)) == b.subrange(320, 324));
        lemma_i32_raw_round_trip(le32_at(b, 324));
        lemma_enc_of_le32(b, 324);
        assert(spec_u32_to_le_bytes(spec_i32_to_raw(p.ers_power_level)) == b.subrange(324, 328));
        lemma_i32_raw_round_trip(le32_at(b, 328));
        lemma_enc_of_le32(b, 328);
        assert(spec_u32_to_le_bytes(spec_i32_to_raw(p.ers_heat_charging)) == b.subrange(328, 332));
        lemma_i32_raw_round_trip(le32_at(b, 332));
        lemma_enc_of_le32(b, 332);
        assert(spec_u32_to_le_bytes(spec_i32_to_raw(p.ers_is_charging)) == b.subrange(332, 336));
        lemma_enc_of_le32(b, 336);
        assert(spec_u32_to_le_bytes(p.kers_current_kj) == b.subrange(336, 340));
        lemma_i32_raw_round_trip(le32_at(b, 340));
        lemma_enc_of_le32(b, 340);
        assert(spec_u32_to_le_bytes(spec_i32_to_raw(p.drs_available)) == b.subrange(340, 344));
        lemma_i32_raw_round_trip(le32_at(b, 344));
        lemma_enc_of_le32(b, 344);
        assert(spec_u32_to_le_bytes(spec_i32_to_raw(p.drs_enabled)) == b.subrange(344, 348));
        lemma_enc_of_dwords_at(b, 348, 4);
        assert(enc_dwords(p.brake_temp@) == b.subrange(348, 364));
        lemma_enc_of_le32(b, 364);
        assert(spec_u32_to_le_bytes(p.clutch) == b.subrange(364, 368));
        lemma_enc_of_dwords_at(b, 368, 4);
        assert(enc_dwords(p.tyre_temp_i@) == b.subrange(368, 384));
        lemma_enc_of_dwords_at(b, 384, 4);
        assert(enc_dwords(p.tyre_temp_m@) == b.subrange(384, 400));
        lemma_enc_of_dwords_at(b, 400, 4);
        assert(enc_dwords(p.tyre_temp_o@) == b.subrange(400, 416));
        lemma_i32_raw_round_trip(le32_at(b, 416));
        lemma_enc_of_le32(b, 416);
        assert(spec_u32_to_le_bytes(spec_i32_to_raw(p.is_ai_controlled)) == b.subrange(416, 420));
        lemma_enc_of_coords_at(b, 420, 4);
        assert(enc_coords(p.tyre_contact_point@) == b.subrange(420, 468));
        lemma_enc_of_coords_at(b, 468, 4);
        assert(enc_coords(p.tyre_contact_normal@) == b.subrange(468, 516));
        lemma_enc_of_coords_at(b, 516, 4);
        assert(enc_coords(p.tyre_contact_heading@) == b.subrange(516, 564));
        lemma_enc_of_le32(b, 564);
        assert(spec_u32_to_le_bytes(p.brake_bias) == b.subrange(564, 568));
        lemma_enc_of_dwords_at(b, 568, 3);
        assert(enc_dwords(p.local_velocity@) == b.subrange(568, 580));
        lemma_i32_raw_round_trip(le32_at(b, 580));
        lemma_enc_of_le32(b, 580);
        assert(spec_u32_to_le_bytes(spec_i32_to_raw(p.p2p_activation)) == b.subrange(580, 584));
        lemma_i32_raw_round_trip(le32_at(b, 584));
        lemma_enc_of_le32(b, 584);
        assert(spec_u32_to_le_bytes(spec_i32_to_raw(p.p2p_status)) == b.subrange(584, 588));
        lemma_enc_of_le32(b, 588);
        assert(spec_u32_to_le_bytes(p.current_max_rpm) == b.subrange(588, 592));
        lemma_enc_of_dwords_at(b, 592, 4);
        assert(enc_dwords(p.mz@) == b.subrange(592, 608));
        lemma_enc_of_dwords_at(b, 608, 4);
        assert(enc_dwords(p.fx@) == b.subrange(608, 624));
        lemma_enc_of_dwords_at(b, 624, 4);
        assert(enc_dwords(p.fy@) == b.subrange(624, 640));
        lemma_enc_of_dwords_at(b, 640, 4);
        assert(enc_dwords(p.slip_ratio@) == b.subrange(640, 656));
        lemma_enc_of_dwords_at(b, 656, 4);
        assert(enc_dwords(p.slip_angle@) == b.subrange(656, 672));
        lemma_i32_raw_round_trip(le32_at(b, 672));
        lemma_enc_of_le32(b, 672);
        assert(spec_u32_to_le_bytes(spec_i32_to_raw(p.tc_in_action)) == b.subrange(672, 676));
        lemma_i32_raw_round_trip(le32_at(b, 676));
        lemma_enc_of_le32(b, 676);
        assert(spec_u32_to_le_bytes(spec_i32_to_raw(p.abs_in_action)) == b.subrange(676, 680));
        lemma_enc_of_dwords_at(b, 680, 4);
        assert(enc_dwords(p.suspension_damage@) == b.subrange(680, 696));
        lemma_enc_of_dwords_at(b, 696, 4);
        assert(enc_dwords(p.tyre_temp@) == b.subrange(696, 712));
        lemma_enc_of_le32(b, 712);
        assert(spec_u32_to_le_bytes(p.water_temp) == b.subrange(712, 716));
        lemma_enc_of_dwords_at(b, 716, 4);
        assert(enc_dwords(p.brake_pressure@) == b.subrange(716, 732));
        lemma_i32_raw_round_trip(le32_at(b, 732));
        lemma_enc_of_le32(b, 732);
        assert(spec_u32_to_le_bytes(spec_i32_to_raw(p.front_brake_compound)) == b.subrange(732, 736));
        lemma_i32_raw_round_trip(le32_at(b, 736));
        lemma_enc_of_le32(b, 736);
        assert(spec_u32_to_le_bytes(spec_i32_to_raw(p.rear_brake_compound)) == b.subrange(736, 740));
        lemma_enc_of_dwords_at(b, 740, 4);
        assert(enc_dwords(p.pad_life@) == b.subrange(740, 756));
        lemma_enc_of_dwords_at(b, 756, 4);
        assert(enc_dwords(p.disc_life@) == b.subrange(756, 772));
        lemma_i32_raw_round_trip(le32_at(b, 772));
        lemma_enc_of_le32(b, 772);
        assert(spec_u32_to_le_bytes(spec_i32_to_raw(p.ignition_on)) == b.subrange(772, 776));
        lemma_i32_raw_round_trip(le32_at(b, 776));
        lemma_enc_of_le32(b, 776);
        assert(spec_u32_to_le_bytes(spec_i32_to_raw(p.starter_engine_on)) == b.subrange(776, 780));
        lemma_i32_raw_round_trip(le32_at(b, 780));
        lemma_enc_of_le32(b, 780);
        assert(spec_u32_to_le_bytes(spec_i32_to_raw(p.is_engine_running)) == b.subrange(780, 784));
        lemma_enc_of_le32(b, 784);
        assert(spec_u32_to_le_bytes(p.kerb_vibration) == b.subrange(784, 788));
        lemma_enc_of_le32(b, 788);
        assert(spec_u32_to_le_bytes(p.slip_vibrations) == b.subrange(788, 792));
        lemma_enc_of_le32(b, 792);
        assert(spec_u32_to_le_bytes(p.g_vibrations) == b.subrange(792, 796));
        lemma_enc_of_le32(b, 796);
        assert(spec_u32_to_le_bytes(p.abs_vibrations) == b.subrange(796, 800));
        assert(b.subrange(0, 4) + b.subrange(4, 8) =~= b.subrange(0, 8));
        assert(b.subrange(0, 8) + b.subrange(8, 12) =~= b.subrange(0, 12));
        assert(b.subrange(0, 12) + b.subrange(12, 16) =~= b.subrange(0, 16));
        assert(b.subrange(0, 16) + b.subrange(16, 20) =~= b.subrange(0, 20));
        assert(b.subrange(0, 20) + b.subrange(20, 24) =~= b.subrange(0, 24));
        assert(b.subrange(0, 24) + b.subrange(24, 28) =~= b.subrange(0, 28));
        assert(b.subrange(0, 28) + b.subrange(28, 32) =~= b.subrange(0, 32));
        assert(b.subrange(0, 32) + b.subrange(32, 44) =~= b.subrange(0, 44));
        assert(b.subrange(0, 44) + b.subrange(44, 56) =~= b.subrange(0, 56));
        assert(b.subrange(0, 56) + b.subrange(56, 72) =~= b.subrange(0, 72));
        assert(b.subrange(0, 72) + b.subrange(72, 88) =~= b.subrange(0, 88));
        assert(b.subrange(0, 88) + b.subrange(88, 104) =~= b.subrange(0, 104));
        assert(b.subrange(0, 104) + b.subrange(104, 120) =~= b.subrange(0, 120));
        assert(b.subrange(0, 120) + b.subrange(120, 136) =~= b.subrange(0, 136));
        assert(b.subrange(0, 136) + b.subrange(136, 152) =~= b.subrange(0, 152));
        assert(b.subrange(0, 152) + b.subrange(152, 168) =~= b.subrange(0, 168));
        assert(b.subrange(0, 168) + b.subrange(168, 184) =~= b.subrange(0, 184));
        assert(b.subrange(0, 184) + b.subrange(184, 200) =~= b.subrange(0, 200));
        assert(b.subrange(0, 200) + b.subrange(200, 204) =~= b.subrange(0, 204));
        assert(b.subrange(0, 204) + b.subrange(204, 208) =~= b.subrange(0, 208));
        assert(b.subrange(0, 208) + b.subrange(208, 212) =~= b.subrange(0, 212));
        assert(b.subrange(0, 212) + b.subrange(212, 216) =~= b.subrange(0, 216));
        assert(b.subrange(0, 216) + b.subrange(216, 220) =~= b.subrange(0, 220));
        assert(b.subrange(0, 220) + b.subrange(220, 224) =~= b.subrange(0, 224));
        assert(b.subrange(0, 224) + b.subrange(224, 244) =~= b.subrange(0, 244));
        assert(b.subrange(0, 244) + b.subrange(244, 248) =~= b.subrange(0, 248));
        assert(b.subrange(0, 248) + b.subrange(248, 252) =~= b.subrange(0, 252));
        assert(b.subrange(0, 252) + b.subrange(252, 256) =~= b.subrange(0, 256));
        assert(b.subrange(0, 256) + b.subrange(256, 260) =~= b.subrange(0, 260));
        assert(b.subrange(0, 260) + b.subrange(260, 264) =~= b.subrange(0, 264));
        assert(b.subrange(0, 264) + b.subrange(264, 268) =~= b.subrange(0, 268));
        assert(b.subrange(0, 268) + b.subrange(268, 276) =~= b.subrange(0, 276));
        assert(b.subrange(0, 276) + b.subrange(276, 280) =~= b.subrange(0, 280));
        assert(b.subrange(0, 280) + b.subrange(280, 284) =~= b.subrange(0, 284));
        assert(b.subrange(0, 284) + b.subrange(284, 288) =~= b.subrange(0, 288));
        assert(b.subrange(0, 288) + b.subrange(288, 292) =~= b.subrange(0, 292));
        assert(b.subrange(0, 292) + b.subrange(292, 296) =~= b.subrange(0, 296));
        assert(b.subrange(0, 296) + b.subrange(296, 308) =~= b.subrange(0, 308));
        assert(b.subrange(0, 308) + b.subrange(308, 312) =~= b.subrange(0, 312));
        assert(b.subrange(0, 312) + b.subrange(312, 316) =~= b.subrange(0, 316));
        assert(b.subrange(0, 316) + b.subrange(316, 320) =~= b.subrange(0, 320));
        assert(b.subrange(0, 320) + b.subrange(320, 324) =~= b.subrange(0, 324));
        assert(b.subrange(0, 324) + b.subrange(324, 328) =~= b.subrange(0, 328));
        assert(b.subrange(0, 328) + b.subrange(328, 332) =~= b.subrange(0, 332));
        assert(b.subrange(0, 332) + b.subrange(332, 336) =~= b.subrange(0, 336));
        assert(b.subrange(0, 336) + b.subrange(336, 340) =~= b.subrange(0, 340));
        assert(b.subrange(0, 340) + b.subrange(340, 344) =~= b.subrange(0, 344));
        assert(b.subrange(0, 344) + b.subrange(344, 348) =~= b.subrange(0, 348));
        assert(b.subrange(0, 348) + b.subrange(348, 364) =~= b.subrange(0, 364));
        assert(b.subrange(0, 364) + b.subrange(364, 368) =~= b.subrange(0, 368));
        assert(b.subrange(0, 368) + b.subrange(368, 384) =~= b.subrange(0, 384));
        assert(b.subrange(0, 384) + b.subrange(384, 400) =~= b.subrange(0, 400));
        assert(b.subrange(0, 400) + b.subrange(400, 416) =~= b.subrange(0, 416));
        assert(b.subrange(0, 416) + b.subrange(416, 420) =~= b.subrange(0, 420));
        assert(b.subrange(0, 420) + b.subrange(420, 468) =~= b.subrange(0, 468));
        assert(b.subrange(0, 468) + b.subrange(468, 516) =~= b.subrange(0, 516));
        assert(b.subrange(0, 516) + b.subrange(516, 564) =~= b.subrange(0, 564));
        assert(b.subrange(0, 564) + b.subrange(564, 568) =~= b.subrange(0, 568));
        assert(b.subrange(0, 568) + b.subrange(568, 580) =~= b.subrange(0, 580));
        assert(b.subrange(0, 580) + b.subrange(580, 584) =~= b.subrange(0, 584));
        assert(b.subrange(0, 584) + b.subrange(584, 588) =~= b.subrange(0, 588));
        assert(b.subrange(0, 588) + b.subrange(588, 592) =~= b.subrange(0, 592));
        assert(b.subrange(0, 592) + b.subrange(592, 608) =~= b.subrange(0, 608));
        assert(b.subrange(0, 608) + b.subrange(608, 624) =~= b.subrange(0, 624));
        assert(b.subrange(0, 624) + b.subrange(624, 640) =~= b.subrange(0, 640));
        assert(b.subrange(0, 640) + b.subrange(640, 656) =~= b.subrange(0, 656));
        assert(b.subrange(0, 656) + b.subrange(656, 672) =~= b.subrange(0, 672));
        assert(b.subrange(0, 672) + b.subrange(672, 676) =~= b.subrange(0, 676));
        assert(b.subrange(0, 676) + b.subrange(676, 680) =~= b.subrange(0, 680));
        assert(b.subrange(0, 680) + b.subrange(680, 696) =~= b.subrange(0, 696));
        assert(b.subrange(0, 696) + b.subrange(696, 712) =~= b.subrange(0, 712));
        assert(b.subrange(0, 712) + b.subrange(712, 716) =~= b.subrange(0, 716));
        assert(b.subrange(0, 716) + b.subrange(716, 732) =~= b.subrange(0, 732));
        assert(b.subrange(0, 732) + b.subrange(732, 736) =~= b.subrange(0, 736));
        assert(b.subrange(0, 736) + b.subrange(736, 740) =~= b.subrange(0, 740));
        assert(b.subrange(0, 740) + b.subrange(740, 756) =~= b.subrange(0, 756));
        assert(b.subrange(0, 756) + b.subrange(756, 772) =~= b.subrange(0, 772));
        assert(b.subrange(0, 772) + b.subrange(772, 776) =~= b.subrange(0, 776));
        assert(b.subrange(0, 776) + b.subrange(776, 780) =~= b.subrange(0, 780));
        assert(b.subrange(0, 780) + b.subrange(780, 784) =~= b.subrange(0, 784));
        assert(b.subrange(0, 784) + b.subrange(784, 788) =~= b.subrange(0, 788));
        assert(b.subrange(0, 788) + b.subrange(788, 792) =~= b.subrange(0, 792));
        assert(b.subrange(0, 792) + b.subrange(792, 796) =~= b.subrange(0, 796));
        assert(b.subrange(0, 796) + b.subrange(796, 800) =~= b.subrange(0, 800));
        assert(p.spec_encode() == b.subrange(0, PHYSICS_SIZE as int));
    }
}

impl Default for Physics {
    /// The all-zero snapshot.
    fn default() -> (r: Self)
        ensures
            r.wf(),
    {
        Physics {
            packet_id: 0,
            gas: 0,
            brake: 0,
            fuel: 0,
            gear: 0,
            rpms: 0,
            steer_angle: 0,
            speed_kmh: 0,
            velocity: zero_dwords(3),
            acc_g: zero_dwords(3),
            wheel_slip: zero_dwords(4),
            wheel_load: zero_dwords(4),
            wheels_pressure: zero_dwords(4),
            wheel_angular_speed: zero_dwords(4),
            tyre_wear: zero_dwords(4),
            tyre_dirty_level: zero_dwords(4),
            tyre_core_temperature: zero_dwords(4),
            camber_rad: zero_dwords(4),
            suspension_travel: zero_dwords(4),
            drs: 0,
            tc: 0,
            heading: 0,
            pitch: 0,
            roll: 0,
            cg_height: 0,
            car_damage: zero_dwords(5),
            number_of_tyres_out: 0,
            pit_limiter_on: 0,
            abs: 0,
            kers_charge: 0,
            kers_input: 0,
            auto_shifter_on: 0,
            ride_height: zero_dwords(2),
            turbo_boost: 0,
            ballast: 0,
            air_density: 0,
            air_temp: 0,
            road_temp: 0,
            local_angular_velocity: zero_dwords(3),
            final_ff: 0,
            performance_meter: 0,
            engine_brake: 0,
            ers_recovery_level: 0,
            ers_power_level: 0,
            ers_heat_charging: 0,
            ers_is_charging: 0,
            kers_current_kj: 0,
            drs_available: 0,
            drs_enabled: 0,
            brake_temp: zero_dwords(4),
            clutch: 0,
            tyre_temp_i: zero_dwords(4),
            tyre_temp_m: zero_dwords(4),
            tyre_temp_o: zero_dwords(4),
            is_ai_controlled: 0,
            tyre_contact_point: zero_coords(4),
            tyre_contact_normal: zero_coords(4),
            tyre_contact_heading: zero_coords(4),
            brake_bias: 0,
            local_velocity: zero_dwords(3),
            p2p_activation: 0,
            p2p_status: 0,
            current_max_rpm: 0,
            mz: zero_dwords(4),
            fx: zero_dwords(4),
            fy: zero_dwords(4),
            slip_ratio: zero_dwords(4),
            slip_angle: zero_dwords(4),
            tc_in_action: 0,
            abs_in_action: 0,
            suspension_damage: zero_dwords(4),
            tyre_temp: zero_dwords(4),
            water_temp: 0,
            brake_pressure: zero_dwords(4),
            front_brake_compound: 0,
            rear_brake_compound: 0,
            pad_life: zero_dwords(4),
            disc_life: zero_dwords(4),
            ignition_on: 0,
            starter_engine_on: 0,
            is_engine_running: 0,
            kerb_vibration: 0,
            slip_vibrations: 0,
            g_vibrations: 0,
            abs_vibrations: 0,
        }
    }
}

/// One graphics snapshot: session, timing and HUD state.
///
/// The field order, widths and offsets mirror the producer's in-memory
/// struct byte for byte; `matches_bytes` is that layout, stated once.
#[derive(Debug, Clone, PartialEq)]
pub struct Graphics {
    pub packet_id: i32,
    pub status: u32,
    pub session: i32,
    pub current_time: Vec<u16>,  // UTF-16 text
    pub last_time: Vec<u16>,  // UTF-16 text
    pub best_time: Vec<u16>,  // UTF-16 text
    pub split: Vec<u16>,  // UTF-16 text
    pub completed_laps: i32,
    pub position: i32,
    pub i_current_time: i32,
    pub i_last_time: i32,
    pub i_best_time: i32,
    pub session_time_left: u32,
    pub distance_traveled: u32,
    pub is_in_pit: i32,
    pub current_sector_index: i32,
    pub last_sector_time: i32,
    pub number_of_laps: i32,
    pub tyre_compound: Vec<u16>,  // UTF-16 text
    pub replay_time_multiplier: u32,
    pub normalized_car_position: u32,
    pub active_cars: i32,
    pub car_coordinates: Vec<u32>,  // 60 cars, three components each
    pub car_id: Vec<i32>,  // 60 cars
    pub player_car_id: i32,
    pub penalty_time: u32,
    pub flag: u32,
    pub penalty: u32,
    pub ideal_line_on: i32,
    pub is_in_pit_lane: i32,
    pub surface_grip: u32,
    pub mandatory_pit_done: i32,
    pub wind_speed: u32,
    pub wind_direction: u32,
    pub is_setup_menu_visible: i32,
    pub main_display_index: i32,
    pub secondary_display_index: i32,
    pub tc: i32,
    pub tc_cut: i32,
    pub engine_map: i32,
    pub abs: i32,
    pub fuel_x_lap: u32,
    pub rain_lights: i32,
    pub flashing_lights: i32,
    pub lights_stage: i32,
    pub exhaust_temperature: u32,
    pub wiper_lv: i32,
    pub driver_stint_total_time_left: i32,
    pub driver_stint_time_left: i32,
    pub rain_tyres: i32,
    pub session_index: i32,
    pub used_fuel: u32,
    pub delta_lap_time: Vec<u16>,  // UTF-16 text
    pub i_delta_lap_time: i32,
    pub estimated_lap_time: Vec<u16>,  // UTF-16 text
    pub i_estimated_lap_time: i32,
    pub is_delta_positive: i32,
    pub i_split: i32,
    pub is_valid_lap: i32,
    pub fuel_estimated_laps: u32,
    pub track_status: Vec<u16>,  // UTF-16 text
    pub missing_mandatory_pits: i32,
    pub clock: u32,
    pub direction_lights_left: i32,
    pub direction_lights_right: i32,
    pub global_yellow: i32,
    pub global_yellow1: i32,
    pub global_yellow2: i32,
    pub global_yellow3: i32,
    pub global_white: i32,
    pub global_green: i32,
    pub global_chequered: i32,
    pub global_red: i32,
    pub mfd_tyre_set: i32,
    pub mfd_fuel_to_add: u32,
    pub mfd_tyre_pressure_lf: u32,
    pub mfd_tyre_pressure_rf: u32,
    pub mfd_tyre_pressure_lr: u32,
    pub mfd_tyre_pressure_rr: u32,
    pub track_grip_status: u32,
    pub rain_intensity: u32,
    pub rain_intensity_in_10min: u32,
    pub rain_intensity_in_30min: u32,
    pub current_tyre_set: i32,
    pub strategy_tyre_set: i32,
}

impl Graphics {
    /// Every array-valued field has its fixed layout width.
    pub open spec fn wf(self) -> bool {
        &&& self.current_time@.len() == 15
        &&& self.last_time@.len() == 15
        &&& self.best_time@.len() == 15
        &&& self.split@.len() == 15
        &&& self.tyre_compound@.len() == 34
        &&& self.car_coordinates@.len() == 180
        &&& self.car_id@.len() == 60
        &&& self.delta_lap_time@.len() == 16
        &&& self.estimated_lap_time@.len() == 16
        &&& self.track_status@.len() == 34
    }

    /// The layout contract: how each field is stored in the record's bytes.
    pub open spec fn matches_bytes(self, b: Seq<u8>) -> bool {
        &&& self.packet_id == spec_i32_from_raw(le32_at(b, 0))
        &&& self.status == le32_at(b, 4)
        &&& self.session == spec_i32_from_raw(le32_at(b, 8))
        &&& self.current_time@ == words_at(b, 12, 15)
        &&& self.last_time@ == words_at(b, 42, 15)
        &&& self.best_time@ == words_at(b, 72, 15)
        &&& self.split@ == words_at(b, 102, 15)
        &&& self.completed_laps == spec_i32_from_raw(le32_at(b, 132))
        &&& self.position == spec_i32_from_raw(le32_at(b, 136))
        &&& self.i_current_time == spec_i32_from_raw(le32_at(b, 140))
        &&& self.i_last_time == spec_i32_from_raw(le32_at(b, 144))
        &&& self.i_best_time == spec_i32_from_raw(le32_at(b, 148))
        &&& self.session_time_left == le32_at(b, 152)
        &&& self.distance_traveled == le32_at(b, 156)
        &&& self.is_in_pit == spec_i32_from_raw(le32_at(b, 160))
        &&& self.current_sector_index == spec_i32_from_raw(le32_at(b, 164))
        &&& self.last_sector_time == spec_i32_from_raw(le32_at(b, 168))
        &&& self.number_of_laps == spec_i32_from_raw(le32_at(b, 172))
        &&& self.tyre_compound@ == words_at(b, 176, 34)
        &&& self.replay_time_multiplier == le32_at(b, 244)
        &&& self.normalized_car_position == le32_at(b, 248)
        &&& self.active_cars == spec_i32_from_raw(le32_at(b, 252))
        &&& self.car_coordinates@ == dwords_at(b, 256, 180)
        &&& self.car_id@ == i32s_at(b, 976, 60)
        &&& self.player_car_id == spec_i32_from_raw(le32_at(b, 1216))
        &&& self.penalty_time == le32_at(b, 1220)
        &&& self.flag == le32_at(b, 1224)
        &&& self.penalty == le32_at(b, 1228)
        &&& self.ideal_line_on == spec_i32_from_raw(le32_at(b, 1232))
        &&& self.is_in_pit_lane == spec_i32_from_raw(le32_at(b, 1236))
        &&& self.surface_grip == le32_at(b, 1240)
        &&& self.mandatory_pit_done == spec_i32_from_raw(le32_at(b, 1244))
        &&& self.wind_speed == le32_at(b, 1248)
        &&& self.wind_direction == le32_at(b, 1252)
        &&& self.is_setup_menu_visible == spec_i32_from_raw(le32_at(b, 1256))
        &&& self.main_display_index == spec_i32_from_raw(le32_at(b, 1260))
        &&& self.secondary_display_index == spec_i32_from_raw(le32_at(b, 1264))
        &&& self.tc == spec_i32_from_raw(le32_at(b, 1268))
        &&& self.tc_cut == spec_i32_from_raw(le32_at(b, 1272))
        &&& self.engine_map == spec_i32_from_raw(le32_at(b, 1276))
        &&& self.abs == spec_i32_from_raw(le32_at(b, 1280))
        &&& self.fuel_x_lap == le32_at(b, 1284)
        &&& self.rain_lights == spec_i32_from_raw(le32_at(b, 1288))
        &&& self.flashing_lights == spec_i32_from_raw(le32_at(b, 1292))
        &&& self.lights_stage == spec_i32_from_raw(le32_at(b, 1296))
        &&& self.exhaust_temperature == le32_at(b, 1300)
        &&& self.wiper_lv == spec_i32_from_raw(le32_at(b, 1304))
        &&& self.driver_stint_total_time_left == spec_i32_from_raw(le32_at(b, 1308))
        &&& self.driver_stint_time_left == spec_i32_from_raw(le32_at(b, 1312))
        &&& self.rain_tyres == spec_i32_from_raw(le32_at(b, 1316))
        &&& self.session_index == spec_i32_from_raw(le32_at(b, 1320))
        &&& self.used_fuel == le32_at(b, 1324)
        &&& self.delta_lap_time@ == words_at(b, 1328, 16)
        &&& self.i_delta_lap_time == spec_i32_from_raw(le32_at(b, 1360))
        &&& self.estimated_lap_time@ == words_at(b, 1364, 16)
        &&& self.i_estimated_lap_time == spec_i32_from_raw(le32_at(b, 1396))
        &&& self.is_delta_positive == spec_i32_from_raw(le32_at(b, 1400))
        &&& self.i_split == spec_i32_from_raw(le32_at(b, 1404))
        &&& self.is_valid_lap == spec_i32_from_raw(le32_at(b, 1408))
        &&& self.fuel_estimated_laps == le32_at(b, 1412)
        &&& self.track_status@ == words_at(b, 1416, 34)
        &&& self.missing_mandatory_pits == spec_i32_from_raw(le32_at(b, 1484))
        &&& self.clock == le32_at(b, 1488)
        &&& self.direction_lights_left == spec_i32_from_raw(le32_at(b, 1492))
        &&& self.direction_lights_right == spec_i32_from_raw(le32_at(b, 1496))
        &&& self.global_yellow == spec_i32_from_raw(le32_at(b, 1500))
        &&& self.global_yellow1 == spec_i32_from_raw(le32_at(b, 1504))
        &&& self.global_yellow2 == spec_i32_from_raw(le32_at(b, 1508))
        &&& self.global_yellow3 == spec_i32_from_raw(le32_at(b, 1512))
        &&& self.global_white == spec_i32_from_raw(le32_at(b, 1516))
        &&& self.global_green == spec_i32_from_raw(le32_at(b, 1520))
        &&& self.global_chequered == spec_i32_from_raw(le32_at(b, 1524))
        &&& self.global_red == spec_i32_from_raw(le32_at(b, 1528))
        &&& self.mfd_tyre_set == spec_i32_from_raw(le32_at(b, 1532))
        &&& self.mfd_fuel_to_add == le32_at(b, 1536)
        &&& self.mfd_tyre_pressure_lf == le32_at(b, 1540)
        &&& self.mfd_tyre_pressure_rf == le32_at(b, 1544)
        &&& self.mfd_tyre_pressure_lr == le32_at(b, 1548)
        &&& self.mfd_tyre_pressure_rr == le32_at(b, 1552)
        &&& self.track_grip_status == le32_at(b, 1556)
        &&& self.rain_intensity == le32_at(b, 1560)
        &&& self.rain_intensity_in_10min == le32_at(b, 1564)
        &&& self.rain_intensity_in_30min == le32_at(b, 1568)
        &&& self.current_tyre_set == spec_i32_from_raw(le32_at(b, 1572))
        &&& self.strategy_tyre_set == spec_i32_from_raw(le32_at(b, 1576))
    }

    /// The canonical encoding of this record, padding included.
    pub open spec fn spec_encode(self) -> Seq<u8> {
        spec_u32_to_le_bytes(spec_i32_to_raw(self.packet_id)) + spec_u32_to_le_bytes(self.status) + spec_u32_to_le_bytes(spec_i32_to_raw(self.session)) + enc_words(self.current_time@) + enc_words(self.last_time@) + enc_words(self.best_time@) + enc_words(self.split@) + spec_u32_to_le_bytes(spec_i32_to_raw(self.completed_laps)) + spec_u32_to_le_bytes(spec_i32_to_raw(self.position)) + spec_u32_to_le_bytes(spec_i32_to_raw(self.i_current_time)) + spec_u32_to_le_bytes(spec_i32_to_raw(self.i_last_time)) + spec_u32_to_le_bytes(spec_i32_to_raw(self.i_best_time)) + spec_u32_to_le_bytes(self.session_time_left) + spec_u32_to_le_bytes(self.distance_traveled) + spec_u32_to_le_bytes(spec_i32_to_raw(self.is_in_pit)) + spec_u32_to_le_bytes(spec_i32_to_raw(self.current_sector_index)) + spec_u32_to_le_bytes(spec_i32_to_raw(self.last_sector_time)) + spec_u32_to_le_bytes(spec_i32_to_raw(self.number_of_laps)) + enc_words(self.tyre_compound@) + spec_u32_to_le_bytes(self.replay_time_multiplier) + spec_u32_to_le_bytes(self.normalized_car_position) + spec_u32_to_le_bytes(spec_i32_to_raw(self.active_cars)) + enc_dwords(self.car_coordinates@) + enc_i32s(self.car_id@) + spec_u32_to_le_bytes(spec_i32_to_raw(self.player_car_id)) + spec_u32_to_le_bytes(self.penalty_time) + spec_u32_to_le_bytes(self.flag) + spec_u32_to_le_bytes(self.penalty) + spec_u32_to_le_bytes(spec_i32_to_raw(self.ideal_line_on)) + spec_u32_to_le_bytes(spec_i32_to_raw(self.is_in_pit_lane)) + spec_u32_to_le_bytes(self.surface_grip) + spec_u32_to_le_bytes(spec_i32_to_raw(self.mandatory_pit_done)) + spec_u32_to_le_bytes(self.wind_speed) + spec_u32_to_le_bytes(self.wind_direction) + spec_u32_to_le_bytes(spec_i32_to_raw(self.is_setup_menu_visible)) + spec_u32_to_le_bytes(spec_i32_to_raw(self.main_display_index)) + spec_u32_to_le_bytes(spec_i32_to_raw(self.secondary_display_index)) + spec_u32_to_le_bytes(spec_i32_to_raw(self.tc)) + spec_u32_to_le_bytes(spec_i32_to_raw(self.tc_cut)) + spec_u32_to_le_bytes(spec_i32_to_raw(self.engine_map)) + spec_u32_to_le_bytes(spec_i32_to_raw(self.abs)) + spec_u32_to_le_bytes(self.fuel_x_lap) + spec_u32_to_le_bytes(spec_i32_to_raw(self.rain_lights)) + spec_u32_to_le_bytes(spec_i32_to_raw(self.flashing_lights)) + spec_u32_to_le_bytes(spec_i32_to_raw(self.lights_stage)) + spec_u32_to_le_bytes(self.exhaust_temperature) + spec_u32_to_le_bytes(spec_i32_to_raw(self.wiper_lv)) + spec_u32_to_le_bytes(spec_i32_to_raw(self.driver_stint_total_time_left)) + spec_u32_to_le_bytes(spec_i32_to_raw(self.driver_stint_time_left)) + spec_u32_to_le_bytes(spec_i32_to_raw(self.rain_tyres)) + spec_u32_to_le_bytes(spec_i32_to_raw(self.session_index)) + spec_u32_to_le_bytes(self.used_fuel) + enc_words(self.delta_lap_time@) + spec_u32_to_le_bytes(spec_i32_to_raw(self.i_delta_lap_time)) + enc_words(self.estimated_lap_time@) + spec_u32_to_le_bytes(spec_i32_to_raw(self.i_estimated_lap_time)) + spec_u32_to_le_bytes(spec_i32_to_raw(self.is_delta_positive)) + spec_u32_to_le_bytes(spec_i32_to_raw(self.i_split)) + spec_u32_to_le_bytes(spec_i32_to_raw(self.is_valid_lap)) + spec_u32_to_le_bytes(self.fuel_estimated_laps) + enc_words(self.track_status@) + spec_u32_to_le_bytes(spec_i32_to_raw(self.missing_mandatory_pits)) + spec_u32_to_le_bytes(self.clock) + spec_u32_to_le_bytes(spec_i32_to_raw(self.direction_lights_left)) + spec_u32_to_le_bytes(spec_i32_to_raw(self.direction_lights_right)) + spec_u32_to_le_bytes(spec_i32_to_raw(self.global_yellow)) + spec_u32_to_le_bytes(spec_i32_to_raw(self.global_yellow1)) + spec_u32_to_le_bytes(spec_i32_to_raw(self.global_yellow2)) + spec_u32_to_le_bytes(spec_i32_to_raw(self.global_yellow3)) + spec_u32_to_le_bytes(spec_i32_to_raw(self.global_white)) + spec_u32_to_le_bytes(spec_i32_to_raw(self.global_green)) + spec_u32_to_le_bytes(spec_i32_to_raw(self.global_chequered)) + spec_u32_to_le_bytes(spec_i32_to_raw(self.global_red)) + spec_u32_to_le_bytes(spec_i32_to_raw(self.mfd_tyre_set)) + spec_u32_to_le_bytes(self.mfd_fuel_to_add) + spec_u32_to_le_bytes(self.mfd_tyre_pressure_lf) + spec_u32_to_le_bytes(self.mfd_tyre_pressure_rf) + spec_u32_to_le_bytes(self.mfd_tyre_pressure_lr) + spec_u32_to_le_bytes(self.mfd_tyre_pressure_rr) + spec_u32_to_le_bytes(self.track_grip_status) + spec_u32_to_le_bytes(self.rain_intensity) + spec_u32_to_le_bytes(self.rain_intensity_in_10min) + spec_u32_to_le_bytes(self.rain_intensity_in_30min) + spec_u32_to_le_bytes(spec_i32_to_raw(self.current_tyre_set)) + spec_u32_to_le_bytes(spec_i32_to_raw(self.strategy_tyre_set))
    }

    /// Decodes the leading `GRAPHICS_SIZE` bytes of a region into a snapshot.
    #[verifier::spinoff_prover]
    #[verifier::rlimit(100)]
    pub fn decode(bytes: &[u8]) -> (r: Self)
        requires
            bytes@.len() >= GRAPHICS_SIZE,
        ensures
            r.wf(),
            r.matches_bytes(bytes@),
    {
        Graphics {
            packet_id: read_i32_at(bytes, 0),
            status: read_u32_at(bytes, 4),
            session: read_i32_at(bytes, 8),
            current_time: read_words_at(bytes, 12, 15),
            last_time: read_words_at(bytes, 42, 15),
            best_time: read_words_at(bytes, 72, 15),
            split: read_words_at(bytes, 102, 15),
            completed_laps: read_i32_at(bytes, 132),
            position: read_i32_at(bytes, 136),
            i_current_time: read_i32_at(bytes, 140),
            i_last_time: read_i32_at(bytes, 144),
            i_best_time: read_i32_at(bytes, 148),
            session_time_left: read_u32_at(bytes, 152),
            distance_traveled: read_u32_at(bytes, 156),
            is_in_pit: read_i32_at(bytes, 160),
            current_sector_index: read_i32_at(bytes, 164),
            last_sector_time: read_i32_at(bytes, 168),
            number_of_laps: read_i32_at(bytes, 172),
            tyre_compound: read_words_at(bytes, 176, 34),
            replay_time_multiplier: read_u32_at(bytes, 244),
            normalized_car_position: read_u32_at(bytes, 248),
            active_cars: read_i32_at(bytes, 252),
            car_coordinates: read_dwords_at(bytes, 256, 180),
            car_id: read_i32s_at(bytes, 976, 60),
            player_car_id: read_i32_at(bytes, 1216),
            penalty_time: read_u32_at(bytes, 1220),
            flag: read_u32_at(bytes, 1224),
            penalty: read_u32_at(bytes, 1228),
            ideal_line_on: read_i32_at(bytes, 1232),
            is_in_pit_lane: read_i32_at(bytes, 1236),
            surface_grip: read_u32_at(bytes, 1240),
            mandatory_pit_done: read_i32_at(bytes, 1244),
            wind_speed: read_u32_at(bytes, 1248),
            wind_direction: read_u32_at(bytes, 1252),
            is_setup_menu_visible: read_i32_at(bytes, 1256),
            main_display_index: read_i32_at(bytes, 1260),
            secondary_display_index: read_i32_at(bytes, 1264),
            tc: read_i32_at(bytes, 1268),
            tc_cut: read_i32_at(bytes, 1272),
            engine_map: read_i32_at(bytes, 1276),
            abs: read_i32_at(bytes, 1280),
            fuel_x_lap: read_u32_at(bytes, 1284),
            rain_lights: read_i32_at(bytes, 1288),
            flashing_lights: read_i32_at(bytes, 1292),
            lights_stage: read_i32_at(bytes, 1296),
            exhaust_temperature: read_u32_at(bytes, 1300),
            wiper_lv: read_i32_at(bytes, 1304),
            driver_stint_total_time_left: read_i32_at(bytes, 1308),
            driver_stint_time_left: read_i32_at(bytes, 1312),
            rain_tyres: read_i32_at(bytes, 1316),
            session_index: read_i32_at(bytes, 1320),
            used_fuel: read_u32_at(bytes, 1324),
            delta_lap_time: read_words_at(bytes, 1328, 16),
            i_delta_lap_time: read_i32_at(bytes, 1360),
            estimated_lap_time: read_words_at(bytes, 1364, 16),
            i_estimated_lap_time: read_i32_at(bytes, 1396),
            is_delta_positive: read_i32_at(bytes, 1400),
            i_split: read_i32_at(bytes, 1404),
            is_valid_lap: read_i32_at(bytes, 1408),
            fuel_estimated_laps: read_u32_at(bytes, 1412),
            track_status: read_words_at(bytes, 1416, 34),
            missing_mandatory_pits: read_i32_at(bytes, 1484),
            clock: read_u32_at(bytes, 1488),
            direction_lights_left: read_i32_at(bytes, 1492),
            direction_lights_right: read_i32_at(bytes, 1496),
            global_yellow: read_i32_at(bytes, 1500),
            global_yellow1: read_i32_at(bytes, 1504),
            global_yellow2: read_i32_at(bytes, 1508),
            global_yellow3: read_i32_at(bytes, 1512),
            global_white: read_i32_at(bytes, 1516),
            global_green: read_i32_at(bytes, 1520),
            global_chequered: read_i32_at(bytes, 1524),
            global_red: read_i32_at(bytes, 1528),
            mfd_tyre_set: read_i32_at(bytes, 1532),
            mfd_fuel_to_add: read_u32_at(bytes, 1536),
            mfd_tyre_pressure_lf: read_u32_at(bytes, 1540),
            mfd_tyre_pressure_rf: read_u32_at(bytes, 1544),
            mfd_tyre_pressure_lr: read_u32_at(bytes, 1548),
            mfd_tyre_pressure_rr: read_u32_at(bytes, 1552),
            track_grip_status: read_u32_at(bytes, 1556),
            rain_intensity: read_u32_at(bytes, 1560),
            rain_intensity_in_10min: read_u32_at(bytes, 1564),
            rain_intensity_in_30min: read_u32_at(bytes, 1568),
            current_tyre_set: read_i32_at(bytes, 1572),
            strategy_tyre_set: read_i32_at(bytes, 1576),
        }
    }

    /// Encodes the snapshot back into its wire layout, padding zeroed.
    #[verifier::spinoff_prover]
    #[verifier::rlimit(100)]
    pub fn encode(&self) -> (out: Vec<u8>)
        ensures
            out@ == self.spec_encode(),
            self.wf() ==> out@.len() == GRAPHICS_SIZE,
    {
        let mut out: Vec<u8> = Vec::new();
        write_i32(&mut out, self.packet_id);
        assert(out@ =~= spec_u32_to_le_bytes(spec_i32_to_raw(self.packet_id)));
        write_u32(&mut out, self.status);
        write_i32(&mut out, self.session);
        write_words(&mut out, &self.current_time);
        write_words(&mut out, &self.last_time);
        write_words(&mut out, &self.best_time);
        write_words(&mut out, &self.split);
        write_i32(&mut out, self.completed_laps);
        write_i32(&mut out, self.position);
        write_i32(&mut out, self.i_current_time);
        write_i32(&mut out, self.i_last_time);
        write_i32(&mut out, self.i_best_time);
        write_u32(&mut out, self.session_time_left);
        write_u32(&mut out, self.distance_traveled);
        write_i32(&mut out, self.is_in_pit);
        write_i32(&mut out, self.current_sector_index);
        write_i32(&mut out, self.last_sector_time);
        write_i32(&mut out, self.number_of_laps);
        write_words(&mut out, &self.tyre_compound);
        write_u32(&mut out, self.replay_time_multiplier);
        write_u32(&mut out, self.normalized_car_position);
        write_i32(&mut out, self.active_cars);
        write_dwords(&mut out, &self.car_coordinates);
        write_i32s(&mut out, &self.car_id);
        write_i32(&mut out, self.player_car_id);
        write_u32(&mut out, self.penalty_time);
        write_u32(&mut out, self.flag);
        write_u32(&mut out, self.penalty);
        write_i32(&mut out, self.ideal_line_on);
        write_i32(&mut out, self.is_in_pit_lane);
        write_u32(&mut out, self.surface_grip);
        write_i32(&mut out, self.mandatory_pit_done);
        write_u32(&mut out, self.wind_speed);
        write_u32(&mut out, self.wind_direction);
        write_i32(&mut out, self.is_setup_menu_visible);
        write_i32(&mut out, self.main_display_index);
        write_i32(&mut out, self.secondary_display_index);
        write_i32(&mut out, self.tc);
        write_i32(&mut out, self.tc_cut);
        write_i32(&mut out, self.engine_map);
        write_i32(&mut out, self.abs);
        write_u32(&mut out, self.fuel_x_lap);
        write_i32(&mut out, self.rain_lights);
        write_i32(&mut out, self.flashing_lights);
        write_i32(&mut out, self.lights_stage);
        write_u32(&mut out, self.exhaust_temperature);
        write_i32(&mut out, self.wiper_lv);
        write_i32(&mut out, self.driver_stint_total_time_left);
        write_i32(&mut out, self.driver_stint_time_left);
        write_i32(&mut out, self.rain_tyres);
        write_i32(&mut out, self.session_index);
        write_u32(&mut out, self.used_fuel);
        write_words(&mut out, &self.delta_lap_time);
        write_i32(&mut out, self.i_delta_lap_time);
        write_words(&mut out, &self.estimated_lap_time);
        write_i32(&mut out, self.i_estimated_lap_time);
        write_i32(&mut out, self.is_delta_positive);
        write_i32(&mut out, self.i_split);
        write_i32(&mut out, self.is_valid_lap);
        write_u32(&mut out, self.fuel_estimated_laps);
        write_words(&mut out, &self.track_status);
        write_i32(&mut out, self.missing_mandatory_pits);
        write_u32(&mut out, self.clock);
        write_i32(&mut out, self.direction_lights_left);
        write_i32(&mut out, self.direction_lights_right);
        write_i32(&mut out, self.global_yellow);
        write_i32(&mut out, self.global_yellow1);
        write_i32(&mut out, self.global_yellow2);
        write_i32(&mut out, self.global_yellow3);
        write_i32(&mut out, self.global_white);
        write_i32(&mut out, self.global_green);
        write_i32(&mut out, self.global_chequered);
        write_i32(&mut out, self.global_red);
        write_i32(&mut out, self.mfd_tyre_set);
        write_u32(&mut out, self.mfd_fuel_to_add);
        write_u32(&mut out, self.mfd_tyre_pressure_lf);
        write_u32(&mut out, self.mfd_tyre_pressure_rf);
        write_u32(&mut out, self.mfd_tyre_pressure_lr);
        write_u32(&mut out, self.mfd_tyre_pressure_rr);
        write_u32(&mut out, self.track_grip_status);
        write_u32(&mut out, self.rain_intensity);
        write_u32(&mut out, self.rain_intensity_in_10min);
        write_u32(&mut out, self.rain_intensity_in_30min);
        write_i32(&mut out, self.current_tyre_set);
        write_i32(&mut out, self.strategy_tyre_set);
        proof {
            if self.wf() {
                Self::lemma_encode_len(*self);
            }
        }
        assert(out@ == self.spec_encode());
        out
    }

    /// A well-formed snapshot encodes to exactly the record size.
    pub proof fn lemma_encode_len(p: Self)
        requires
            p.wf(),
        ensures
            p.spec_encode().len() == GRAPHICS_SIZE,
    {
        vstd::bytes::lemma_auto_spec_u32_to_from_le_bytes();
        lemma_enc_words_len(p.current_time@);
        lemma_enc_words_len(p.last_time@);
        lemma_enc_words_len(p.best_time@);
        lemma_enc_words_len(p.split@);
        lemma_enc_words_len(p.tyre_compound@);
        lemma_enc_dwords_len(p.car_coordinates@);
        lemma_enc_i32s_len(p.car_id@);
        lemma_enc_words_len(p.delta_lap_time@);
        lemma_enc_words_len(p.estimated_lap_time@);
        lemma_enc_words_len(p.track_status@);
    }

    /// Decoding a buffer and re-encoding the fields reproduces the
    /// buffer's leading `GRAPHICS_SIZE` bytes.
    #[verifier::spinoff_prover]
    #[verifier::rlimit(100)]
    pub proof fn lemma_round_trip(p: Self, b: Seq<u8>)
        requires
            b.len() >= GRAPHICS_SIZE,
            p.matches_bytes(b),
        ensures
            p.spec_encode() == b.subrange(0, GRAPHICS_SIZE as int),
    {
        lemma_i32_raw_round_trip(le32_at(b, 0));
        lemma_enc_of_le32(b, 0);
        assert(spec_u32_to_le_bytes(spec_i32_to_raw(p.packet_id)) == b.subrange(0, 4));
        lemma_enc_of_le32(b, 4);
        assert(spec_u32_to_le_bytes(p.status) == b.subrange(4, 8));
        lemma_i32_raw_round_trip(le32_at(b, 8));
        lemma_enc_of_le32(b, 8);
        assert(spec_u32_to_le_bytes(spec_i32_to_raw(p.session)) == b.subrange(8, 12));
        lemma_enc_of_words_at(b, 12, 15);
        assert(enc_words(p.current_time@) == b.subrange(12, 42));
        lemma_enc_of_words_at(b, 42, 15);
        assert(enc_words(p.last_time@) == b.subrange(42, 72));
        lemma_enc_of_words_at(b, 72, 15);
        assert(enc_words(p.best_time@) == b.subrange(72, 102));
        lemma_enc_of_words_at(b, 102, 15);
        assert(enc_words(p.split@) == b.subrange(102, 132));
        lemma_i32_raw_round_trip(le32_at(b, 132));
        lemma_enc_of_le32(b, 132);
        assert(spec_u32_to_le_bytes(spec_i32_to_raw(p.completed_laps)) == b.subrange(132, 136));
        lemma_i32_raw_round_trip(le32_at(b, 136));
        lemma_enc_of_le32(b, 136);
        assert(spec_u32_to_le_bytes(spec_i32_to_raw(p.position)) == b.subrange(136, 140));
        lemma_i32_raw_round_trip(le32_at(b, 140));
        lemma_enc_of_le32(b, 140);
        assert(spec_u32_to_le_bytes(spec_i32_to_raw(p.i_current_time)) == b.subrange(140, 144));
        lemma_i32_raw_round_trip(le32_at(b, 144));
        lemma_enc_of_le32(b, 144);
        assert(spec_u32_to_le_bytes(spec_i32_to_raw(p.i_last_time)) == b.subrange(144, 148));
        lemma_i32_raw_round_trip(le32_at(b, 148));
        lemma_enc_of_le32(b, 148);
        assert(spec_u32_to_le_bytes(spec_i32_to_raw(p.i_best_time)) == b.subrange(148, 152));
        lemma_enc_of_le32(b, 152);
        assert(spec_u32_to_le_bytes(p.session_time_left) == b.subrange(152, 156));
        lemma_enc_of_le32(b, 156);
        assert(spec_u32_to_le_bytes(p.distance_traveled) == b.subrange(156, 160));
        lemma_i32_raw_round_trip(le32_at(b, 160));
        lemma_enc_of_le32(b, 160);
        assert(spec_u32_to_le_bytes(spec_i32_to_raw(p.is_in_pit)) == b.subrange(160, 164));
        lemma_i32_raw_round_trip(le32_at(b, 164));
        lemma_enc_of_le32(b, 164);
        assert(spec_u32_to_le_bytes(spec_i32_to_raw(p.current_sector_index)) == b.subrange(164, 168));
        lemma_i32_raw_round_trip(le32_at(b, 168));
        lemma_enc_of_le32(b, 168);
        assert(spec_u32_to_le_bytes(spec_i32_to_raw(p.last_sector_time)) == b.subrange(168, 172));
        lemma_i32_raw_round_trip(le32_at(b, 172));
        lemma_enc_of_le32(b, 172);
        assert(spec_u32_to_le_bytes(spec_i32_to_raw(p.number_of_laps)) == b.subrange(172, 176));
        lemma_enc_of_words_at(b, 176, 34);
        assert(enc_words(p.tyre_compound@) == b.subrange(176, 244));
        lemma_enc_of_le32(b, 244);
        assert(spec_u32_to_le_bytes(p.replay_time_multiplier) == b.subrange(244, 248));
        lemma_enc_of_le32(b, 248);
        assert(spec_u32_to_le_bytes(p.normalized_car_position) == b.subrange(248, 252));
        lemma_i32_raw_round_trip(le32_at(b, 252));
        lemma_enc_of_le32(b, 252);
        assert(spec_u32_to_le_bytes(spec_i32_to_raw(p.active_cars)) == b.subrange(252, 256));
        lemma_enc_of_dwords_at(b, 256, 180);
        assert(enc_dwords(p.car_coordinates@) == b.subrange(256, 976));
        lemma_enc_of_i32s_at(b, 976, 60);
        assert(enc_i32s(p.car_id@) == b.subrange(976, 1216));
        lemma_i32_raw_round_trip(le32_at(b, 1216));
        lemma_enc_of_le32(b, 1216);
        assert(spec_u32_to_le_bytes(spec_i32_to_raw(p.player_car_id)) == b.subrange(1216, 1220));
        lemma_enc_of_le32(b, 1220);
        assert(spec_u32_to_le_bytes(p.penalty_time) == b.subrange(1220, 1224));
        lemma_enc_of_le32(b, 1224);
        assert(spec_u32_to_le_bytes(p.flag) == b.subrange(1224, 1228));
        lemma_enc_of_le32(b, 1228);
        assert(spec_u32_to_le_bytes(p.penalty) == b.subrange(1228, 1232));
        lemma_i32_raw_round_trip(le32_at(b, 1232));
        lemma_enc_of_le32(b, 1232);
        assert(spec_u32_to_le_bytes(spec_i32_to_raw(p.ideal_line_on)) == b.subrange(1232, 1236));
        lemma_i32_raw_round_trip(le32_at(b, 1236));
        lemma_enc_of_le32(b, 1236);
        assert(spec_u32_to_le_bytes(spec_i32_to_raw(p.is_in_pit_lane)) == b.subrange(1236, 1240));
        lemma_enc_of_le32(b, 1240);
        assert(spec_u32_to_le_bytes(p.surface_grip) == b.subrange(1240, 1244));
        lemma_i32_raw_round_trip(le32_at(b, 1244));
        lemma_enc_of_le32(b, 1244);
        assert(spec_u32_to_le_bytes(spec_i32_to_raw(p.mandatory_pit_done)) == b.subrange(1244, 1248));
        lemma_enc_of_le32(b, 1248);
        assert(spec_u32_to_le_bytes(p.wind_speed) == b.subrange(1248, 1252));
        lemma_enc_of_le32(b, 1252);
        assert(spec_u32_to_le_bytes(p.wind_direction) == b.subrange(1252, 1256));
        lemma_i32_raw_round_trip(le32_at(b, 1256));
        lemma_enc_of_le32(b, 1256);
        assert(spec_u32_to_le_bytes(spec_i32_to_raw(p.is_setup_menu_visible)) == b.subrange(1256, 1260));
        lemma_i32_raw_round_trip(le32_at(b, 1260));
        lemma_enc_of_le32(b, 1260);
        assert(spec_u32_to_le_bytes(spec_i32_to_raw(p.main_display_index)) == b.subrange(1260, 1264));
        lemma_i32_raw_round_trip(le32_at(b, 1264));
        lemma_enc_of_le32(b, 1264);
        assert(spec_u32_to_le_bytes(spec_i32_to_raw(p.secondary_display_index)) == b.subrange(1264, 1268));
        lemma_i32_raw_round_trip(le32_at(b, 1268));
        lemma_enc_of_le32(b, 1268);
        assert(spec_u32_to_le_bytes(spec_i32_to_raw(p.tc)) == b.subrange(1268, 1272));
        lemma_i32_raw_round_trip(le32_at(b, 1272));
        lemma_enc_of_le32(b, 1272);
        assert(spec_u32_to_le_bytes(spec_i32_to_raw(p.tc_cut)) == b.subrange(1272, 1276));
        lemma_i32_raw_round_trip(le32_at(b, 1276));
        lemma_enc_of_le32(b, 1276);
        assert(spec_u32_to_le_bytes(spec_i32_to_raw(p.engine_map)) == b.subrange(1276, 1280));
        lemma_i32_raw_round_trip(le32_at(b, 1280));
        lemma_enc_of_le32(b, 1280);
        assert(spec_u32_to_le_bytes(spec_i32_to_raw(p.abs)) == b.subrange(1280, 1284));
        lemma_enc_of_le32(b, 1284);
        assert(spec_u32_to_le_bytes(p.fuel_x_lap) == b.subrange(1284, 1288));
        lemma_i32_raw_round_trip(le32_at(b, 1288));
        lemma_enc_of_le32(b, 1288);
        assert(spec_u32_to_le_bytes(spec_i32_to_raw(p.rain_lights)) == b.subrange(1288, 1292));
        lemma_i32_raw_round_trip(le32_at(b, 1292));
        lemma_enc_of_le32(b, 1292);
        assert(spec_u32_to_le_bytes(spec_i32_to_raw(p.flashing_lights)) == b.subrange(1292, 1296));
        lemma_i32_raw_round_trip(le32_at(b, 1296));
        lemma_enc_of_le32(b, 1296);
        assert(spec_u32_to_le_bytes(spec_i32_to_raw(p.lights_stage)) == b.subrange(1296, 1300));
        lemma_enc_of_le32(b, 1300);
        assert(spec_u32_to_le_bytes(p.exhaust_temperature) == b.subrange(1300, 1304));
        lemma_i32_raw_round_trip(le32_at(b, 1304));
        lemma_enc_of_le32(b, 1304);
        assert(spec_u32_to_le_bytes(spec_i32_to_raw(p.wiper_lv)) == b.subrange(1304, 1308));
        lemma_i32_raw_round_trip(le32_at(b, 1308));
        lemma_enc_of_le32(b, 1308);
        assert(spec_u32_to_le_bytes(spec_i32_to_raw(p.driver_stint_total_time_left)) == b.subrange(1308, 1312));
        lemma_i32_raw_round_trip(le32_at(b, 1312));
        lemma_enc_of_le32(b, 1312);
        assert(spec_u32_to_le_bytes(spec_i32_to_raw(p.driver_stint_time_left)) == b.subrange(1312, 1316));
        lemma_i32_raw_round_trip(le32_at(b, 1316));
        lemma_enc_of_le32(b, 1316);
        assert(spec_u32_to_le_bytes(spec_i32_to_raw(p.rain_tyres)) == b.subrange(1316, 1320));
        lemma_i32_raw_round_trip(le32_at(b, 1320));
        lemma_enc_of_le32(b, 1320);
        assert(spec_u32_to_le_bytes(spec_i32_to_raw(p.session_index)) == b.subrange(1320, 1324));
        lemma_enc_of_le32(b, 1324);
        assert(spec_u32_to_le_bytes(p.used_fuel) == b.subrange(1324, 1328));
        lemma_enc_of_words_at(b, 1328, 16);
        assert(enc_words(p.delta_lap_time@) == b.subrange(1328, 1360));
        lemma_i32_raw_round_trip(le32_at(b, 1360));
        lemma_enc_of_le32(b, 1360);
        assert(spec_u32_to_le_bytes(spec_i32_to_raw(p.i_delta_lap_time)) == b.subrange(1360, 1364));
        lemma_enc_of_words_at(b, 1364, 16);
        assert(enc_words(p.estimated_lap_time@) == b.subrange(1364, 1396));
        lemma_i32_raw_round_trip(le32_at(b, 1396));
        lemma_enc_of_le32(b, 1396);
        assert(spec_u32_to_le_bytes(spec_i32_to_raw(p.i_estimated_lap_time)) == b.subrange(1396, 1400));
        lemma_i32_raw_round_trip(le32_at(b, 1400));
        lemma_enc_of_le32(b, 1400);
        assert(spec_u32_to_le_bytes(spec_i32_to_raw(p.is_delta_positive)) == b.subrange(1400, 1404));
        lemma_i32_raw_round_trip(le32_at(b, 1404));
        lemma_enc_of_le32(b, 1404);
        assert(spec_u32_to_le_bytes(spec_i32_to_raw(p.i_split)) == b.subrange(1404, 1408));
        lemma_i32_raw_round_trip(le32_at(b, 1408));
        lemma_enc_of_le32(b, 1408);
        assert(spec_u32_to_le_bytes(spec_i32_to_raw(p.is_valid_lap)) == b.subrange(1408, 1412));
        lemma_enc_of_le32(b, 1412);
        assert(spec_u32_to_le_bytes(p.fuel_estimated_laps) == b.subrange(1412, 1416));
        lemma_enc_of_words_at(b, 1416, 34);
        assert(enc_words(p.track_status@) == b.subrange(1416, 1484));
        lemma_i32_raw_round_trip(le32_at(b, 1484));
        lemma_enc_of_le32(b, 1484);
        assert(spec_u32_to_le_bytes(spec_i32_to_raw(p.missing_mandatory_pits)) == b.subrange(1484, 1488));
        lemma_enc_of_le32(b, 1488);
        assert(spec_u32_to_le_bytes(p.clock) == b.subrange(1488, 1492));
        lemma_i32_raw_round_trip(le32_at(b, 1492));
        lemma_enc_of_le32(b, 1492);
        assert(spec_u32_to_le_bytes(spec_i32_to_raw(p.direction_lights_left)) == b.subrange(1492, 1496));
        lemma_i32_raw_round_trip(le32_at(b, 1496));
        lemma_enc_of_le32(b, 1496);
        assert(spec_u32_to_le_bytes(spec_i32_to_raw(p.direction_lights_right)) == b.subrange(1496, 1500));
        lemma_i32_raw_round_trip(le32_at(b, 1500));
        lemma_enc_of_le32(b, 1500);
        assert(spec_u32_to_le_bytes(spec_i32_to_raw(p.global_yellow)) == b.subrange(1500, 1504));
        lemma_i32_raw_round_trip(le32_at(b, 1504));
        lemma_enc_of_le32(b, 1504);
        assert(spec_u32_to_le_bytes(spec_i32_to_raw(p.global_yellow1)) == b.subrange(1504, 1508));
        lemma_i32_raw_round_trip(le32_at(b, 1508));
        lemma_enc_of_le32(b, 1508);
        assert(spec_u32_to_le_bytes(spec_i32_to_raw(p.global_yellow2)) == b.subrange(1508, 1512));
        lemma_i32_raw_round_trip(le32_at(b, 1512));
        lemma_enc_of_le32(b, 1512);
        assert(spec_u32_to_le_bytes(spec_i32_to_raw(p.global_yellow3)) == b.subrange(1512, 1516));
        lemma_i32_raw_round_trip(le32_at(b, 1516));
        lemma_enc_of_le32(b, 1516);
        assert(spec_u32_to_le_bytes(spec_i32_to_raw(p.global_white)) == b.subrange(1516, 1520));
        lemma_i32_raw_round_trip(le32_at(b, 1520));
        lemma_enc_of_le32(b, 1520);
        assert(spec_u32_to_le_bytes(spec_i32_to_raw(p.global_green)) == b.subrange(1520, 1524));
        lemma_i32_raw_round_trip(le32_at(b, 1524));
        lemma_enc_of_le32(b, 1524);
        assert(spec_u32_to_le_bytes(spec_i32_to_raw(p.global_chequered)) == b.subrange(1524, 1528));
        lemma_i32_raw_round_trip(le32_at(b, 1528));
        lemma_enc_of_le32(b, 1528);
        assert(spec_u32_to_le_bytes(spec_i32_to_raw(p.global_red)) == b.subrange(1528, 1532));
        lemma_i32_raw_round_trip(le32_at(b, 1532));
        lemma_enc_of_le32(b, 1532);
        assert(spec_u32_to_le_bytes(spec_i32_to_raw(p.mfd_tyre_set)) == b.subrange(1532, 1536));
        lemma_enc_of_le32(b, 1536);
        assert(spec_u32_to_le_bytes(p.mfd_fuel_to_add) == b.subrange(1536, 1540));
        lemma_enc_of_le32(b, 1540);
        assert(spec_u32_to_le_bytes(p.mfd_tyre_pressure_lf) == b.subrange(1540, 1544));
        lemma_enc_of_le32(b, 1544);
        assert(spec_u32_to_le_bytes(p.mfd_tyre_pressure_rf) == b.subrange(1544, 1548));
        lemma_enc_of_le32(b, 1548);
        assert(spec_u32_to_le_bytes(p.mfd_tyre_pressure_lr) == b.subrange(1548, 1552));
        lemma_enc_of_le32(b, 1552);
        assert(spec_u32_to_le_bytes(p.mfd_tyre_pressure_rr) == b.subrange(1552, 1556));
        lemma_enc_of_le32(b, 1556);
        assert(spec_u32_to_le_bytes(p.track_grip_status) == b.subrange(1556, 1560));
        lemma_enc_of_le32(b, 1560);
        assert(spec_u32_to_le_bytes(p.rain_intensity) == b.subrange(1560, 1564));
        lemma_enc_of_le32(b, 1564);
        assert(spec_u32_to_le_bytes(p.rain_intensity_in_10min) == b.subrange(1564, 1568));
        lemma_enc_of_le32(b, 1568);
        assert(spec_u32_to_le_bytes(p.rain_intensity_in_30min) == b.subrange(1568, 1572));
        lemma_i32_raw_round_trip(le32_at(b, 1572));
        lemma_enc_of_le32(b, 1572);
        assert(spec_u32_to_le_bytes(spec_i32_to_raw(p.current_tyre_set)) == b.subrange(1572, 1576));
        lemma_i32_raw_round_trip(le32_at(b, 1576));
        lemma_enc_of_le32(b, 1576);
        assert(spec_u32_to_le_bytes(spec_i32_to_raw(p.strategy_tyre_set)) == b.subrange(1576, 1580));
        assert(b.subrange(0, 4) + b.subrange(4, 8) =~= b.subrange(0, 8));
        assert(b.subrange(0, 8) + b.subrange(8, 12) =~= b.subrange(0, 12));
        assert(b.subrange(0, 12) + b.subrange(12, 42) =~= b.subrange(0, 42));
        assert(b.subrange(0, 42) + b.subrange(42, 72) =~= b.subrange(0, 72));
        assert(b.subrange(0, 72) + b.subrange(72, 102) =~= b.subrange(0, 102));
        assert(b.subrange(0, 102) + b.subrange(102, 132) =~= b.subrange(0, 132));
        assert(b.subrange(0, 132) + b.subrange(132, 136) =~= b.subrange(0, 136));
        assert(b.subrange(0, 136) + b.subrange(136, 140) =~= b.subrange(0, 140));
        assert(b.subrange(0, 140) + b.subrange(140, 144) =~= b.subrange(0, 144));
        assert(b.subrange(0, 144) + b.subrange(144, 148) =~= b.subrange(0, 148));
        assert(b.subrange(0, 148) + b.subrange(148, 152) =~= b.subrange(0, 152));
        assert(b.subrange(0, 152) + b.subrange(152, 156) =~= b.subrange(0, 156));
        assert(b.subrange(0, 156) + b.subrange(156, 160) =~= b.subrange(0, 160));
        assert(b.subrange(0, 160) + b.subrange(160, 164) =~= b.subrange(0, 164));
        assert(b.subrange(0, 164) + b.subrange(164, 168) =~= b.subrange(0, 168));
        assert(b.subrange(0, 168) + b.subrange(168, 172) =~= b.subrange(0, 172));
        assert(b.subrange(0, 172) + b.subrange(172, 176) =~= b.subrange(0, 176));
        assert(b.subrange(0, 176) + b.subrange(176, 244) =~= b.subrange(0, 244));
        assert(b.subrange(0, 244) + b.subrange(244, 248) =~= b.subrange(0, 248));
        assert(b.subrange(0, 248) + b.subrange(248, 252) =~= b.subrange(0, 252));
        assert(b.subrange(0, 252) + b.subrange(252, 256) =~= b.subrange(0, 256));
        assert(b.subrange(0, 256) + b.subrange(256, 976) =~= b.subrange(0, 976));
        assert(b.subrange(0, 976) + b.subrange(976, 1216) =~= b.subrange(0, 1216));
        assert(b.subrange(0, 1216) + b.subrange(1216, 1220) =~= b.subrange(0, 1220));
        assert(b.subrange(0, 1220) + b.subrange(1220, 1224) =~= b.subrange(0, 1224));
        assert(b.subrange(0, 1224) + b.subrange(1224, 1228) =~= b.subrange(0, 1228));
        assert(b.subrange(0, 1228) + b.subrange(1228, 1232) =~= b.subrange(0, 1232));
        assert(b.subrange(0, 1232) + b.subrange(1232, 1236) =~= b.subrange(0, 1236));
        assert(b.subrange(0, 1236) + b.subrange(1236, 1240) =~= b.subrange(0, 1240));
        assert(b.subrange(0, 1240) + b.subrange(1240, 1244) =~= b.subrange(0, 1244));
        assert(b.subrange(0, 1244) + b.subrange(1244, 1248) =~= b.subrange(0, 1248));
        assert(b.subrange(0, 1248) + b.subrange(1248, 1252) =~= b.subrange(0, 1252));
        assert(b.subrange(0, 1252) + b.subrange(1252, 1256) =~= b.subrange(0, 1256));
        assert(b.subrange(0, 1256) + b.subrange(1256, 1260) =~= b.subrange(0, 1260));
        assert(b.subrange(0, 1260) + b.subrange(1260, 1264) =~= b.subrange(0, 1264));
        assert(b.subrange(0, 1264) + b.subrange(1264, 1268) =~= b.subrange(0, 1268));
        assert(b.subrange(0, 1268) + b.subrange(1268, 1272) =~= b.subrange(0, 1272));
        assert(b.subrange(0, 1272) + b.subrange(1272, 1276) =~= b.subrange(0, 1276));
        assert(b.subrange(0, 1276) + b.subrange(1276, 1280) =~= b.subrange(0, 1280));
        assert(b.subrange(0, 1280) + b.subrange(1280, 1284) =~= b.subrange(0, 1284));
        assert(b.subrange(0, 1284) + b.subrange(1284, 1288) =~= b.subrange(0, 1288));
        assert(b.subrange(0, 1288) + b.subrange(1288, 1292) =~= b.subrange(0, 1292));
        assert(b.subrange(0, 1292) + b.subrange(1292, 1296) =~= b.subrange(0, 1296));
        assert(b.subrange(0, 1296) + b.subrange(1296, 1300) =~= b.subrange(0, 1300));
        assert(b.subrange(0, 1300) + b.subrange(1300, 1304) =~= b.subrange(0, 1304));
        assert(b.subrange(0, 1304) + b.subrange(1304, 1308) =~= b.subrange(0, 1308));
        assert(b.subrange(0, 1308) + b.subrange(1308, 1312) =~= b.subrange(0, 1312));
        assert(b.subrange(0, 1312) + b.subrange(1312, 1316) =~= b.subrange(0, 1316));
        assert(b.subrange(0, 1316) + b.subrange(1316, 1320) =~= b.subrange(0, 1320));
        assert(b.subrange(0, 1320) + b.subrange(1320, 1324) =~= b.subrange(0, 1324));
        assert(b.subrange(0, 1324) + b.subrange(1324, 1328) =~= b.subrange(0, 1328));
        assert(b.subrange(0, 1328) + b.subrange(1328, 1360) =~= b.subrange(0, 1360));
        assert(b.subrange(0, 1360) + b.subrange(1360, 1364) =~= b.subrange(0, 1364));
        assert(b.subrange(0, 1364) + b.subrange(1364, 1396) =~= b.subrange(0, 1396));
        assert(b.subrange(0, 1396) + b.subrange(1396, 1400) =~= b.subrange(0, 1400));
        assert(b.subrange(0, 1400) + b.subrange(1400, 1404) =~= b.subrange(0, 1404));
        assert(b.subrange(0, 1404) + b.subrange(1404, 1408) =~= b.subrange(0, 1408));
        assert(b.subrange(0, 1408) + b.subrange(1408, 1412) =~= b.subrange(0, 1412));
        assert(b.subrange(0, 1412) + b.subrange(1412, 1416) =~= b.subrange(0, 1416));
        assert(b.subrange(0, 1416) + b.subrange(1416, 1484) =~= b.subrange(0, 1484));
        assert(b.subrange(0, 1484) + b.subrange(1484, 1488) =~= b.subrange(0, 1488));
        assert(b.subrange(0, 1488) + b.subrange(1488, 1492) =~= b.subrange(0, 1492));
        assert(b.subrange(0, 1492) + b.subrange(1492, 1496) =~= b.subrange(0, 1496));
        assert(b.subrange(0, 1496) + b.subrange(1496, 1500) =~= b.subrange(0, 1500));
        assert(b.subrange(0, 1500) + b.subrange(1500, 1504) =~= b.subrange(0, 1504));
        assert(b.subrange(0, 1504) + b.subrange(1504, 1508) =~= b.subrange(0, 1508));
        assert(b.subrange(0, 1508) + b.subrange(1508, 1512) =~= b.subrange(0, 1512));
        assert(b.subrange(0, 1512) + b.subrange(1512, 1516) =~= b.subrange(0, 1516));
        assert(b.subrange(0, 1516) + b.subrange(1516, 1520) =~= b.subrange(0, 1520));
        assert(b.subrange(0, 1520) + b.subrange(1520, 1524) =~= b.subrange(0, 1524));
        assert(b.subrange(0, 1524) + b.subrange(1524, 1528) =~= b.subrange(0, 1528));
        assert(b.subrange(0, 1528) + b.subrange(1528, 1532) =~= b.subrange(0, 1532));
        assert(b.subrange(0, 1532) + b.subrange(1532, 1536) =~= b.subrange(0, 1536));
        assert(b.subrange(0, 1536) + b.subrange(1536, 1540) =~= b.subrange(0, 1540));
        assert(b.subrange(0, 1540) + b.subrange(1540, 1544) =~= b.subrange(0, 1544));
        assert(b.subrange(0, 1544) + b.subrange(1544, 1548) =~= b.subrange(0, 1548));
        assert(b.subrange(0, 1548) + b.subrange(1548, 1552) =~= b.subrange(0, 1552));
        assert(b.subrange(0, 1552) + b.subrange(1552, 1556) =~= b.subrange(0, 1556));
        assert(b.subrange(0, 1556) + b.subrange(1556, 1560) =~= b.subrange(0, 1560));
        assert(b.subrange(0, 1560) + b.subrange(1560, 1564) =~= b.subrange(0, 1564));
        assert(b.subrange(0, 1564) + b.subrange(1564, 1568) =~= b.subrange(0, 1568));
        assert(b.subrange(0, 1568) + b.subrange(1568, 1572) =~= b.subrange(0, 1572));
        assert(b.subrange(0, 1572) + b.subrange(1572, 1576) =~= b.subrange(0, 1576));
        assert(b.subrange(0, 1576) + b.subrange(1576, 1580) =~= b.subrange(0, 1580));
        assert(p.spec_encode() == b.subrange(0, GRAPHICS_SIZE as int));
    }

    /// The `current_time` text field, decoded from its wide characters.
    pub fn current_time_str(&self) -> (r: String)
        ensures
            r@ == utf16_text(self.current_time@),
    {
        utf16_to_string(self.current_time.as_slice())
    }

    /// The `last_time` text field, decoded from its wide characters.
    pub fn last_time_str(&self) -> (r: String)
        ensures
            r@ == utf16_text(self.last_time@),
    {
        utf16_to_string(self.last_time.as_slice())
    }

    /// The `best_time` text field, decoded from its wide characters.
    pub fn best_time_str(&self) -> (r: String)
        ensures
            r@ == utf16_text(self.best_time@),
    {
        utf16_to_string(self.best_time.as_slice())
    }

    /// The `split` text field, decoded from its wide characters.
    pub fn split_str(&self) -> (r: String)
        ensures
            r@ == utf16_text(self.split@),
    {
        utf16_to_string(self.split.as_slice())
    }

    /// The `tyre_compound` text field, decoded from its wide characters.
    pub fn tyre_compound_str(&self) -> (r: String)
        ensures
            r@ == utf16_text(self.tyre_compound@),
    {
        utf16_to_string(self.tyre_compound.as_slice())
    }
}

impl Default for Graphics {
    /// The all-zero snapshot.
    fn default() -> (r: Self)
        ensures
            r.wf(),
    {
        Graphics {
            packet_id: 0,
            status: 0,
            session: 0,
            current_time: zero_words(15),
            last_time: zero_words(15),
            best_time: zero_words(15),
            split: zero_words(15),
            completed_laps: 0,
            position: 0,
            i_current_time: 0,
            i_last_time: 0,
            i_best_time: 0,
            session_time_left: 0,
            distance_traveled: 0,
            is_in_pit: 0,
            current_sector_index: 0,
            last_sector_time: 0,
            number_of_laps: 0,
            tyre_compound: zero_words(34),
            replay_time_multiplier: 0,
            normalized_car_position: 0,
            active_cars: 0,
            car_coordinates: zero_dwords(180),
            car_id: zero_i32s(60),
            player_car_id: 0,
            penalty_time: 0,
            flag: 0,
            penalty: 0,
            ideal_line_on: 0,
            is_in_pit_lane: 0,
            surface_grip: 0,
            mandatory_pit_done: 0,
            wind_speed: 0,
            wind_direction: 0,
            is_setup_menu_visible: 0,
            main_display_index: 0,
            secondary_display_index: 0,
            tc: 0,
            tc_cut: 0,
            engine_map: 0,
            abs: 0,
            fuel_x_lap: 0,
            rain_lights: 0,
            flashing_lights: 0,
            lights_stage: 0,
            exhaust_temperature: 0,
            wiper_lv: 0,
            driver_stint_total_time_left: 0,
            driver_stint_time_left: 0,
            rain_tyres: 0,
            session_index: 0,
            used_fuel: 0,
            delta_lap_time: zero_words(16),
            i_delta_lap_time: 0,
            estimated_lap_time: zero_words(16),
            i_estimated_lap_time: 0,
            is_delta_positive: 0,
            i_split: 0,
            is_valid_lap: 0,
            fuel_estimated_laps: 0,
            track_status: zero_words(34),
            missing_mandatory_pits: 0,
            clock: 0,
            direction_lights_left: 0,
            direction_lights_right: 0,
            global_yellow: 0,
            global_yellow1: 0,
            global_yellow2: 0,
            global_yellow3: 0,
            global_white: 0,
            global_green: 0,
            global_chequered: 0,
            global_red: 0,
            mfd_tyre_set: 0,
            mfd_fuel_to_add: 0,
            mfd_tyre_pressure_lf: 0,
            mfd_tyre_pressure_rf: 0,
            mfd_tyre_pressure_lr: 0,
            mfd_tyre_pressure_rr: 0,
            track_grip_status: 0,
            rain_intensity: 0,
            rain_intensity_in_10min: 0,
            rain_intensity_in_30min: 0,
            current_tyre_set: 0,
            strategy_tyre_set: 0,
        }
    }
}

/// One static-info snapshot: session-wide facts fixed at load time.
///
/// The field order, widths and offsets mirror the producer's in-memory
/// struct byte for byte; `matches_bytes` is that layout, stated once.
#[derive(Debug, Clone, PartialEq)]
pub struct StaticInfo {
    pub sm_version: Vec<u16>,  // UTF-16 text
    pub acc_version: Vec<u16>,  // UTF-16 text
    pub number_of_sessions: i32,
    pub num_cars: i32,
    pub car_model: Vec<u16>,  // UTF-16 text
    pub track: Vec<u16>,  // UTF-16 text
    pub player_name: Vec<u16>,  // UTF-16 text
    pub player_surname: Vec<u16>,  // UTF-16 text
    pub player_nick: Vec<u16>,  // UTF-16 text
    pub sector_count: i32,
    pub max_torque: u32,
    pub max_power: u32,
    pub max_rpm: i32,
    pub max_fuel: u32,
    pub suspension_max_travel: Vec<u32>,
    pub tyre_radius: Vec<u32>,
    pub max_turbo_boost: u32,
    pub deprecated1: u32,
    pub deprecated2: u32,
    pub penalties_enabled: i32,
    pub aid_fuel_rate: u32,
    pub aid_tire_rate: u32,
    pub aid_mechanical_damage: u32,
    pub aid_allow_tyre_blankets: i32,
    pub aid_stability: i32,
    pub aid_auto_clutch: i32,
    pub aid_auto_blip: i32,
    pub has_drs: i32,
    pub has_ers: i32,
    pub has_kers: i32,
    pub kers_max_joules: u32,
    pub engine_brake_settings_count: i32,
    pub ers_power_controller_count: i32,
    pub track_spline_length: u32,
    pub track_configuration: Vec<u16>,  // UTF-16 text
    pub ers_max_j: u32,
    pub is_timed_race: i32,
    pub has_extra_lap: i32,
    pub car_skin: Vec<u16>,  // UTF-16 text
    pub reversed_grid_positions: i32,
    pub pit_window_start: i32,
    pub pit_window_end: i32,
    pub is_online: i32,
    pub dry_tyres_name: Vec<u16>,  // UTF-16 text
    pub wet_tyres_name: Vec<u16>,  // UTF-16 text
}

impl StaticInfo {
    /// Every array-valued field has its fixed layout width.
    pub open spec fn wf(self) -> bool {
        &&& self.sm_version@.len() == 15
        &&& self.acc_version@.len() == 15
        &&& self.car_model@.len() == 33
        &&& self.track@.len() == 33
        &&& self.player_name@.len() == 33
        &&& self.player_surname@.len() == 33
        &&& self.player_nick@.len() == 34
        &&& self.suspension_max_travel@.len() == 4
        &&& self.tyre_radius@.len() == 4
        &&& self.track_configuration@.len() == 34
        &&& self.car_skin@.len() == 34
        &&& self.dry_tyres_name@.len() == 33
        &&& self.wet_tyres_name@.len() == 33
    }

    /// The layout contract: how each field is stored in the record's bytes.
    pub open spec fn matches_bytes(self, b: Seq<u8>) -> bool {
        &&& self.sm_version@ == words_at(b, 0, 15)
        &&& self.acc_version@ == words_at(b, 30, 15)
        &&& self.number_of_sessions == spec_i32_from_raw(le32_at(b, 60))
        &&& self.num_cars == spec_i32_from_raw(le32_at(b, 64))
        &&& self.car_model@ == words_at(b, 68, 33)
        &&& self.track@ == words_at(b, 134, 33)
        &&& self.player_name@ == words_at(b, 200, 33)
        &&& self.player_surname@ == words_at(b, 266, 33)
        &&& self.player_nick@ == words_at(b, 332, 34)
        &&& self.sector_count == spec_i32_from_raw(le32_at(b, 400))
        &&& self.max_torque == le32_at(b, 404)
        &&& self.max_power == le32_at(b, 408)
        &&& self.max_rpm == spec_i32_from_raw(le32_at(b, 412))
        &&& self.max_fuel == le32_at(b, 416)
        &&& self.suspension_max_travel@ == dwords_at(b, 420, 4)
        &&& self.tyre_radius@ == dwords_at(b, 436, 4)
        &&& self.max_turbo_boost == le32_at(b, 452)
        &&& self.deprecated1 == le32_at(b, 456)
        &&& self.deprecated2 == le32_at(b, 460)
        &&& self.penalties_enabled == spec_i32_from_raw(le32_at(b, 464))
        &&& self.aid_fuel_rate == le32_at(b, 468)
        &&& self.aid_tire_rate == le32_at(b, 472)
        &&& self.aid_mechanical_damage == le32_at(b, 476)
        &&& self.aid_allow_tyre_blankets == spec_i32_from_raw(le32_at(b, 480))
        &&& self.aid_stability == spec_i32_from_raw(le32_at(b, 484))
        &&& self.aid_auto_clutch == spec_i32_from_raw(le32_at(b, 488))
        &&& self.aid_auto_blip == spec_i32_from_raw(le32_at(b, 492))
        &&& self.has_drs == spec_i32_from_raw(le32_at(b, 496))
        &&& self.has_ers == spec_i32_from_raw(le32_at(b, 500))
        &&& self.has_kers == spec_i32_from_raw(le32_at(b, 504))
        &&& self.kers_max_joules == le32_at(b, 508)
        &&& self.engine_brake_settings_count == spec_i32_from_raw(le32_at(b, 512))
        &&& self.ers_power_controller_count == spec_i32_from_raw(le32_at(b, 516))
        &&& self.track_spline_length == le32_at(b, 520)
        &&& self.track_configuration@ == words_at(b, 524, 34)
        &&& self.ers_max_j == le32_at(b, 592)
        &&& self.is_timed_race == spec_i32_from_raw(le32_at(b, 596))
        &&& self.has_extra_lap == spec_i32_from_raw(le32_at(b, 600))
        &&& self.car_skin@ == words_at(b, 604, 34)
        &&& self.reversed_grid_positions == spec_i32_from_raw(le32_at(b, 672))
        &&& self.pit_window_start == spec_i32_from_raw(le32_at(b, 676))
        &&& self.pit_window_end == spec_i32_from_raw(le32_at(b, 680))
        &&& self.is_online == spec_i32_from_raw(le32_at(b, 684))
        &&& self.dry_tyres_name@ == words_at(b, 688, 33)
        &&& self.wet_tyres_name@ == words_at(b, 754, 33)
    }

    /// The canonical encoding of this record, padding included.
    pub open spec fn spec_encode(self) -> Seq<u8> {
        enc_words(self.sm_version@) + enc_words(self.acc_version@) + spec_u32_to_le_bytes(spec_i32_to_raw(self.number_of_sessions)) + spec_u32_to_le_bytes(spec_i32_to_raw(self.num_cars)) + enc_words(self.car_model@) + enc_words(self.track@) + enc_words(self.player_name@) + enc_words(self.player_surname@) + enc_words(self.player_nick@) + spec_u32_to_le_bytes(spec_i32_to_raw(self.sector_count)) + spec_u32_to_le_bytes(self.max_torque) + spec_u32_to_le_bytes(self.max_power) + spec_u32_to_le_bytes(spec_i32_to_raw(self.max_rpm)) + spec_u32_to_le_bytes(self.max_fuel) + enc_dwords(self.suspension_max_travel@) + enc_dwords(self.tyre_radius@) + spec_u32_to_le_bytes(self.max_turbo_boost) + spec_u32_to_le_bytes(self.deprecated1) + spec_u32_to_le_bytes(self.deprecated2) + spec_u32_to_le_bytes(spec_i32_to_raw(self.penalties_enabled)) + spec_u32_to_le_bytes(self.aid_fuel_rate) + spec_u32_to_le_bytes(self.aid_tire_rate) + spec_u32_to_le_bytes(self.aid_mechanical_damage) + spec_u32_to_le_bytes(spec_i32_to_raw(self.aid_allow_tyre_blankets)) + spec_u32_to_le_bytes(spec_i32_to_raw(self.aid_stability)) + spec_u32_to_le_bytes(spec_i32_to_raw(self.aid_auto_clutch)) + spec_u32_to_le_bytes(spec_i32_to_raw(self.aid_auto_blip)) + spec_u32_to_le_bytes(spec_i32_to_raw(self.has_drs)) + spec_u32_to_le_bytes(spec_i32_to_raw(self.has_ers)) + spec_u32_to_le_bytes(spec_i32_to_raw(self.has_kers)) + spec_u32_to_le_bytes(self.kers_max_joules) + spec_u32_to_le_bytes(spec_i32_to_raw(self.engine_brake_settings_count)) + spec_u32_to_le_bytes(spec_i32_to_raw(self.ers_power_controller_count)) + spec_u32_to_le_bytes(self.track_spline_length) + enc_words(self.track_configuration@) + spec_u32_to_le_bytes(self.ers_max_j) + spec_u32_to_le_bytes(spec_i32_to_raw(self.is_timed_race)) + spec_u32_to_le_bytes(spec_i32_to_raw(self.has_extra_lap)) + enc_words(self.car_skin@) + spec_u32_to_le_bytes(spec_i32_to_raw(self.reversed_grid_positions)) + spec_u32_to_le_bytes(spec_i32_to_raw(self.pit_window_start)) + spec_u32_to_le_bytes(spec_i32_to_raw(self.pit_window_end)) + spec_u32_to_le_bytes(spec_i32_to_raw(self.is_online)) + enc_words(self.dry_tyres_name@) + enc_words(self.wet_tyres_name@)
    }

    /// Decodes the leading `STATIC_INFO_SIZE` bytes of a region into a snapshot.
    #[verifier::spinoff_prover]
    #[verifier::rlimit(100)]
    pub fn decode(bytes: &[u8]) -> (r: Self)
        requires
            bytes@.len() >= STATIC_INFO_SIZE,
        ensures
            r.wf(),
            r.matches_bytes(bytes@),
    {
        StaticInfo {
            sm_version: read_words_at(bytes, 0, 15),
            acc_version: read_words_at(bytes, 30, 15),
            number_of_sessions: read_i32_at(bytes, 60),
            num_cars: read_i32_at(bytes, 64),
            car_model: read_words_at(bytes, 68, 33),
            track: read_words_at(bytes, 134, 33),
            player_name: read_words_at(bytes, 200, 33),
            player_surname: read_words_at(bytes, 266, 33),
            player_nick: read_words_at(bytes, 332, 34),
            sector_count: read_i32_at(bytes, 400),
            max_torque: read_u32_at(bytes, 404),
            max_power: read_u32_at(bytes, 408),
            max_rpm: read_i32_at(bytes, 412),
            max_fuel: read_u32_at(bytes, 416),
            suspension_max_travel: read_dwords_at(bytes, 420, 4),
            tyre_radius: read_dwords_at(bytes, 436, 4),
            max_turbo_boost: read_u32_at(bytes, 452),
            deprecated1: read_u32_at(bytes, 456),
            deprecated2: read_u32_at(bytes, 460),
            penalties_enabled: read_i32_at(bytes, 464),
            aid_fuel_rate: read_u32_at(bytes, 468),
            aid_tire_rate: read_u32_at(bytes, 472),
            aid_mechanical_damage: read_u32_at(bytes, 476),
            aid_allow_tyre_blankets: read_i32_at(bytes, 480),
            aid_stability: read_i32_at(bytes, 484),
            aid_auto_clutch: read_i32_at(bytes, 488),
            aid_auto_blip: read_i32_at(bytes, 492),
            has_drs: read_i32_at(bytes, 496),
            has_ers: read_i32_at(bytes, 500),
            has_kers: read_i32_at(bytes, 504),
            kers_max_joules: read_u32_at(bytes, 508),
            engine_brake_settings_count: read_i32_at(bytes, 512),
            ers_power_controller_count: read_i32_at(bytes, 516),
            track_spline_length: read_u32_at(bytes, 520),
            track_configuration: read_words_at(bytes, 524, 34),
            ers_max_j: read_u32_at(bytes, 592),
            is_timed_race: read_i32_at(bytes, 596),
            has_extra_lap: read_i32_at(bytes, 600),
            car_skin: read_words_at(bytes, 604, 34),
            reversed_grid_positions: read_i32_at(bytes, 672),
            pit_window_start: read_i32_at(bytes, 676),
            pit_window_end: read_i32_at(bytes, 680),
            is_online: read_i32_at(bytes, 684),
            dry_tyres_name: read_words_at(bytes, 688, 33),
            wet_tyres_name: read_words_at(bytes, 754, 33),
        }
    }

    /// Encodes the snapshot back into its wire layout, padding zeroed.
    #[verifier::spinoff_prover]
    #[verifier::rlimit(100)]
    pub fn encode(&self) -> (out: Vec<u8>)
        ensures
            out@ == self.spec_encode(),
            self.wf() ==> out@.len() == STATIC_INFO_SIZE,
    {
        let mut out: Vec<u8> = Vec::new();
        write_words(&mut out, &self.sm_version);
        assert(out@ =~= enc_words(self.sm_version@));
        write_words(&mut out, &self.acc_version);
        write_i32(&mut out, self.number_of_sessions);
        write_i32(&mut out, self.num_cars);
        write_words(&mut out, &self.car_model);
        write_words(&mut out, &self.track);
        write_words(&mut out, &self.player_name);
        write_words(&mut out, &self.player_surname);
        write_words(&mut out, &self.player_nick);
        write_i32(&mut out, self.sector_count);
        write_u32(&mut out, self.max_torque);
        write_u32(&mut out, self.max_power);
        write_i32(&mut out, self.max_rpm);
        write_u32(&mut out, self.max_fuel);
        write_dwords(&mut out, &self.suspension_max_travel);
        write_dwords(&mut out, &self.tyre_radius);
        write_u32(&mut out, self.max_turbo_boost);
        write_u32(&mut out, self.deprecated1);
        write_u32(&mut out, self.deprecated2);
        write_i32(&mut out, self.penalties_enabled);
        write_u32(&mut out, self.aid_fuel_rate);
        write_u32(&mut out, self.aid_tire_rate);
        write_u32(&mut out, self.aid_mechanical_damage);
        write_i32(&mut out, self.aid_allow_tyre_blankets);
        write_i32(&mut out, self.aid_stability);
        write_i32(&mut out, self.aid_auto_clutch);
        write_i32(&mut out, self.aid_auto_blip);
        write_i32(&mut out, self.has_drs);
        write_i32(&mut out, self.has_ers);
        write_i32(&mut out, self.has_kers);
        write_u32(&mut out, self.kers_max_joules);
        write_i32(&mut out, self.engine_brake_settings_count);
        write_i32(&mut out, self.ers_power_controller_count);
        write_u32(&mut out, self.track_spline_length);
        write_words(&mut out, &self.track_configuration);
        write_u32(&mut out, self.ers_max_j);
        write_i32(&mut out, self.is_timed_race);
        write_i32(&mut out, self.has_extra_lap);
        write_words(&mut out, &self.car_skin);
        write_i32(&mut out, self.reversed_grid_positions);
        write_i32(&mut out, self.pit_window_start);
        write_i32(&mut out, self.pit_window_end);
        write_i32(&mut out, self.is_online);
        write_words(&mut out, &self.dry_tyres_name);
        write_words(&mut out, &self.wet_tyres_name);
        proof {
            if self.wf() {
                Self::lemma_encode_len(*self);
            }
        }
        assert(out@ == self.spec_encode());
        out
    }

    /// A well-formed snapshot encodes to exactly the record size.
    pub proof fn lemma_encode_len(p: Self)
        requires
            p.wf(),
        ensures
            p.spec_encode().len() == STATIC_INFO_SIZE,
    {
        vstd::bytes::lemma_auto_spec_u32_to_from_le_bytes();
        lemma_enc_words_len(p.sm_version@);
        lemma_enc_words_len(p.acc_version@);
        lemma_enc_words_len(p.car_model@);
        lemma_enc_words_len(p.track@);
        lemma_enc_words_len(p.player_name@);
        lemma_enc_words_len(p.player_surname@);
        lemma_enc_words_len(p.player_nick@);
        lemma_enc_dwords_len(p.suspension_max_travel@);
        lemma_enc_dwords_len(p.tyre_radius@);
        lemma_enc_words_len(p.track_configuration@);
        lemma_enc_words_len(p.car_skin@);
        lemma_enc_words_len(p.dry_tyres_name@);
        lemma_enc_words_len(p.wet_tyres_name@);
    }

    /// Decoding a buffer and re-encoding the fields reproduces the
    /// buffer's leading `STATIC_INFO_SIZE` bytes.
    #[verifier::spinoff_prover]
    #[verifier::rlimit(100)]
    pub proof fn lemma_round_trip(p: Self, b: Seq<u8>)
        requires
            b.len() >= STATIC_INFO_SIZE,
            p.matches_bytes(b),
        ensures
            p.spec_encode() == b.subrange(0, STATIC_INFO_SIZE as int),
    {
        lemma_enc_of_words_at(b, 0, 15);
        assert(enc_words(p.sm_version@) == b.subrange(0, 30));
        lemma_enc_of_words_at(b, 30, 15);
        assert(enc_words(p.acc_version@) == b.subrange(30, 60));
        lemma_i32_raw_round_trip(le32_at(b, 60));
        lemma_enc_of_le32(b, 60);
        assert(spec_u32_to_le_bytes(spec_i32_to_raw(p.number_of_sessions)) == b.subrange(60, 64));
        lemma_i32_raw_round_trip(le32_at(b, 64));
        lemma_enc_of_le32(b, 64);
        assert(spec_u32_to_le_bytes(spec_i32_to_raw(p.num_cars)) == b.subrange(64, 68));
        lemma_enc_of_words_at(b, 68, 33);
        assert(enc_words(p.car_model@) == b.subrange(68, 134));
        lemma_enc_of_words_at(b, 134, 33);
        assert(enc_words(p.track@) == b.subrange(134, 200));
        lemma_enc_of_words_at(b, 200, 33);
        assert(enc_words(p.player_name@) == b.subrange(200, 266));
        lemma_enc_of_words_at(b, 266, 33);
        assert(enc_words(p.player_surname@) == b.subrange(266, 332));
        lemma_enc_of_words_at(b, 332, 34);
        assert(enc_words(p.player_nick@) == b.subrange(332, 400));
        lemma_i32_raw_round_trip(le32_at(b, 400));
        lemma_enc_of_le32(b, 400);
        assert(spec_u32_to_le_bytes(spec_i32_to_raw(p.sector_count)) == b.subrange(400, 404));
        lemma_enc_of_le32(b, 404);
        assert(spec_u32_to_le_bytes(p.max_torque) == b.subrange(404, 408));
        lemma_enc_of_le32(b, 408);
        assert(spec_u32_to_le_bytes(p.max_power) == b.subrange(408, 412));
        lemma_i32_raw_round_trip(le32_at(b, 412));
        lemma_enc_of_le32(b, 412);
        assert(spec_u32_to_le_bytes(spec_i32_to_raw(p.max_rpm)) == b.subrange(412, 416));
        lemma_enc_of_le32(b, 416);
        assert(spec_u32_to_le_bytes(p.max_fuel) == b.subrange(416, 420));
        lemma_enc_of_dwords_at(b, 420, 4);
        assert(enc_dwords(p.suspension_max_travel@) == b.subrange(420, 436));
        lemma_enc_of_dwords_at(b, 436, 4);
        assert(enc_dwords(p.tyre_radius@) == b.subrange(436, 452));
        lemma_enc_of_le32(b, 452);
        assert(spec_u32_to_le_bytes(p.max_turbo_boost) == b.subrange(452, 456));
        lemma_enc_of_le32(b, 456);
        assert(spec_u32_to_le_bytes(p.deprecated1) == b.subrange(456, 460));
        lemma_enc_of_le32(b, 460);
        assert(spec_u32_to_le_bytes(p.deprecated2) == b.subrange(460, 464));
        lemma_i32_raw_round_trip(le32_at(b, 464));
        lemma_enc_of_le32(b, 464);
        assert(spec_u32_to_le_bytes(spec_i32_to_raw(p.penalties_enabled)) == b.subrange(464, 468));
        lemma_enc_of_le32(b, 468);
        assert(spec_u32_to_le_bytes(p.aid_fuel_rate) == b.subrange(468, 472));
        lemma_enc_of_le32(b, 472);
        assert(spec_u32_to_le_bytes(p.aid_tire_rate) == b.subrange(472, 476));
        lemma_enc_of_le32(b, 476);
        assert(spec_u32_to_le_bytes(p.aid_mechanical_damage) == b.subrange(476, 480));
        lemma_i32_raw_round_trip(le32_at(b, 480));
        lemma_enc_of_le32(b, 480);
        assert(spec_u32_to_le_bytes(spec_i32_to_raw(p.aid_allow_tyre_blankets)) == b.subrange(480, 484));
        lemma_i32_raw_round_trip(le32_at(b, 484));
        lemma_enc_of_le32(b, 484);
        assert(spec_u32_to_le_bytes(spec_i32_to_raw(p.aid_stability)) == b.subrange(484, 488));
        lemma_i32_raw_round_trip(le32_at(b, 488));
        lemma_enc_of_le32(b, 488);
        assert(spec_u32_to_le_bytes(spec_i32_to_raw(p.aid_auto_clutch)) == b.subrange(488, 492));
        lemma_i32_raw_round_trip(le32_at(b, 492));
        lemma_enc_of_le32(b, 492);
        assert(spec_u32_to_le_bytes(spec_i32_to_raw(p.aid_auto_blip)) == b.subrange(492, 496));
        lemma_i32_raw_round_trip(le32_at(b, 496));
        lemma_enc_of_le32(b, 496);
        assert(spec_u32_to_le_bytes(spec_i32_to_raw(p.has_drs)) == b.subrange(496, 500));
        lemma_i32_raw_round_trip(le32_at(b, 500));
        lemma_enc_of_le32(b, 500);
        assert(spec_u32_to_le_bytes(spec_i32_to_raw(p.has_ers)) == b.subrange(500, 504));
        lemma_i32_raw_round_trip(le32_at(b, 504));
        lemma_enc_of_le32(b, 504);
        assert(spec_u32_to_le_bytes(spec_i32_to_raw(p.has_kers)) == b.subrange(504, 508));
        lemma_enc_of_le32(b, 508);
        assert(spec_u32_to_le_bytes(p.kers_max_joules) == b.subrange(508, 512));
        lemma_i32_raw_round_trip(le32_at(b, 512));
        lemma_enc_of_le32(b, 512);
        assert(spec_u32_to_le_bytes(spec_i32_to_raw(p.engine_brake_settings_count)) == b.subrange(512, 516));
        lemma_i32_raw_round_trip(le32_at(b, 516));
        lemma_enc_of_le32(b, 516);
        assert(spec_u32_to_le_bytes(spec_i32_to_raw(p.ers_power_controller_count)) == b.subrange(516, 520));
        lemma_enc_of_le32(b, 520);
        assert(spec_u32_to_le_bytes(p.track_spline_length) == b.subrange(520, 524));
        lemma_enc_of_words_at(b, 524, 34);
        assert(enc_words(p.track_configuration@) == b.subrange(524, 592));
        lemma_enc_of_le32(b, 592);
        assert(spec_u32_to_le_bytes(p.ers_max_j) == b.subrange(592, 596));
        lemma_i32_raw_round_trip(le32_at(b, 596));
        lemma_enc_of_le32(b, 596);
        assert(spec_u32_to_le_bytes(spec_i32_to_raw(p.is_timed_race)) == b.subrange(596, 600));
        lemma_i32_raw_round_trip(le32_at(b, 600));
        lemma_enc_of_le32(b, 600);
        assert(spec_u32_to_le_bytes(spec_i32_to_raw(p.has_extra_lap)) == b.subrange(600, 604));
        lemma_enc_of_words_at(b, 604, 34);
        assert(enc_words(p.car_skin@) == b.subrange(604, 672));
        lemma_i32_raw_round_trip(le32_at(b, 672));
        lemma_enc_of_le32(b, 672);
        assert(spec_u32_to_le_bytes(spec_i32_to_raw(p.reversed_grid_positions)) == b.subrange(672, 676));
        lemma_i32_raw_round_trip(le32_at(b, 676));
        lemma_enc_of_le32(b, 676);
        assert(spec_u32_to_le_bytes(spec_i32_to_raw(p.pit_window_start)) == b.subrange(676, 680));
        lemma_i32_raw_round_trip(le32_at(b, 680));
        lemma_enc_of_le32(b, 680);
        assert(spec_u32_to_le_bytes(spec_i32_to_raw(p.pit_window_end)) == b.subrange(680, 684));
        lemma_i32_raw_round_trip(le32_at(b, 684));
        lemma_enc_of_le32(b, 684);
        assert(spec_u32_to_le_bytes(spec_i32_to_raw(p.is_online)) == b.subrange(684, 688));
        lemma_enc_of_words_at(b, 688, 33);
        assert(enc_words(p.dry_tyres_name@) == b.subrange(688, 754));
        lemma_enc_of_words_at(b, 754, 33);
        assert(enc_words(p.wet_tyres_name@) == b.subrange(754, 820));
        assert(b.subrange(0, 30) + b.subrange(30, 60) =~= b.subrange(0, 60));
        assert(b.subrange(0, 60) + b.subrange(60, 64) =~= b.subrange(0, 64));
        assert(b.subrange(0, 64) + b.subrange(64, 68) =~= b.subrange(0, 68));
        assert(b.subrange(0, 68) + b.subrange(68, 134) =~= b.subrange(0, 134));
        assert(b.subrange(0, 134) + b.subrange(134, 200) =~= b.subrange(0, 200));
        assert(b.subrange(0, 200) + b.subrange(200, 266) =~= b.subrange(0, 266));
        assert(b.subrange(0, 266) + b.subrange(266, 332) =~= b.subrange(0, 332));
        assert(b.subrange(0, 332) + b.subrange(332, 400) =~= b.subrange(0, 400));
        assert(b.subrange(0, 400) + b.subrange(400, 404) =~= b.subrange(0, 404));
        assert(b.subrange(0, 404) + b.subrange(404, 408) =~= b.subrange(0, 408));
        assert(b.subrange(0, 408) + b.subrange(408, 412) =~= b.subrange(0, 412));
        assert(b.subrange(0, 412) + b.subrange(412, 416) =~= b.subrange(0, 416));
        assert(b.subrange(0, 416) + b.subrange(416, 420) =~= b.subrange(0, 420));
        assert(b.subrange(0, 420) + b.subrange(420, 436) =~= b.subrange(0, 436));
        assert(b.subrange(0, 436) + b.subrange(436, 452) =~= b.subrange(0, 452));
        assert(b.subrange(0, 452) + b.subrange(452, 456) =~= b.subrange(0, 456));
        assert(b.subrange(0, 456) + b.subrange(456, 460) =~= b.subrange(0, 460));
        assert(b.subrange(0, 460) + b.subrange(460, 464) =~= b.subrange(0, 464));
        assert(b.subrange(0, 464) + b.subrange(464, 468) =~= b.subrange(0, 468));
        assert(b.subrange(0, 468) + b.subrange(468, 472) =~= b.subrange(0, 472));
        assert(b.subrange(0, 472) + b.subrange(472, 476) =~= b.subrange(0, 476));
        assert(b.subrange(0, 476) + b.subrange(476, 480) =~= b.subrange(0, 480));
        assert(b.subrange(0, 480) + b.subrange(480, 484) =~= b.subrange(0, 484));
        assert(b.subrange(0, 484) + b.subrange(484, 488) =~= b.subrange(0, 488));
        assert(b.subrange(0, 488) + b.subrange(488, 492) =~= b.subrange(0, 492));
        assert(b.subrange(0, 492) + b.subrange(492, 496) =~= b.subrange(0, 496));
        assert(b.subrange(0, 496) + b.subrange(496, 500) =~= b.subrange(0, 500));
        assert(b.subrange(0, 500) + b.subrange(500, 504) =~= b.subrange(0, 504));
        assert(b.subrange(0, 504) + b.subrange(504, 508) =~= b.subrange(0, 508));
        assert(b.subrange(0, 508) + b.subrange(508, 512) =~= b.subrange(0, 512));
        assert(b.subrange(0, 512) + b.subrange(512, 516) =~= b.subrange(0, 516));
        assert(b.subrange(0, 516) + b.subrange(516, 520) =~= b.subrange(0, 520));
        assert(b.subrange(0, 520) + b.subrange(520, 524) =~= b.subrange(0, 524));
        assert(b.subrange(0, 524) + b.subrange(524, 592) =~= b.subrange(0, 592));
        assert(b.subrange(0, 592) + b.subrange(592, 596) =~= b.subrange(0, 596));
        assert(b.subrange(0, 596) + b.subrange(596, 600) =~= b.subrange(0, 600));
        assert(b.subrange(0, 600) + b.subrange(600, 604) =~= b.subrange(0, 604));
        assert(b.subrange(0, 604) + b.subrange(604, 672) =~= b.subrange(0, 672));
        assert(b.subrange(0, 672) + b.subrange(672, 676) =~= b.subrange(0, 676));
        assert(b.subrange(0, 676) + b.subrange(676, 680) =~= b.subrange(0, 680));
        assert(b.subrange(0, 680) + b.subrange(680, 684) =~= b.subrange(0, 684));
        assert(b.subrange(0, 684) + b.subrange(684, 688) =~= b.subrange(0, 688));
        assert(b.subrange(0, 688) + b.subrange(688, 754) =~= b.subrange(0, 754));
        assert(b.subrange(0, 754) + b.subrange(754, 820) =~= b.subrange(0, 820));
        assert(p.spec_encode() == b.subrange(0, STATIC_INFO_SIZE as int));
    }

    /// The `sm_version` text field, decoded from its wide characters.
    pub fn sm_version_str(&self) -> (r: String)
        ensures
            r@ == utf16_text(self.sm_version@),
    {
        utf16_to_string(self.sm_version.as_slice())
    }

    /// The `acc_version` text field, decoded from its wide characters.
    pub fn acc_version_str(&self) -> (r: String)
        ensures
            r@ == utf16_text(self.acc_version@),
    {
        utf16_to_string(self.acc_version.as_slice())
    }

    /// The `car_model` text field, decoded from its wide characters.
    pub fn car_model_str(&self) -> (r: String)
        ensures
            r@ == utf16_text(self.car_model@),
    {
        utf16_to_string(self.car_model.as_slice())
    }

    /// The `track` text field, decoded from its wide characters.
    pub fn track_str(&self) -> (r: String)
        ensures
            r@ == utf16_text(self.track@),
    {
        utf16_to_string(self.track.as_slice())
    }

    /// The `player_name` text field, decoded from its wide characters.
    pub fn player_name_str(&self) -> (r: String)
        ensures
            r@ == utf16_text(self.player_name@),
    {
        utf16_to_string(self.player_name.as_slice())
    }

    /// The `player_surname` text field, decoded from its wide characters.
    pub fn player_surname_str(&self) -> (r: String)
        ensures
            r@ == utf16_text(self.player_surname@),
    {
        utf16_to_string(self.player_surname.as_slice())
    }

    /// The `player_nick` text field, decoded from its wide characters.
    pub fn player_nick_str(&self) -> (r: String)
        ensures
            r@ == utf16_text(self.player_nick@),
    {
        utf16_to_string(self.player_nick.as_slice())
    }

    /// The `track_configuration` text field, decoded from its wide characters.
    pub fn track_configuration_str(&self) -> (r: String)
        ensures
            r@ == utf16_text(self.track_configuration@),
    {
        utf16_to_string(self.track_configuration.as_slice())
    }

    /// The `car_skin` text field, decoded from its wide characters.
    pub fn car_skin_str(&self) -> (r: String)
        ensures
            r@ == utf16_text(self.car_skin@),
    {
        utf16_to_string(self.car_skin.as_slice())
    }
}

impl Default for StaticInfo {
    /// The all-zero snapshot.
    fn default() -> (r: Self)
        ensures
            r.wf(),
    {
        StaticInfo {
            sm_version: zero_words(15),
            acc_version: zero_words(15),
            number_of_sessions: 0,
            num_cars: 0,
            car_model: zero_words(33),
            track: zero_words(33),
            player_name: zero_words(33),
            player_surname: zero_words(33),
            player_nick: zero_words(34),
            sector_count: 0,
            max_torque: 0,
            max_power: 0,
            max_rpm: 0,
            max_fuel: 0,
            suspension_max_travel: zero_dwords(4),
            tyre_radius: zero_dwords(4),
            max_turbo_boost: 0,
            deprecated1: 0,
            deprecated2: 0,
            penalties_enabled: 0,
            aid_fuel_rate: 0,
            aid_tire_rate: 0,
            aid_mechanical_damage: 0,
            aid_allow_tyre_blankets: 0,
            aid_stability: 0,
            aid_auto_clutch: 0,
            aid_auto_blip: 0,
            has_drs: 0,
            has_ers: 0,
            has_kers: 0,
            kers_max_joules: 0,
            engine_brake_settings_count: 0,
            ers_power_controller_count: 0,
            track_spline_length: 0,
            track_configuration: zero_words(34),
            ers_max_j: 0,
            is_timed_race: 0,
            has_extra_lap: 0,
            car_skin: zero_words(34),
            reversed_grid_positions: 0,
            pit_window_start: 0,
            pit_window_end: 0,
            is_online: 0,
            dry_tyres_name: zero_words(33),
            wet_tyres_name: zero_words(33),
        }
    }
}

/// Decodes a fixed-width, null-terminated array of 16-bit code units:
/// the prefix before the first zero unit (or the whole array when none
/// is zero), read as UTF-16 with a replacement character for every
/// unpaired surrogate.
pub fn utf16_to_string(utf16: &[u16]) -> (r: String)
    ensures
        r@ == utf16_text(utf16@),
{
    utf16_lossy(utf16)
}

} // verus!
