//! Snapshot record schemas for Assetto Corsa.
//!
//! Each record is a fixed-layout wire format shared with the producer
//! process: field order, widths and array lengths must not change.
//! Floating-point telemetry values are carried as their raw little-endian
//! bit patterns (`u32`); text fields are fixed-width arrays of 16-bit code
//! units, null-terminated or filled to capacity.

use crate::utils::bytes::dwords_at;
use crate::utils::bytes::enc_dwords;
use crate::utils::bytes::enc_words;
use crate::utils::bytes::le32_at;
use crate::utils::bytes::lemma_enc_dwords_len;
use crate::utils::bytes::lemma_enc_of_dwords_at;
use crate::utils::bytes::lemma_enc_of_le32;
use crate::utils::bytes::lemma_enc_of_words_at;
use crate::utils::bytes::lemma_enc_words_len;
use crate::utils::bytes::lemma_i32_raw_round_trip;
use crate::utils::bytes::lemma_zero_bytes_at;
use crate::utils::bytes::read_dwords_at;
use crate::utils::bytes::read_i32_at;
use crate::utils::bytes::read_u32_at;
use crate::utils::bytes::read_words_at;
use crate::utils::bytes::spec_i32_from_raw;
use crate::utils::bytes::spec_i32_to_raw;
use crate::utils::bytes::words_at;
use crate::utils::bytes::write_dwords;
use crate::utils::bytes::write_i32;
use crate::utils::bytes::write_u32;
use crate::utils::bytes::write_words;
use crate::utils::bytes::write_zeros;
use crate::utils::bytes::zero_at;
use crate::utils::bytes::zero_bytes;
use crate::utils::bytes::zero_dwords;
use crate::utils::bytes::zero_words;
use crate::utils::text::utf16_text;
use crate::utils::text::utf16_lossy;
use vstd::bytes::spec_u32_to_le_bytes;
use vstd::prelude::*;

verus! {

/// Total bytes of one physics record.
pub const PHYSICS_SIZE: usize = 580;

/// Total bytes of one graphics record.
pub const GRAPHICS_SIZE: usize = 288;

/// Total bytes of one static-info record.
pub const STATIC_INFO_SIZE: usize = 648;

/// The running state of the simulator session.
///
/// Records store this category as its raw wire value; `from_raw` maps a
/// raw value back to the category, or to `None` for a value the producer
/// never documented.
#[derive(Debug, Clone, Copy, PartialEq, Eq, Structural)]
pub enum AcStatus {
    Off,
    Replay,
    Live,
    Pause,
}

impl AcStatus {
    /// The raw value this category is stored as in a record.
    pub open spec fn raw_value(self) -> u32 {
        match self {
            AcStatus::Off => 0,
            AcStatus::Replay => 1,
            AcStatus::Live => 2,
            AcStatus::Pause => 3,
        }
    }

    /// The category stored as raw value `v`, if it is a documented one.
    pub fn from_raw(v: u32) -> (r: Option<AcStatus>)
        ensures
            r matches Some(s) ==> s.raw_value() == v,
            r is Some <==> v <= 3,
    {
        match v {
            0 => Some(AcStatus::Off),
            1 => Some(AcStatus::Replay),
            2 => Some(AcStatus::Live),
            3 => Some(AcStatus::Pause),
            _ => None,
        }
    }

    /// The display name of this state.
    pub fn name(&self) -> (r: String)
        ensures
            r@ == (match *self {
                AcStatus::Off => "Off"@,
                AcStatus::Replay => "Replay"@,
                AcStatus::Live => "Live"@,
                AcStatus::Pause => "Pause"@,
            }),
    {
        match self {
            AcStatus::Off => "Off".to_owned(),
            AcStatus::Replay => "Replay".to_owned(),
            AcStatus::Live => "Live".to_owned(),
            AcStatus::Pause => "Pause".to_owned(),
        }
    }
}

/// The kind of session being driven.
///
/// Records store this category as its raw wire value; `from_raw` maps a
/// raw value back to the category, or to `None` for a value the producer
/// never documented.
#[derive(Debug, Clone, Copy, PartialEq, Eq, Structural)]
pub enum AcSessionType {
    Unknown,
    Practice,
    Qualify,
    Race,
    Hotlap,
    TimeAttack,
    Drift,
    Drag,
}

impl AcSessionType {
    /// The raw value this category is stored as in a record.
    pub open spec fn raw_value(self) -> i32 {
        match self {
            AcSessionType::Unknown => -1i32,
            AcSessionType::Practice => 0i32,
            AcSessionType::Qualify => 1i32,
            AcSessionType::Race => 2i32,
            AcSessionType::Hotlap => 3i32,
            AcSessionType::TimeAttack => 4i32,
            AcSessionType::Drift => 5i32,
            AcSessionType::Drag => 6i32,
        }
    }

    /// The category stored as raw value `v`, if it is a documented one.
    pub fn from_raw(v: i32) -> (r: Option<AcSessionType>)
        ensures
            r matches Some(s) ==> s.raw_value() == v,
            r is Some <==> -1 <= v <= 6,
    {
        match v {
            -1 => Some(AcSessionType::Unknown),
            0 => Some(AcSessionType::Practice),
            1 => Some(AcSessionType::Qualify),
            2 => Some(AcSessionType::Race),
            3 => Some(AcSessionType::Hotlap),
            4 => Some(AcSessionType::TimeAttack),
            5 => Some(AcSessionType::Drift),
            6 => Some(AcSessionType::Drag),
            _ => None,
        }
    }
}

/// The marshalling flag currently shown to the player.
///
/// Records store this category as its raw wire value; `from_raw` maps a
/// raw value back to the category, or to `None` for a value the producer
/// never documented.
#[derive(Debug, Clone, Copy, PartialEq, Eq, Structural)]
pub enum AcFlagType {
    NoFlag,
    BlueFlag,
    YellowFlag,
    BlackFlag,
    WhiteFlag,
    CheckeredFlag,
    PenaltyFlag,
}

impl AcFlagType {
    /// The raw value this category is stored as in a record.
    pub open spec fn raw_value(self) -> u32 {
        match self {
            AcFlagType::NoFlag => 0,
            AcFlagType::BlueFlag => 1,
            AcFlagType::YellowFlag => 2,
            AcFlagType::BlackFlag => 3,
            AcFlagType::WhiteFlag => 4,
            AcFlagType::CheckeredFlag => 5,
            AcFlagType::PenaltyFlag => 6,
        }
    }

    /// The category stored as raw value `v`, if it is a documented one.
    pub fn from_raw(v: u32) -> (r: Option<AcFlagType>)
        ensures
            r matches Some(s) ==> s.raw_value() == v,
            r is Some <==> v <= 6,
    {
        match v {
            0 => Some(AcFlagType::NoFlag),
            1 => Some(AcFlagType::BlueFlag),
            2 => Some(AcFlagType::YellowFlag),
            3 => Some(AcFlagType::BlackFlag),
            4 => Some(AcFlagType::WhiteFlag),
            5 => Some(AcFlagType::CheckeredFlag),
            6 => Some(AcFlagType::PenaltyFlag),
            _ => None,
        }
    }
}

/// A three-component vector as the producer lays it out: the raw bit
/// patterns of three 32-bit floating-point values.
#[derive(Debug, Clone, Copy, PartialEq, Eq, Structural)]
pub struct Coordinates {
    pub x: u32,
    pub y: u32,
    pub z: u32,
}

/// The `n` coordinate triples stored consecutively at byte offset `i`.
pub open spec fn coords_at(b: Seq<u8>, i: int, n: nat) -> Seq<Coordinates> {
    Seq::new(
        n,
        |k: int|
            Coordinates {
                x: le32_at(b, i + 12 * k),
                y: le32_at(b, i + 12 * k + 4),
                z: le32_at(b, i + 12 * k + 8),
            },
    )
}

/// The little-endian encoding of a sequence of coordinate triples.
pub open spec fn enc_coords(s: Seq<Coordinates>) -> Seq<u8>
    decreases s.len(),
{
    if s.len() == 0 {
        Seq::empty()
    } else {
        spec_u32_to_le_bytes(s[0].x) + spec_u32_to_le_bytes(s[0].y) + spec_u32_to_le_bytes(s[0].z)
            + enc_coords(s.drop_first())
    }
}

/// Reads `n` consecutive coordinate triples starting at byte offset `i`.
pub fn read_coords_at(b: &[u8], i: usize, n: usize) -> (r: Vec<Coordinates>)
    requires
        i + 12 * n <= b@.len(),
    ensures
        r@ == coords_at(b@, i as int, n as nat),
{
    let _len = b.len();
    let mut out: Vec<Coordinates> = Vec::new();
    let mut k: usize = 0;
    while k < n
        invariant
            k <= n,
            i + 12 * n <= b@.len(),
            b@.len() <= usize::MAX,
            out@ == coords_at(b@, i as int, k as nat),
        decreases n - k,
    {
        let c = Coordinates {
            x: read_u32_at(b, i + 12 * k),
            y: read_u32_at(b, i + 12 * k + 4),
            z: read_u32_at(b, i + 12 * k + 8),
        };
        out.push(c);
        k = k + 1;
        assert(out@ =~= coords_at(b@, i as int, k as nat));
    }
    out
}

/// Appends the little-endian encoding of every triple in `s` to `out`.
pub fn write_coords(out: &mut Vec<u8>, s: &Vec<Coordinates>)
    ensures
        final(out)@ == old(out)@ + enc_coords(s@),
{
    let mut k: usize = 0;
    while k < s.len()
        invariant
            k <= s@.len(),
            out@ == old(out)@ + enc_coords(s@.take(k as int)),
        decreases s@.len() - k,
    {
        let c = s[k];
        write_u32(out, c.x);
        write_u32(out, c.y);
        write_u32(out, c.z);
        k = k + 1;
        proof {
            lemma_enc_coords_step(s@, k as int);
        }
    }
    assert(s@.take(s@.len() as int) =~= s@);
}

/// A vector of `n` zero coordinate triples.
pub fn zero_coords(n: usize) -> (r: Vec<Coordinates>)
    ensures
        r@ == Seq::new(n as nat, |k: int| Coordinates { x: 0u32, y: 0u32, z: 0u32 }),
{
    let mut out: Vec<Coordinates> = Vec::new();
    let mut k: usize = 0;
    while k < n
        invariant
            k <= n,
            out@ == Seq::new(k as nat, |j: int| Coordinates { x: 0u32, y: 0u32, z: 0u32 }),
        decreases n - k,
    {
        out.push(Coordinates { x: 0, y: 0, z: 0 });
        k = k + 1;
        assert(out@ =~= Seq::new(k as nat, |j: int| Coordinates { x: 0u32, y: 0u32, z: 0u32 }));
    }
    out
}

proof fn lemma_enc_coords_step(s: Seq<Coordinates>, k: int)
    requires
        0 < k <= s.len(),
    ensures
        enc_coords(s.take(k)) == enc_coords(s.take(k - 1)) + spec_u32_to_le_bytes(s[k - 1].x)
            + spec_u32_to_le_bytes(s[k - 1].y) + spec_u32_to_le_bytes(s[k - 1].z),
    decreases k,
{
    let t = s.take(k);
    if k == 1 {
        assert(t.drop_first() =~= Seq::<Coordinates>::empty());
        assert(enc_coords(t) == spec_u32_to_le_bytes(s[0].x) + spec_u32_to_le_bytes(s[0].y)
            + spec_u32_to_le_bytes(s[0].z) + enc_coords(t.drop_first()));
        assert(enc_coords(s.take(0)) =~~= Seq::<u8>::empty());
        assert(enc_coords(s.take(0)) + spec_u32_to_le_bytes(s[0].x) + spec_u32_to_le_bytes(s[0].y)
            + spec_u32_to_le_bytes(s[0].z) =~= spec_u32_to_le_bytes(s[0].x) + spec_u32_to_le_bytes(
            s[0].y,
        ) + spec_u32_to_le_bytes(s[0].z) + enc_coords(t.drop_first()));
    } else {
        lemma_enc_coords_step(s.drop_first(), k - 1);
        assert(t.drop_first() =~= s.drop_first().take(k - 1));
        assert(s.take(k - 1).drop_first() =~= s.drop_first().take(k - 2));
        assert(s.drop_first()[k - 2] == s[k - 1]);
        assert(enc_coords(s.take(k - 1)) + spec_u32_to_le_bytes(s[k - 1].x) + spec_u32_to_le_bytes(
            s[k - 1].y,
        ) + spec_u32_to_le_bytes(s[k - 1].z) =~= spec_u32_to_le_bytes(s[0].x)
            + spec_u32_to_le_bytes(s[0].y) + spec_u32_to_le_bytes(s[0].z) + (enc_coords(
            s.drop_first().take(k - 2),
        ) + spec_u32_to_le_bytes(s[k - 1].x) + spec_u32_to_le_bytes(s[k - 1].y)
            + spec_u32_to_le_bytes(s[k - 1].z)));
    }
}

/// The encoding of `n` coordinate triples is `12 * n` bytes long.
pub proof fn lemma_enc_coords_len(s: Seq<Coordinates>)
    ensures
        enc_coords(s).len() == 12 * s.len(),
    decreases s.len(),
{
    if s.len() > 0 {
        lemma_enc_coords_len(s.drop_first());
        vstd::bytes::lemma_auto_spec_u32_to_from_le_bytes();
    }
}

/// Encoding the `n` coordinate triples read at offset `i` reproduces the
/// `12 * n` bytes at offset `i`.
pub proof fn lemma_enc_of_coords_at(b: Seq<u8>, i: int, n: nat)
    requires
        0 <= i,
        i + 12 * n <= b.len(),
    ensures
        enc_coords(coords_at(b, i, n)) == b.subrange(i, i + 12 * n),
    decreases n,
{
    if n == 0 {
        assert(enc_coords(coords_at(b, i, n)) =~= b.subrange(i, i));
    } else {
        lemma_enc_of_coords_at(b, i + 12, (n - 1) as nat);
        lemma_enc_of_le32(b, i);
        lemma_enc_of_le32(b, i + 4);
        lemma_enc_of_le32(b, i + 8);
        let s = coords_at(b, i, n);
        assert(s.drop_first() =~= coords_at(b, i + 12, (n - 1) as nat));
        assert(b.subrange(i, i + 4) + b.subrange(i + 4, i + 8) =~= b.subrange(i, i + 8));
        assert(b.subrange(i, i + 8) + b.subrange(i + 8, i + 12) =~= b.subrange(i, i + 12));
        assert(b.subrange(i, i + 12) + b.subrange(i + 12, i + 12 * n) =~= b.subrange(
            i,
            i + 12 * n,
        ));
    }
}


/// One physics snapshot: car dynamics sampled at the producer's physics rate.
///
/// The field order, widths and offsets mirror the producer's in-memory
/// struct byte for byte; `matches_bytes` is that layout, stated once.
#[derive(Debug, Clone, PartialEq)]
pub struct Physics {
    pub packet_id: i32,
    pub gas: u32,
    pub brake: u32,
    pub fuel: u32,
    pub gear: i32,
    pub rpms: i32,
    pub steer_angle: u32,
    pub speed_kmh: u32,
    pub velocity: Vec<u32>,
    pub acc_g: Vec<u32>,
    pub wheel_slip: Vec<u32>,
    pub wheel_load: Vec<u32>,
    pub wheels_pressure: Vec<u32>,
    pub wheel_angular_speed: Vec<u32>,
    pub tyre_wear: Vec<u32>,
    pub tyre_dirty_level: Vec<u32>,
    pub tyre_core_temperature: Vec<u32>,
    pub camber_rad: Vec<u32>,
    pub suspension_travel: Vec<u32>,
    pub drs: u32,
    pub tc: u32,
    pub heading: u32,
    pub pitch: u32,
    pub roll: u32,
    pub cg_height: u32,
    pub car_damage: Vec<u32>,
    pub number_of_tyres_out: i32,
    pub pit_limiter_on: i32,
    pub abs: u32,
    pub kers_charge: u32,
    pub kers_input: u32,
    pub auto_shifter_on: i32,
    pub ride_height: Vec<u32>,
    pub turbo_boost: u32,
    pub ballast: u32,
    pub air_density: u32,
    pub air_temp: u32,
    pub road_temp: u32,
    pub local_angular_velocity: Vec<u32>,
    pub final_ff: u32,
    pub performance_meter: u32,
    pub engine_brake: i32,
    pub ers_recovery_level: i32,
    pub ers_power_level: i32,
    pub ers_heat_charging: i32,
    pub ers_is_charging: i32,
    pub kers_current_kj: u32,
    pub drs_available: i32,
    pub drs_enabled: i32,
    pub brake_temp: Vec<u32>,
    pub clutch: u32,
    pub tyre_temp_i: Vec<u32>,
    pub tyre_temp_m: Vec<u32>,
    pub tyre_temp_o: Vec<u32>,
    pub is_ai_controlled: i32,
    pub tyre_contact_point: Vec<Coordinates>,
    pub tyre_contact_normal: Vec<Coordinates>,
    pub tyre_contact_heading: Vec<Coordinates>,
    pub brake_bias: u32,
    pub local_velocity: Vec<u32>,
}

impl Physics {
    /// Every array-valued field has its fixed layout width.
    pub open spec fn wf(self) -> bool {
        &&& self.velocity@.len() == 3
        &&& self.acc_g@.len() == 3
        &&& self.wheel_slip@.len() == 4
        &&& self.wheel_load@.len() == 4
        &&& self.wheels_pressure@.len() == 4
        &&& self.wheel_angular_speed@.len() == 4
        &&& self.tyre_wear@.len() == 4
        &&& self.tyre_dirty_level@.len() == 4
        &&& self.tyre_core_temperature@.len() == 4
        &&& self.camber_rad@.len() == 4
        &&& self.suspension_travel@.len() == 4
        &&& self.car_damage@.len() == 5
        &&& self.ride_height@.len() == 2
        &&& self.local_angular_velocity@.len() == 3
        &&& self.brake_temp@.len() == 4
        &&& self.tyre_temp_i@.len() == 4
        &&& self.tyre_temp_m@.len() == 4
        &&& self.tyre_temp_o@.len() == 4
        &&& self.tyre_contact_point@.len() == 4
        &&& self.tyre_contact_normal@.len() == 4
        &&& self.tyre_contact_heading@.len() == 4
        &&& self.local_velocity@.len() == 3
    }

    /// The layout contract: how each field is stored in the record's bytes.
    pub open spec fn matches_bytes(self, b: Seq<u8>) -> bool {
        &&& self.packet_id == spec_i32_from_raw(le32_at(b, 0))
        &&& self.gas == le32_at(b, 4)
        &&& self.brake == le32_at(b, 8)
        &&& self.fuel == le32_at(b, 12)
        &&& self.gear == spec_i32_from_raw(le32_at(b, 16))
        &&& self.rpms == spec_i32_from_raw(le32_at(b, 20))
        &&& self.steer_angle == le32_at(b, 24)
        &&& self.speed_kmh == le32_at(b, 28)
        &&& self.velocity@ == dwords_at(b, 32, 3)
        &&& self.acc_g@ == dwords_at(b, 44, 3)
        &&& self.wheel_slip@ == dwords_at(b, 56, 4)
        &&& self.wheel_load@ == dwords_at(b, 72, 4)
        &&& self.wheels_pressure@ == dwords_at(b, 88, 4)
        &&& self.wheel_angular_speed@ == dwords_at(b, 104, 4)
        &&& self.tyre_wear@ == dwords_at(b, 120, 4)
        &&& self.tyre_dirty_level@ == dwords_at(b, 136, 4)
        &&& self.tyre_core_temperature@ == dwords_at(b, 152, 4)
        &&& self.camber_rad@ == dwords_at(b, 168, 4)
        &&& self.suspension_travel@ == dwords_at(b, 184, 4)
        &&& self.drs == le32_at(b, 200)
        &&& self.tc == le32_at(b, 204)
        &&& self.heading == le32_at(b, 208)
        &&& self.pitch == le32_at(b, 212)
        &&& self.roll == le32_at(b, 216)
        &&& self.cg_height == le32_at(b, 220)
        &&& self.car_damage@ == dwords_at(b, 224, 5)
        &&& self.number_of_tyres_out == spec_i32_from_raw(le32_at(b, 244))
        &&& self.pit_limiter_on == spec_i32_from_raw(le32_at(b, 248))
        &&& self.abs == le32_at(b, 252)
        &&& self.kers_charge == le32_at(b, 256)
        &&& self.kers_input == le32_at(b, 260)
        &&& self.auto_shifter_on == spec_i32_from_raw(le32_at(b, 264))
        &&& self.ride_height@ == dwords_at(b, 268, 2)
        &&& self.turbo_boost == le32_at(b, 276)
        &&& self.ballast == le32_at(b, 280)
        &&& self.air_density == le32_at(b, 284)
        &&& self.air_temp == le32_at(b, 288)
        &&& self.road_temp == le32_at(b, 292)
        &&& self.local_angular_velocity@ == dwords_at(b, 296, 3)
        &&& self.final_ff == le32_at(b, 308)
        &&& self.performance_meter == le32_at(b, 312)
        &&& self.engine_brake == spec_i32_from_raw(le32_at(b, 316))
        &&& self.ers_recovery_level == spec_i32_from_raw(le32_at(b, 320))
        &&& self.ers_power_level == spec_i32_from_raw(le32_at(b, 324))
        &&& self.ers_heat_charging == spec_i32_from_raw(le32_at(b, 328))
        &&& self.ers_is_charging == spec_i32_from_raw(le32_at(b, 332))
        &&& self.kers_current_kj == le32_at(b, 336)
        &&& self.drs_available == spec_i32_from_raw(le32_at(b, 340))
        &&& self.drs_enabled == spec_i32_from_raw(le32_at(b, 344))
        &&& self.brake_temp@ == dwords_at(b, 348, 4)
        &&& self.clutch == le32_at(b, 364)
        &&& self.tyre_temp_i@ == dwords_at(b, 368, 4)
        &&& self.tyre_temp_m@ == dwords_at(b, 384, 4)
        &&& self.tyre_temp_o@ == dwords_at(b, 400, 4)
        &&& self.is_ai_controlled == spec_i32_from_raw(le32_at(b, 416))
        &&& self.tyre_contact_point@ == coords_at(b, 420, 4)
        &&& self.tyre_contact_normal@ == coords_at(b, 468, 4)
        &&& self.tyre_contact_heading@ == coords_at(b, 516, 4)
        &&& self.brake_bias == le32_at(b, 564)
        &&& self.local_velocity@ == dwords_at(b, 568, 3)
    }

    /// The canonical encoding of this record, padding included.
    pub open spec fn spec_encode(self) -> Seq<u8> {
        spec_u32_to_le_bytes(spec_i32_to_raw(self.packet_id)) + spec_u32_to_le_bytes(self.gas) + spec_u32_to_le_bytes(self.brake) + spec_u32_to_le_bytes(self.fuel) + spec_u32_to_le_bytes(spec_i32_to_raw(self.gear)) + spec_u32_to_le_bytes(spec_i32_to_raw(self.rpms)) + spec_u32_to_le_bytes(self.steer_angle) + spec_u32_to_le_bytes(self.speed_kmh) + enc_dwords(self.velocity@) + enc_dwords(self.acc_g@) + enc_dwords(self.wheel_slip@) + enc_dwords(self.wheel_load@) + enc_dwords(self.wheels_pressure@) + enc_dwords(self.wheel_angular_speed@) + enc_dwords(self.tyre_wear@) + enc_dwords(self.tyre_dirty_level@) + enc_dwords(self.tyre_core_temperature@) + enc_dwords(self.camber_rad@) + enc_dwords(self.suspension_travel@) + spec_u32_to_le_bytes(self.drs) + spec_u32_to_le_bytes(self.tc) + spec_u32_to_le_bytes(self.heading) + spec_u32_to_le_bytes(self.pitch) + spec_u32_to_le_bytes(self.roll) + spec_u32_to_le_bytes(self.cg_height) + enc_dwords(self.car_damage@) + spec_u32_to_le_bytes(spec_i32_to_raw(self.number_of_tyres_out)) + spec_u32_to_le_bytes(spec_i32_to_raw(self.pit_limiter_on)) + spec_u32_to_le_bytes(self.abs) + spec_u32_to_le_bytes(self.kers_charge) + spec_u32_to_le_bytes(self.kers_input) + spec_u32_to_le_bytes(spec_i32_to_raw(self.auto_shifter_on)) + enc_dwords(self.ride_height@) + spec_u32_to_le_bytes(self.turbo_boost) + spec_u32_to_le_bytes(self.ballast) + spec_u32_to_le_bytes(self.air_density) + spec_u32_to_le_bytes(self.air_temp) + spec_u32_to_le_bytes(self.road_temp) + enc_dwords(self.local_angular_velocity@) + spec_u32_to_le_bytes(self.final_ff) + spec_u32_to_le_bytes(self.performance_meter) + spec_u32_to_le_bytes(spec_i32_to_raw(self.engine_brake)) + spec_u32_to_le_bytes(spec_i32_to_raw(self.ers_recovery_level)) + spec_u32_to_le_bytes(spec_i32_to_raw(self.ers_power_level)) + spec_u32_to_le_bytes(spec_i32_to_raw(self.ers_heat_charging)) + spec_u32_to_le_bytes(spec_i32_to_raw(self.ers_is_charging)) + spec_u32_to_le_bytes(self.kers_current_kj) + spec_u32_to_le_bytes(spec_i32_to_raw(self.drs_available)) + spec_u32_to_le_bytes(spec_i32_to_raw(self.drs_enabled)) + enc_dwords(self.brake_temp@) + spec_u32_to_le_bytes(self.clutch) + enc_dwords(self.tyre_temp_i@) + enc_dwords(self.tyre_temp_m@) + enc_dwords(self.tyre_temp_o@) + spec_u32_to_le_bytes(spec_i32_to_raw(self.is_ai_controlled)) + enc_coords(self.tyre_contact_point@) + enc_coords(self.tyre_contact_normal@) + enc_coords(self.tyre_contact_heading@) + spec_u32_to_le_bytes(self.brake_bias) + enc_dwords(self.local_velocity@)
    }

    /// Decodes the leading `PHYSICS_SIZE` bytes of a region into a snapshot.
    #[verifier::spinoff_prover]
    #[verifier::rlimit(100)]
    pub fn decode(bytes: &[u8]) -> (r: Self)
        requires
            bytes@.len() >= PHYSICS_SIZE,
        ensures
            r.wf(),
            r.matches_bytes(bytes@),
    {
        Physics {
            packet_id: read_i32_at(bytes, 0),
            gas: read_u32_at(bytes, 4),
            brake: read_u32_at(bytes, 8),
            fuel: read_u32_at(bytes, 12),
            gear: read_i32_at(bytes, 16),
            rpms: read_i32_at(bytes, 20),
            steer_angle: read_u32_at(bytes, 24),
            speed_kmh: read_u32_at(bytes, 28),
            velocity: read_dwords_at(bytes, 32, 3),
            acc_g: read_dwords_at(bytes, 44, 3),
            wheel_slip: read_dwords_at(bytes, 56, 4),
            wheel_load: read_dwords_at(bytes, 72, 4),
            wheels_pressure: read_dwords_at(bytes, 88, 4),
            wheel_angular_speed: read_dwords_at(bytes, 104, 4),
            tyre_wear: read_dwords_at(bytes, 120, 4),
            tyre_dirty_level: read_dwords_at(bytes, 136, 4),
            tyre_core_temperature: read_dwords_at(bytes, 152, 4),
            camber_rad: read_dwords_at(bytes, 168, 4),
            suspension_travel: read_dwords_at(bytes, 184, 4),
            drs: read_u32_at(bytes, 200),
            tc: read_u32_at(bytes, 204),
            heading: read_u32_at(bytes, 208),
            pitch: read_u32_at(bytes, 212),
            roll: read_u32_at(bytes, 216),
            cg_height: read_u32_at(bytes, 220),
            car_damage: read_dwords_at(bytes, 224, 5),
            number_of_tyres_out: read_i32_at(bytes, 244),
            pit_limiter_on: read_i32_at(bytes, 248),
            abs: read_u32_at(bytes, 252),
            kers_charge: read_u32_at(bytes, 256),
            kers_input: read_u32_at(bytes, 260),
            auto_shifter_on: read_i32_at(bytes, 264),
            ride_height: read_dwords_at(bytes, 268, 2),
            turbo_boost: read_u32_at(bytes, 276),
            ballast: read_u32_at(bytes, 280),
            air_density: read_u32_at(bytes, 284),
            air_temp: read_u32_at(bytes, 288),
            road_temp: read_u32_at(bytes, 292),
            local_angular_velocity: read_dwords_at(bytes, 296, 3),
            final_ff: read_u32_at(bytes, 308),
            performance_meter: read_u32_at(bytes, 312),
            engine_brake: read_i32_at(bytes, 316),
            ers_recovery_level: read_i32_at(bytes, 320),
            ers_power_level: read_i32_at(bytes, 324),
            ers_heat_charging: read_i32_at(bytes, 328),
            ers_is_charging: read_i32_at(bytes, 332),
            kers_current_kj: read_u32_at(bytes, 336),
            drs_available: read_i32_at(bytes, 340),
            drs_enabled: read_i32_at(bytes, 344),
            brake_temp: read_dwords_at(bytes, 348, 4),
            clutch: read_u32_at(bytes, 364),
            tyre_temp_i: read_dwords_at(bytes, 368, 4),
            tyre_temp_m: read_dwords_at(bytes, 384, 4),
            tyre_temp_o: read_dwords_at(bytes, 400, 4),
            is_ai_controlled: read_i32_at(bytes, 416),
            tyre_contact_point: read_coords_at(bytes, 420, 4),
            tyre_contact_normal: read_coords_at(bytes, 468, 4),
            tyre_contact_heading: read_coords_at(bytes, 516, 4),
            brake_bias: read_u32_at(bytes, 564),
            local_velocity: read_dwords_at(bytes, 568, 3),
        }
    }

    /// Encodes the snapshot back into its wire layout, padding zeroed.
    #[verifier::spinoff_prover]
    #[verifier::rlimit(100)]
    pub fn encode(&self) -> (out: Vec<u8>)
        ensures
            out@ == self.spec_encode(),
            self.wf() ==> out@.len() == PHYSICS_SIZE,
    {
        let mut out: Vec<u8> = Vec::new();
        write_i32(&mut out, self.packet_id);
        assert(out@ =~= spec_u32_to_le_bytes(spec_i32_to_raw(self.packet_id)));
        write_u32(&mut out, self.gas);
        write_u32(&mut out, self.brake);
        write_u32(&mut out, self.fuel);
        write_i32(&mut out, self.gear);
        write_i32(&mut out, self.rpms);
        write_u32(&mut out, self.steer_angle);
        write_u32(&mut out, self.speed_kmh);
        write_dwords(&mut out, &self.velocity);
        write_dwords(&mut out, &self.acc_g);
        write_dwords(&mut out, &self.wheel_slip);
        write_dwords(&mut out, &self.wheel_load);
        write_dwords(&mut out, &self.wheels_pressure);
        write_dwords(&mut out, &self.wheel_angular_speed);
        write_dwords(&mut out, &self.tyre_wear);
        write_dwords(&mut out, &self.tyre_dirty_level);
        write_dwords(&mut out, &self.tyre_core_temperature);
        write_dwords(&mut out, &self.camber_rad);
        write_dwords(&mut out, &self.suspension_travel);
        write_u32(&mut out, self.drs);
        write_u32(&mut out, self.tc);
        write_u32(&mut out, self.heading);
        write_u32(&mut out, self.pitch);
        write_u32(&mut out, self.roll);
        write_u32(&mut out, self.cg_height);
        write_dwords(&mut out, &self.car_damage);
        write_i32(&mut out, self.number_of_tyres_out);
        write_i32(&mut out, self.pit_limiter_on);
        write_u32(&mut out, self.abs);
        write_u32(&mut out, self.kers_charge);
        write_u32(&mut out, self.kers_input);
        write_i32(&mut out, self.auto_shifter_on);
        write_dwords(&mut out, &self.ride_height);
        write_u32(&mut out, self.turbo_boost);
        write_u32(&mut out, self.ballast);
        write_u32(&mut out, self.air_density);
        write_u32(&mut out, self.air_temp);
        write_u32(&mut out, self.road_temp);
        write_dwords(&mut out, &self.local_angular_velocity);
        write_u32(&mut out, self.final_ff);
        write_u32(&mut out, self.performance_meter);
        write_i32(&mut out, self.engine_brake);
        write_i32(&mut out, self.ers_recovery_level);
        write_i32(&mut out, self.ers_power_level);
        write_i32(&mut out, self.ers_heat_charging);
        write_i32(&mut out, self.ers_is_charging);
        write_u32(&mut out, self.kers_current_kj);
        write_i32(&mut out, self.drs_available);
        write_i32(&mut out, self.drs_enabled);
        write_dwords(&mut out, &self.brake_temp);
        write_u32(&mut out, self.clutch);
        write_dwords(&mut out, &self.tyre_temp_i);
        write_dwords(&mut out, &self.tyre_temp_m);
        write_dwords(&mut out, &self.tyre_temp_o);
        write_i32(&mut out, self.is_ai_controlled);
        write_coords(&mut out, &self.tyre_contact_point);
        write_coords(&mut out, &self.tyre_contact_normal);
        write_coords(&mut out, &self.tyre_contact_heading);
        write_u32(&mut out, self.brake_bias);
        write_dwords(&mut out, &self.local_velocity);
        proof {
            if self.wf() {
                Self::lemma_encode_len(*self);
            }
        }
        assert(out@ == self.spec_encode());
        out
    }

    /// A well-formed snapshot encodes to exactly the record size.
    pub proof fn lemma_encode_len(p: Self)
        requires
            p.wf(),
        ensures
            p.spec_encode().len() == PHYSICS_SIZE,
    {
        vstd::bytes::lemma_auto_spec_u32_to_from_le_bytes();
        lemma_enc_dwords_len(p.velocity@);
        lemma_enc_dwords_len(p.acc_g@);
        lemma_enc_dwords_len(p.wheel_slip@);
        lemma_enc_dwords_len(p.wheel_load@);
        lemma_enc_dwords_len(p.wheels_pressure@);
        lemma_enc_dwords_len(p.wheel_angular_speed@);
        lemma_enc_dwords_len(p.tyre_wear@);
        lemma_enc_dwords_len(p.tyre_dirty_level@);
        lemma_enc_dwords_len(p.tyre_core_temperature@);
        lemma_enc_dwords_len(p.camber_rad@);
        lemma_enc_dwords_len(p.suspension_travel@);
        lemma_enc_dwords_len(p.car_damage@);
        lemma_enc_dwords_len(p.ride_height@);
        lemma_enc_dwords_len(p.local_angular_velocity@);
        lemma_enc_dwords_len(p.brake_temp@);
        lemma_enc_dwords_len(p.tyre_temp_i@);
        lemma_enc_dwords_len(p.tyre_temp_m@);
        lemma_enc_dwords_len(p.tyre_temp_o@);
        lemma_enc_coords_len(p.tyre_contact_point@);
        lemma_enc_coords_len(p.tyre_contact_normal@);
        lemma_enc_coords_len(p.tyre_contact_heading@);
        lemma_enc_dwords_len(p.local_velocity@);
    }

    /// Decoding a buffer and re-encoding the fields reproduces the
    /// buffer's leading `PHYSICS_SIZE` bytes.
    #[verifier::spinoff_prover]
    #[verifier::rlimit(100)]
    pub proof fn lemma_round_trip(p: Self, b: Seq<u8>)
        requires
            b.len() >= PHYSICS_SIZE,
            p.matches_bytes(b),
        ensures
            p.spec_encode() == b.subrange(0, PHYSICS_SIZE as int),
    {
        lemma_i32_raw_round_trip(le32_at(b, 0));
        lemma_enc_of_le32(b, 0);
        assert(spec_u32_to_le_bytes(spec_i32_to_raw(p.packet_id)) == b.subrange(0, 4));
        lemma_enc_of_le32(b, 4);
        assert(spec_u32_to_le_bytes(p.gas) == b.subrange(4, 8));
        lemma_enc_of_le32(b, 8);
        assert(spec_u32_to_le_bytes(p.brake) == b.subrange(8, 12));
        lemma_enc_of_le32(b, 12);
        assert(spec_u32_to_le_bytes(p.fuel) == b.subrange(12, 16));
        lemma_i32_raw_round_trip(le32_at(b, 16));
        lemma_enc_of_le32(b, 16);
        assert(spec_u32_to_le_bytes(spec_i32_to_raw(p.gear)) == b.subrange(16, 20));
        lemma_i32_raw_round_trip(le32_at(b, 20));
        lemma_enc_of_le32(b, 20);
        assert(spec_u32_to_le_bytes(spec_i32_to_raw(p.rpms)) == b.subrange(20, 24));
        lemma_enc_of_le32(b, 24);
        assert(spec_u32_to_le_bytes(p.steer_angle) == b.subrange(24, 28));
        lemma_enc_of_le32(b, 28);
        assert(spec_u32_to_le_bytes(p.speed_kmh) == b.subrange(28, 32));
        lemma_enc_of_dwords_at(b, 32, 3);
        assert(enc_dwords(p.velocity@) == b.subrange(32, 44));
        lemma_enc_of_dwords_at(b, 44, 3);
        assert(enc_dwords(p.acc_g@) == b.subrange(44, 56));
        lemma_enc_of_dwords_at(b, 56, 4);
        assert(enc_dwords(p.wheel_slip@) == b.subrange(56, 72));
        lemma_enc_of_dwords_at(b, 72, 4);
        assert(enc_dwords(p.wheel_load@) == b.subrange(72, 88));
        lemma_enc_of_dwords_at(b, 88, 4);
        assert(enc_dwords(p.wheels_pressure@) == b.subrange(88, 104));
        lemma_enc_of_dwords_at(b, 104, 4);
        assert(enc_dwords(p.wheel_angular_speed@) == b.subrange(104, 120));
        lemma_enc_of_dwords_at(b, 120, 4);
        assert(enc_dwords(p.tyre_wear@) == b.subrange(120, 136));
        lemma_enc_of_dwords_at(b, 136, 4);
        assert(enc_dwords(p.tyre_dirty_level@) == b.subrange(136, 152));
        lemma_enc_of_dwords_at(b, 152, 4);
        assert(enc_dwords(p.tyre_core_temperature@) == b.subrange(152, 168));
        lemma_enc_of_dwords_at(b, 168, 4);
        assert(enc_dwords(p.camber_rad@) == b.subrange(168, 184));
        lemma_enc_of_dwords_at(b, 184, 4);
        assert(enc_dwords(p.suspension_travel@) == b.subrange(184, 200));
        lemma_enc_of_le32(b, 200);
        assert(spec_u32_to_le_bytes(p.drs) == b.subrange(200, 204));
        lemma_enc_of_le32(b, 204);
        assert(spec_u32_to_le_bytes(p.tc) == b.subrange(204, 208));
        lemma_enc_of_le32(b, 208);
        assert(spec_u32_to_le_bytes(p.heading) == b.subrange(208, 212));
        lemma_enc_of_le32(b, 212);
        assert(spec_u32_to_le_bytes(p.pitch) == b.subrange(212, 216));
        lemma_enc_of_le32(b, 216);
        assert(spec_u32_to_le_bytes(p.roll) == b.subrange(216, 220));
        lemma_enc_of_le32(b, 220);
        assert(spec_u32_to_le_bytes(p.cg_height) == b.subrange(220, 224));
        lemma_enc_of_dwords_at(b, 224, 5);
        assert(enc_dwords(p.car_damage@) == b.subrange(224, 244));
        lemma_i32_raw_round_trip(le32_at(b, 244));
        lemma_enc_of_le32(b, 244);
        assert(spec_u32_to_le_bytes(spec_i32_to_raw(p.number_of_tyres_out)) == b.subrange(244, 248));
        lemma_i32_raw_round_trip(le32_at(b, 248));
        lemma_enc_of_le32(b, 248);
        assert(spec_u32_to_le_bytes(spec_i32_to_raw(p.pit_limiter_on)) == b.subrange(248, 252));
        lemma_enc_of_le32(b, 252);
        assert(spec_u32_to_le_bytes(p.abs) == b.subrange(252, 256));
        lemma_enc_of_le32(b, 256);
        assert(spec_u32_to_le_bytes(p.kers_charge) == b.subrange(256, 260));
        lemma_enc_of_le32(b, 260);
        assert(spec_u32_to_le_bytes(p.kers_input) == b.subrange(260, 264));
        lemma_i32_raw_round_trip(le32_at(b, 264));
        lemma_enc_of_le32(b, 264);
        assert(spec_u32_to_le_bytes(spec_i32_to_raw(p.auto_shifter_on)) == b.subrange(264, 268));
        lemma_enc_of_dwords_at(b, 268, 2);
        assert(enc_dwords(p.ride_height@) == b.subrange(268, 276));
        lemma_enc_of_le32(b, 276);
        assert(spec_u32_to_le_bytes(p.turbo_boost) == b.subrange(276, 280));
        lemma_enc_of_le32(b, 280);
        assert(spec_u32_to_le_bytes(p.ballast) == b.subrange(280, 284));
        lemma_enc_of_le32(b, 284);
        assert(spec_u32_to_le_bytes(p.air_density) == b.subrange(284, 288));
        lemma_enc_of_le32(b, 288);
        assert(spec_u32_to_le_bytes(p.air_temp) == b.subrange(288, 292));
        lemma_enc_of_le32(b, 292);
        assert(spec_u32_to_le_bytes(p.road_temp) == b.subrange(292, 296));
        lemma_enc_of_dwords_at(b, 296, 3);
        assert(enc_dwords(p.local_angular_velocity@) == b.subrange(296, 308));
        lemma_enc_of_le32(b, 308);
        assert(spec_u32_to_le_bytes(p.final_ff) == b.subrange(308, 312));
        lemma_enc_of_le32(b, 312);
        assert(spec_u32_to_le_bytes(p.performance_meter) == b.subrange(312, 316));
        lemma_i32_raw_round_trip(le32_at(b, 316));
        lemma_enc_of_le32(b, 316);
        assert(spec_u32_to_le_bytes(spec_i32_to_raw(p.engine_brake)) == b.subrange(316, 320));
        lemma_i32_raw_round_trip(le32_at(b, 320));
        lemma_enc_of_le32(b, 320);
        assert(spec_u32_to_le_bytes(spec_i32_to_raw(p.ers_recovery_level)) == b.subrange(320, 324));
        lemma_i32_raw_round_trip(le32_at(b, 324));
        lemma_enc_of_le32(b, 324);
        assert(spec_u32_to_le_bytes(spec_i32_to_raw(p.ers_power_level)) == b.subrange(324, 328));
        lemma_i32_raw_round_trip(le32_at(b, 328));
        lemma_enc_of_le32(b, 328);
        assert(spec_u32_to_le_bytes(spec_i32_to_raw(p.ers_heat_charging)) == b.subrange(328, 332));
        lemma_i32_raw_round_trip(le32_at(b, 332));
        lemma_enc_of_le32(b, 332);
        assert(spec_u32_to_le_bytes(spec_i32_to_raw(p.ers_is_charging)) == b.subrange(332, 336));
        lemma_enc_of_le32(b, 336);
        assert(spec_u32_to_le_bytes(p.kers_current_kj) == b.subrange(336, 340));
        lemma_i32_raw_round_trip(le32_at(b, 340));
        lemma_enc_of_le32(b, 340);
        assert(spec_u32_to_le_bytes(spec_i32_to_raw(p.drs_available)) == b.subrange(340, 344));
        lemma_i32_raw_round_trip(le32_at(b, 344));
        lemma_enc_of_le32(b, 344);
        assert(spec_u32_to_le_bytes(spec_i32_to_raw(p.drs_enabled)) == b.subrange(344, 348));
        lemma_enc_of_dwords_at(b, 348, 4);
        assert(enc_dwords(p.brake_temp@) == b.subrange(348, 364));
        lemma_enc_of_le32(b, 364);
        assert(spec_u32_to_le_bytes(p.clutch) == b.subrange(364, 368));
        lemma_enc_of_dwords_at(b, 368, 4);
        assert(enc_dwords(p.tyre_temp_i@) == b.subrange(368, 384));
        lemma_enc_of_dwords_at(b, 384, 4);
        assert(enc_dwords(p.tyre_temp_m@) == b.subrange(384, 400));
        lemma_enc_of_dwords_at(b, 400, 4);
        assert(enc_dwords(p.tyre_temp_o@) == b.subrange(400, 416));
        lemma_i32_raw_round_trip(le32_at(b, 416));
        lemma_enc_of_le32(b, 416);
        assert(spec_u32_to_le_bytes(spec_i32_to_raw(p.is_ai_controlled)) == b.subrange(416, 420));
        lemma_enc_of_coords_at(b, 420, 4);
        assert(enc_coords(p.tyre_contact_point@) == b.subrange(420, 468));
        lemma_enc_of_coords_at(b, 468, 4);
        assert(enc_coords(p.tyre_contact_normal@) == b.subrange(468, 516));
        lemma_enc_of_coords_at(b, 516, 4);
        assert(enc_coords(p.tyre_contact_heading@) == b.subrange(516, 564));
        lemma_enc_of_le32(b, 564);
        assert(spec_u32_to_le_bytes(p.brake_bias) == b.subrange(564, 568));
        lemma_enc_of_dwords_at(b, 568, 3);
        assert(enc_dwords(p.local_velocity@) == b.subrange(568, 580));
        assert(b.subrange(0, 4) + b.subrange(4, 8) =~= b.subrange(0, 8));
        assert(b.subrange(0, 8) + b.subrange(8, 12) =~= b.subrange(0, 12));
        assert(b.subrange(0, 12) + b.subrange(12, 16) =~= b.subrange(0, 16));
        assert(b.subrange(0, 16) + b.subrange(16, 20) =~= b.subrange(0, 20));
        assert(b.subrange(0, 20) + b.subrange(20, 24) =~= b.subrange(0, 24));
        assert(b.subrange(0, 24) + b.subrange(24, 28) =~= b.subrange(0, 28));
        assert(b.subrange(0, 28) + b.subrange(28, 32) =~= b.subrange(0, 32));
        assert(b.subrange(0, 32) + b.subrange(32, 44) =~= b.subrange(0, 44));
        assert(b.subrange(0, 44) + b.subrange(44, 56) =~= b.subrange(0, 56));
        assert(b.subrange(0, 56) + b.subrange(56, 72) =~= b.subrange(0, 72));
        assert(b.subrange(0, 72) + b.subrange(72, 88) =~= b.subrange(0, 88));
        assert(b.subrange(0, 88) + b.subrange(88, 104) =~= b.subrange(0, 104));
        assert(b.subrange(0, 104) + b.subrange(104, 120) =~= b.subrange(0, 120));
        assert(b.subrange(0, 120) + b.subrange(120, 136) =~= b.subrange(0, 136));
        assert(b.subrange(0, 136) + b.subrange(136, 152) =~= b.subrange(0, 152));
        assert(b.subrange(0, 152) + b.subrange(152, 168) =~= b.subrange(0, 168));
        assert(b.subrange(0, 168) + b.subrange(168, 184) =~= b.subrange(0, 184));
        assert(b.subrange(0, 184) + b.subrange(184, 200) =~= b.subrange(0, 200));
        assert(b.subrange(0, 200) + b.subrange(200, 204) =~= b.subrange(0, 204));
        assert(b.subrange(0, 204) + b.subrange(204, 208) =~= b.subrange(0, 208));
        assert(b.subrange(0, 208) + b.subrange(208, 212) =~= b.subrange(0, 212));
        assert(b.subrange(0, 212) + b.subrange(212, 216) =~= b.subrange(0, 216));
        assert(b.subrange(0, 216) + b.subrange(216, 220) =~= b.subrange(0, 220));
        assert(b.subrange(0, 220) + b.subrange(220, 224) =~= b.subrange(0, 224));
        assert(b.subrange(0, 224) + b.subrange(224, 244) =~= b.subrange(0, 244));
        assert(b.subrange(0, 244) + b.subrange(244, 248) =~= b.subrange(0, 248));
        assert(b.subrange(0, 248) + b.subrange(248, 252) =~= b.subrange(0, 252));
        assert(b.subrange(0, 252) + b.subrange(252, 256) =~= b.subrange(0, 256));
        assert(b.subrange(0, 256) + b.subrange(256, 260) =~= b.subrange(0, 260));
        assert(b.subrange(0, 260) + b.subrange(260, 264) =~= b.subrange(0, 264));
        assert(b.subrange(0, 264) + b.subrange(264, 268) =~= b.subrange(0, 268));
        assert(b.subrange(0, 268) + b.subrange(268, 276) =~= b.subrange(0, 276));
        assert(b.subrange(0, 276) + b.subrange(276, 280) =~= b.subrange(0, 280));
        assert(b.subrange(0, 280) + b.subrange(280, 284) =~= b.subrange(0, 284));
        assert(b.subrange(0, 284) + b.subrange(284, 288) =~= b.subrange(0, 288));
        assert(b.subrange(0, 288) + b.subrange(288, 292) =~= b.subrange(0, 292));
        assert(b.subrange(0, 292) + b.subrange(292, 296) =~= b.subrange(0, 296));
        assert(b.subrange(0, 296) + b.subrange(296, 308) =~= b.subrange(0, 308));
        assert(b.subrange(0, 308) + b.subrange(308, 312) =~= b.subrange(0, 312));
        assert(b.subrange(0, 312) + b.subrange(312, 316) =~= b.subrange(0, 316));
        assert(b.subrange(0, 316) + b.subrange(316, 320) =~= b.subrange(0, 320));
        assert(b.subrange(0, 320) + b.subrange(320, 324) =~= b.subrange(0, 324));
        assert(b.subrange(0, 324) + b.subrange(324, 328) =~= b.subrange(0, 328));
        assert(b.subrange(0, 328) + b.subrange(328, 332) =~= b.subrange(0, 332));
        assert(b.subrange(0, 332) + b.subrange(332, 336) =~= b.subrange(0, 336));
        assert(b.subrange(0, 336) + b.subrange(336, 340) =~= b.subrange(0, 340));
        assert(b.subrange(0, 340) + b.subrange(340, 344) =~= b.subrange(0, 344));
        assert(b.subrange(0, 344) + b.subrange(344, 348) =~= b.subrange(0, 348));
        assert(b.subrange(0, 348) + b.subrange(348, 364) =~= b.subrange(0, 364));
        assert(b.subrange(0, 364) + b.subrange(364, 368) =~= b.subrange(0, 368));
        assert(b.subrange(0, 368) + b.subrange(368, 384) =~= b.subrange(0, 384));
        assert(b.subrange(0, 384) + b.subrange(384, 400) =~= b.subrange(0, 400));
        assert(b.subrange(0, 400) + b.subrange(400, 416) =~= b.subrange(0, 416));
        assert(b.subrange(0, 416) + b.subrange(416, 420) =~= b.subrange(0, 420));
        assert(b.subrange(0, 420) + b.subrange(420, 468) =~= b.subrange(0, 468));
        assert(b.subrange(0, 468) + b.subrange(468, 516) =~= b.subrange(0, 516));
        assert(b.subrange(0, 516) + b.subrange(516, 564) =~= b.subrange(0, 564));
        assert(b.subrange(0, 564) + b.subrange(564, 568) =~= b.subrange(0, 568));
        assert(b.subrange(0, 568) + b.subrange(568, 580) =~= b.subrange(0, 580));
        assert(p.spec_encode() == b.subrange(0, PHYSICS_SIZE as int));
    }
}

impl Default for Physics {
    /// The all-zero snapshot.
    fn default() -> (r: Self)
        ensures
            r.wf(),
    {
        Physics {
            packet_id: 0,
            gas: 0,
            brake: 0,
            fuel: 0,
            gear: 0,
            rpms: 0,
            steer_angle: 0,
            speed_kmh: 0,
            velocity: zero_dwords(3),
            acc_g: zero_dwords(3),
            wheel_slip: zero_dwords(4),
            wheel_load: zero_dwords(4),
            wheels_pressure: zero_dwords(4),
            wheel_angular_speed: zero_dwords(4),
            tyre_wear: zero_dwords(4),
            tyre_dirty_level: zero_dwords(4),
            tyre_core_temperature: zero_dwords(4),
            camber_rad: zero_dwords(4),
            suspension_travel: zero_dwords(4),
            drs: 0,
            tc: 0,
            heading: 0,
            pitch: 0,
            roll: 0,
            cg_height: 0,
            car_damage: zero_dwords(5),
            number_of_tyres_out: 0,
            pit_limiter_on: 0,
            abs: 0,
            kers_charge: 0,
            kers_input: 0,
            auto_shifter_on: 0,
            ride_height: zero_dwords(2),
            turbo_boost: 0,
            ballast: 0,
            air_density: 0,
            air_temp: 0,
            road_temp: 0,
            local_angular_velocity: zero_dwords(3),
            final_ff: 0,
            performance_meter: 0,
            engine_brake: 0,
            ers_recovery_level: 0,
            ers_power_level: 0,
            ers_heat_charging: 0,
            ers_is_charging: 0,
            kers_current_kj: 0,
            drs_available: 0,
            drs_enabled: 0,
            brake_temp: zero_dwords(4),
            clutch: 0,
            tyre_temp_i: zero_dwords(4),
            tyre_temp_m: zero_dwords(4),
            tyre_temp_o: zero_dwords(4),
            is_ai_controlled: 0,
            tyre_contact_point: zero_coords(4),
            tyre_contact_normal: zero_coords(4),
            tyre_contact_heading: zero_coords(4),
            brake_bias: 0,
            local_velocity: zero_dwords(3),
        }
    }
}

/// One graphics snapshot: session, timing and HUD state.
///
/// The field order, widths and offsets mirror the producer's in-memory
/// struct byte for byte; `matches_bytes` is that layout, stated once.
#[derive(Debug, Clone, PartialEq)]
pub struct Graphics {
    pub packet_id: i32,
    pub status: u32,
    pub session: i32,
    pub current_time: Vec<u16>,  // UTF-16 text
    pub last_time: Vec<u16>,  // UTF-16 text
    pub best_time: Vec<u16>,  // UTF-16 text
    pub split: Vec<u16>,  // UTF-16 text
    pub completed_laps: i32,
    pub position: i32,
    pub i_current_time: i32,
    pub i_last_time: i32,
    pub i_best_time: i32,
    pub session_time_left: u32,
    pub distance_traveled: u32,
    pub is_in_pit: i32,
    pub current_sector_index: i32,
    pub last_sector_time: i32,
    pub number_of_laps: i32,
    pub tyre_compound: Vec<u16>,  // UTF-16 text
    pub replay_time_multiplier: u32,
    pub normalized_car_position: u32,
    pub car_coordinates: Vec<u32>,
    pub penalty_time: u32,
    pub flag: u32,
    pub ideal_line_on: i32,
    pub is_in_pit_lane: i32,
    pub surface_grip: u32,
    pub mandatory_pit_done: i32,
}

impl Graphics {
    /// Every array-valued field has its fixed layout width.
    pub open spec fn wf(self) -> bool {
        &&& self.current_time@.len() == 15
        &&& self.last_time@.len() == 15
        &&& self.best_time@.len() == 15
        &&& self.split@.len() == 15
        &&& self.tyre_compound@.len() == 33
        &&& self.car_coordinates@.len() == 3
    }

    /// The layout contract: how each field is stored in the record's bytes.
    pub open spec fn matches_bytes(self, b: Seq<u8>) -> bool {
        &&& self.packet_id == spec_i32_from_raw(le32_at(b, 0))
        &&& self.status == le32_at(b, 4)
        &&& self.session == spec_i32_from_raw(le32_at(b, 8))
        &&& self.current_time@ == words_at(b, 12, 15)
        &&& self.last_time@ == words_at(b, 42, 15)
        &&& self.best_time@ == words_at(b, 72, 15)
        &&& self.split@ == words_at(b, 102, 15)
        &&& self.completed_laps == spec_i32_from_raw(le32_at(b, 132))
        &&& self.position == spec_i32_from_raw(le32_at(b, 136))
        &&& self.i_current_time == spec_i32_from_raw(le32_at(b, 140))
        &&& self.i_last_time == spec_i32_from_raw(le32_at(b, 144))
        &&& self.i_best_time == spec_i32_from_raw(le32_at(b, 148))
        &&& self.session_time_left == le32_at(b, 152)
        &&& self.distance_traveled == le32_at(b, 156)
        &&& self.is_in_pit == spec_i32_from_raw(le32_at(b, 160))
        &&& self.current_sector_index == spec_i32_from_raw(le32_at(b, 164))
        &&& self.last_sector_time == spec_i32_from_raw(le32_at(b, 168))
        &&& self.number_of_laps == spec_i32_from_raw(le32_at(b, 172))
        &&& self.tyre_compound@ == words_at(b, 176, 33)
        &&& self.replay_time_multiplier == le32_at(b, 244)
        &&& self.normalized_car_position == le32_at(b, 248)
        &&& self.car_coordinates@ == dwords_at(b, 252, 3)
        &&& self.penalty_time == le32_at(b, 264)
        &&& self.flag == le32_at(b, 268)
        &&& self.ideal_line_on == spec_i32_from_raw(le32_at(b, 272))
        &&& self.is_in_pit_lane == spec_i32_from_raw(le32_at(b, 276))
        &&& self.surface_grip == le32_at(b, 280)
        &&& self.mandatory_pit_done == spec_i32_from_raw(le32_at(b, 284))
    }

    /// True when the alignment padding inside the layout is zero in `b`.
    pub open spec fn padding_clear(b: Seq<u8>) -> bool {
        &&& zero_at(b, 242, 2)
    }

    /// The canonical encoding of this record, padding included.
    pub open spec fn spec_encode(self) -> Seq<u8> {
        spec_u32_to_le_bytes(spec_i32_to_raw(self.packet_id)) + spec_u32_to_le_bytes(self.status) + spec_u32_to_le_bytes(spec_i32_to_raw(self.session)) + enc_words(self.current_time@) + enc_words(self.last_time@) + enc_words(self.best_time@) + enc_words(self.split@) + spec_u32_to_le_bytes(spec_i32_to_raw(self.completed_laps)) + spec_u32_to_le_bytes(spec_i32_to_raw(self.position)) + spec_u32_to_le_bytes(spec_i32_to_raw(self.i_current_time)) + spec_u32_to_le_bytes(spec_i32_to_raw(self.i_last_time)) + spec_u32_to_le_bytes(spec_i32_to_raw(self.i_best_time)) + spec_u32_to_le_bytes(self.session_time_left) + spec_u32_to_le_bytes(self.distance_traveled) + spec_u32_to_le_bytes(spec_i32_to_raw(self.is_in_pit)) + spec_u32_to_le_bytes(spec_i32_to_raw(self.current_sector_index)) + spec_u32_to_le_bytes(spec_i32_to_raw(self.last_sector_time)) + spec_u32_to_le_bytes(spec_i32_to_raw(self.number_of_laps)) + enc_words(self.tyre_compound@) + zero_bytes(2) + spec_u32_to_le_bytes(self.replay_time_multiplier) + spec_u32_to_le_bytes(self.normalized_car_position) + enc_dwords(self.car_coordinates@) + spec_u32_to_le_bytes(self.penalty_time) + spec_u32_to_le_bytes(self.flag) + spec_u32_to_le_bytes(spec_i32_to_raw(self.ideal_line_on)) + spec_u32_to_le_bytes(spec_i32_to_raw(self.is_in_pit_lane)) + spec_u32_to_le_bytes(self.surface_grip) + spec_u32_to_le_bytes(spec_i32_to_raw(self.mandatory_pit_done))
    }

    /// Decodes the leading `GRAPHICS_SIZE` bytes of a region into a snapshot.
    #[verifier::spinoff_prover]
    #[verifier::rlimit(100)]
    pub fn decode(bytes: &[u8]) -> (r: Self)
        requires
            bytes@.len() >= GRAPHICS_SIZE,
        ensures
            r.wf(),
            r.matches_bytes(bytes@),
    {
        Graphics {
            packet_id: read_i32_at(bytes, 0),
            status: read_u32_at(bytes, 4),
            session: read_i32_at(bytes, 8),
            current_time: read_words_at(bytes, 12, 15),
            last_time: read_words_at(bytes, 42, 15),
            best_time: read_words_at(bytes, 72, 15),
            split: read_words_at(bytes, 102, 15),
            completed_laps: read_i32_at(bytes, 132),
            position: read_i32_at(bytes, 136),
            i_current_time: read_i32_at(bytes, 140),
            i_last_time: read_i32_at(bytes, 144),
            i_best_time: read_i32_at(bytes, 148),
            session_time_left: read_u32_at(bytes, 152),
            distance_traveled: read_u32_at(bytes, 156),
            is_in_pit: read_i32_at(bytes, 160),
            current_sector_index: read_i32_at(bytes, 164),
            last_sector_time: read_i32_at(bytes, 168),
            number_of_laps: read_i32_at(bytes, 172),
            tyre_compound: read_words_at(bytes, 176, 33),
            replay_time_multiplier: read_u32_at(bytes, 244),
            normalized_car_position: read_u32_at(bytes, 248),
            car_coordinates: read_dwords_at(bytes, 252, 3),
            penalty_time: read_u32_at(bytes, 264),
            flag: read_u32_at(bytes, 268),
            ideal_line_on: read_i32_at(bytes, 272),
            is_in_pit_lane: read_i32_at(bytes, 276),
            surface_grip: read_u32_at(bytes, 280),
            mandatory_pit_done: read_i32_at(bytes, 284),
        }
    }

    /// Encodes the snapshot back into its wire layout, padding zeroed.
    #[verifier::spinoff_prover]
    #[verifier::rlimit(100)]
    pub fn encode(&self) -> (out: Vec<u8>)
        ensures
            out@ == self.spec_encode(),
            self.wf() ==> out@.len() == GRAPHICS_SIZE,
    {
        let mut out: Vec<u8> = Vec::new();
        write_i32(&mut out, self.packet_id);
        assert(out@ =~= spec_u32_to_le_bytes(spec_i32_to_raw(self.packet_id)));
        write_u32(&mut out, self.status);
        write_i32(&mut out, self.session);
        write_words(&mut out, &self.current_time);
        write_words(&mut out, &self.last_time);
        write_words(&mut out, &self.best_time);
        write_words(&mut out, &self.split);
        write_i32(&mut out, self.completed_laps);
        write_i32(&mut out, self.position);
        write_i32(&mut out, self.i_current_time);
        write_i32(&mut out, self.i_last_time);
        write_i32(&mut out, self.i_best_time);
        write_u32(&mut out, self.session_time_left);
        write_u32(&mut out, self.distance_traveled);
        write_i32(&mut out, self.is_in_pit);
        write_i32(&mut out, self.current_sector_index);
        write_i32(&mut out, self.last_sector_time);
        write_i32(&mut out, self.number_of_laps);
        write_words(&mut out, &self.tyre_compound);
        write_zeros(&mut out, 2);
        write_u32(&mut out, self.replay_time_multiplier);
        write_u32(&mut out, self.normalized_car_position);
        write_dwords(&mut out, &self.car_coordinates);
        write_u32(&mut out, self.penalty_time);
        write_u32(&mut out, self.flag);
        write_i32(&mut out, self.ideal_line_on);
        write_i32(&mut out, self.is_in_pit_lane);
        write_u32(&mut out, self.surface_grip);
        write_i32(&mut out, self.mandatory_pit_done);
        proof {
            if self.wf() {
                Self::lemma_encode_len(*self);
            }
        }
        assert(out@ == self.spec_encode());
        out
    }

    /// A well-formed snapshot encodes to exactly the record size.
    pub proof fn lemma_encode_len(p: Self)
        requires
            p.wf(),
        ensures
            p.spec_encode().len() == GRAPHICS_SIZE,
    {
        vstd::bytes::lemma_auto_spec_u32_to_from_le_bytes();
        lemma_enc_words_len(p.current_time@);
        lemma_enc_words_len(p.last_time@);
        lemma_enc_words_len(p.best_time@);
        lemma_enc_words_len(p.split@);
        lemma_enc_words_len(p.tyre_compound@);
        lemma_enc_dwords_len(p.car_coordinates@);
    }

    /// Decoding a buffer and re-encoding the fields reproduces the
    /// buffer's leading `GRAPHICS_SIZE` bytes (the alignment padding must be zero, as the producer writes it).
    #[verifier::spinoff_prover]
    #[verifier::rlimit(100)]
    pub proof fn lemma_round_trip(p: Self, b: Seq<u8>)
        requires
            b.len() >= GRAPHICS_SIZE,
            p.matches_bytes(b),
            Self::padding_clear(b),
        ensures
            p.spec_encode() == b.subrange(0, GRAPHICS_SIZE as int),
    {
        lemma_i32_raw_round_trip(le32_at(b, 0));
        lemma_enc_of_le32(b, 0);
        assert(spec_u32_to_le_bytes(spec_i32_to_raw(p.packet_id)) == b.subrange(0, 4));
        lemma_enc_of_le32(b, 4);
        assert(spec_u32_to_le_bytes(p.status) == b.subrange(4, 8));
        lemma_i32_raw_round_trip(le32_at(b, 8));
        lemma_enc_of_le32(b, 8);
        assert(spec_u32_to_le_bytes(spec_i32_to_raw(p.session)) == b.subrange(8, 12));
        lemma_enc_of_words_at(b, 12, 15);
        assert(enc_words(p.current_time@) == b.subrange(12, 42));
        lemma_enc_of_words_at(b, 42, 15);
        assert(enc_words(p.last_time@) == b.subrange(42, 72));
        lemma_enc_of_words_at(b, 72, 15);
        assert(enc_words(p.best_time@) == b.subrange(72, 102));
        lemma_enc_of_words_at(b, 102, 15);
        assert(enc_words(p.split@) == b.subrange(102, 132));
        lemma_i32_raw_round_trip(le32_at(b, 132));
        lemma_enc_of_le32(b, 132);
        assert(spec_u32_to_le_bytes(spec_i32_to_raw(p.completed_laps)) == b.subrange(132, 136));
        lemma_i32_raw_round_trip(le32_at(b, 136));
        lemma_enc_of_le32(b, 136);
        assert(spec_u32_to_le_bytes(spec_i32_to_raw(p.position)) == b.subrange(136, 140));
        lemma_i32_raw_round_trip(le32_at(b, 140));
        lemma_enc_of_le32(b, 140);
        assert(spec_u32_to_le_bytes(spec_i32_to_raw(p.i_current_time)) == b.subrange(140, 144));
        lemma_i32_raw_round_trip(le32_at(b, 144));
        lemma_enc_of_le32(b, 144);
        assert(spec_u32_to_le_bytes(spec_i32_to_raw(p.i_last_time)) == b.subrange(144, 148));
        lemma_i32_raw_round_trip(le32_at(b, 148));
        lemma_enc_of_le32(b, 148);
        assert(spec_u32_to_le_bytes(spec_i32_to_raw(p.i_best_time)) == b.subrange(148, 152));
        lemma_enc_of_le32(b, 152);
        assert(spec_u32_to_le_bytes(p.session_time_left) == b.subrange(152, 156));
        lemma_enc_of_le32(b, 156);
        assert(spec_u32_to_le_bytes(p.distance_traveled) == b.subrange(156, 160));
        lemma_i32_raw_round_trip(le32_at(b, 160));
        lemma_enc_of_le32(b, 160);
        assert(spec_u32_to_le_bytes(spec_i32_to_raw(p.is_in_pit)) == b.subrange(160, 164));
        lemma_i32_raw_round_trip(le32_at(b, 164));
        lemma_enc_of_le32(b, 164);
        assert(spec_u32_to_le_bytes(spec_i32_to_raw(p.current_sector_index)) == b.subrange(164, 168));
        lemma_i32_raw_round_trip(le32_at(b, 168));
        lemma_enc_of_le32(b, 168);
        assert(spec_u32_to_le_bytes(spec_i32_to_raw(p.last_sector_time)) == b.subrange(168, 172));
        lemma_i32_raw_round_trip(le32_at(b, 172));
        lemma_enc_of_le32(b, 172);
        assert(spec_u32_to_le_bytes(spec_i32_to_raw(p.number_of_laps)) == b.subrange(172, 176));
        lemma_enc_of_words_at(b, 176, 33);
        assert(enc_words(p.tyre_compound@) == b.subrange(176, 242));
        lemma_zero_bytes_at(b, 242, 2);
        lemma_enc_of_le32(b, 244);
        assert(spec_u32_to_le_bytes(p.replay_time_multiplier) == b.subrange(244, 248));
        lemma_enc_of_le32(b, 248);
        assert(spec_u32_to_le_bytes(p.normalized_car_position) == b.subrange(248, 252));
        lemma_enc_of_dwords_at(b, 252, 3);
        assert(enc_dwords(p.car_coordinates@) == b.subrange(252, 264));
        lemma_enc_of_le32(b, 264);
        assert(spec_u32_to_le_bytes(p.penalty_time) == b.subrange(264, 268));
        lemma_enc_of_le32(b, 268);
        assert(spec_u32_to_le_bytes(p.flag) == b.subrange(268, 272));
        lemma_i32_raw_round_trip(le32_at(b, 272));
        lemma_enc_of_le32(b, 272);
        assert(spec_u32_to_le_bytes(spec_i32_to_raw(p.ideal_line_on)) == b.subrange(272, 276));
        lemma_i32_raw_round_trip(le32_at(b, 276));
        lemma_enc_of_le32(b, 276);
        assert(spec_u32_to_le_bytes(spec_i32_to_raw(p.is_in_pit_lane)) == b.subrange(276, 280));
        lemma_enc_of_le32(b, 280);
        assert(spec_u32_to_le_bytes(p.surface_grip) == b.subrange(280, 284));
        lemma_i32_raw_round_trip(le32_at(b, 284));
        lemma_enc_of_le32(b, 284);
        assert(spec_u32_to_le_bytes(spec_i32_to_raw(p.mandatory_pit_done)) == b.subrange(284, 288));
        assert(b.subrange(0, 4) + b.subrange(4, 8) =~= b.subrange(0, 8));
        assert(b.subrange(0, 8) + b.subrange(8, 12) =~= b.subrange(0, 12));
        assert(b.subrange(0, 12) + b.subrange(12, 42) =~= b.subrange(0, 42));
        assert(b.subrange(0, 42) + b.subrange(42, 72) =~= b.subrange(0, 72));
        assert(b.subrange(0, 72) + b.subrange(72, 102) =~= b.subrange(0, 102));
        assert(b.subrange(0, 102) + b.subrange(102, 132) =~= b.subrange(0, 132));
        assert(b.subrange(0, 132) + b.subrange(132, 136) =~= b.subrange(0, 136));
        assert(b.subrange(0, 136) + b.subrange(136, 140) =~= b.subrange(0, 140));
        assert(b.subrange(0, 140) + b.subrange(140, 144) =~= b.subrange(0, 144));
        assert(b.subrange(0, 144) + b.subrange(144, 148) =~= b.subrange(0, 148));
        assert(b.subrange(0, 148) + b.subrange(148, 152) =~= b.subrange(0, 152));
        assert(b.subrange(0, 152) + b.subrange(152, 156) =~= b.subrange(0, 156));
        assert(b.subrange(0, 156) + b.subrange(156, 160) =~= b.subrange(0, 160));
        assert(b.subrange(0, 160) + b.subrange(160, 164) =~= b.subrange(0, 164));
        assert(b.subrange(0, 164) + b.subrange(164, 168) =~= b.subrange(0, 168));
        assert(b.subrange(0, 168) + b.subrange(168, 172) =~= b.subrange(0, 172));
        assert(b.subrange(0, 172) + b.subrange(172, 176) =~= b.subrange(0, 176));
        assert(b.subrange(0, 176) + b.subrange(176, 242) =~= b.subrange(0, 242));
        assert(b.subrange(0, 242) + b.subrange(242, 244) =~= b.subrange(0, 244));
        assert(b.subrange(0, 244) + b.subrange(244, 248) =~= b.subrange(0, 248));
        assert(b.subrange(0, 248) + b.subrange(248, 252) =~= b.subrange(0, 252));
        assert(b.subrange(0, 252) + b.subrange(252, 264) =~= b.subrange(0, 264));
        assert(b.subrange(0, 264) + b.subrange(264, 268) =~= b.subrange(0, 268));
        assert(b.subrange(0, 268) + b.subrange(268, 272) =~= b.subrange(0, 272));
        assert(b.subrange(0, 272) + b.subrange(272, 276) =~= b.subrange(0, 276));
        assert(b.subrange(0, 276) + b.subrange(276, 280) =~= b.subrange(0, 280));
        assert(b.subrange(0, 280) + b.subrange(280, 284) =~= b.subrange(0, 284));
        assert(b.subrange(0, 284) + b.subrange(284, 288) =~= b.subrange(0, 288));
        assert(p.spec_encode() == b.subrange(0, GRAPHICS_SIZE as int));
    }

    /// The `current_time` text field, decoded from its wide characters.
    pub fn current_time_str(&self) -> (r: String)
        ensures
            r@ == utf16_text(self.current_time@),
    {
        utf16_to_string(self.current_time.as_slice())
    }

    /// The `last_time` text field, decoded from its wide characters.
    pub fn last_time_str(&self) -> (r: String)
        ensures
            r@ == utf16_text(self.last_time@),
    {
        utf16_to_string(self.last_time.as_slice())
    }

    /// The `best_time` text field, decoded from its wide characters.
    pub fn best_time_str(&self) -> (r: String)
        ensures
            r@ == utf16_text(self.best_time@),
    {
        utf16_to_string(self.best_time.as_slice())
    }

    /// The `split` text field, decoded from its wide characters.
    pub fn split_str(&self) -> (r: String)
        ensures
            r@ == utf16_text(self.split@),
    {
        utf16_to_string(self.split.as_slice())
    }

    /// The `tyre_compound` text field, decoded from its wide characters.
    pub fn tyre_compound_str(&self) -> (r: String)
        ensures
            r@ == utf16_text(self.tyre_compound@),
    {
        utf16_to_string(self.tyre_compound.as_slice())
    }
}

impl Default for Graphics {
    /// The all-zero snapshot.
    fn default() -> (r: Self)
        ensures
            r.wf(),
    {
        Graphics {
            packet_id: 0,
            status: 0,
            session: 0,
            current_time: zero_words(15),
            last_time: zero_words(15),
            best_time: zero_words(15),
            split: zero_words(15),
            completed_laps: 0,
            position: 0,
            i_current_time: 0,
            i_last_time: 0,
            i_best_time: 0,
            session_time_left: 0,
            distance_traveled: 0,
            is_in_pit: 0,
            current_sector_index: 0,
            last_sector_time: 0,
            number_of_laps: 0,
            tyre_compound: zero_words(33),
            replay_time_multiplier: 0,
            normalized_car_position: 0,
            car_coordinates: zero_dwords(3),
            penalty_time: 0,
            flag: 0,
            ideal_line_on: 0,
            is_in_pit_lane: 0,
            surface_grip: 0,
            mandatory_pit_done: 0,
        }
    }
}

/// One static-info snapshot: session-wide facts fixed at load time.
///
/// The field order, widths and offsets mirror the producer's in-memory
/// struct byte for byte; `matches_bytes` is that layout, stated once.
#[derive(Debug, Clone, PartialEq)]
pub struct StaticInfo {
    pub sm_version: Vec<u16>,  // UTF-16 text
    pub ac_version: Vec<u16>,  // UTF-16 text
    pub number_of_sessions: i32,
    pub num_cars: i32,
    pub car_model: Vec<u16>,  // UTF-16 text
    pub track: Vec<u16>,  // UTF-16 text
    pub player_name: Vec<u16>,  // UTF-16 text
    pub player_surname: Vec<u16>,  // UTF-16 text
    pub player_nick: Vec<u16>,  // UTF-16 text
    pub sector_count: i32,
    pub max_torque: u32,
    pub max_power: u32,
    pub max_rpm: i32,
    pub max_fuel: u32,
    pub suspension_max_travel: Vec<u32>,
    pub tyre_radius: Vec<u32>,
    pub max_turbo_boost: u32,
    pub deprecated1: u32,
    pub deprecated2: u32,
    pub penalties_enabled: i32,
    pub aid_fuel_rate: u32,
    pub aid_tire_rate: u32,
    pub aid_mechanical_damage: u32,
    pub aid_allow_tyre_blankets: i32,
    pub aid_stability: u32,
    pub aid_auto_clutch: i32,
    pub aid_auto_blip: i32,
    pub has_drs: i32,
    pub has_ers: i32,
    pub has_kers: i32,
    pub kers_max_joules: u32,
    pub engine_brake_settings_count: i32,
    pub ers_power_controller_count: i32,
    pub track_spline_length: u32,
    pub track_configuration: Vec<u16>,  // UTF-16 text
    pub ers_max_j: u32,
    pub is_timed_race: i32,
    pub has_extra_lap: i32,
    pub car_skin: Vec<u16>,  // UTF-16 text
    pub reversed_grid_positions: i32,
    pub pit_window_start: i32,
    pub pit_window_end: i32,
}

impl StaticInfo {
    /// Every array-valued field has its fixed layout width.
    pub open spec fn wf(self) -> bool {
        &&& self.sm_version@.len() == 15
        &&& self.ac_version@.len() == 15
        &&& self.car_model@.len() == 33
        &&& self.track@.len() == 33
        &&& self.player_name@.len() == 33
        &&& self.player_surname@.len() == 33
        &&& self.player_nick@.len() == 33
        &&& self.suspension_max_travel@.len() == 4
        &&& self.tyre_radius@.len() == 4
        &&& self.track_configuration@.len() == 15
        &&& self.car_skin@.len() == 33
    }

    /// The layout contract: how each field is stored in the record's bytes.
    pub open spec fn matches_bytes(self, b: Seq<u8>) -> bool {
        &&& self.sm_version@ == words_at(b, 0, 15)
        &&& self.ac_version@ == words_at(b, 30, 15)
        &&& self.number_of_sessions == spec_i32_from_raw(le32_at(b, 60))
        &&& self.num_cars == spec_i32_from_raw(le32_at(b, 64))
        &&& self.car_model@ == words_at(b, 68, 33)
        &&& self.track@ == words_at(b, 134, 33)
        &&& self.player_name@ == words_at(b, 200, 33)
        &&& self.player_surname@ == words_at(b, 266, 33)
        &&& self.player_nick@ == words_at(b, 332, 33)
        &&& self.sector_count == spec_i32_from_raw(le32_at(b, 400))
        &&& self.max_torque == le32_at(b, 404)
        &&& self.max_power == le32_at(b, 408)
        &&& self.max_rpm == spec_i32_from_raw(le32_at(b, 412))
        &&& self.max_fuel == le32_at(b, 416)
        &&& self.suspension_max_travel@ == dwords_at(b, 420, 4)
        &&& self.tyre_radius@ == dwords_at(b, 436, 4)
        &&& self.max_turbo_boost == le32_at(b, 452)
        &&& self.deprecated1 == le32_at(b, 456)
        &&& self.deprecated2 == le32_at(b, 460)
        &&& self.penalties_enabled == spec_i32_from_raw(le32_at(b, 464))
        &&& self.aid_fuel_rate == le32_at(b, 468)
        &&& self.aid_tire_rate == le32_at(b, 472)
        &&& self.aid_mechanical_damage == le32_at(b, 476)
        &&& self.aid_allow_tyre_blankets == spec_i32_from_raw(le32_at(b, 480))
        &&& self.aid_stability == le32_at(b, 484)
        &&& self.aid_auto_clutch == spec_i32_from_raw(le32_at(b, 488))
        &&& self.aid_auto_blip == spec_i32_from_raw(le32_at(b, 492))
        &&& self.has_drs == spec_i32_from_raw(le32_at(b, 496))
        &&& self.has_ers == spec_i32_from_raw(le32_at(b, 500))
        &&& self.has_kers == spec_i32_from_raw(le32_at(b, 504))
        &&& self.kers_max_joules == le32_at(b, 508)
        &&& self.engine_brake_settings_count == spec_i32_from_raw(le32_at(b, 512))
        &&& self.ers_power_controller_count == spec_i32_from_raw(le32_at(b, 516))
        &&& self.track_spline_length == le32_at(b, 520)
        &&& self.track_configuration@ == words_at(b, 524, 15)
        &&& self.ers_max_j == le32_at(b, 556)
        &&& self.is_timed_race == spec_i32_from_raw(le32_at(b, 560))
        &&& self.has_extra_lap == spec_i32_from_raw(le32_at(b, 564))
        &&& self.car_skin@ == words_at(b, 568, 33)
        &&& self.reversed_grid_positions == spec_i32_from_raw(le32_at(b, 636))
        &&& self.pit_window_start == spec_i32_from_raw(le32_at(b, 640))
        &&& self.pit_window_end == spec_i32_from_raw(le32_at(b, 644))
    }

    /// True when the alignment padding inside the layout is zero in `b`.
    pub open spec fn padding_clear(b: Seq<u8>) -> bool {
        &&& zero_at(b, 398, 2)
        &&& zero_at(b, 554, 2)
        &&& zero_at(b, 634, 2)
    }

    /// The canonical encoding of this record, padding included.
    pub open spec fn spec_encode(self) -> Seq<u8> {
        enc_words(self.sm_version@) + enc_words(self.ac_version@) + spec_u32_to_le_bytes(spec_i32_to_raw(self.number_of_sessions)) + spec_u32_to_le_bytes(spec_i32_to_raw(self.num_cars)) + enc_words(self.car_model@) + enc_words(self.track@) + enc_words(self.player_name@) + enc_words(self.player_surname@) + enc_words(self.player_nick@) + zero_bytes(2) + spec_u32_to_le_bytes(spec_i32_to_raw(self.sector_count)) + spec_u32_to_le_bytes(self.max_torque) + spec_u32_to_le_bytes(self.max_power) + spec_u32_to_le_bytes(spec_i32_to_raw(self.max_rpm)) + spec_u32_to_le_bytes(self.max_fuel) + enc_dwords(self.suspension_max_travel@) + enc_dwords(self.tyre_radius@) + spec_u32_to_le_bytes(self.max_turbo_boost) + spec_u32_to_le_bytes(self.deprecated1) + spec_u32_to_le_bytes(self.deprecated2) + spec_u32_to_le_bytes(spec_i32_to_raw(self.penalties_enabled)) + spec_u32_to_le_bytes(self.aid_fuel_rate) + spec_u32_to_le_bytes(self.aid_tire_rate) + spec_u32_to_le_bytes(self.aid_mechanical_damage) + spec_u32_to_le_bytes(spec_i32_to_raw(self.aid_allow_tyre_blankets)) + spec_u32_to_le_bytes(self.aid_stability) + spec_u32_to_le_bytes(spec_i32_to_raw(self.aid_auto_clutch)) + spec_u32_to_le_bytes(spec_i32_to_raw(self.aid_auto_blip)) + spec_u32_to_le_bytes(spec_i32_to_raw(self.has_drs)) + spec_u32_to_le_bytes(spec_i32_to_raw(self.has_ers)) + spec_u32_to_le_bytes(spec_i32_to_raw(self.has_kers)) + spec_u32_to_le_bytes(self.kers_max_joules) + spec_u32_to_le_bytes(spec_i32_to_raw(self.engine_brake_settings_count)) + spec_u32_to_le_bytes(spec_i32_to_raw(self.ers_power_controller_count)) + spec_u32_to_le_bytes(self.track_spline_length) + enc_words(self.track_configuration@) + zero_bytes(2) + spec_u32_to_le_bytes(self.ers_max_j) + spec_u32_to_le_bytes(spec_i32_to_raw(self.is_timed_race)) + spec_u32_to_le_bytes(spec_i32_to_raw(self.has_extra_lap)) + enc_words(self.car_skin@) + zero_bytes(2) + spec_u32_to_le_bytes(spec_i32_to_raw(self.reversed_grid_positions)) + spec_u32_to_le_bytes(spec_i32_to_raw(self.pit_window_start)) + spec_u32_to_le_bytes(spec_i32_to_raw(self.pit_window_end))
    }

    /// Decodes the leading `STATIC_INFO_SIZE` bytes of a region into a snapshot.
    #[verifier::spinoff_prover]
    #[verifier::rlimit(100)]
    pub fn decode(bytes: &[u8]) -> (r: Self)
        requires
            bytes@.len() >= STATIC_INFO_SIZE,
        ensures
            r.wf(),
            r.matches_bytes(bytes@),
    {
        StaticInfo {
            sm_version: read_words_at(bytes, 0, 15),
            ac_version: read_words_at(bytes, 30, 15),
            number_of_sessions: read_i32_at(bytes, 60),
            num_cars: read_i32_at(bytes, 64),
            car_model: read_words_at(bytes, 68, 33),
            track: read_words_at(bytes, 134, 33),
            player_name: read_words_at(bytes, 200, 33),
            player_surname: read_words_at(bytes, 266, 33),
            player_nick: read_words_at(bytes, 332, 33),
            sector_count: read_i32_at(bytes, 400),
            max_torque: read_u32_at(bytes, 404),
            max_power: read_u32_at(bytes, 408),
            max_rpm: read_i32_at(bytes, 412),
            max_fuel: read_u32_at(bytes, 416),
            suspension_max_travel: read_dwords_at(bytes, 420, 4),
            tyre_radius: read_dwords_at(bytes, 436, 4),
            max_turbo_boost: read_u32_at(bytes, 452),
            deprecated1: read_u32_at(bytes, 456),
            deprecated2: read_u32_at(bytes, 460),
            penalties_enabled: read_i32_at(bytes, 464),
            aid_fuel_rate: read_u32_at(bytes, 468),
            aid_tire_rate: read_u32_at(bytes, 472),
            aid_mechanical_damage: read_u32_at(bytes, 476),
            aid_allow_tyre_blankets: read_i32_at(bytes, 480),
            aid_stability: read_u32_at(bytes, 484),
            aid_auto_clutch: read_i32_at(bytes, 488),
            aid_auto_blip: read_i32_at(bytes, 492),
            has_drs: read_i32_at(bytes, 496),
            has_ers: read_i32_at(bytes, 500),
            has_kers: read_i32_at(bytes, 504),
            kers_max_joules: read_u32_at(bytes, 508),
            engine_brake_settings_count: read_i32_at(bytes, 512),
            ers_power_controller_count: read_i32_at(bytes, 516),
            track_spline_length: read_u32_at(bytes, 520),
            track_configuration: read_words_at(bytes, 524, 15),
            ers_max_j: read_u32_at(bytes, 556),
            is_timed_race: read_i32_at(bytes, 560),
            has_extra_lap: read_i32_at(bytes, 564),
            car_skin: read_words_at(bytes, 568, 33),
            reversed_grid_positions: read_i32_at(bytes, 636),
            pit_window_start: read_i32_at(bytes, 640),
            pit_window_end: read_i32_at(bytes, 644),
        }
    }

    /// Encodes the snapshot back into its wire layout, padding zeroed.
    #[verifier::spinoff_prover]
    #[verifier::rlimit(100)]
    pub fn encode(&self) -> (out: Vec<u8>)
        ensures
            out@ == self.spec_encode(),
            self.wf() ==> out@.len() == STATIC_INFO_SIZE,
    {
        let mut out: Vec<u8> = Vec::new();
        write_words(&mut out, &self.sm_version);
        assert(out@ =~= enc_words(self.sm_version@));
        write_words(&mut out, &self.ac_version);
        write_i32(&mut out, self.number_of_sessions);
        write_i32(&mut out, self.num_cars);
        write_words(&mut out, &self.car_model);
        write_words(&mut out, &self.track);
        write_words(&mut out, &self.player_name);
        write_words(&mut out, &self.player_surname);
        write_words(&mut out, &self.player_nick);
        write_zeros(&mut out, 2);
        write_i32(&mut out, self.sector_count);
        write_u32(&mut out, self.max_torque);
        write_u32(&mut out, self.max_power);
        write_i32(&mut out, self.max_rpm);
        write_u32(&mut out, self.max_fuel);
        write_dwords(&mut out, &self.suspension_max_travel);
        write_dwords(&mut out, &self.tyre_radius);
        write_u32(&mut out, self.max_turbo_boost);
        write_u32(&mut out, self.deprecated1);
        write_u32(&mut out, self.deprecated2);
        write_i32(&mut out, self.penalties_enabled);
        write_u32(&mut out, self.aid_fuel_rate);
        write_u32(&mut out, self.aid_tire_rate);
        write_u32(&mut out, self.aid_mechanical_damage);
        write_i32(&mut out, self.aid_allow_tyre_blankets);
        write_u32(&mut out, self.aid_stability);
        write_i32(&mut out, self.aid_auto_clutch);
        write_i32(&mut out, self.aid_auto_blip);
        write_i32(&mut out, self.has_drs);
        write_i32(&mut out, self.has_ers);
        write_i32(&mut out, self.has_kers);
        write_u32(&mut out, self.kers_max_joules);
        write_i32(&mut out, self.engine_brake_settings_count);
        write_i32(&mut out, self.ers_power_controller_count);
        write_u32(&mut out, self.track_spline_length);
        write_words(&mut out, &self.track_configuration);
        write_zeros(&mut out, 2);
        write_u32(&mut out, self.ers_max_j);
        write_i32(&mut out, self.is_timed_race);
        write_i32(&mut out, self.has_extra_lap);
        write_words(&mut out, &self.car_skin);
        write_zeros(&mut out, 2);
        write_i32(&mut out, self.reversed_grid_positions);
        write_i32(&mut out, self.pit_window_start);
        write_i32(&mut out, self.pit_window_end);
        proof {
            if self.wf() {
                Self::lemma_encode_len(*self);
            }
        }
        assert(out@ == self.spec_encode());
        out
    }

    /// A well-formed snapshot encodes to exactly the record size.
    pub proof fn lemma_encode_len(p: Self)
        requires
            p.wf(),
        ensures
            p.spec_encode().len() == STATIC_INFO_SIZE,
    {
        vstd::bytes::lemma_auto_spec_u32_to_from_le_bytes();
        lemma_enc_words_len(p.sm_version@);
        lemma_enc_words_len(p.ac_version@);
        lemma_enc_words_len(p.car_model@);
        lemma_enc_words_len(p.track@);
        lemma_enc_words_len(p.player_name@);
        lemma_enc_words_len(p.player_surname@);
        lemma_enc_words_len(p.player_nick@);
        lemma_enc_dwords_len(p.suspension_max_travel@);
        lemma_enc_dwords_len(p.tyre_radius@);
        lemma_enc_words_len(p.track_configuration@);
        lemma_enc_words_len(p.car_skin@);
    }

    /// Decoding a buffer and re-encoding the fields reproduces the
    /// buffer's leading `STATIC_INFO_SIZE` bytes (the alignment padding must be zero, as the producer writes it).
    #[verifier::spinoff_prover]
    #[verifier::rlimit(100)]
    pub proof fn lemma_round_trip(p: Self, b: Seq<u8>)
        requires
            b.len() >= STATIC_INFO_SIZE,
            p.matches_bytes(b),
            Self::padding_clear(b),
        ensures
            p.spec_encode() == b.subrange(0, STATIC_INFO_SIZE as int),
    {
        lemma_enc_of_words_at(b, 0, 15);
        assert(enc_words(p.sm_version@) == b.subrange(0, 30));
        lemma_enc_of_words_at(b, 30, 15);
        assert(enc_words(p.ac_version@) == b.subrange(30, 60));
        lemma_i32_raw_round_trip(le32_at(b, 60));
        lemma_enc_of_le32(b, 60);
        assert(spec_u32_to_le_bytes(spec_i32_to_raw(p.number_of_sessions)) == b.subrange(60, 64));
        lemma_i32_raw_round_trip(le32_at(b, 64));
        lemma_enc_of_le32(b, 64);
        assert(spec_u32_to_le_bytes(spec_i32_to_raw(p.num_cars)) == b.subrange(64, 68));
        lemma_enc_of_words_at(b, 68, 33);
        assert(enc_words(p.car_model@) == b.subrange(68, 134));
        lemma_enc_of_words_at(b, 134, 33);
        assert(enc_words(p.track@) == b.subrange(134, 200));
        lemma_enc_of_words_at(b, 200, 33);
        assert(enc_words(p.player_name@) == b.subrange(200, 266));
        lemma_enc_of_words_at(b, 266, 33);
        assert(enc_words(p.player_surname@) == b.subrange(266, 332));
        lemma_enc_of_words_at(b, 332, 33);
        assert(enc_words(p.player_nick@) == b.subrange(332, 398));
        lemma_zero_bytes_at(b, 398, 2);
        lemma_i32_raw_round_trip(le32_at(b, 400));
        lemma_enc_of_le32(b, 400);
        assert(spec_u32_to_le_bytes(spec_i32_to_raw(p.sector_count)) == b.subrange(400, 404));
        lemma_enc_of_le32(b, 404);
        assert(spec_u32_to_le_bytes(p.max_torque) == b.subrange(404, 408));
        lemma_enc_of_le32(b, 408);
        assert(spec_u32_to_le_bytes(p.max_power) == b.subrange(408, 412));
        lemma_i32_raw_round_trip(le32_at(b, 412));
        lemma_enc_of_le32(b, 412);
        assert(spec_u32_to_le_bytes(spec_i32_to_raw(p.max_rpm)) == b.subrange(412, 416));
        lemma_enc_of_le32(b, 416);
        assert(spec_u32_to_le_bytes(p.max_fuel) == b.subrange(416, 420));
        lemma_enc_of_dwords_at(b, 420, 4);
        assert(enc_dwords(p.suspension_max_travel@) == b.subrange(420, 436));
        lemma_enc_of_dwords_at(b, 436, 4);
        assert(enc_dwords(p.tyre_radius@) == b.subrange(436, 452));
        lemma_enc_of_le32(b, 452);
        assert(spec_u32_to_le_bytes(p.max_turbo_boost) == b.subrange(452, 456));
        lemma_enc_of_le32(b, 456);
        assert(spec_u32_to_le_bytes(p.deprecated1) == b.subrange(456, 460));
        lemma_enc_of_le32(b, 460);
        assert(spec_u32_to_le_bytes(p.deprecated2) == b.subrange(460, 464));
        lemma_i32_raw_round_trip(le32_at(b, 464));
        lemma_enc_of_le32(b, 464);
        assert(spec_u32_to_le_bytes(spec_i32_to_raw(p.penalties_enabled)) == b.subrange(464, 468));
        lemma_enc_of_le32(b, 468);
        assert(spec_u32_to_le_bytes(p.aid_fuel_rate) == b.subrange(468, 472));
        lemma_enc_of_le32(b, 472);
        assert(spec_u32_to_le_bytes(p.aid_tire_rate) == b.subrange(472, 476));
        lemma_enc_of_le32(b, 476);
        assert(spec_u32_to_le_bytes(p.aid_mechanical_damage) == b.subrange(476, 480));
        lemma_i32_raw_round_trip(le32_at(b, 480));
        lemma_enc_of_le32(b, 480);
        assert(spec_u32_to_le_bytes(spec_i32_to_raw(p.aid_allow_tyre_blankets)) == b.subrange(480, 484));
        lemma_enc_of_le32(b, 484);
        assert(spec_u32_to_le_bytes(p.aid_stability) == b.subrange(484, 488));
        lemma_i32_raw_round_trip(le32_at(b, 488));
        lemma_enc_of_le32(b, 488);
        assert(spec_u32_to_le_bytes(spec_i32_to_raw(p.aid_auto_clutch)) == b.subrange(488, 492));
        lemma_i32_raw_round_trip(le32_at(b, 492));
        lemma_enc_of_le32(b, 492);
        assert(spec_u32_to_le_bytes(spec_i32_to_raw(p.aid_auto_blip)) == b.subrange(492, 496));
        lemma_i32_raw_round_trip(le32_at(b, 496));
        lemma_enc_of_le32(b, 496);
        assert(spec_u32_to_le_bytes(spec_i32_to_raw(p.has_drs)) == b.subrange(496, 500));
        lemma_i32_raw_round_trip(le32_at(b, 500));
        lemma_enc_of_le32(b, 500);
        assert(spec_u32_to_le_bytes(spec_i32_to_raw(p.has_ers)) == b.subrange(500, 504));
        lemma_i32_raw_round_trip(le32_at(b, 504));
        lemma_enc_of_le32(b, 504);
        assert(spec_u32_to_le_bytes(spec_i32_to_raw(p.has_kers)) == b.subrange(504, 508));
        lemma_enc_of_le32(b, 508);
        assert(spec_u32_to_le_bytes(p.kers_max_joules) == b.subrange(508, 512));
        lemma_i32_raw_round_trip(le32_at(b, 512));
        lemma_enc_of_le32(b, 512);
        assert(spec_u32_to_le_bytes(spec_i32_to_raw(p.engine_brake_settings_count)) == b.subrange(512, 516));
        lemma_i32_raw_round_trip(le32_at(b, 516));
        lemma_enc_of_le32(b, 516);
        assert(spec_u32_to_le_bytes(spec_i32_to_raw(p.ers_power_controller_count)) == b.subrange(516, 520));
        lemma_enc_of_le32(b, 520);
        assert(spec_u32_to_le_bytes(p.track_spline_length) == b.subrange(520, 524));
        lemma_enc_of_words_at(b, 524, 15);
        assert(enc_words(p.track_configuration@) == b.subrange(524, 554));
        lemma_zero_bytes_at(b, 554, 2);
        lemma_enc_of_le32(b, 556);
        assert(spec_u32_to_le_bytes(p.ers_max_j) == b.subrange(556, 560));
        lemma_i32_raw_round_trip(le32_at(b, 560));
        lemma_enc_of_le32(b, 560);
        assert(spec_u32_to_le_bytes(spec_i32_to_raw(p.is_timed_race)) == b.subrange(560, 564));
        lemma_i32_raw_round_trip(le32_at(b, 564));
        lemma_enc_of_le32(b, 564);
        assert(spec_u32_to_le_bytes(spec_i32_to_raw(p.has_extra_lap)) == b.subrange(564, 568));
        lemma_enc_of_words_at(b, 568, 33);
        assert(enc_words(p.car_skin@) == b.subrange(568, 634));
        lemma_zero_bytes_at(b, 634, 2);
        lemma_i32_raw_round_trip(le32_at(b, 636));
        lemma_enc_of_le32(b, 636);
        assert(spec_u32_to_le_bytes(spec_i32_to_raw(p.reversed_grid_positions)) == b.subrange(636, 640));
        lemma_i32_raw_round_trip(le32_at(b, 640));
        lemma_enc_of_le32(b, 640);
        assert(spec_u32_to_le_bytes(spec_i32_to_raw(p.pit_window_start)) == b.subrange(640, 644));
        lemma_i32_raw_round_trip(le32_at(b, 644));
        lemma_enc_of_le32(b, 644);
        assert(spec_u32_to_le_bytes(spec_i32_to_raw(p.pit_window_end)) == b.subrange(644, 648));
        assert(b.subrange(0, 30) + b.subrange(30, 60) =~= b.subrange(0, 60));
        assert(b.subrange(0, 60) + b.subrange(60, 64) =~= b.subrange(0, 64));
        assert(b.subrange(0, 64) + b.subrange(64, 68) =~= b.subrange(0, 68));
        assert(b.subrange(0, 68) + b.subrange(68, 134) =~= b.subrange(0, 134));
        assert(b.subrange(0, 134) + b.subrange(134, 200) =~= b.subrange(0, 200));
        assert(b.subrange(0, 200) + b.subrange(200, 266) =~= b.subrange(0, 266));
        assert(b.subrange(0, 266) + b.subrange(266, 332) =~= b.subrange(0, 332));
        assert(b.subrange(0, 332) + b.subrange(332, 398) =~= b.subrange(0, 398));
        assert(b.subrange(0, 398) + b.subrange(398, 400) =~= b.subrange(0, 400));
        assert(b.subrange(0, 400) + b.subrange(400, 404) =~= b.subrange(0, 404));
        assert(b.subrange(0, 404) + b.subrange(404, 408) =~= b.subrange(0, 408));
        assert(b.subrange(0, 408) + b.subrange(408, 412) =~= b.subrange(0, 412));
        assert(b.subrange(0, 412) + b.subrange(412, 416) =~= b.subrange(0, 416));
        assert(b.subrange(0, 416) + b.subrange(416, 420) =~= b.subrange(0, 420));
        assert(b.subrange(0, 420) + b.subrange(420, 436) =~= b.subrange(0, 436));
        assert(b.subrange(0, 436) + b.subrange(436, 452) =~= b.subrange(0, 452));
        assert(b.subrange(0, 452) + b.subrange(452, 456) =~= b.subrange(0, 456));
        assert(b.subrange(0, 456) + b.subrange(456, 460) =~= b.subrange(0, 460));
        assert(b.subrange(0, 460) + b.subrange(460, 464) =~= b.subrange(0, 464));
        assert(b.subrange(0, 464) + b.subrange(464, 468) =~= b.subrange(0, 468));
        assert(b.subrange(0, 468) + b.subrange(468, 472) =~= b.subrange(0, 472));
        assert(b.subrange(0, 472) + b.subrange(472, 476) =~= b.subrange(0, 476));
        assert(b.subrange(0, 476) + b.subrange(476, 480) =~= b.subrange(0, 480));
        assert(b.subrange(0, 480) + b.subrange(480, 484) =~= b.subrange(0, 484));
        assert(b.subrange(0, 484) + b.subrange(484, 488) =~= b.subrange(0, 488));
        assert(b.subrange(0, 488) + b.subrange(488, 492) =~= b.subrange(0, 492));
        assert(b.subrange(0, 492) + b.subrange(492, 496) =~= b.subrange(0, 496));
        assert(b.subrange(0, 496) + b.subrange(496, 500) =~= b.subrange(0, 500));
        assert(b.subrange(0, 500) + b.subrange(500, 504) =~= b.subrange(0, 504));
        assert(b.subrange(0, 504) + b.subrange(504, 508) =~= b.subrange(0, 508));
        assert(b.subrange(0, 508) + b.subrange(508, 512) =~= b.subrange(0, 512));
        assert(b.subrange(0, 512) + b.subrange(512, 516) =~= b.subrange(0, 516));
        assert(b.subrange(0, 516) + b.subrange(516, 520) =~= b.subrange(0, 520));
        assert(b.subrange(0, 520) + b.subrange(520, 524) =~= b.subrange(0, 524));
        assert(b.subrange(0, 524) + b.subrange(524, 554) =~= b.subrange(0, 554));
        assert(b.subrange(0, 554) + b.subrange(554, 556) =~= b.subrange(0, 556));
        assert(b.subrange(0, 556) + b.subrange(556, 560) =~= b.subrange(0, 560));
        assert(b.subrange(0, 560) + b.subrange(560, 564) =~= b.subrange(0, 564));
        assert(b.subrange(0, 564) + b.subrange(564, 568) =~= b.subrange(0, 568));
        assert(b.subrange(0, 568) + b.subrange(568, 634) =~= b.subrange(0, 634));
        assert(b.subrange(0, 634) + b.subrange(634, 636) =~= b.subrange(0, 636));
        assert(b.subrange(0, 636) + b.subrange(636, 640) =~= b.subrange(0, 640));
        assert(b.subrange(0, 640) + b.subrange(640, 644) =~= b.subrange(0, 644));
        assert(b.subrange(0, 644) + b.subrange(644, 648) =~= b.subrange(0, 648));
        assert(p.spec_encode() == b.subrange(0, STATIC_INFO_SIZE as int));
    }

    /// The `sm_version` text field, decoded from its wide characters.
    pub fn sm_version_str(&self) -> (r: String)
        ensures
            r@ == utf16_text(self.sm_version@),
    {
        utf16_to_string(self.sm_version.as_slice())
    }

    /// The `ac_version` text field, decoded from its wide characters.
    pub fn ac_version_str(&self) -> (r: String)
        ensures
            r@ == utf16_text(self.ac_version@),
    {
        utf16_to_string(self.ac_version.as_slice())
    }

    /// The `car_model` text field, decoded from its wide characters.
    pub fn car_model_str(&self) -> (r: String)
        ensures
            r@ == utf16_text(self.car_model@),
    {
        utf16_to_string(self.car_model.as_slice())
    }

    /// The `track` text field, decoded from its wide characters.
    pub fn track_str(&self) -> (r: String)
        ensures
            r@ == utf16_text(self.track@),
    {
        utf16_to_string(self.track.as_slice())
    }

    /// The `player_name` text field, decoded from its wide characters.
    pub fn player_name_str(&self) -> (r: String)
        ensures
            r@ == utf16_text(self.player_name@),
    {
        utf16_to_string(self.player_name.as_slice())
    }

    /// The `player_surname` text field, decoded from its wide characters.
    pub fn player_surname_str(&self) -> (r: String)
        ensures
            r@ == utf16_text(self.player_surname@),
    {
        utf16_to_string(self.player_surname.as_slice())
    }

    /// The `player_nick` text field, decoded from its wide characters.
    pub fn player_nick_str(&self) -> (r: String)
        ensures
            r@ == utf16_text(self.player_nick@),
    {
        utf16_to_string(self.player_nick.as_slice())
    }

    /// The `track_configuration` text field, decoded from its wide characters.
    pub fn track_configuration_str(&self) -> (r: String)
        ensures
            r@ == utf16_text(self.track_configuration@),
    {
        utf16_to_string(self.track_configuration.as_slice())
    }

    /// The `car_skin` text field, decoded from its wide characters.
    pub fn car_skin_str(&self) -> (r: String)
        ensures
            r@ == utf16_text(self.car_skin@),
    {
        utf16_to_string(self.car_skin.as_slice())
    }
}

impl Default for StaticInfo {
    /// The all-zero snapshot.
    fn default() -> (r: Self)
        ensures
            r.wf(),
    {
        StaticInfo {
            sm_version: zero_words(15),
            ac_version: zero_words(15),
            number_of_sessions: 0,
            num_cars: 0,
            car_model: zero_words(33),
            track: zero_words(33),
            player_name: zero_words(33),
            player_surname: zero_words(33),
            player_nick: zero_words(33),
            sector_count: 0,
            max_torque: 0,
            max_power: 0,
            max_rpm: 0,
            max_fuel: 0,
            suspension_max_travel: zero_dwords(4),
            tyre_radius: zero_dwords(4),
            max_turbo_boost: 0,
            deprecated1: 0,
            deprecated2: 0,
            penalties_enabled: 0,
            aid_fuel_rate: 0,
            aid_tire_rate: 0,
            aid_mechanical_damage: 0,
            aid_allow_tyre_blankets: 0,
            aid_stability: 0,
            aid_auto_clutch: 0,
            aid_auto_blip: 0,
            has_drs: 0,
            has_ers: 0,
            has_kers: 0,
            kers_max_joules: 0,
            engine_brake_settings_count: 0,
            ers_power_controller_count: 0,
            track_spline_length: 0,
            track_configuration: zero_words(15),
            ers_max_j: 0,
            is_timed_race: 0,
            has_extra_lap: 0,
            car_skin: zero_words(33),
            reversed_grid_positions: 0,
            pit_window_start: 0,
            pit_window_end: 0,
        }
    }
}

/// Decodes a fixed-width, null-terminated array of 16-bit code units:
/// the prefix before the first zero unit (or the whole array when none
/// is zero), read as UTF-16 with a replacement character for every
/// unpaired surrogate.
pub fn utf16_to_string(utf16: &[u16]) -> (r: String)
    ensures
        r@ == utf16_text(utf16@),
{
    utf16_lossy(utf16)
}

} // verus!
