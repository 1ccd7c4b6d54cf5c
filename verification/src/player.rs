//! Raw decoded rider-state entries and their normalization into rider-state
//! records.

use vstd::prelude::*;

verus! {

/// One raw rider-state entry as decoded from a protocol message, before any
/// unit conversion. Field values are carried exactly as they stand on the
/// wire; none of them is validated against a plausible range.
#[derive(Clone, Copy, Debug, PartialEq, Eq, Structural)]
pub struct PlayerState {
    pub id: i32,
    /// Simulation timestamp, milliseconds.
    pub world_time: i64,
    /// Cumulative distance, meters.
    pub distance: i32,
    pub laps: i32,
    /// Raw speed, millimeters per hour.
    pub speed: i32,
    /// Position along the route, raw unit.
    pub road_position: i32,
    /// Pedalling frequency, micro-hertz.
    pub cadence_uhz: i32,
    pub heartrate: i32,
    pub power: i32,
    /// Orientation, raw unit.
    pub heading: i64,
    /// Lean angle, raw unit.
    pub lean: i32,
    /// Cumulative climbing, meters.
    pub climbing: i32,
    /// Elapsed time, seconds.
    pub time: i32,
    /// Auxiliary flags; the low 4 bits carry the power-up state.
    pub f20: i32,
    /// Position, raw centimeters.
    pub x: i32,
    /// Position, raw centimeters.
    pub y: i32,
    pub watching_rider_id: i32,
    pub group_id: i32,
}

impl PlayerState {
    /// The entry with every field zero: the value a message carries for a
    /// rider state it never mentions.
    pub open spec fn spec_default() -> PlayerState {
        PlayerState {
            id: 0,
            world_time: 0,
            distance: 0,
            laps: 0,
            speed: 0,
            road_position: 0,
            cadence_uhz: 0,
            heartrate: 0,
            power: 0,
            heading: 0,
            lean: 0,
            climbing: 0,
            time: 0,
            f20: 0,
            x: 0,
            y: 0,
            watching_rider_id: 0,
            group_id: 0,
        }
    }

    /// The all-zero entry.
    pub fn empty() -> (r: PlayerState)
        ensures
            r == PlayerState::spec_default(),
    {
        PlayerState {
            id: 0,
            world_time: 0,
            distance: 0,
            laps: 0,
            speed: 0,
            road_position: 0,
            cadence_uhz: 0,
            heartrate: 0,
            power: 0,
            heading: 0,
            lean: 0,
            climbing: 0,
            time: 0,
            f20: 0,
            x: 0,
            y: 0,
            watching_rider_id: 0,
            group_id: 0,
        }
    }
}

/// A normalized rider-state record: a self-contained snapshot of one rider,
/// produced once per successfully decoded entry and never mutated.
///
/// Positions and speed are kept as the raw integers of the wire; a consumer
/// that wants floating-point units divides `x_cm` and `y_cm` by 100 for
/// meters, and `speed_raw` by 1000 and then by 3600 for meters per second.
#[derive(Clone, Copy, Debug, PartialEq, Eq, Structural)]
pub struct Player {
    /// Rider identifier.
    pub id: i32,
    /// Simulation timestamp, milliseconds.
    pub world_time: i64,
    /// Grouping/session identifier.
    pub group_id: i32,
    /// Position, centimeters; meters are this value divided by 100.
    pub x_cm: i32,
    /// Position, centimeters; meters are this value divided by 100.
    pub y_cm: i32,
    /// Orientation, raw unit.
    pub heading: i64,
    /// Lean angle, raw unit.
    pub lean: i32,
    /// Position along the route, raw unit.
    pub road_position: i32,
    /// Raw speed, millimeters per hour; meters per second are this value
    /// divided by 1000 and then by 3600. Documented as noisy upstream and
    /// passed through unfixed.
    pub speed_raw: i32,
    /// Cumulative distance, meters.
    pub distance: i32,
    /// Elapsed time, seconds.
    pub time: i32,
    /// Completed laps.
    pub laps: i32,
    /// Cumulative climbing, meters.
    pub climbing: i32,
    /// Cadence, rounds per minute, from the raw micro-hertz field.
    pub cadence: i32,
    /// Heart rate, beats per minute.
    pub heartrate: i32,
    /// Power, watts.
    pub power: i32,
    /// Low 4 bits of the auxiliary flags field: 15 none, 0 feather, 1 draft,
    /// 5 aero; other values unmapped.
    pub power_up: i32,
    /// Identifier of the rider currently being spectated.
    pub watching_rider_id: i32,
}

/// Cadence in rounds per minute from a raw micro-hertz value: divide by 1000,
/// multiply by 6, divide by 100, each division truncating toward zero.
pub open spec fn spec_cadence_rpm(uhz: i32) -> i32 {
    if uhz >= 0 {
        (uhz / 1000 * 6 / 100) as i32
    } else {
        (-((-(uhz as int)) / 1000 * 6 / 100)) as i32
    }
}

/// Computes the cadence conversion of [`spec_cadence_rpm`].
pub fn cadence_rpm(uhz: i32) -> (r: i32)
    ensures
        r == spec_cadence_rpm(uhz),
{
    if uhz >= 0 {
        let u: u32 = uhz as u32;
        (u / 1000 * 6 / 100) as i32
    } else {
        let n: u32 = (-(uhz as i64)) as u32;
        -((n / 1000 * 6 / 100) as i32)
    }
}

/// The canonical rider-state record of a raw decoded entry: pass-through of
/// the identity and telemetry fields, the cadence conversion, and the
/// power-up extraction from the low 4 bits of the flags field. Total and
/// deterministic: defined for every entry, a function of the entry alone.
pub open spec fn spec_normalize(s: PlayerState) -> Player {
    Player {
        id: s.id,
        world_time: s.world_time,
        group_id: s.group_id,
        x_cm: s.x,
        y_cm: s.y,
        heading: s.heading,
        lean: s.lean,
        road_position: s.road_position,
        speed_raw: s.speed,
        distance: s.distance,
        time: s.time,
        laps: s.laps,
        climbing: s.climbing,
        cadence: spec_cadence_rpm(s.cadence_uhz),
        heartrate: s.heartrate,
        power: s.power,
        power_up: s.f20 & 0xf,
        watching_rider_id: s.watching_rider_id,
    }
}

impl Player {
    /// Normalizes a raw decoded entry into a rider-state record. Never fails:
    /// every entry yields exactly one record.
    pub fn from(player_state: &PlayerState) -> (r: Player)
        ensures
            r == spec_normalize(*player_state),
    {
        Player {
            id: player_state.id,
            world_time: player_state.world_time,
            group_id: player_state.group_id,
            x_cm: player_state.x,
            y_cm: player_state.y,
            heading: player_state.heading,
            lean: player_state.lean,
            road_position: player_state.road_position,
            speed_raw: player_state.speed,
            distance: player_state.distance,
            time: player_state.time,
            laps: player_state.laps,
            climbing: player_state.climbing,
            cadence: cadence_rpm(player_state.cadence_uhz),
            heartrate: player_state.heartrate,
            power: player_state.power,
            power_up: player_state.f20 & 0xf,
            watching_rider_id: player_state.watching_rider_id,
        }
    }
}

/// The normalizer is deterministic: equal raw entries normalize to equal
/// records, so repeated application to the same input yields an identical
/// output.
pub proof fn lemma_normalize_deterministic(a: PlayerState, b: PlayerState)
    requires
        a == b,
    ensures
        spec_normalize(a) == spec_normalize(b),
{
}

} // verus!
