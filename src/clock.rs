//! Projection of a time of day onto the angles of the clock's hands.
//!
//! Angles are whole nanodegrees (10^-9 degree) held in `i64`, normalised into
//! `[0, 360°)`, so that the projection is exact integer arithmetic.

use vstd::prelude::*;

verus! {

/// Nanodegrees in one degree.
pub const NANODEGREES_PER_DEGREE: i64 = 1_000_000_000;

/// A full turn, 360 degrees, in nanodegrees.
pub const FULL_TURN: i64 = 360_000_000_000;

/// `angle` brought into `[0, 360°)` by floored modulo, so that negative
/// angles wrap forward.
pub open spec fn spec_wrap(angle: int) -> i64 {
    (angle % 360_000_000_000) as i64
}

/// Brings an angle in nanodegrees into `[0, 360°)`.
pub fn wrap_degrees(angle: i64) -> (wrapped: i64)
    ensures
        wrapped == spec_wrap(angle as int),
        0 <= wrapped < FULL_TURN,
{
    let r = angle.checked_rem_euclid(FULL_TURN);
    match r {
        Some(v) => v,
        None => 0,
    }
}

/// A time of day on the clock's dial.
#[derive(Clone, Copy, Debug, PartialEq, Eq, Structural)]
pub struct CivilTime {
    /// Hour of the day, 0 to 23.
    pub hour: u8,
    /// Minute of the hour, 0 to 59.
    pub minute: u8,
    /// Second of the minute, 0 to 59.
    pub second: u8,
    /// Nanosecond of the second, below 10^9.
    pub nanosecond: u32,
}

impl CivilTime {
    /// Every field within its range.
    pub open spec fn is_valid(self) -> bool {
        &&& self.hour < 24
        &&& self.minute < 60
        &&& self.second < 60
        &&& self.nanosecond < 1_000_000_000
    }

    /// The UTC time of day of a Unix timestamp in nanoseconds.
    pub open spec fn spec_from_unix_nanos(unix_nanos: u64) -> CivilTime {
        CivilTime {
            hour: (unix_nanos / 3_600_000_000_000 % 24) as u8,
            minute: (unix_nanos / 60_000_000_000 % 60) as u8,
            second: (unix_nanos / 1_000_000_000 % 60) as u8,
            nanosecond: (unix_nanos % 1_000_000_000) as u32,
        }
    }

    /// The UTC time of day of a Unix timestamp in nanoseconds.
    pub fn from_unix_nanos(unix_nanos: u64) -> (t: CivilTime)
        ensures
            t == CivilTime::spec_from_unix_nanos(unix_nanos),
            t.is_valid(),
            t.hour == unix_nanos / 3_600_000_000_000 % 24,
            t.minute == unix_nanos / 60_000_000_000 % 60,
            t.second == unix_nanos / 1_000_000_000 % 60,
            t.nanosecond == unix_nanos % 1_000_000_000,
    {
        CivilTime {
            hour: (unix_nanos / 3_600_000_000_000 % 24) as u8,
            minute: (unix_nanos / 60_000_000_000 % 60) as u8,
            second: (unix_nanos / 1_000_000_000 % 60) as u8,
            nanosecond: (unix_nanos % 1_000_000_000) as u32,
        }
    }
}

/// The angles of the three hands, in nanodegrees.
#[derive(Clone, Copy, Debug, PartialEq, Eq, Structural)]
pub struct HandAngles {
    pub hour: i64,
    pub minute: i64,
    pub second: i64,
}

impl HandAngles {
    /// Each angle brought into `[0, 360°)`.
    pub open spec fn spec_normalized(self) -> HandAngles {
        HandAngles {
            hour: spec_wrap(self.hour as int),
            minute: spec_wrap(self.minute as int),
            second: spec_wrap(self.second as int),
        }
    }

    /// Each angle in `[0, 360°)`.
    pub open spec fn is_normalized(self) -> bool {
        &&& 0 <= self.hour < FULL_TURN
        &&& 0 <= self.minute < FULL_TURN
        &&& 0 <= self.second < FULL_TURN
    }

    /// Brings each angle into `[0, 360°)` by floored modulo.
    pub fn normalize_degrees(self) -> (r: HandAngles)
        ensures
            r == self.spec_normalized(),
            r.is_normalized(),
    {
        HandAngles {
            hour: wrap_degrees(self.hour),
            minute: wrap_degrees(self.minute),
            second: wrap_degrees(self.second),
        }
    }
}

/// The angles of the hands at a time of day, rounded down to whole
/// nanodegrees: the hour hand turns 30° an hour on a 12-hour dial, the
/// minute hand 6° a minute, the second hand 6° a second, each moving
/// continuously with the smaller units.
pub open spec fn spec_hand_angles(t: CivilTime) -> HandAngles {
    let seconds_ns = t.second * 1_000_000_000 + t.nanosecond;
    let minutes_ns = t.minute * 60_000_000_000 + seconds_ns;
    let hours_ns = (t.hour % 12) * 3_600_000_000_000 + minutes_ns;
    HandAngles {
        hour: spec_wrap(hours_ns / 120),
        minute: spec_wrap(minutes_ns / 10),
        second: spec_wrap(seconds_ns * 6),
    }
}

/// The angles of the hands at a time of day, normalised into `[0, 360°)`.
pub fn hand_angles(time: CivilTime) -> (angles: HandAngles)
    ensures
        angles == spec_hand_angles(time),
        angles.is_normalized(),
{
    let seconds_ns: i64 = time.second as i64 * 1_000_000_000 + time.nanosecond as i64;
    let minutes_ns: i64 = time.minute as i64 * 60_000_000_000 + seconds_ns;
    let hours_ns: i64 = (time.hour % 12) as i64 * 3_600_000_000_000 + minutes_ns;
    HandAngles { hour: hours_ns / 120, minute: minutes_ns / 10, second: seconds_ns * 6 }.normalize_degrees()
}

} // verus!
