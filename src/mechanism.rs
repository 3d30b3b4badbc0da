//! The clock mechanism: two servo-driven hands, two limit switches, and the
//! zero offsets that calibrate each hand against mechanical drift.

use vstd::arithmetic::div_mod::{lemma_add_mod_noop, lemma_sub_mod_noop_right};
use vstd::prelude::*;

use crate::clock::{
    hand_angles, spec_hand_angles, spec_wrap, wrap_degrees, CivilTime, HandAngles, FULL_TURN,
};

verus! {

/// The angles of the hour and minute hands, in nanodegrees.
#[derive(Clone, Copy, Debug, PartialEq, Eq, Structural)]
pub struct HandAnglesDeg {
    pub hour: i64,
    pub minute: i64,
}

impl Default for HandAnglesDeg {
    fn default() -> (r: HandAnglesDeg)
        ensures
            r == (HandAnglesDeg { hour: 0, minute: 0 }),
    {
        HandAnglesDeg { hour: 0, minute: 0 }
    }
}

impl From<HandAngles> for HandAnglesDeg {
    fn from(value: HandAngles) -> HandAnglesDeg {
        HandAnglesDeg { hour: value.hour, minute: value.minute }
    }
}

impl vstd::std_specs::convert::FromSpecImpl<HandAngles> for HandAnglesDeg {
    open spec fn obeys_from_spec() -> bool {
        true
    }

    open spec fn from_spec(value: HandAngles) -> HandAnglesDeg {
        HandAnglesDeg { hour: value.hour, minute: value.minute }
    }
}

impl HandAnglesDeg {
    /// Both angles brought into `[0, 360°)`.
    pub open spec fn spec_normalized(self) -> HandAnglesDeg {
        HandAnglesDeg { hour: spec_wrap(self.hour as int), minute: spec_wrap(self.minute as int) }
    }

    /// Brings both angles into `[0, 360°)`.
    pub fn normalized(self) -> (r: HandAnglesDeg)
        ensures
            r == self.spec_normalized(),
    {
        HandAnglesDeg { hour: wrap_degrees(self.hour), minute: wrap_degrees(self.minute) }
    }
}

/// Moves the two hands; implemented by each target for its actuators.
pub trait ServoController {
    type Error;

    /// Sends the hour hand to `angle_deg` nanodegrees.
    fn set_hour_angle(&mut self, angle_deg: i64) -> Result<(), Self::Error>;

    /// Sends the minute hand to `angle_deg` nanodegrees.
    fn set_minute_angle(&mut self, angle_deg: i64) -> Result<(), Self::Error>;
}

/// Reads the two limit switches that mark each hand's true zero.
pub trait LimitSwitches {
    fn hour_triggered(&self) -> bool;

    fn minute_triggered(&self) -> bool;
}

/// Per-hand correction added to every commanded angle, in nanodegrees.
#[derive(Clone, Copy, Debug, PartialEq, Eq, Structural)]
pub struct ZeroOffsets {
    pub hour: i64,
    pub minute: i64,
}

impl Default for ZeroOffsets {
    fn default() -> (r: ZeroOffsets)
        ensures
            r == (ZeroOffsets { hour: 0, minute: 0 }),
    {
        ZeroOffsets { hour: 0, minute: 0 }
    }
}

/// `a + b` brought into `[0, 360°)`, without overflow.
fn wrapped_sum(a: i64, b: i64) -> (r: i64)
    ensures
        r == spec_wrap(a + b),
{
    proof {
        lemma_add_mod_noop(a as int, b as int, FULL_TURN as int);
    }
    wrap_degrees(wrap_degrees(a) + wrap_degrees(b))
}

/// `-a` brought into `[0, 360°)`, without overflow.
fn wrapped_negation(a: i64) -> (r: i64)
    ensures
        r == spec_wrap(-a),
{
    proof {
        lemma_sub_mod_noop_right(0, a as int, FULL_TURN as int);
    }
    wrap_degrees(0 - wrap_degrees(a))
}

impl ZeroOffsets {
    /// The physical angles for logical `angles`: each offset added, the sum wrapped.
    pub open spec fn spec_apply(self, angles: HandAnglesDeg) -> HandAnglesDeg {
        HandAnglesDeg {
            hour: spec_wrap(angles.hour + self.hour),
            minute: spec_wrap(angles.minute + self.minute),
        }
    }

    /// The physical angles for logical `angles`.
    pub fn apply(self, angles: HandAnglesDeg) -> (r: HandAnglesDeg)
        ensures
            r == self.spec_apply(angles),
    {
        HandAnglesDeg {
            hour: wrapped_sum(angles.hour, self.hour),
            minute: wrapped_sum(angles.minute, self.minute),
        }
    }

    /// The offsets after a calibration step: a hand whose switch fired while
    /// `last_commanded` was shown gets the negated commanded angle (that angle
    /// is true zero); the other keeps its offset; both are wrapped.
    pub open spec fn spec_zeroed(
        self,
        last_commanded: HandAnglesDeg,
        hour_triggered: bool,
        minute_triggered: bool,
    ) -> ZeroOffsets {
        ZeroOffsets {
            hour: if hour_triggered {
                spec_wrap(-last_commanded.hour)
            } else {
                spec_wrap(self.hour as int)
            },
            minute: if minute_triggered {
                spec_wrap(-last_commanded.minute)
            } else {
                spec_wrap(self.minute as int)
            },
        }
    }
}

/// The hands, their switches and the calibration state.
pub struct ClockMechanism<C, S> {
    controller: C,
    switches: S,
    offsets: ZeroOffsets,
    last_commanded: HandAnglesDeg,
    last_physical: HandAnglesDeg,
}

impl<C: ServoController, S: LimitSwitches> ClockMechanism<C, S> {
    /// The current zero offsets.
    pub closed spec fn spec_offsets(&self) -> ZeroOffsets {
        self.offsets
    }

    /// The logical angles most recently commanded.
    pub closed spec fn spec_last_commanded(&self) -> HandAnglesDeg {
        self.last_commanded
    }

    /// The physical angles most recently sent to the servos.
    pub closed spec fn spec_last_physical(&self) -> HandAnglesDeg {
        self.last_physical
    }

    /// A mechanism with zero offsets that has commanded nothing yet.
    pub fn new(controller: C, switches: S) -> (m: Self)
        ensures
            m.spec_offsets() == (ZeroOffsets { hour: 0, minute: 0 }),
            m.spec_last_commanded() == (HandAnglesDeg { hour: 0, minute: 0 }),
            m.spec_last_physical() == (HandAnglesDeg { hour: 0, minute: 0 }),
    {
        ClockMechanism {
            controller,
            switches,
            offsets: ZeroOffsets::default(),
            last_commanded: HandAnglesDeg::default(),
            last_physical: HandAnglesDeg::default(),
        }
    }

    /// Shows `angles`: records them, normalised, as the commanded angles and
    /// sends each hand its angle plus its zero offset. Both hands are always
    /// attempted; the hour hand's error is returned first, then the minute
    /// hand's.
    pub fn apply_hand_angles(&mut self, angles: HandAnglesDeg) -> (r: Result<(), C::Error>)
        ensures
            final(self).spec_last_commanded() == angles.spec_normalized(),
            final(self).spec_offsets() == old(self).spec_offsets(),
            final(self).spec_last_physical() == old(self).spec_offsets().spec_apply(
                angles.spec_normalized(),
            ),
    {
        let angles = angles.normalized();
        self.last_commanded = angles;
        let adjusted = self.offsets.apply(angles);
        self.last_physical = adjusted;
        let hour = self.controller.set_hour_angle(adjusted.hour);
        let minute = self.controller.set_minute_angle(adjusted.minute);
        match hour {
            Err(e) => Err(e),
            Ok(()) => minute,
        }
    }

    /// One calibration step from the given switch readings (see
    /// `ZeroOffsets::spec_zeroed`).
    pub fn apply_zeroing(&mut self, hour_triggered: bool, minute_triggered: bool)
        ensures
            final(self).spec_offsets() == old(self).spec_offsets().spec_zeroed(
                old(self).spec_last_commanded(),
                hour_triggered,
                minute_triggered,
            ),
            final(self).spec_last_commanded() == old(self).spec_last_commanded(),
            final(self).spec_last_physical() == old(self).spec_last_physical(),
    {
        let hour = if hour_triggered {
            wrapped_negation(self.last_commanded.hour)
        } else {
            wrap_degrees(self.offsets.hour)
        };
        let minute = if minute_triggered {
            wrapped_negation(self.last_commanded.minute)
        } else {
            wrap_degrees(self.offsets.minute)
        };
        self.offsets = ZeroOffsets { hour, minute };
    }

    /// Polls both limit switches and takes one calibration step from what
    /// they report.
    pub fn update_zeroing(&mut self)
        ensures
            exists|hour_triggered: bool, minute_triggered: bool|
                final(self).spec_offsets() == old(self).spec_offsets().spec_zeroed(
                    old(self).spec_last_commanded(),
                    hour_triggered,
                    minute_triggered,
                ),
            final(self).spec_last_commanded() == old(self).spec_last_commanded(),
            final(self).spec_last_physical() == old(self).spec_last_physical(),
    {
        let hour_triggered = self.switches.hour_triggered();
        let minute_triggered = self.switches.minute_triggered();
        self.apply_zeroing(hour_triggered, minute_triggered);
    }

    /// One step of the clock: shows the UTC time `unix_nanos` on the hour and
    /// minute hands, then takes a calibration step from the limit switches.
    /// The calibration step is taken whether or not the servos reported an
    /// error; the error, if any, is returned.
    pub fn show_time(&mut self, unix_nanos: u64) -> (r: Result<(), C::Error>)
        ensures
            ({
                let angles = spec_hand_angles(CivilTime::spec_from_unix_nanos(unix_nanos));
                let shown = HandAnglesDeg { hour: angles.hour, minute: angles.minute };
                &&& final(self).spec_last_commanded() == shown.spec_normalized()
                &&& final(self).spec_last_physical() == old(self).spec_offsets().spec_apply(
                    shown.spec_normalized(),
                )
                &&& exists|hour_triggered: bool, minute_triggered: bool|
                    final(self).spec_offsets() == old(self).spec_offsets().spec_zeroed(
                        shown.spec_normalized(),
                        hour_triggered,
                        minute_triggered,
                    )
            }),
    {
        let angles = hand_angles(CivilTime::from_unix_nanos(unix_nanos));
        let r = self.apply_hand_angles(HandAnglesDeg::from(angles));
        self.update_zeroing();
        r
    }

    /// The current zero offsets.
    pub fn offsets(&self) -> (o: ZeroOffsets)
        ensures
            o == self.spec_offsets(),
    {
        self.offsets
    }

    /// The physical angles most recently sent to the servos.
    pub fn last_physical(&self) -> (a: HandAnglesDeg)
        ensures
            a == self.spec_last_physical(),
    {
        self.last_physical
    }

    /// Gives back the controller and the switches.
    pub fn into_parts(self) -> (C, S) {
        (self.controller, self.switches)
    }
}

/// Calibration closes the loop: after angle `a` has been commanded and the
/// hour switch has fired, the hour offset is `-a` wrapped, and commanding `a`
/// again sends the hour servo to physical zero.
pub proof fn lemma_zeroing_cancels_commanded_angle(
    offsets: ZeroOffsets,
    a: HandAnglesDeg,
    minute_triggered: bool,
)
    ensures
        offsets.spec_zeroed(a.spec_normalized(), true, minute_triggered).hour == spec_wrap(
            -a.hour,
        ),
        offsets.spec_zeroed(a.spec_normalized(), true, minute_triggered).spec_apply(
            a.spec_normalized(),
        ).hour == spec_wrap(0),
{
    let m = FULL_TURN as int;
    lemma_sub_mod_noop_right(0, a.hour as int, m);
    lemma_add_mod_noop(a.hour as int, -a.hour, m);
    let z = offsets.spec_zeroed(a.spec_normalized(), true, minute_triggered);
    assert(a.spec_normalized().hour + z.hour == (a.hour as int) % m + (-a.hour) % m);
}

} // verus!
