//! Mapping hand angles to PWM duty values for hobby servos.

use vstd::prelude::*;

use crate::clock::{HandAngles, FULL_TURN};
use crate::mechanism::{HandAnglesDeg, ServoController};

verus! {

/// PWM frequency that hobby servos expect, in hertz.
pub const PWM_TARGET_HZ: u32 = 50;

/// Clock divider of the PWM slices.
pub const PWM_DIVIDER: u32 = 125;

/// Pulse timing of a servo and the angle range it covers.
#[derive(Clone, Copy, Debug, PartialEq, Eq, Structural)]
pub struct ServoPwmConfig {
    /// Pulse width at angle 0, in microseconds.
    pub min_pulse_us: u32,
    /// Pulse width at the largest angle, in microseconds.
    pub max_pulse_us: u32,
    /// PWM period, in microseconds.
    pub period_us: u32,
    /// Largest angle the servo can be commanded to, in nanodegrees.
    pub max_angle: i64,
}

/// A duty count: `num / den` of the full scale, rounded half up, capped at `max_duty`.
pub open spec fn spec_rounded_duty(num: int, den: int, max_duty: u32) -> u32 {
    let rounded = (2 * num + den) / (2 * den);
    if rounded > max_duty {
        max_duty
    } else {
        rounded as u32
    }
}

impl ServoPwmConfig {
    /// A period and a largest angle that the mapping can divide by; the
    /// largest angle at most one turn.
    pub open spec fn is_valid(self) -> bool {
        &&& self.period_us > 0
        &&& 0 < self.max_angle <= FULL_TURN
    }

    /// `angle` held within `[0, max_angle]`.
    pub open spec fn spec_clamp(self, angle: i64) -> int {
        if angle < 0 {
            0
        } else if angle > self.max_angle {
            self.max_angle as int
        } else {
            angle as int
        }
    }

    /// The duty count for a pulse of `pulse_us` microseconds: the pulse's
    /// share of the period times `max_duty`, rounded half up, capped at `max_duty`.
    pub open spec fn spec_duty_for_pulse(self, pulse_us: int, max_duty: u32) -> u32 {
        spec_rounded_duty(pulse_us * max_duty, self.period_us as int, max_duty)
    }

    /// The duty count for an angle: the angle clamped into `[0, max_angle]`,
    /// the pulse width interpolated linearly from `min_pulse_us` at 0 to
    /// `max_pulse_us` at `max_angle`, then as `spec_duty_for_pulse`.
    pub open spec fn spec_duty_for_angle(self, angle: i64, max_duty: u32) -> u32 {
        let a = self.max_angle as int;
        let c = self.spec_clamp(angle);
        spec_rounded_duty(
            (self.min_pulse_us * (a - c) + self.max_pulse_us * c) * max_duty,
            self.period_us * a,
            max_duty,
        )
    }

    /// The SG90 micro servo at 50 Hz: 1000 to 2000 µs over 180°.
    pub fn sg90_50hz() -> (c: ServoPwmConfig)
        ensures
            c == (ServoPwmConfig {
                min_pulse_us: 1_000,
                max_pulse_us: 2_000,
                period_us: 20_000,
                max_angle: 180_000_000_000,
            }),
            c.is_valid(),
    {
        ServoPwmConfig {
            min_pulse_us: 1_000,
            max_pulse_us: 2_000,
            period_us: 20_000,
            max_angle: 180_000_000_000,
        }
    }

    /// The duty count that holds the servo at `angle_deg` nanodegrees, out of `max_duty`.
    pub fn duty_for_angle(&self, angle_deg: i64, max_duty: u32) -> (duty: u32)
        requires
            self.is_valid(),
        ensures
            duty == self.spec_duty_for_angle(angle_deg, max_duty),
            duty <= max_duty,
    {
        let a: u128 = self.max_angle as u128;
        let c: u128 = if angle_deg < 0 {
            0
        } else if angle_deg > self.max_angle {
            a
        } else {
            angle_deg as u128
        };
        let lo: u128 = self.min_pulse_us as u128;
        let hi: u128 = self.max_pulse_us as u128;
        let md: u128 = max_duty as u128;
        let p: u128 = self.period_us as u128;
        assert(lo * (a - c) <= 0xFFFF_FFFF * 360_000_000_000) by (nonlinear_arith)
            requires
                lo <= 0xFFFF_FFFF,
                a - c <= 360_000_000_000,
                c <= a,
        ;
        assert(hi * c <= 0xFFFF_FFFF * 360_000_000_000) by (nonlinear_arith)
            requires
                hi <= 0xFFFF_FFFF,
                c <= 360_000_000_000,
        ;
        let pulse: u128 = lo * (a - c) + hi * c;
        assert(pulse * md <= 2 * 0xFFFF_FFFF * 360_000_000_000 * 0xFFFF_FFFF) by (nonlinear_arith)
            requires
                pulse <= 2 * 0xFFFF_FFFF * 360_000_000_000,
                md <= 0xFFFF_FFFF,
        ;
        let num: u128 = pulse * md;
        assert(p * a <= 0xFFFF_FFFF * 360_000_000_000) by (nonlinear_arith)
            requires
                p <= 0xFFFF_FFFF,
                a <= 360_000_000_000,
        ;
        assert(p * a > 0) by (nonlinear_arith)
            requires
                p > 0,
                a > 0,
        ;
        let den: u128 = p * a;
        let rounded: u128 = (2 * num + den) / (2 * den);
        if rounded > md {
            max_duty
        } else {
            rounded as u32
        }
    }
}

/// An angle at or below zero gives the duty of the minimum pulse, and one at
/// or above the largest angle the duty of the maximum pulse.
pub proof fn lemma_duty_at_angle_limits(cfg: ServoPwmConfig, angle: i64, max_duty: u32)
    requires
        cfg.is_valid(),
    ensures
        angle <= 0 ==> cfg.spec_duty_for_angle(angle, max_duty) == cfg.spec_duty_for_pulse(
            cfg.min_pulse_us as int,
            max_duty,
        ),
        angle >= cfg.max_angle ==> cfg.spec_duty_for_angle(angle, max_duty)
            == cfg.spec_duty_for_pulse(cfg.max_pulse_us as int, max_duty),
{
    let a = cfg.max_angle as int;
    let p = cfg.period_us as int;
    let md = max_duty as int;
    let lo = cfg.min_pulse_us as int;
    let hi = cfg.max_pulse_us as int;
    if angle <= 0 {
        lemma_scaled_duty(cfg, lo, max_duty);
        assert((lo * (a - 0) + hi * 0) * md == lo * md * a) by (nonlinear_arith);
    }
    if angle >= cfg.max_angle {
        lemma_scaled_duty(cfg, hi, max_duty);
        assert((lo * (a - a) + hi * a) * md == hi * md * a) by (nonlinear_arith);
    }
}

/// Scaling a pulse and the period by the largest angle leaves the duty as it is.
proof fn lemma_scaled_duty(cfg: ServoPwmConfig, pulse_us: int, max_duty: u32)
    requires
        cfg.is_valid(),
        pulse_us >= 0,
    ensures
        spec_rounded_duty(pulse_us * max_duty * cfg.max_angle, cfg.period_us * cfg.max_angle, max_duty)
            == cfg.spec_duty_for_pulse(pulse_us, max_duty),
{
    let a = cfg.max_angle as int;
    let p = cfg.period_us as int;
    let x = 2 * (pulse_us * max_duty) + p;
    assert(pulse_us * max_duty >= 0) by (nonlinear_arith)
        requires
            pulse_us >= 0,
            max_duty >= 0,
    ;
    lemma_cancel_common_factor(x, 2 * p, a);
    assert(2 * (pulse_us * max_duty * a) + p * a == x * a) by (nonlinear_arith)
        requires
            x == 2 * (pulse_us * max_duty) + p,
    ;
    assert(2 * (p * a) == (2 * p) * a) by (nonlinear_arith);
}

/// `(x * k) / (y * k) == x / y` for positive `y` and `k`.
proof fn lemma_cancel_common_factor(x: int, y: int, k: int)
    requires
        x >= 0,
        y > 0,
        k > 0,
    ensures
        (x * k) / (y * k) == x / y,
{
    vstd::arithmetic::div_mod::lemma_div_denominator(x * k, k, y);
    vstd::arithmetic::div_mod::lemma_div_by_multiple(x, k);
    assert(k * y == y * k) by (nonlinear_arith);
}

/// One PWM output; implemented by each target for its PWM channel.
pub trait DutyOutput {
    type Error;

    /// Sets the duty count.
    fn set_duty(&mut self, duty: u32) -> Result<(), Self::Error>;
}

/// A servo profile that is known to be valid.
struct ValidConfig {
    config: ServoPwmConfig,
}

impl ValidConfig {
    #[verifier::type_invariant]
    spec fn is_valid(self) -> bool {
        self.config.is_valid()
    }

    fn duty_for_angle(&self, angle_deg: i64, max_duty: u32) -> (duty: u32)
        ensures
            duty == self.config.spec_duty_for_angle(angle_deg, max_duty),
    {
        proof {
            use_type_invariant(self);
        }
        self.config.duty_for_angle(angle_deg, max_duty)
    }
}

/// Drives both hands through two PWM outputs with one servo profile.
pub struct PwmServoController<H, M> {
    hour: H,
    minute: M,
    config: ValidConfig,
    hour_max_duty: u32,
    minute_max_duty: u32,
}

impl<H: DutyOutput, M: DutyOutput<Error = H::Error>> PwmServoController<H, M> {
    /// A controller for two outputs whose full scales are the given maximum duties.
    pub fn new(
        hour: H,
        minute: M,
        config: ServoPwmConfig,
        hour_max_duty: u32,
        minute_max_duty: u32,
    ) -> (c: Self)
        requires
            config.is_valid(),
    {
        PwmServoController {
            hour,
            minute,
            config: ValidConfig { config },
            hour_max_duty,
            minute_max_duty,
        }
    }
}

impl<H: DutyOutput, M: DutyOutput<Error = H::Error>> ServoController for PwmServoController<H, M> {
    type Error = H::Error;

    fn set_hour_angle(&mut self, angle_deg: i64) -> Result<(), H::Error> {
        let duty = self.config.duty_for_angle(angle_deg, self.hour_max_duty);
        self.hour.set_duty(duty)
    }

    fn set_minute_angle(&mut self, angle_deg: i64) -> Result<(), H::Error> {
        let duty = self.config.duty_for_angle(angle_deg, self.minute_max_duty);
        self.minute.set_duty(duty)
    }
}

/// The hour and minute hands of a full set of hand angles.
pub fn angles_to_hand_degrees(angles: HandAngles) -> (r: HandAnglesDeg)
    ensures
        r == (HandAnglesDeg { hour: angles.hour, minute: angles.minute }),
{
    HandAnglesDeg::from(angles)
}

/// The PWM counter top that gives `PWM_TARGET_HZ` with `PWM_DIVIDER` from a
/// system clock of `sys_hz`, saturating at both ends of `u16`.
pub fn pwm_top_from_sysclk(sys_hz: u32) -> (top: u16)
    ensures
        top == (if sys_hz / 6250 == 0 {
            0
        } else if sys_hz / 6250 - 1 > 0xFFFF {
            0xFFFF
        } else {
            sys_hz / 6250 - 1
        }),
{
    let denom: u32 = PWM_DIVIDER * PWM_TARGET_HZ;
    let top = (sys_hz / denom).saturating_sub(1);
    if top > 0xFFFF {
        0xFFFF
    } else {
        top as u16
    }
}

} // verus!
