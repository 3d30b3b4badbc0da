use ntp_clock::servo::pwm_top_from_sysclk;
use ntp_clock::{
    angles_to_hand_degrees, ClockMechanism, DutyOutput, HandAngles, HandAnglesDeg, LimitSwitches,
    PwmServoController, ServoController, ServoPwmConfig, ZeroOffsets,
};

#[derive(Default)]
struct Recorder {
    hour: Vec<i64>,
    minute: Vec<i64>,
    fail_hour: bool,
}

impl ServoController for Recorder {
    type Error = &'static str;

    fn set_hour_angle(&mut self, angle_deg: i64) -> Result<(), Self::Error> {
        self.hour.push(angle_deg);
        if self.fail_hour {
            Err("hour servo")
        } else {
            Ok(())
        }
    }

    fn set_minute_angle(&mut self, angle_deg: i64) -> Result<(), Self::Error> {
        self.minute.push(angle_deg);
        Ok(())
    }
}

struct Switches {
    hour: bool,
    minute: bool,
}

impl LimitSwitches for Switches {
    fn hour_triggered(&self) -> bool {
        self.hour
    }

    fn minute_triggered(&self) -> bool {
        self.minute
    }
}

const DEG: i64 = 1_000_000_000;

#[test]
fn zeroing_cancels_the_commanded_hour_angle() {
    let a = HandAnglesDeg { hour: 97 * DEG + DEG / 2, minute: 90 * DEG };
    let mut clock = ClockMechanism::new(Recorder::default(), Switches { hour: true, minute: false });
    assert!(clock.apply_hand_angles(a).is_ok());
    clock.update_zeroing();
    assert_eq!(clock.offsets(), ZeroOffsets { hour: 360 * DEG - a.hour, minute: 0 });
    assert!(clock.apply_hand_angles(a).is_ok());
    assert_eq!(clock.last_physical(), HandAnglesDeg { hour: 0, minute: 90 * DEG });
    let (recorder, _) = clock.into_parts();
    assert_eq!(recorder.hour, vec![a.hour, 0]);
    assert_eq!(recorder.minute, vec![90 * DEG, 90 * DEG]);
}

#[test]
fn offsets_bias_commands_and_wrap() {
    let mut clock = ClockMechanism::new(Recorder::default(), Switches { hour: false, minute: true });
    assert!(clock.apply_hand_angles(HandAnglesDeg { hour: -30 * DEG, minute: 400 * DEG }).is_ok());
    clock.update_zeroing();
    assert_eq!(clock.offsets(), ZeroOffsets { hour: 0, minute: 320 * DEG });
    assert!(clock.apply_hand_angles(HandAnglesDeg { hour: 10 * DEG, minute: 50 * DEG }).is_ok());
    assert_eq!(clock.last_physical(), HandAnglesDeg { hour: 10 * DEG, minute: 10 * DEG });
    let (recorder, _) = clock.into_parts();
    assert_eq!(recorder.hour, vec![330 * DEG, 10 * DEG]);
}

#[test]
fn a_failing_axis_does_not_block_the_other() {
    let recorder = Recorder { fail_hour: true, ..Recorder::default() };
    let mut clock = ClockMechanism::new(recorder, Switches { hour: false, minute: false });
    assert_eq!(clock.apply_hand_angles(HandAnglesDeg { hour: DEG, minute: 2 * DEG }), Err("hour servo"));
    let (recorder, _) = clock.into_parts();
    assert_eq!(recorder.minute, vec![2 * DEG]);
}

#[test]
fn zero_offsets_apply_wraps_the_sum() {
    let offsets = ZeroOffsets { hour: 350 * DEG, minute: i64::MIN };
    let r = offsets.apply(HandAnglesDeg { hour: 20 * DEG, minute: i64::MIN });
    assert_eq!(r.hour, 10 * DEG);
    assert_eq!(r.minute, ((i64::MIN as i128 * 2).rem_euclid(360 * DEG as i128)) as i64);
}

#[test]
fn sg90_duty_at_the_ends_of_travel() {
    let cfg = ServoPwmConfig::sg90_50hz();
    let max_duty = 65_535;
    // 1000 us of 20000 us: 3276.75, rounded to 3277; 2000 us: 6553.5, rounded up to 6554.
    assert_eq!(cfg.duty_for_angle(0, max_duty), 3_277);
    assert_eq!(cfg.duty_for_angle(180 * DEG, max_duty), 6_554);
    assert_eq!(cfg.duty_for_angle(-5 * DEG, max_duty), 3_277);
    assert_eq!(cfg.duty_for_angle(270 * DEG, max_duty), 6_554);
    // 1500 us: 4915.125.
    assert_eq!(cfg.duty_for_angle(90 * DEG, max_duty), 4_915);
    assert_eq!(cfg.duty_for_angle(90 * DEG, 0), 0);
}

#[test]
fn duty_is_capped_at_max_duty() {
    let cfg = ServoPwmConfig { min_pulse_us: 30_000, max_pulse_us: 40_000, period_us: 20_000, max_angle: 180 * DEG };
    assert_eq!(cfg.duty_for_angle(0, 1_000), 1_000);
}

struct DutyLog {
    duties: Vec<u32>,
}

impl DutyOutput for DutyLog {
    type Error = ();

    fn set_duty(&mut self, duty: u32) -> Result<(), ()> {
        self.duties.push(duty);
        Ok(())
    }
}

#[test]
fn pwm_controller_sends_duties() {
    let mut ctl = PwmServoController::new(
        DutyLog { duties: vec![] },
        DutyLog { duties: vec![] },
        ServoPwmConfig::sg90_50hz(),
        20_000,
        40_000,
    );
    assert!(ctl.set_hour_angle(0).is_ok());
    assert!(ctl.set_minute_angle(180 * DEG).is_ok());
    let mut clock = ClockMechanism::new(ctl, Switches { hour: false, minute: false });
    assert!(clock.apply_hand_angles(HandAnglesDeg { hour: 90 * DEG, minute: 0 }).is_ok());
    let (_ctl, _) = clock.into_parts();
}

#[test]
fn pwm_top_for_a_125_mhz_clock() {
    assert_eq!(pwm_top_from_sysclk(125_000_000), 19_999);
    assert_eq!(pwm_top_from_sysclk(0), 0);
    assert_eq!(pwm_top_from_sysclk(u32::MAX), 0xffff);
}

#[test]
fn hand_degrees_from_angles() {
    let d = angles_to_hand_degrees(HandAngles { hour: 1, minute: 2, second: 3 });
    assert_eq!(d, HandAnglesDeg { hour: 1, minute: 2 });
    assert_eq!(HandAnglesDeg::default(), HandAnglesDeg { hour: 0, minute: 0 });
}

#[test]
fn show_time_moves_the_hands_then_calibrates() {
    let mut clock = ClockMechanism::new(Recorder::default(), Switches { hour: true, minute: false });
    // 03:15:00 UTC on 2025-01-01.
    assert!(clock.show_time(1_735_701_300_000_000_000).is_ok());
    assert_eq!(clock.last_physical(), HandAnglesDeg { hour: 97 * DEG + DEG / 2, minute: 90 * DEG });
    assert_eq!(clock.offsets(), ZeroOffsets { hour: 360 * DEG - (97 * DEG + DEG / 2), minute: 0 });
    assert!(clock.show_time(1_735_701_300_000_000_000).is_ok());
    assert_eq!(clock.last_physical(), HandAnglesDeg { hour: 0, minute: 90 * DEG });
}

#[test]
fn show_time_calibrates_even_when_a_servo_fails() {
    let recorder = Recorder { fail_hour: true, ..Recorder::default() };
    let mut clock = ClockMechanism::new(recorder, Switches { hour: false, minute: true });
    assert_eq!(clock.show_time(1_735_701_300_000_000_000), Err("hour servo"));
    assert_eq!(clock.offsets(), ZeroOffsets { hour: 0, minute: 270 * DEG });
}
