//! Tests of the drive PID controller and the motor planning.

use tank_core::drive_pid::DrivePid;
use tank_core::drive_pid::BIAS;
use tank_core::motors::clamp;
use tank_core::motors::dc_motor_plan;
use tank_core::motors::turret_ticks;
use tank_core::real_time::RTCommand;
use tank_core::real_time::RawSensorState;
use tank_core::real_time::Vec3;
use tank_core::sensor_processing::SensorState;

/// A sensor state with a chosen inter-sample duration and measured yaw
/// rate (micro-degrees per second).
fn sensors_with(dt_us: u64, gyro_y: i64) -> SensorState {
    let mut s = SensorState::starting_at(0);
    let raw = RawSensorState {
        time_us: dt_us,
        gyro: Vec3 { x: 0, y: gyro_y, z: 0 },
        accel: Vec3 { x: 0, y: 0, z: 0 },
        mag: Vec3 { x: 0, y: 0, z: 0 },
        orientation: Vec3 { x: 0, y: 0, z: 0 },
        temp: 0,
    };
    let event = s.update(raw, 0);
    assert!(event.is_none());
    assert_eq!(s.duration_us, dt_us);
    s
}

#[test]
fn error_is_target_minus_actual() {
    // error = t - a, stored as the previous error after the update.
    let mut pid = DrivePid::new(0, 0, 0);
    pid.set_target(0, 150_000_000); // 150 deg/s
    let s = sensors_with(16_666, 40_000_000); // measured 40 deg/s
    pid.update(&s);
    assert_eq!(pid.prev_error, 110_000_000);
}

#[test]
fn integral_accumulates_error_times_dt() {
    // after n updates with constant dt, integral == sum(error_i * dt).
    let mut pid = DrivePid::new(0, 0, 0);
    pid.set_target(0, 100_000_000); // 100 deg/s
    let dt: u64 = 10_000; // 10 ms
    let measured = [20_000_000i64, 50_000_000, -30_000_000];
    let mut expected: i64 = 0;
    for m in measured {
        let s = sensors_with(dt, m);
        pid.update(&s);
        expected += (100_000_000 - m) * dt as i64;
        assert_eq!(pid.integral, expected);
    }
}

#[test]
fn zero_gains_output_is_exactly_bias() {
    // with Kp = Ki = Kd = 0, the output is exactly the bias.
    let mut pid = DrivePid::new(0, 0, 0);
    pid.set_target(500_000, 123_000_000);
    for (dt, m) in [(16_666u64, 77_000_000i64), (5_000, -99_000_000), (100_000, 0)] {
        let s = sensors_with(dt, m);
        pid.update(&s);
        assert_eq!(pid.output, BIAS);
    }
}

#[test]
fn differential_outputs_are_clamped() {
    // even a huge unclamped output leaves both sides within full
    // scale: the duty never exceeds 4095 ticks and never undercuts the
    // 1000-tick floor.
    let mut pid = DrivePid::new(100_000_000, 0, 0); // Kp = 100
    pid.set_target(1_000_000, 2_000_000_000); // full power, 2000 deg/s
    let s = sensors_with(16_666, -2_000_000_000); // error = 4000 deg/s
    pid.update(&s);
    let cmds = pid.get_pwm_commands();
    assert_eq!(cmds.len(), 6);
    // left = clamp(1 - huge, -1, 1) = -1: reverse pin on, full duty.
    assert_eq!(cmds[0], RTCommand::SetPwmOn(14));
    assert_eq!(cmds[1], RTCommand::SetPwmOff(13));
    assert_eq!(cmds[2], RTCommand::SetPwm { pwm: 15, on: 0, off: 4095 });
    // right = clamp(1 + huge, -1, 1) = 1: forward pin on, full duty,
    // phase-shifted half a cycle: (2048 + 4095) % 4096 = 2047.
    assert_eq!(cmds[3], RTCommand::SetPwmOn(11));
    assert_eq!(cmds[4], RTCommand::SetPwmOff(12));
    assert_eq!(cmds[5], RTCommand::SetPwm { pwm: 10, on: 2048, off: 2047 });
}

#[test]
fn idle_targets_give_only_off_commands() {
    // with both targets exactly zero, only the two "off" commands for
    // the drive PWM channels come out, whatever the accumulated state is.
    let mut pid = DrivePid::new(2_000_000, 1_000_000, 0);
    pid.set_target(250_000, 100_000_000);
    let s = sensors_with(16_666, 7_000_000);
    pid.update(&s); // accumulate some state
    pid.set_target(0, 0);
    let cmds = pid.get_pwm_commands();
    assert_eq!(
        cmds,
        vec![RTCommand::SetPwmOff(15), RTCommand::SetPwmOff(10)]
    );
}

#[test]
fn nonzero_target_gives_differential_commands() {
    // Half forward power with no correction beyond the bias.
    let mut pid = DrivePid::new(0, 0, 0);
    pid.set_target(500_000, 0);
    let s = sensors_with(16_666, 0);
    pid.update(&s);
    assert_eq!(pid.output, BIAS);
    let cmds = pid.get_pwm_commands();
    // left = 0.5 - 0.001 = 0.499; duty = 4095 * 499000 / 1000000 = 2043.
    assert_eq!(cmds[0], RTCommand::SetPwmOn(13));
    assert_eq!(cmds[1], RTCommand::SetPwmOff(14));
    assert_eq!(cmds[2], RTCommand::SetPwm { pwm: 15, on: 0, off: 2043 });
    // right = 0.5 + 0.001 = 0.501; duty = 2051; (2048 + 2051) % 4096 = 3.
    assert_eq!(cmds[3], RTCommand::SetPwmOn(11));
    assert_eq!(cmds[4], RTCommand::SetPwmOff(12));
    assert_eq!(cmds[5], RTCommand::SetPwm { pwm: 10, on: 2048, off: 3 });
}

#[test]
fn duty_floor_keeps_minimum_drive_pulse() {
    // A tiny but nonzero target still drives the motors with at least
    // 1000 ticks.
    let mut pid = DrivePid::new(0, 0, 0);
    pid.set_target(10_000, 0); // 1% power
    let s = sensors_with(16_666, 0);
    pid.update(&s);
    let cmds = pid.get_pwm_commands();
    assert_eq!(cmds[2], RTCommand::SetPwm { pwm: 15, on: 0, off: 1000 });
    assert_eq!(cmds[5], RTCommand::SetPwm { pwm: 10, on: 2048, off: 3048 });
}

#[test]
fn clamp_matches_comparison_chain() {
    assert_eq!(clamp(5, 0, 10), 5);
    assert_eq!(clamp(-5, 0, 10), 0);
    assert_eq!(clamp(15, 0, 10), 10);
    // min wins when the interval is empty, as the comparison chain reads.
    assert_eq!(clamp(5, 10, 0), 10);
}

#[test]
fn turret_ticks_spans_its_range() {
    assert_eq!(turret_ticks(-90), 1240);
    assert_eq!(turret_ticks(0), 740);
    assert_eq!(turret_ticks(90), 240);
}

#[test]
fn dc_motor_plan_by_sign() {
    // Forward half power: 2048 of 4096 ticks, inverted to measure off time.
    assert_eq!(
        dc_motor_plan(500_000, 11, 12, 10),
        vec![
            RTCommand::SetPwmOn(11),
            RTCommand::SetPwmOff(12),
            RTCommand::SetPwm { pwm: 10, on: 2048, off: 0 },
        ]
    );
    // Reverse quarter power.
    assert_eq!(
        dc_motor_plan(-250_000, 11, 12, 10),
        vec![
            RTCommand::SetPwmOff(11),
            RTCommand::SetPwmOn(12),
            RTCommand::SetPwm { pwm: 10, on: 3072, off: 0 },
        ]
    );
    // Zero: all three pins off.
    assert_eq!(
        dc_motor_plan(0, 11, 12, 10),
        vec![
            RTCommand::SetPwmOff(11),
            RTCommand::SetPwmOff(12),
            RTCommand::SetPwmOff(10),
        ]
    );
}
