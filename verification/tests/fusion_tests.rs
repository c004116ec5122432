//! Tests of the sensor-fusion state, the autopilot events and the pure
//! real-time-loop computations.

use tank_core::real_time::cycle_sleep_ns;
use tank_core::real_time::sonar_distance_ucm;
use tank_core::real_time::word_from_bytes;
use tank_core::real_time::RawSensorState;
use tank_core::real_time::Vec3;
use tank_core::sensor_processing::angle_delta;
use tank_core::sensor_processing::RTEvent;
use tank_core::sensor_processing::SensorState;

/// A raw sample at `time_us` with the given orientation (micro-radians,
/// x = yaw, y = roll, z = pitch).
fn sample(time_us: u64, yaw: i64, roll: i64, pitch: i64) -> RawSensorState {
    RawSensorState {
        time_us,
        gyro: Vec3 { x: 0, y: 0, z: 0 },
        accel: Vec3 { x: 0, y: 0, z: 0 },
        mag: Vec3 { x: 0, y: 0, z: 0 },
        orientation: Vec3 { x: yaw, y: roll, z: pitch },
        temp: 0,
    }
}

#[test]
fn sonar_fusion_converges_on_repeated_input() {
    // feeding the same distance twice converges the fused value to
    // that distance: the initial error is quartered.
    let mut s = SensorState::starting_at(0);
    let first = s.set_sonar((1_000_000, 10)); // 1 cm: immediately too close
    assert_eq!(s.sonar(), 500_000);
    assert!(matches!(first, Some(RTEvent::SonarProximity)));

    let mut far = SensorState::starting_at(0);
    // Start at 0, feed 40 cm twice: 0 -> 20 cm -> 30 cm.
    assert!(far.set_sonar((40_000_000, 1)).is_none());
    assert_eq!(far.sonar(), 20_000_000);
    assert!(far.set_sonar((40_000_000, 2)).is_none());
    assert_eq!(far.sonar(), 30_000_000);
    // |fused - d| dropped to a quarter of the initial error.
    assert_eq!((40_000_000i64 - far.sonar()).abs(), (40_000_000i64 - 0).abs() / 4);
}

#[test]
fn sonar_proximity_threshold_is_7_5_cm() {
    let mut s = SensorState::starting_at(0);
    // Fused value (0 + 15.000002 cm) / 2 = 7.500001 cm: not too close.
    assert!(s.set_sonar((15_000_002, 1)).is_none());
    // Next sample pulls it below 7.5 cm.
    assert!(matches!(s.set_sonar((0, 2)), Some(RTEvent::SonarProximity)));
}

#[test]
fn angle_wrap_reports_small_positive_delta() {
    // target 0.1 rad with yaw 6.2 rad (~2pi - 0.08) is a small
    // wrap-around delta, not ~6.1 rad.
    let d = angle_delta(100_000, 6_200_000);
    assert_eq!(d, 183_185);
    assert!(d > 0 && d < 200_000);
}

#[test]
fn steep_incline_takes_priority() {
    let mut s = SensorState::starting_at(0);
    s.set_target_time(1); // already reached
    s.set_target_angle(0); // already reached
    let e = s.update(sample(10_000, 0, 0, -250_000), 0);
    assert!(matches!(e, Some(RTEvent::SteepIncline)));
    // Neither target was cleared: the incline event pre-empted them.
    let e2 = s.update(sample(20_000, 0, 0, 0), 0);
    assert!(matches!(e2, Some(RTEvent::TargetTimeReached)));
    let e3 = s.update(sample(30_000, 0, 0, 0), 0);
    assert!(matches!(e3, Some(RTEvent::TargetAngleReached)));
}

#[test]
fn target_time_fires_once_and_clears() {
    let mut s = SensorState::starting_at(0);
    s.set_target_time(25_000);
    assert!(s.update(sample(10_000, 0, 0, 0), 0).is_none());
    let e = s.update(sample(25_000, 0, 0, 0), 0);
    assert!(matches!(e, Some(RTEvent::TargetTimeReached)));
    assert!(s.update(sample(40_000, 0, 0, 0), 0).is_none());
}

#[test]
fn target_angle_fires_within_epsilon_and_clears() {
    let mut s = SensorState::starting_at(0);
    s.set_target_angle(1_000_000); // 1 rad
    // 0.2 rad away: not reached (epsilon is pi/32 ~ 0.098 rad).
    assert!(s.update(sample(10_000, 800_000, 0, 0), 0).is_none());
    // 0.09 rad away: reached, and the target clears.
    let e = s.update(sample(20_000, 910_000, 0, 0), 0);
    assert!(matches!(e, Some(RTEvent::TargetAngleReached)));
    assert!(s.update(sample(30_000, 910_000, 0, 0), 0).is_none());
}

#[test]
fn update_stores_orientation_and_duration() {
    let mut s = SensorState::starting_at(0);
    let e = s.update(sample(16_666, 1_234, 5_678, -9_999), 250_000);
    assert!(e.is_none());
    assert_eq!(s.yaw(), 1_234);
    assert_eq!(s.roll(), 5_678);
    assert_eq!(s.pitch(), -9_999);
    assert_eq!(s.duration(), 16_666);
    assert_eq!(s.time(), 16_666);
    assert_eq!(s.speed(), 250_000);
}

#[test]
fn non_monotonic_clock_falls_back_to_nominal_period() {
    let mut s = SensorState::starting_at(100_000);
    let e = s.update(sample(50_000, 0, 0, 0), 0);
    assert!(e.is_none());
    assert_eq!(s.duration(), 16_667);
}

#[test]
fn cycle_sleep_keeps_the_rate() {
    // a 5 ms cycle sleeps the residual ~11.67 ms; a 20 ms overrun
    // sleeps only the 1 ms fallback.
    assert_eq!(cycle_sleep_ns(5_000_000), 11_666_667);
    assert_eq!(cycle_sleep_ns(20_000_000), 1_000_000);
    assert_eq!(cycle_sleep_ns(0), 16_666_667);
    assert_eq!(cycle_sleep_ns(16_666_667), 1_000_000);
}

#[test]
fn sonar_distance_from_pulse_width() {
    // A 1 ms echo pulse is ~17.15 cm.
    assert_eq!(sonar_distance_ucm(1_000_000), 17_150_000);
    assert_eq!(sonar_distance_ucm(0), 0);
}

#[test]
fn word_from_bytes_is_twos_complement() {
    assert_eq!(word_from_bytes(0x12, 0x34), 0x1234);
    assert_eq!(word_from_bytes(0xFF, 0xFF), -1);
    assert_eq!(word_from_bytes(0x80, 0x00), -32768);
    assert_eq!(word_from_bytes(0x00, 0xFF), 255);
}
