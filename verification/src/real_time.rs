//! Messages exchanged with the real-time loop, the raw sensor sample it
//! produces, and the pure computations that loop performs: the residual
//! rate-limiting sleep and the sonar pulse-to-distance conversion.
//!
//! Angles are micro-radians, angular rates micro-degrees-per-second,
//! accelerations micro-(m/s^2), temperatures micro-degrees-Celsius,
//! distances micro-centimeters, times microseconds (nanoseconds where named
//! so).

use vstd::prelude::*;

verus! {

/// Target period of the real-time loop, in nanoseconds (~60 Hz).
pub const TARGET_INTERVAL_NS: u64 = 16_666_667;

/// Fallback sleep when a cycle overruns its period, in nanoseconds (1 ms).
pub const OVERRUN_SLEEP_NS: u64 = 1_000_000;

/// PWM carrier frequency of the actuator driver, in Hz.
pub const PWM_FREQ_HZ: u32 = 120;

/// Largest sonar distance the fusion state accepts, in micro-centimeters.
/// Covers any value `sonar_distance_ucm` can produce.
pub const SONAR_DIST_MAX_UCM: i64 = 100_000_000_000;

/// Bound on the magnitude of every raw sample component, in micro-units
/// (2000 deg/s, 2000 m/s^2, 2000 rad and 2000 deg C are all far beyond the
/// sensor's ranges).
pub const RAW_COMPONENT_MAX: i64 = 2_000_000_000;

/// A request to the real-time loop for the actuator driver.
#[derive(Clone, Copy, Debug, PartialEq, Eq, Structural)]
pub enum RTCommand {
    /// Set one PWM channel's explicit on/off tick pair.
    SetPwm { pwm: u8, on: u16, off: u16 },
    /// Set one PWM channel fully off.
    SetPwmOff(u8),
    /// Set one PWM channel fully on.
    SetPwmOn(u8),
    /// Set every channel off.
    StopAllMotors,
    /// Terminate the real-time loop; sent only during a clean shutdown.
    End,
}

/// A device fault reported by the real-time side, carried as plain text.
#[derive(Debug)]
pub struct DeviceError {
    /// Human-readable description of the failed device operation.
    pub detail: String,
}

/// A three-component sensor reading in micro-units.
#[derive(Clone, Copy, Debug, Default, PartialEq, Eq, Structural)]
pub struct Vec3 {
    /// First component.
    pub x: i64,
    /// Second component.
    pub y: i64,
    /// Third component.
    pub z: i64,
}

impl Vec3 {
    /// All components within the raw-sample bound.
    pub open spec fn wf(self) -> bool {
        &&& -RAW_COMPONENT_MAX <= self.x <= RAW_COMPONENT_MAX
        &&& -RAW_COMPONENT_MAX <= self.y <= RAW_COMPONENT_MAX
        &&& -RAW_COMPONENT_MAX <= self.z <= RAW_COMPONENT_MAX
    }
}

/// One acquisition from the orientation sensor.
#[derive(Clone, Copy, Debug, PartialEq, Eq, Structural)]
pub struct RawSensorState {
    /// Acquisition time, microseconds of wall-clock time.
    pub time_us: u64,
    /// Angular rate, micro-degrees per second.
    pub gyro: Vec3,
    /// Linear acceleration, micro-(m/s^2).
    pub accel: Vec3,
    /// Magnetic field, micro-microtesla.
    pub mag: Vec3,
    /// Fused orientation angles, micro-radians.
    pub orientation: Vec3,
    /// Temperature, micro-degrees Celsius.
    pub temp: i64,
}

impl RawSensorState {
    /// Every component of the sample is within the raw bound.
    pub open spec fn wf(self) -> bool {
        &&& self.gyro.wf()
        &&& self.accel.wf()
        &&& self.mag.wf()
        &&& self.orientation.wf()
        &&& -RAW_COMPONENT_MAX <= self.temp <= RAW_COMPONENT_MAX
    }
}

impl Default for RawSensorState {
    /// The sentinel sample: all components zero at time zero.
    fn default() -> (r: RawSensorState)
        ensures
            r == (RawSensorState {
                time_us: 0,
                gyro: Vec3 { x: 0, y: 0, z: 0 },
                accel: Vec3 { x: 0, y: 0, z: 0 },
                mag: Vec3 { x: 0, y: 0, z: 0 },
                orientation: Vec3 { x: 0, y: 0, z: 0 },
                temp: 0,
            }),
            r.wf(),
    {
        RawSensorState {
            time_us: 0,
            gyro: Vec3 { x: 0, y: 0, z: 0 },
            accel: Vec3 { x: 0, y: 0, z: 0 },
            mag: Vec3 { x: 0, y: 0, z: 0 },
            orientation: Vec3 { x: 0, y: 0, z: 0 },
            temp: 0,
        }
    }
}

/// A message from one of the real-time loops to the control handle.
#[derive(Debug)]
pub enum RTResponse {
    /// One orientation-sensor acquisition, or the device fault it raised.
    I2C(Result<RawSensorState, DeviceError>),
    /// A sonar range: distance in micro-centimeters and its time in
    /// microseconds.
    Sonar(i64, u64),
}

/// Residual sleep of one real-time cycle, in nanoseconds: the rest of the
/// target period, or the fixed 1 ms fallback when the cycle overran.  Never
/// zero, so the loop never busy-waits, and never "negative time".
pub fn cycle_sleep_ns(elapsed_ns: u64) -> (r: u64)
    ensures
        elapsed_ns < TARGET_INTERVAL_NS ==> r == TARGET_INTERVAL_NS - elapsed_ns,
        elapsed_ns >= TARGET_INTERVAL_NS ==> r == OVERRUN_SLEEP_NS,
        r > 0,
        elapsed_ns + r >= TARGET_INTERVAL_NS,
{
    if elapsed_ns < TARGET_INTERVAL_NS {
        TARGET_INTERVAL_NS - elapsed_ns
    } else {
        OVERRUN_SLEEP_NS
    }
}

/// Distance of one sonar echo, in micro-centimeters, from the echo pulse
/// width in nanoseconds: sound travels ~343 m/s (34300 cm/s) and the pulse
/// covers the round trip, so cm = ns * 34300 / 2e9, i.e. ucm = ns * 343 / 20.
pub fn sonar_distance_ucm(pulse_ns: u32) -> (r: i64)
    ensures
        r == (pulse_ns * 343) / 20,
        0 <= r <= SONAR_DIST_MAX_UCM,
{
    let wide: u64 = (pulse_ns as u64) * 343;
    (wide / 20) as i64
}

/// One big-endian register word of the inertial sensor, assembled from its
/// two bytes exactly as `(high << 8) | low` reinterprets them: the unsigned
/// word, taken as a two's-complement 16-bit value.
pub fn word_from_bytes(high: u8, low: u8) -> (r: i16)
    ensures
        high < 128 ==> r == high * 256 + low,
        high >= 128 ==> r == high * 256 + low - 65536,
{
    let wide: u16 = (high as u16) * 256 + (low as u16);
    let r: i16 = wide as i16;
    proof {
        assert(high < 128 ==> r == high * 256 + low) by (bit_vector)
            requires
                wide == (high as u16) * 256 + (low as u16),
                r == wide as i16,
        ;
        assert(high >= 128 ==> r == high * 256 + low - 65536) by (bit_vector)
            requires
                wide == (high as u16) * 256 + (low as u16),
                r == wide as i16,
        ;
    }
    r
}

} // verus!
