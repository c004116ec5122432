//! The fused, published view of the robot's state, and the autopilot event
//! state machine that watches it.
//!
//! Angles are micro-radians, distances micro-centimeters, times
//! microseconds.  `update` folds one raw sample in and reports at most one
//! autopilot event; `set_sonar` folds one ranging sample in and reports
//! proximity independently.

use vstd::prelude::*;

use crate::real_time::DeviceError;
use crate::real_time::RawSensorState;
use crate::real_time::Vec3;
use crate::real_time::RAW_COMPONENT_MAX;
use crate::real_time::SONAR_DIST_MAX_UCM;
use crate::fixed::UNIT;

verus! {

/// Fused distance below which the sonar reports proximity (7.5 cm).
pub const SONAR_TOO_CLOSE_UCM: i64 = 7_500_000;

/// Pitch below which the incline is steep (-0.2 rad).
pub const PITCH_TOO_NEG_URAD: i64 = -200_000;

/// A target heading closer than this counts as reached (pi/32 rad).
pub const ANGLE_EPSILON_URAD: i64 = 98_175;

/// Half a turn, micro-radians.
pub const PI_URAD: i64 = 3_141_593;

/// A full turn, micro-radians.
pub const TWO_PI_URAD: i64 = 6_283_185;

/// Fallback inter-sample duration when the clock is non-monotonic:
/// the nominal loop period, microseconds.
pub const NOMINAL_DT_US: u64 = 16_667;

/// A discrete autopilot condition, produced by one update step and consumed
/// immediately by the owning control loop.
#[derive(Debug)]
pub enum RTEvent {
    /// The fused sonar distance dropped below the proximity threshold.
    SonarProximity,
    /// The pitch dropped below the steep-incline threshold.
    SteepIncline,
    /// The target heading was reached (within epsilon) and cleared.
    TargetAngleReached,
    /// The target deadline passed and was cleared.
    TargetTimeReached,
    /// A non-fatal device fault reported by the real-time side.
    SensorError(DeviceError),
}

/// The magnitude of the shortest rotation from `yaw` to `angle`, wrapped the
/// way the update step wraps it: add a full turn to a negative difference,
/// then fold anything beyond half a turn back.
pub open spec fn wrap_delta_spec(angle: int, yaw: int) -> int {
    let diff = angle - yaw;
    let lifted = if diff < 0 {
        diff + TWO_PI_URAD
    } else {
        diff
    };
    if lifted > PI_URAD {
        TWO_PI_URAD - lifted
    } else {
        lifted
    }
}

/// The wrapped delta the autopilot compares against its epsilon.
pub fn angle_delta(angle: i64, yaw: i64) -> (r: i64)
    requires
        0 <= angle < TWO_PI_URAD,
        -RAW_COMPONENT_MAX <= yaw <= RAW_COMPONENT_MAX,
    ensures
        r == wrap_delta_spec(angle as int, yaw as int),
{
    let diff: i64 = angle - yaw;
    let lifted: i64 = if diff < 0 {
        diff + TWO_PI_URAD
    } else {
        diff
    };
    if lifted > PI_URAD {
        TWO_PI_URAD - lifted
    } else {
        lifted
    }
}

/// Angle-wrap correctness: when both angles lie in `[0, 2pi)`, the wrapped
/// delta is the shorter way around the circle -- the smaller of the plain
/// distance and the full turn minus it -- to within one micro-radian (the
/// full-turn constant is odd, so the two halves of the circle differ by one
/// tick), and never exceeds half a turn.
pub proof fn lemma_wrap_delta_shortest(angle: int, yaw: int)
    requires
        0 <= angle < TWO_PI_URAD,
        0 <= yaw < TWO_PI_URAD,
    ensures
        ({
            let plain = if angle >= yaw {
                angle - yaw
            } else {
                yaw - angle
            };
            let shortest = if plain <= TWO_PI_URAD - plain {
                plain
            } else {
                TWO_PI_URAD - plain
            };
            shortest <= wrap_delta_spec(angle, yaw) <= shortest + 1
        }),
        0 <= wrap_delta_spec(angle, yaw) <= PI_URAD,
{
}

/// The durable fused state: last raw sample, derived orientation, fused
/// sonar range, speed estimate and the optional autopilot targets.
#[derive(Clone, Copy, Debug, PartialEq, Eq)]
pub struct SensorState {
    /// Time between the two most recent updates, microseconds.
    pub duration_us: u64,
    /// Time of the most recent update, microseconds of wall-clock time.
    pub time_us: u64,
    /// The most recent raw sample.
    pub raw_state: RawSensorState,
    /// Roll angle, micro-radians.
    pub roll: i64,
    /// Yaw angle (heading), micro-radians.
    pub yaw: i64,
    /// Pitch angle, micro-radians.
    pub pitch: i64,
    /// Current forward speed estimate, micro-units of full power.
    pub speed: i64,
    /// Fused sonar distance, micro-centimeters.
    pub sonar_ucm: i64,
    /// Time of the most recent sonar sample, microseconds.
    pub sonar_time_us: u64,
    /// Autopilot deadline, microseconds, if one is set.
    pub target_time_us: Option<u64>,
    /// Autopilot target heading in `[0, 2pi)` micro-radians, if one is set.
    pub target_angle_urad: Option<i64>,
}

impl SensorState {
    /// Internal invariant: every stored quantity is within its range and the
    /// target heading, if set, lies in `[0, 2pi)`.
    pub open spec fn wf(self) -> bool {
        &&& self.raw_state.wf()
        &&& -RAW_COMPONENT_MAX <= self.roll <= RAW_COMPONENT_MAX
        &&& -RAW_COMPONENT_MAX <= self.yaw <= RAW_COMPONENT_MAX
        &&& -RAW_COMPONENT_MAX <= self.pitch <= RAW_COMPONENT_MAX
        &&& -UNIT <= self.speed <= UNIT
        &&& 0 <= self.sonar_ucm <= SONAR_DIST_MAX_UCM
        &&& match self.target_angle_urad {
            Some(a) => 0 <= a < TWO_PI_URAD,
            None => true,
        }
    }

    /// The inter-sample duration the next update will derive from a sample
    /// taken at `new_time_us`: the elapsed time, or the nominal period when
    /// the clock went backwards.
    pub open spec fn dt_spec(self, new_time_us: u64) -> u64 {
        if new_time_us >= self.raw_state.time_us {
            (new_time_us - self.raw_state.time_us) as u64
        } else {
            NOMINAL_DT_US
        }
    }

    /// The state after folding in `new_state` and `speed`, before any
    /// autopilot target is cleared.
    pub open spec fn absorbed(self, new_state: RawSensorState, speed: i64) -> SensorState {
        SensorState {
            duration_us: self.dt_spec(new_state.time_us),
            time_us: new_state.time_us,
            raw_state: new_state,
            yaw: new_state.orientation.x,
            roll: new_state.orientation.y,
            pitch: new_state.orientation.z,
            speed: speed,
            ..self
        }
    }

    /// The event one update step reports: a steep incline first; else a
    /// reached deadline; else a reached heading.
    pub open spec fn update_event_spec(self, new_state: RawSensorState, speed: i64) -> Option<
        RTEvent,
    > {
        let next = self.absorbed(new_state, speed);
        if next.pitch < PITCH_TOO_NEG_URAD {
            Some(RTEvent::SteepIncline)
        } else if next.target_time_us is Some && next.time_us >= next.target_time_us->0 {
            Some(RTEvent::TargetTimeReached)
        } else if next.target_angle_urad is Some && wrap_delta_spec(
            next.target_angle_urad->0 as int,
            next.yaw as int,
        ) < ANGLE_EPSILON_URAD {
            Some(RTEvent::TargetAngleReached)
        } else {
            None
        }
    }

    /// The state after one full update step: the absorbed sample, with the
    /// deadline or heading cleared when its event fired.
    pub open spec fn updated(self, new_state: RawSensorState, speed: i64) -> SensorState {
        let next = self.absorbed(new_state, speed);
        match self.update_event_spec(new_state, speed) {
            Some(RTEvent::TargetTimeReached) => SensorState { target_time_us: None, ..next },
            Some(RTEvent::TargetAngleReached) => SensorState { target_angle_urad: None, ..next },
            _ => next,
        }
    }

    /// Fold one raw sample and the current speed estimate into the state and
    /// report at most one autopilot event: a steep incline takes priority, a
    /// reached deadline comes next and clears the deadline, a reached target
    /// heading comes last and clears the heading.
    pub fn update(&mut self, new_state: RawSensorState, speed: i64) -> (r: Option<RTEvent>)
        requires
            old(self).wf(),
            new_state.wf(),
            -UNIT <= speed <= UNIT,
        ensures
            *final(self) == old(self).updated(new_state, speed),
            r == old(self).update_event_spec(new_state, speed),
            final(self).wf(),
    {
        let dt: u64 = if new_state.time_us >= self.raw_state.time_us {
            new_state.time_us - self.raw_state.time_us
        } else {
            NOMINAL_DT_US
        };
        self.yaw = new_state.orientation.x;
        self.pitch = new_state.orientation.z;
        self.roll = new_state.orientation.y;
        self.duration_us = dt;
        self.time_us = new_state.time_us;
        self.raw_state = new_state;
        self.speed = speed;

        if self.pitch < PITCH_TOO_NEG_URAD {
            return Some(RTEvent::SteepIncline);
        }

        if let Some(target) = self.target_time_us {
            if self.time_us >= target {
                self.target_time_us = None;
                return Some(RTEvent::TargetTimeReached);
            }
        }
        if let Some(angle) = self.target_angle_urad {
            let delta: i64 = angle_delta(angle, self.yaw);
            if delta < ANGLE_EPSILON_URAD {
                self.target_angle_urad = None;
                return Some(RTEvent::TargetAngleReached);
            }
        }

        None
    }

    /// Roll angle, micro-radians.
    pub fn roll(&self) -> (r: i64)
        ensures
            r == self.roll,
    {
        self.roll
    }

    /// Pitch angle, micro-radians.
    pub fn pitch(&self) -> (r: i64)
        ensures
            r == self.pitch,
    {
        self.pitch
    }

    /// Yaw angle (heading), micro-radians.
    pub fn yaw(&self) -> (r: i64)
        ensures
            r == self.yaw,
    {
        self.yaw
    }

    /// Time between the two most recent updates, microseconds.
    pub fn duration(&self) -> (r: u64)
        ensures
            r == self.duration_us,
    {
        self.duration_us
    }

    /// Time of the most recent update, microseconds.
    pub fn time(&self) -> (r: u64)
        ensures
            r == self.time_us,
    {
        self.time_us
    }

    /// Current forward speed estimate, micro-units of full power.
    pub fn speed(&self) -> (r: i64)
        ensures
            r == self.speed,
    {
        self.speed
    }

    /// Drop the autopilot deadline.
    pub fn clear_target_time(&mut self)
        ensures
            *final(self) == (SensorState { target_time_us: None, ..*old(self) }),
    {
        self.target_time_us = None;
    }

    /// Arm the autopilot deadline, microseconds of wall-clock time.
    pub fn set_target_time(&mut self, time_us: u64)
        ensures
            *final(self) == (SensorState { target_time_us: Some(time_us), ..*old(self) }),
    {
        self.target_time_us = Some(time_us);
    }

    /// Drop the autopilot target heading.
    pub fn clear_target_angle(&mut self)
        ensures
            *final(self) == (SensorState { target_angle_urad: None, ..*old(self) }),
    {
        self.target_angle_urad = None;
    }

    /// Arm the autopilot target heading; it must lie in `[0, 2pi)`.
    pub fn set_target_angle(&mut self, radians_urad: i64)
        requires
            0 <= radians_urad < TWO_PI_URAD,
        ensures
            *final(self) == (SensorState {
                target_angle_urad: Some(radians_urad),
                ..*old(self)
            }),
    {
        self.target_angle_urad = Some(radians_urad);
    }

    /// The fused distance after folding one sample in: the exponential
    /// pairwise average of the old fused distance and the new sample.
    pub open spec fn fused_sonar_spec(self, sample_ucm: int) -> int {
        (self.sonar_ucm + sample_ucm) / 2
    }

    /// Fold one sonar sample (distance in micro-centimeters, time in
    /// microseconds) into the fused range, and report proximity exactly when
    /// the fused range drops below the threshold.
    pub fn set_sonar(&mut self, sonar: (i64, u64)) -> (r: Option<RTEvent>)
        requires
            old(self).wf(),
            0 <= sonar.0 <= SONAR_DIST_MAX_UCM,
        ensures
            *final(self) == (SensorState {
                sonar_ucm: old(self).fused_sonar_spec(sonar.0 as int) as i64,
                sonar_time_us: sonar.1,
                ..*old(self)
            }),
            r is Some <==> final(self).sonar_ucm < SONAR_TOO_CLOSE_UCM,
            r is Some ==> r == Some(RTEvent::SonarProximity),
            final(self).wf(),
    {
        self.sonar_ucm = (self.sonar_ucm + sonar.0) / 2;
        self.sonar_time_us = sonar.1;
        if self.sonar_ucm < SONAR_TOO_CLOSE_UCM {
            Some(RTEvent::SonarProximity)
        } else {
            None
        }
    }

    /// Fused sonar distance, micro-centimeters.
    pub fn sonar(&self) -> (r: i64)
        ensures
            r == self.sonar_ucm,
    {
        self.sonar_ucm
    }

    /// Angular rate from the most recent sample, micro-degrees per second.
    pub fn gyro(&self) -> (r: Vec3)
        ensures
            r == self.raw_state.gyro,
    {
        self.raw_state.gyro
    }

    /// Acceleration from the most recent sample, micro-(m/s^2).
    pub fn accel(&self) -> (r: Vec3)
        ensures
            r == self.raw_state.accel,
    {
        self.raw_state.accel
    }

    /// The sentinel state rooted at `time_us`, as a value.
    pub open spec fn starting_spec(time_us: u64) -> SensorState {
        SensorState {
            duration_us: 0,
            time_us: time_us,
            raw_state: RawSensorState {
                time_us: time_us,
                gyro: Vec3 { x: 0, y: 0, z: 0 },
                accel: Vec3 { x: 0, y: 0, z: 0 },
                mag: Vec3 { x: 0, y: 0, z: 0 },
                orientation: Vec3 { x: 0, y: 0, z: 0 },
                temp: 0,
            },
            roll: 0,
            yaw: 0,
            pitch: 0,
            speed: 0,
            sonar_ucm: 0,
            sonar_time_us: time_us,
            target_time_us: None,
            target_angle_urad: None,
        }
    }

    /// The sentinel state rooted at `time_us`: zero orientation, zero speed,
    /// zero fused range, no targets.
    pub fn starting_at(time_us: u64) -> (r: SensorState)
        ensures
            r == SensorState::starting_spec(time_us),
            r.wf(),
    {
        SensorState {
            duration_us: 0,
            time_us: time_us,
            raw_state: RawSensorState {
                time_us: time_us,
                gyro: Vec3 { x: 0, y: 0, z: 0 },
                accel: Vec3 { x: 0, y: 0, z: 0 },
                mag: Vec3 { x: 0, y: 0, z: 0 },
                orientation: Vec3 { x: 0, y: 0, z: 0 },
                temp: 0,
            },
            roll: 0,
            yaw: 0,
            pitch: 0,
            speed: 0,
            sonar_ucm: 0,
            sonar_time_us: time_us,
            target_time_us: None,
            target_angle_urad: None,
        }
    }
}

impl Default for SensorState {
    /// The sentinel state at time zero.
    fn default() -> (r: SensorState)
        ensures
            r == SensorState::starting_spec(0),
            r.wf(),
    {
        SensorState::starting_at(0)
    }
}

/// Sonar fusion convergence: feeding the same distance twice draws the fused
/// value to within a quarter of the initial error, up to the two halvings'
/// rounding.  In particular a steady echo converges to its true distance.
pub proof fn lemma_sonar_fusion_converges(r0: int, d: int)
    requires
        0 <= r0,
        0 <= d,
    ensures
        ({
            let r1 = (r0 + d) / 2;
            let r2 = (r1 + d) / 2;
            &&& r2 - d <= (r0 - d) / 4 + 1
            &&& d - r2 <= (d - r0) / 4 + 1
        }),
{
}

} // verus!
