//! The PID-based differential drive controller.
//!
//! It tracks a target forward power (micro-units of full power, in
//! `[-1, 1]`) and a target turn rate (micro-degrees per second), corrects
//! the turn-rate error against the measured yaw rate, and renders the result
//! as PWM commands for the two drive motors.  All arithmetic is exact
//! fixed-point: the contracts below pin every stored value and every emitted
//! command.

use vstd::prelude::*;

use crate::fixed::abs_spec;
use crate::fixed::clamp_spec;
use crate::fixed::lemma_mul_bound;
use crate::fixed::lemma_tdiv_div_bound;
use crate::fixed::tdiv;
use crate::fixed::tdiv64;
use crate::fixed::UNIT;
use crate::real_time::RTCommand;
use crate::sensor_processing::SensorState;

verus! {

/// Constant output bias countering the motors' deadband (0.001 of full
/// power, micro-units).
pub const BIAS: i64 = 1_000;

/// PWM channel of the left drive motor.
pub const MOT_LPWM: u8 = 15;

/// Forward direction pin of the left drive motor.
pub const MOT_LA: u8 = 13;

/// Reverse direction pin of the left drive motor.
pub const MOT_LB: u8 = 14;

/// PWM channel of the right drive motor.
pub const MOT_RPWM: u8 = 10;

/// Forward direction pin of the right drive motor.
pub const MOT_RA: u8 = 11;

/// Reverse direction pin of the right drive motor.
pub const MOT_RB: u8 = 12;

/// Largest accepted target turn rate magnitude, micro-degrees per second
/// (2000 deg/s, beyond the gyro's range).
pub const TURN_RATE_MAX_UDPS: i64 = 2_000_000_000;

/// Largest magnitude of a PID gain, micro-units (a gain of 100).
pub const GAIN_MAX: i64 = 100_000_000;

/// Largest magnitude of the turn-rate error, micro-degrees per second.
pub const ERROR_MAX: i64 = 4_000_000_000;

/// Saturation bound of the running integral, in micro-degrees-per-second
/// times microseconds.  It corresponds to four million deg/s-seconds of
/// accumulated error -- far beyond anything a run can accumulate -- and
/// exists only so the accumulation cannot overflow.
pub const INTEGRAL_MAX: i64 = 4_000_000_000_000_000_000;

/// Bound on the magnitude of the computed correction output, micro-units.
pub const OUTPUT_MAX: i64 = 2_000_000_000_000_000;

/// Shortest inter-sample duration the controller divides by, microseconds.
pub const DT_MIN_US: i64 = 1_000;

/// Longest inter-sample duration the controller integrates over,
/// microseconds.
pub const DT_MAX_US: i64 = 10_000_000;

/// The inter-sample duration the controller actually uses: the measured one,
/// clamped into `[DT_MIN_US, DT_MAX_US]` so that the derivative's division
/// is well defined and the integral's step is bounded.
pub open spec fn eff_dt(dt_us: int) -> int {
    clamp_spec(dt_us, DT_MIN_US as int, DT_MAX_US as int)
}

/// One step of the running integral: accumulate `error * dt`, saturating at
/// the (astronomically large) overflow guard.
pub open spec fn integral_step(integral: int, error: int, dt_us: int) -> int {
    let sum = integral + error * dt_us;
    if sum > INTEGRAL_MAX {
        INTEGRAL_MAX as int
    } else if sum < -INTEGRAL_MAX {
        -INTEGRAL_MAX as int
    } else {
        sum
    }
}

/// The derivative term's raw value: the error change per second, micro-
/// degrees per second per second.
pub open spec fn derivative_spec(error: int, prev_error: int, dt_us: int) -> int {
    tdiv((error - prev_error) * 1_000_000, dt_us)
}

/// The correction output: proportional, integral and derivative terms, each
/// scaled back to micro-units by truncating division, plus the constant
/// bias.
pub open spec fn output_spec(kp: int, ki: int, kd: int, error: int, integral: int, deriv: int) -> int {
    tdiv(kp * error, 1_000_000) + tdiv(ki * tdiv(integral, 1_000_000_000), 1_000) + tdiv(
        kd * tdiv(deriv, 1_000),
        1_000,
    ) + BIAS
}

/// Data storage for the PID controller.
#[derive(Clone, Copy, Debug, PartialEq, Eq)]
pub struct DrivePid {
    /// Target forward power, micro-units of full power, in `[-1, 1]`.
    pub target_power: i64,
    /// Target turn rate, micro-degrees per second.
    pub target_udps: i64,
    /// Previous turn-rate error, micro-degrees per second.
    pub prev_error: i64,
    /// Running integral of the error, micro-deg/s times microseconds.
    pub integral: i64,
    /// Proportional gain, micro-units.
    pub k_proportional: i64,
    /// Integral gain, micro-units.
    pub k_integral: i64,
    /// Derivative gain, micro-units.
    pub k_derivative: i64,
    /// Last computed correction output, micro-units.
    pub output: i64,
}

impl DrivePid {
    /// Internal invariant: every stored value is within its bound.
    pub open spec fn wf(self) -> bool {
        &&& -UNIT <= self.target_power <= UNIT
        &&& -TURN_RATE_MAX_UDPS <= self.target_udps <= TURN_RATE_MAX_UDPS
        &&& -GAIN_MAX <= self.k_proportional <= GAIN_MAX
        &&& -GAIN_MAX <= self.k_integral <= GAIN_MAX
        &&& -GAIN_MAX <= self.k_derivative <= GAIN_MAX
        &&& -ERROR_MAX <= self.prev_error <= ERROR_MAX
        &&& -INTEGRAL_MAX <= self.integral <= INTEGRAL_MAX
        &&& -OUTPUT_MAX <= self.output <= OUTPUT_MAX
    }

    /// The turn-rate error one update computes: target minus measured yaw
    /// rate.
    pub open spec fn error_spec(self, sensors: SensorState) -> int {
        self.target_udps - sensors.raw_state.gyro.y
    }

    /// The controller after one update against `sensors`.
    pub open spec fn stepped(self, sensors: SensorState) -> DrivePid {
        let dt = eff_dt(sensors.duration_us as int);
        let error = self.error_spec(sensors);
        let integral = integral_step(self.integral as int, error, dt);
        let deriv = derivative_spec(error, self.prev_error as int, dt);
        DrivePid {
            prev_error: error as i64,
            integral: integral as i64,
            output: output_spec(
                self.k_proportional as int,
                self.k_integral as int,
                self.k_derivative as int,
                error,
                integral,
                deriv,
            ) as i64,
            ..self
        }
    }

    /// A fresh controller with the given gains (micro-units), zero targets
    /// and zero accumulated state.
    pub fn new(k_proportional: i64, k_integral: i64, k_derivative: i64) -> (r: DrivePid)
        requires
            -GAIN_MAX <= k_proportional <= GAIN_MAX,
            -GAIN_MAX <= k_integral <= GAIN_MAX,
            -GAIN_MAX <= k_derivative <= GAIN_MAX,
        ensures
            r == (DrivePid {
                target_power: 0,
                target_udps: 0,
                prev_error: 0,
                integral: 0,
                k_proportional: k_proportional,
                k_integral: k_integral,
                k_derivative: k_derivative,
                output: 0,
            }),
            r.wf(),
    {
        DrivePid {
            target_power: 0,
            target_udps: 0,
            prev_error: 0,
            integral: 0,
            k_proportional,
            k_integral,
            k_derivative,
            output: 0,
        }
    }

    /// Retarget the controller.  The accumulated integral and previous
    /// error are deliberately kept across a retarget; whether they should
    /// be reset instead is an open tuning question, and keeping them is
    /// this controller's documented policy.
    pub fn set_target(&mut self, power: i64, udps: i64)
        requires
            old(self).wf(),
            -UNIT <= power <= UNIT,
            -TURN_RATE_MAX_UDPS <= udps <= TURN_RATE_MAX_UDPS,
        ensures
            *final(self) == (DrivePid { target_power: power, target_udps: udps, ..*old(self) }),
            final(self).wf(),
    {
        self.target_power = power;
        self.target_udps = udps;
    }

    /// Target forward power, micro-units of full power.
    pub fn target_power(&self) -> (r: i64)
        ensures
            r == self.target_power,
    {
        self.target_power
    }

    /// One closed-loop update: error against the measured yaw rate,
    /// integral accumulation, derivative against the previous error, and
    /// the combined, biased output.
    pub fn update(&mut self, sensors: &SensorState)
        requires
            old(self).wf(),
            sensors.wf(),
        ensures
            *final(self) == old(self).stepped(*sensors),
            final(self).prev_error == old(self).error_spec(*sensors),
            final(self).wf(),
    {
        let dt_raw: u64 = sensors.duration();
        let dt: i64 = if dt_raw < 1_000 {
            1_000
        } else if dt_raw > 10_000_000 {
            10_000_000
        } else {
            dt_raw as i64
        };
        assert(dt == eff_dt(sensors.duration_us as int));
        let actual: i64 = sensors.gyro().y;
        let error: i64 = self.target_udps - actual;

        proof {
            lemma_mul_bound(error as int, dt as int, ERROR_MAX as int, DT_MAX_US as int);
        }
        let sum: i64 = self.integral + error * dt;
        self.integral = if sum > INTEGRAL_MAX {
            INTEGRAL_MAX
        } else if sum < -INTEGRAL_MAX {
            -INTEGRAL_MAX
        } else {
            sum
        };

        let diff: i64 = error - self.prev_error;
        proof {
            lemma_mul_bound(diff as int, 1_000_000, (2 * ERROR_MAX) as int, 1_000_000);
        }
        let deriv: i64 = tdiv64(diff * 1_000_000, dt);
        proof {
            lemma_tdiv_div_bound(
                (diff * 1_000_000) as int,
                dt as int,
                (2 * ERROR_MAX * 1_000_000) as int,
                DT_MIN_US as int,
            );
        }

        proof {
            lemma_mul_bound(
                self.k_proportional as int,
                error as int,
                GAIN_MAX as int,
                ERROR_MAX as int,
            );
        }
        let term_p: i64 = tdiv64(self.k_proportional * error, 1_000_000);

        let integral_scaled: i64 = tdiv64(self.integral, 1_000_000_000);
        proof {
            lemma_mul_bound(
                self.k_integral as int,
                integral_scaled as int,
                GAIN_MAX as int,
                (INTEGRAL_MAX / 1_000_000_000) as int,
            );
        }
        let term_i: i64 = tdiv64(self.k_integral * integral_scaled, 1_000);

        let deriv_scaled: i64 = tdiv64(deriv, 1_000);
        proof {
            lemma_mul_bound(
                self.k_derivative as int,
                deriv_scaled as int,
                GAIN_MAX as int,
                2 * (ERROR_MAX as int) * 1_000_000 / (DT_MIN_US as int) / 1_000,
            );
        }
        let term_d: i64 = tdiv64(self.k_derivative * deriv_scaled, 1_000);

        self.output = term_p + term_i + term_d + BIAS;
        self.prev_error = error;
    }

    /// The left track's clamped relative power after the last update.
    pub open spec fn lpow_spec(self) -> int {
        clamp_spec(self.target_power - self.output, -UNIT as int, UNIT as int)
    }

    /// The right track's clamped relative power after the last update.
    pub open spec fn rpow_spec(self) -> int {
        clamp_spec(self.target_power + self.output, -UNIT as int, UNIT as int)
    }

    /// The PWM duty (off tick) driving one track at relative power `p`:
    /// the scaled magnitude, floored at the minimum drive pulse that
    /// overcomes stall friction.
    pub open spec fn duty_spec(p: int) -> int {
        let ticks = tdiv(4095 * abs_spec(p), UNIT as int);
        if ticks < 1_000 {
            1_000
        } else {
            ticks
        }
    }

    /// The commands one call of `get_pwm_commands` emits.
    pub open spec fn pwm_commands_spec(self) -> Seq<RTCommand> {
        if self.target_power == 0 && self.target_udps == 0 {
            seq![RTCommand::SetPwmOff(MOT_LPWM), RTCommand::SetPwmOff(MOT_RPWM)]
        } else {
            let lpow = self.lpow_spec();
            let rpow = self.rpow_spec();
            seq![
                RTCommand::SetPwmOn(if lpow > 0 { MOT_LA } else { MOT_LB }),
                RTCommand::SetPwmOff(if lpow > 0 { MOT_LB } else { MOT_LA }),
                RTCommand::SetPwm { pwm: MOT_LPWM, on: 0, off: Self::duty_spec(lpow) as u16 },
                RTCommand::SetPwmOn(if rpow > 0 { MOT_RA } else { MOT_RB }),
                RTCommand::SetPwmOff(if rpow > 0 { MOT_RB } else { MOT_RA }),
                RTCommand::SetPwm {
                    pwm: MOT_RPWM,
                    on: 2048,
                    off: ((2048 + Self::duty_spec(rpow)) % 4096) as u16,
                },
            ]
        }
    }

    /// Render the current state as actuator commands.  With both targets
    /// exactly zero this is the stop fast path: just the two "off" commands
    /// for the drive PWM channels.  Otherwise: direction pins by the sign of
    /// each track's clamped power, then its duty command; the right motor's
    /// duty is phase-shifted half a cycle, modulo the 4096-tick PWM period.
    pub fn get_pwm_commands(&self) -> (r: Vec<RTCommand>)
        requires
            self.wf(),
        ensures
            r@ == self.pwm_commands_spec(),
            (self.target_power == 0 && self.target_udps == 0) ==> r@ =~= seq![
                RTCommand::SetPwmOff(MOT_LPWM),
                RTCommand::SetPwmOff(MOT_RPWM),
            ],
    {
        if self.target_power == 0 && self.target_udps == 0 {
            let mut commands: Vec<RTCommand> = Vec::new();
            commands.push(RTCommand::SetPwmOff(MOT_LPWM));
            commands.push(RTCommand::SetPwmOff(MOT_RPWM));
            proof {
                assert(commands@ =~= self.pwm_commands_spec());
            }
            return commands;
        }
        let mut commands: Vec<RTCommand> = Vec::new();
        let lpow: i64 = crate::motors::clamp(self.target_power - self.output, -UNIT, UNIT);
        let rpow: i64 = crate::motors::clamp(self.target_power + self.output, -UNIT, UNIT);

        commands.push(RTCommand::SetPwmOn(if lpow > 0 { MOT_LA } else { MOT_LB }));
        commands.push(RTCommand::SetPwmOff(if lpow > 0 { MOT_LB } else { MOT_LA }));
        let lduty: i64 = Self::duty_ticks(lpow);
        commands.push(RTCommand::SetPwm { pwm: MOT_LPWM, on: 0, off: lduty as u16 });

        commands.push(RTCommand::SetPwmOn(if rpow > 0 { MOT_RA } else { MOT_RB }));
        commands.push(RTCommand::SetPwmOff(if rpow > 0 { MOT_RB } else { MOT_RA }));
        let rduty: i64 = (2048 + Self::duty_ticks(rpow)) % 4096;
        commands.push(RTCommand::SetPwm { pwm: MOT_RPWM, on: 2048, off: rduty as u16 });

        proof {
            assert(commands@ =~= self.pwm_commands_spec());
        }
        commands
    }

    /// The duty ticks for one track, exact per `duty_spec`.
    fn duty_ticks(p: i64) -> (r: i64)
        requires
            -UNIT <= p <= UNIT,
        ensures
            r == Self::duty_spec(p as int),
            1_000 <= r <= 4095,
    {
        let magnitude: i64 = if p >= 0 {
            p
        } else {
            -p
        };
        let ticks: i64 = tdiv64(4095 * magnitude, UNIT);
        proof {
            lemma_tdiv_div_bound((4095 * magnitude) as int, UNIT as int, (4095 * UNIT) as int, UNIT as int);
        }
        if ticks < 1_000 {
            1_000
        } else {
            ticks
        }
    }
}

/// The turn-rate error is exactly `target - measured`, for every target and
/// every measured yaw rate the controller accepts.
pub proof fn lemma_error_is_difference(pid: DrivePid, sensors: SensorState)
    ensures
        pid.error_spec(sensors) == pid.target_udps - sensors.raw_state.gyro.y,
{
}

/// With all three gains zero the computed output is always exactly the
/// constant bias, whatever the error, integral and derivative are.
pub proof fn lemma_zero_gains_output_is_bias(pid: DrivePid, sensors: SensorState)
    requires
        pid.k_proportional == 0,
        pid.k_integral == 0,
        pid.k_derivative == 0,
    ensures
        pid.stepped(sensors).output == BIAS,
{
}

/// Both clamped differential outputs always lie in `[-1, 1]` (micro-units),
/// however large the unclamped PID output is.
pub proof fn lemma_differential_outputs_clamped(pid: DrivePid)
    ensures
        -UNIT <= pid.lpow_spec() <= UNIT,
        -UNIT <= pid.rpow_spec() <= UNIT,
{
}

/// The running integral after a run of updates that all saw the same
/// inter-sample duration, starting from zero, is exactly the sum of
/// `error * dt` over the run, as long as no partial sum reaches the
/// saturation guard.
pub open spec fn integral_after(errors: Seq<int>, dt_us: int) -> int
    decreases errors.len(),
{
    if errors.len() == 0 {
        0
    } else {
        integral_step(integral_after(errors.drop_last(), dt_us), errors.last(), dt_us)
    }
}

/// The plain sum of `error * dt` over a run of errors.
pub open spec fn sum_error_dt(errors: Seq<int>, dt_us: int) -> int
    decreases errors.len(),
{
    if errors.len() == 0 {
        0
    } else {
        sum_error_dt(errors.drop_last(), dt_us) + errors.last() * dt_us
    }
}

/// The PID integral after `n` update calls with constant `dt` equals
/// `sum error_i * dt`: the saturating accumulator agrees with the plain sum
/// whenever every partial sum stays within the saturation guard.
pub proof fn lemma_integral_is_sum(errors: Seq<int>, dt_us: int)
    requires
        forall|i: int|
            0 <= i <= errors.len() ==> -INTEGRAL_MAX <= sum_error_dt(
                #[trigger] errors.take(i),
                dt_us,
            ) <= INTEGRAL_MAX,
    ensures
        integral_after(errors, dt_us) == sum_error_dt(errors, dt_us),
    decreases errors.len(),
{
    if errors.len() == 0 {
    } else {
        let prefix = errors.drop_last();
        assert forall|i: int| 0 <= i <= prefix.len() implies -INTEGRAL_MAX <= sum_error_dt(
            #[trigger] prefix.take(i),
            dt_us,
        ) <= INTEGRAL_MAX by {
            assert(prefix.take(i) =~= errors.take(i));
        }
        lemma_integral_is_sum(prefix, dt_us);
        assert(errors.take(errors.len() as int) =~= errors);
    }
}

} // verus!
