//! Pure motor-command planning: clamping, the turret servo conversion and
//! the DC drive motor command sequence.  The device writes themselves happen
//! outside the crate; these functions decide exactly what is written.

use vstd::prelude::*;

use crate::fixed::clamp_spec;
use crate::fixed::UNIT;
use crate::real_time::RTCommand;

verus! {

/// Turret servo channel.
pub const MOT_T1: u8 = 0;

/// Servo tick value at +90 degrees.
pub const T1_MIN: i64 = 240;

/// Servo tick value at -90 degrees.
pub const T1_MAX: i64 = 1240;

/// Clamp `input` into `[min, max]`; `min` wins when the interval is empty,
/// exactly as the comparison chain reads.
pub fn clamp(input: i64, min: i64, max: i64) -> (r: i64)
    ensures
        r == clamp_spec(input as int, min as int, max as int),
{
    if min > input {
        return min;
    }
    if max < input {
        return max;
    }
    input
}

/// The servo tick value steering the turret to `degrees`: linear between
/// the two endpoint tick values, clamped into their range.
pub fn turret_ticks(degrees: i32) -> (r: u16)
    requires
        -90 <= degrees <= 90,
    ensures
        r == (90 - degrees) * (T1_MAX - T1_MIN) / 180 + T1_MIN,
        T1_MIN <= r <= T1_MAX,
{
    let value: i64 = ((90 - degrees) as i64) * (T1_MAX - T1_MIN) / 180 + T1_MIN;
    let clamped: i64 = clamp(value, T1_MIN, T1_MAX);
    clamped as u16
}

/// The PWM on-tick driving one DC motor at relative power `speed`
/// (micro-units, magnitude at most one): the rounded tick count of the
/// magnitude, inverted when below full scale so that it measures the part
/// of a cycle that is not on.
pub open spec fn dc_speed_pwm_spec(speed: int) -> int {
    let rounded = (4096 * crate::fixed::abs_spec(speed) + 500_000) / (UNIT as int);
    if rounded < 4096 {
        4096 - rounded
    } else {
        rounded
    }
}

/// The command sequence driving one DC motor at relative power `speed`:
/// direction pins by sign, then the PWM duty; all three pins off at zero.
pub open spec fn dc_motor_plan_spec(speed: int, p1: u8, p2: u8, pwm: u8) -> Seq<RTCommand> {
    if speed < 0 {
        seq![
            RTCommand::SetPwmOff(p1),
            RTCommand::SetPwmOn(p2),
            RTCommand::SetPwm { pwm: pwm, on: dc_speed_pwm_spec(speed) as u16, off: 0 },
        ]
    } else if speed > 0 {
        seq![
            RTCommand::SetPwmOn(p1),
            RTCommand::SetPwmOff(p2),
            RTCommand::SetPwm { pwm: pwm, on: dc_speed_pwm_spec(speed) as u16, off: 0 },
        ]
    } else {
        seq![RTCommand::SetPwmOff(p1), RTCommand::SetPwmOff(p2), RTCommand::SetPwmOff(pwm)]
    }
}

/// Plan the writes that drive one DC motor at `speed` (micro-units of full
/// power, already clamped to `[-1, 1]`) through direction pins `p1`/`p2`
/// and PWM channel `pwm`.
pub fn dc_motor_plan(speed: i64, p1: u8, p2: u8, pwm: u8) -> (r: Vec<RTCommand>)
    requires
        -UNIT <= speed <= UNIT,
    ensures
        r@ == dc_motor_plan_spec(speed as int, p1, p2, pwm),
{
    let magnitude: i64 = if speed >= 0 {
        speed
    } else {
        -speed
    };
    let rounded: i64 = (4096 * magnitude + 500_000) / UNIT;
    let speed_pwm: i64 = if rounded < 4096 {
        4096 - rounded
    } else {
        rounded
    };
    let mut commands: Vec<RTCommand> = Vec::new();
    if speed < 0 {
        commands.push(RTCommand::SetPwmOff(p1));
        commands.push(RTCommand::SetPwmOn(p2));
        commands.push(RTCommand::SetPwm { pwm, on: speed_pwm as u16, off: 0 });
    } else if speed > 0 {
        commands.push(RTCommand::SetPwmOn(p1));
        commands.push(RTCommand::SetPwmOff(p2));
        commands.push(RTCommand::SetPwm { pwm, on: speed_pwm as u16, off: 0 });
    } else {
        commands.push(RTCommand::SetPwmOff(p1));
        commands.push(RTCommand::SetPwmOff(p2));
        commands.push(RTCommand::SetPwmOff(pwm));
    }
    proof {
        assert(commands@ =~= dc_motor_plan_spec(speed as int, p1, p2, pwm));
    }
    commands
}

} // verus!
