//! Commands and responses of the network control protocol.

use vstd::prelude::*;

use crate::sensor_processing::SensorState;

verus! {

/// A request a network client makes of the control loop.
#[derive(Clone, Copy, Debug, PartialEq, Eq)]
pub enum Command {
    /// Stop all motors immediately; also clears pending motion commands.
    StopNow,
    /// Ask for one push of the current sensor state.
    GetSensorState,
    /// Move in a straight line until the end condition is met.  Speed in
    /// micro-units of full power (`[-1, 1]`), target yaw in micro-radians.
    Move { speed: i64, target_yaw: Option<i64>, end: Option<EndCondition> },
}

/// When a `Move` ends.
#[derive(Clone, Copy, Debug, PartialEq, Eq)]
pub enum EndCondition {
    /// After this long, microseconds.
    Time(u64),
    /// When the target yaw is reached.
    AngleReached,
}

/// A reply sent back to a network client.
#[derive(Debug, PartialEq)]
pub enum Response {
    /// The command was processed successfully.
    CommandOk,
    /// The line failed to parse; carries the folded line text.
    BadCommand(Vec<u8>),
    /// The current state of the onboard sensors.
    SensorState(SensorState),
    /// Raw text to be displayed to the user.
    UserMsg(Vec<u8>),
}

} // verus!
