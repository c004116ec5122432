//! The control core: the state the consuming thread owns and the two-phase
//! update it runs each cycle.
//!
//! Each cycle the surrounding program collects every message the two
//! real-time loops have queued and hands the whole batch to `update`, which
//! first applies all of them -- retroactive state application -- and only
//! then computes the actuator commands from the PID controller.  The
//! contract pins that ordering: the commands returned are exactly the
//! commands of the controller state after the entire batch, never of a
//! stale one.

use vstd::prelude::*;

use crate::drive_pid::DrivePid;
use crate::real_time::RTCommand;
use crate::real_time::RTResponse;
use crate::real_time::SONAR_DIST_MAX_UCM;
use crate::sensor_processing::RTEvent;
use crate::sensor_processing::SensorState;
use crate::sensor_processing::SONAR_TOO_CLOSE_UCM;

verus! {

/// The drive PID gains the controller starts with: proportional 2.0,
/// integral 1.0, derivative 0, in micro-units.
pub const DEFAULT_KP: i64 = 2_000_000;

/// See `DEFAULT_KP`.
pub const DEFAULT_KI: i64 = 1_000_000;

/// See `DEFAULT_KP`.
pub const DEFAULT_KD: i64 = 0;

/// A message batch is acceptable when every sample in it is within the raw
/// bounds and every sonar distance is within range.
pub open spec fn response_wf(r: RTResponse) -> bool {
    match r {
        RTResponse::I2C(res) => match res {
            Ok(s) => s.wf(),
            Err(_) => true,
        },
        RTResponse::Sonar(d, _) => 0 <= d <= SONAR_DIST_MAX_UCM,
    }
}

/// Every message of the batch is acceptable.
pub open spec fn responses_wf(responses: Seq<RTResponse>) -> bool {
    forall|i: int| 0 <= i < responses.len() ==> response_wf(#[trigger] responses[i])
}

/// The fused state and the drive controller, as one value.
#[derive(Clone, Copy, Debug, PartialEq, Eq)]
pub struct ControlCore {
    /// The published sensor-fusion state.
    pub sensor_state: SensorState,
    /// The drive PID controller.
    pub drive_pid: DrivePid,
}

impl ControlCore {
    /// Both halves satisfy their invariants.
    pub open spec fn wf(self) -> bool {
        &&& self.sensor_state.wf()
        &&& self.drive_pid.wf()
    }

    /// The core after applying one message: a good sample updates the
    /// fusion state and then steps the PID against the updated state; a
    /// device fault changes nothing; a sonar range folds into the fused
    /// distance.
    pub open spec fn apply_one(self, r: RTResponse) -> ControlCore {
        match r {
            RTResponse::I2C(res) => match res {
                Ok(s) => {
                    let fused = self.sensor_state.updated(s, self.drive_pid.target_power);
                    ControlCore { sensor_state: fused, drive_pid: self.drive_pid.stepped(fused) }
                },
                Err(_) => self,
            },
            RTResponse::Sonar(d, t) => ControlCore {
                sensor_state: SensorState {
                    sonar_ucm: self.sensor_state.fused_sonar_spec(d as int) as i64,
                    sonar_time_us: t,
                    ..self.sensor_state
                },
                ..self
            },
        }
    }

    /// The events one message surfaces, applied at this core state.
    pub open spec fn event_of(self, r: RTResponse) -> Seq<RTEvent> {
        match r {
            RTResponse::I2C(res) => match res {
                Ok(s) => match self.sensor_state.update_event_spec(
                    s,
                    self.drive_pid.target_power,
                ) {
                    Some(e) => seq![e],
                    None => Seq::empty(),
                },
                Err(e) => seq![RTEvent::SensorError(e)],
            },
            RTResponse::Sonar(d, _) => if self.sensor_state.fused_sonar_spec(d as int)
                < SONAR_TOO_CLOSE_UCM {
                seq![RTEvent::SonarProximity]
            } else {
                Seq::empty()
            },
        }
    }

    /// The state snapshots one message publishes: each good sample pushes
    /// the freshly fused state.
    pub open spec fn snapshot_of(self, r: RTResponse) -> Seq<SensorState> {
        match r {
            RTResponse::I2C(res) => match res {
                Ok(s) => seq![self.sensor_state.updated(s, self.drive_pid.target_power)],
                Err(_) => Seq::empty(),
            },
            RTResponse::Sonar(_, _) => Seq::empty(),
        }
    }

    /// The core after applying a whole batch in order.
    pub open spec fn folded(self, responses: Seq<RTResponse>) -> ControlCore
        decreases responses.len(),
    {
        if responses.len() == 0 {
            self
        } else {
            self.folded(responses.drop_last()).apply_one(responses.last())
        }
    }

    /// All events a whole batch surfaces, in order.
    pub open spec fn folded_events(self, responses: Seq<RTResponse>) -> Seq<RTEvent>
        decreases responses.len(),
    {
        if responses.len() == 0 {
            Seq::empty()
        } else {
            self.folded_events(responses.drop_last()) + self.folded(
                responses.drop_last(),
            ).event_of(responses.last())
        }
    }

    /// All state snapshots a whole batch publishes, in order.
    pub open spec fn folded_snapshots(self, responses: Seq<RTResponse>) -> Seq<SensorState>
        decreases responses.len(),
    {
        if responses.len() == 0 {
            Seq::empty()
        } else {
            self.folded_snapshots(responses.drop_last()) + self.folded(
                responses.drop_last(),
            ).snapshot_of(responses.last())
        }
    }

    /// A fresh core rooted at `start_time_us`: the sentinel fusion state
    /// and a PID controller with the default gains and zero targets.
    pub fn new(start_time_us: u64) -> (r: ControlCore)
        ensures
            r.sensor_state == SensorState::starting_spec(start_time_us),
            r.drive_pid == (DrivePid {
                target_power: 0,
                target_udps: 0,
                prev_error: 0,
                integral: 0,
                k_proportional: DEFAULT_KP,
                k_integral: DEFAULT_KI,
                k_derivative: DEFAULT_KD,
                output: 0,
            }),
            r.wf(),
    {
        ControlCore {
            sensor_state: SensorState::starting_at(start_time_us),
            drive_pid: DrivePid::new(DEFAULT_KP, DEFAULT_KI, DEFAULT_KD),
        }
    }

    /// Apply one batch of queued messages, then compute the actuator
    /// commands.  Returns the surfaced events, the state snapshots to
    /// publish (empty unless `send_updates`), and the commands -- which by
    /// contract reflect the controller state after the whole batch.
    pub fn update(&mut self, send_updates: bool, responses: Vec<RTResponse>) -> (r: (
        Vec<RTEvent>,
        Vec<SensorState>,
        Vec<RTCommand>,
    ))
        requires
            old(self).wf(),
            responses_wf(responses@),
        ensures
            *final(self) == old(self).folded(responses@),
            r.0@ == old(self).folded_events(responses@),
            send_updates ==> r.1@ == old(self).folded_snapshots(responses@),
            !send_updates ==> r.1@ == Seq::<SensorState>::empty(),
            r.2@ == final(self).drive_pid.pwm_commands_spec(),
            final(self).wf(),
    {
        let ghost all = responses@;
        let ghost init = *self;
        let mut remaining = responses;
        let mut events: Vec<RTEvent> = Vec::new();
        let mut snapshots: Vec<SensorState> = Vec::new();

        while remaining.len() > 0
            invariant
                remaining.len() <= all.len(),
                remaining@ == all.subrange(
                    all.len() - remaining.len(),
                    all.len() as int,
                ),
                responses_wf(all),
                *self == init.folded(all.take(all.len() - remaining.len())),
                events@ == init.folded_events(all.take(all.len() - remaining.len())),
                send_updates ==> snapshots@ == init.folded_snapshots(
                    all.take(all.len() - remaining.len()),
                ),
                !send_updates ==> snapshots@ == Seq::<SensorState>::empty(),
                init.wf(),
                self.wf(),
            decreases remaining.len(),
        {
            let ghost k = all.len() - remaining.len();
            let ghost pre = *self;
            let resp = remaining.remove(0);
            proof {
                assert(resp == all[k]);
                assert(response_wf(all[k]));
            }
            match resp {
                RTResponse::I2C(res) => match res {
                    Ok(new_state) => {
                        let power = self.drive_pid.target_power();
                        let event = self.sensor_state.update(new_state, power);
                        self.drive_pid.update(&self.sensor_state);
                        if send_updates {
                            snapshots.push(self.sensor_state);
                        }
                        if let Some(e) = event {
                            events.push(e);
                        }
                    },
                    Err(e) => {
                        events.push(RTEvent::SensorError(e));
                    },
                },
                RTResponse::Sonar(cm, time) => {
                    if let Some(event) = self.sensor_state.set_sonar((cm, time)) {
                        events.push(event);
                    }
                },
            }
            proof {
                assert(all.take(k + 1).drop_last() =~= all.take(k));
                assert(all.take(k + 1).last() == all[k]);
                assert(*self == pre.apply_one(all[k]));
                assert(events@ =~= init.folded_events(all.take(k + 1)));
                if send_updates {
                    assert(snapshots@ =~= init.folded_snapshots(all.take(k + 1)));
                }
                assert(remaining@ =~= all.subrange(all.len() - remaining.len(), all.len() as int));
            }
        }
        proof {
            assert(all.take(all.len() as int) =~= all);
        }
        let commands = self.drive_pid.get_pwm_commands();
        (events, snapshots, commands)
    }

    /// Retarget the drive: forward power and turn rate (micro-units and
    /// micro-degrees per second).
    pub fn set_drive(&mut self, power: i64, turn_udps: i64)
        requires
            old(self).wf(),
            -crate::fixed::UNIT <= power <= crate::fixed::UNIT,
            -crate::drive_pid::TURN_RATE_MAX_UDPS <= turn_udps
                <= crate::drive_pid::TURN_RATE_MAX_UDPS,
        ensures
            *final(self) == (ControlCore {
                drive_pid: DrivePid {
                    target_power: power,
                    target_udps: turn_udps,
                    ..old(self).drive_pid
                },
                ..*old(self)
            }),
            final(self).wf(),
    {
        self.drive_pid.set_target(power, turn_udps);
    }

    /// The published fusion state, for reading and for arming targets.
    pub fn sensor_state(&mut self) -> (r: &mut SensorState)
        ensures
            *r == old(self).sensor_state,
            *final(self) == (ControlCore { sensor_state: *final(r), ..*old(self) }),
    {
        &mut self.sensor_state
    }

    /// Zero both drive targets and return the command that stops every
    /// motor at once.
    pub fn stop(&mut self) -> (r: RTCommand)
        requires
            old(self).wf(),
        ensures
            *final(self) == (ControlCore {
                drive_pid: DrivePid { target_power: 0, target_udps: 0, ..old(self).drive_pid },
                ..*old(self)
            }),
            r == RTCommand::StopAllMotors,
            final(self).wf(),
    {
        self.drive_pid.set_target(0, 0);
        RTCommand::StopAllMotors
    }
}

/// The clean-shutdown command sequence: stop every motor, then terminate
/// the real-time loop -- in that order, so the actuator reaches its safe
/// all-off state before the loop exits.
pub fn close_commands() -> (r: Vec<RTCommand>)
    ensures
        r@ =~= seq![RTCommand::StopAllMotors, RTCommand::End],
{
    let mut commands: Vec<RTCommand> = Vec::new();
    commands.push(RTCommand::StopAllMotors);
    commands.push(RTCommand::End);
    commands
}

} // verus!
