//! Supervisor decisions of the main loop: the pending-command queue with
//! its stop-now priority, and the reactions to keys, network commands and
//! autopilot events.  The surrounding program performs the returned
//! directives (retarget the drive, arm a target, stop, quit); every
//! decision itself is made here, exactly as specified.

use vstd::prelude::*;

use crate::drive_pid::DrivePid;
use crate::drive_pid::MOT_LPWM;
use crate::drive_pid::MOT_RPWM;
use crate::fixed::UNIT;
use crate::messages::Command;
use crate::real_time::RTCommand;
use crate::sensor_processing::RTEvent;
use crate::sensor_processing::TWO_PI_URAD;

verus! {

/// One keypress's change of speed (a quarter of full power).
pub const SPEED_STEP: i64 = 250_000;

/// One keypress's change of turn (a quarter pi, micro-radians).
pub const QUARTER_PI_URAD: i64 = 785_398;

/// The turn applied when a backoff ends (55 degrees, micro-radians).
pub const BACKOFF_TURN_URAD: i64 = 959_931;

/// The reverse speed commanded when the sonar reports proximity.
pub const BACKOFF_SPEED: i64 = -500_000;

/// How long the proximity backoff lasts, microseconds.
pub const BACKOFF_US: u64 = 500_000;

/// The forward speed resumed when the target heading is reached.
pub const RESUME_SPEED: i64 = 500_000;

/// The index of the first stop command at or after `i`, or the length when
/// there is none.
pub open spec fn find_stop(s: Seq<Command>, i: int) -> int
    decreases s.len() - i,
{
    if i >= s.len() {
        s.len() as int
    } else if s[i] == Command::StopNow {
        i
    } else {
        find_stop(s, i + 1)
    }
}

/// `find_stop` stays between its start and the length, finds a stop
/// command when it says so, and skips none before it.
pub proof fn lemma_find_stop(s: Seq<Command>, i: int)
    requires
        0 <= i <= s.len(),
    ensures
        i <= find_stop(s, i) <= s.len(),
        find_stop(s, i) < s.len() ==> s[find_stop(s, i)] == Command::StopNow,
        forall|j: int| i <= j < find_stop(s, i) ==> s[j] != Command::StopNow,
    decreases s.len() - i,
{
    if i < s.len() && s[i] != Command::StopNow {
        lemma_find_stop(s, i + 1);
    }
}

/// The pending commands of the control loop, oldest first.
pub struct CommandQueue {
    /// The queued commands.
    pub queue: Vec<Command>,
}

impl CommandQueue {
    /// An empty queue.
    pub fn new() -> (r: CommandQueue)
        ensures
            r.queue@ == Seq::<Command>::empty(),
    {
        CommandQueue { queue: Vec::new() }
    }

    /// Append the newly received batch and hand out the next command.  A
    /// stop command always takes priority: the first one found is returned
    /// at once and everything pending before it -- every queued non-stop
    /// motion command -- is cleared; only what arrived after it stays
    /// queued.  Without one, commands come out oldest first.
    pub fn next_command(&mut self, incoming: Vec<Command>) -> (r: Option<Command>)
        ensures
            ({
                let combined = old(self).queue@ + incoming@;
                let k = find_stop(combined, 0);
                &&& (k < combined.len() ==> {
                    &&& r == Some(Command::StopNow)
                    &&& final(self).queue@ == combined.subrange(k + 1, combined.len() as int)
                })
                &&& (k == combined.len() && combined.len() > 0 ==> {
                    &&& r == Some(combined[0])
                    &&& final(self).queue@ == combined.subrange(1, combined.len() as int)
                })
                &&& (combined.len() == 0 ==> {
                    &&& r is None
                    &&& final(self).queue@ == Seq::<Command>::empty()
                })
            }),
    {
        let mut incoming = incoming;
        self.queue.append(&mut incoming);
        let ghost combined = self.queue@;
        proof {
            lemma_find_stop(combined, 0);
        }

        let mut k: usize = 0;
        let mut found: bool = false;
        while k < self.queue.len() && !found
            invariant
                0 <= k <= self.queue@.len(),
                self.queue@ == combined,
                !found ==> find_stop(combined, 0) == find_stop(combined, k as int),
                found ==> find_stop(combined, 0) == k && k < combined.len(),
            decreases combined.len() - k, (if found { 0int } else { 1int }),
        {
            match self.queue[k] {
                Command::StopNow => {
                    found = true;
                },
                _ => {
                    proof {
                        assert(find_stop(combined, k as int) == find_stop(combined, k + 1));
                    }
                    k = k + 1;
                },
            }
        }
        proof {
            if !found {
                assert(find_stop(combined, k as int) == k);
            }
        }

        if found {
            let mut rest: Vec<Command> = Vec::new();
            let mut j: usize = k + 1;
            while j < self.queue.len()
                invariant
                    k + 1 <= j <= self.queue@.len(),
                    self.queue@ == combined,
                    rest@ =~= combined.subrange(k + 1, j as int),
                decreases combined.len() - j,
            {
                let c: Command = self.queue[j];
                rest.push(c);
                proof {
                    assert(rest@ =~= combined.subrange(k + 1, j + 1));
                }
                j = j + 1;
            }
            self.queue = rest;
            Some(Command::StopNow)
        } else if self.queue.len() > 0 {
            let c: Command = self.queue.remove(0);
            proof {
                assert(self.queue@ =~= combined.subrange(1, combined.len() as int));
            }
            Some(c)
        } else {
            None
        }
    }
}

/// What one keypress decides.
#[derive(Clone, Copy, Debug, PartialEq, Eq)]
pub struct KeyOutcome {
    /// The new commanded speed, micro-units.
    pub speed: i64,
    /// The new stored turn setting, micro-radians in `[0, 2pi)`.
    pub turn: i64,
    /// Retarget the drive with these (power, turn) values, if set.
    pub drive: Option<(i64, i64)>,
    /// Stop all motors.
    pub stop: bool,
    /// Leave the main loop.
    pub quit: bool,
}

/// The decision one keypress makes: w/s step the speed (clamped to full
/// power), d/a step the turn a quarter pi with wrap-around, z stops
/// everything, x quits.  Stepping the turn up retargets the drive before
/// the wrap is applied, exactly as the main loop does.
pub open spec fn key_outcome_spec(speed: i64, turn: i64, key: char) -> KeyOutcome {
    if key == 'w' {
        let s = if speed + SPEED_STEP > UNIT {
            UNIT as int
        } else {
            speed + SPEED_STEP
        };
        KeyOutcome {
            speed: s as i64,
            turn,
            drive: Some((s as i64, turn)),
            stop: false,
            quit: false,
        }
    } else if key == 's' {
        let s = if speed - SPEED_STEP < -UNIT {
            -UNIT as int
        } else {
            speed - SPEED_STEP
        };
        KeyOutcome {
            speed: s as i64,
            turn,
            drive: Some((s as i64, turn)),
            stop: false,
            quit: false,
        }
    } else if key == 'd' {
        let lifted = turn + QUARTER_PI_URAD;
        let wrapped = if lifted >= TWO_PI_URAD {
            lifted - TWO_PI_URAD
        } else {
            lifted
        };
        KeyOutcome {
            speed,
            turn: wrapped as i64,
            drive: Some((speed, lifted as i64)),
            stop: false,
            quit: false,
        }
    } else if key == 'a' {
        let lowered = turn - QUARTER_PI_URAD;
        let wrapped = if lowered < 0 {
            lowered + TWO_PI_URAD
        } else {
            lowered
        };
        KeyOutcome {
            speed,
            turn: wrapped as i64,
            drive: Some((speed, wrapped as i64)),
            stop: false,
            quit: false,
        }
    } else if key == 'z' {
        KeyOutcome { speed: 0, turn: 0, drive: None, stop: true, quit: false }
    } else if key == 'x' {
        KeyOutcome { speed, turn, drive: None, stop: false, quit: true }
    } else {
        KeyOutcome { speed, turn, drive: None, stop: false, quit: false }
    }
}

/// Decide one keypress.
pub fn on_key(speed: i64, turn: i64, key: char) -> (r: KeyOutcome)
    requires
        -UNIT <= speed <= UNIT,
        0 <= turn < TWO_PI_URAD,
    ensures
        r == key_outcome_spec(speed, turn, key),
        -UNIT <= r.speed <= UNIT,
        0 <= r.turn < TWO_PI_URAD,
        r.drive matches Some(d) ==> -UNIT <= d.0 <= UNIT && 0 <= d.1 < TWO_PI_URAD
            + QUARTER_PI_URAD,
{
    if key == 'w' {
        let s: i64 = if speed + SPEED_STEP > UNIT {
            UNIT
        } else {
            speed + SPEED_STEP
        };
        KeyOutcome { speed: s, turn, drive: Some((s, turn)), stop: false, quit: false }
    } else if key == 's' {
        let s: i64 = if speed - SPEED_STEP < -UNIT {
            -UNIT
        } else {
            speed - SPEED_STEP
        };
        KeyOutcome { speed: s, turn, drive: Some((s, turn)), stop: false, quit: false }
    } else if key == 'd' {
        let lifted: i64 = turn + QUARTER_PI_URAD;
        let wrapped: i64 = if lifted >= TWO_PI_URAD {
            lifted - TWO_PI_URAD
        } else {
            lifted
        };
        KeyOutcome { speed, turn: wrapped, drive: Some((speed, lifted)), stop: false, quit: false }
    } else if key == 'a' {
        let lowered: i64 = turn - QUARTER_PI_URAD;
        let wrapped: i64 = if lowered < 0 {
            lowered + TWO_PI_URAD
        } else {
            lowered
        };
        KeyOutcome { speed, turn: wrapped, drive: Some((speed, wrapped)), stop: false, quit: false }
    } else if key == 'z' {
        KeyOutcome { speed: 0, turn: 0, drive: None, stop: true, quit: false }
    } else if key == 'x' {
        KeyOutcome { speed, turn, drive: None, stop: false, quit: true }
    } else {
        KeyOutcome { speed, turn, drive: None, stop: false, quit: false }
    }
}

/// What one autopilot event decides.
#[derive(Clone, Copy, Debug, PartialEq, Eq)]
pub struct EventOutcome {
    /// The new commanded speed, micro-units.
    pub speed: i64,
    /// The new stored turn setting, micro-radians in `[0, 2pi)`.
    pub turn: i64,
    /// Retarget the drive with these (power, turn) values, if set.
    pub drive: Option<(i64, i64)>,
    /// Arm the autopilot deadline at this time, if set.
    pub set_target_time: Option<u64>,
    /// Arm the autopilot target heading, if set.
    pub set_target_angle: Option<i64>,
}

/// The reaction to one autopilot event: proximity while moving forward
/// backs off (reverse at half power for half a second); a reached heading
/// resumes forward at half power; a reached deadline stops, turns 55
/// degrees on (with wrap-around) and arms that heading; a device fault
/// changes nothing (it is only displayed).
pub open spec fn event_outcome_spec(speed: i64, turn: i64, event: RTEvent, now_us: u64) -> EventOutcome {
    match event {
        RTEvent::SonarProximity => if speed > 0 {
            EventOutcome {
                speed: BACKOFF_SPEED,
                turn,
                drive: Some((BACKOFF_SPEED, turn)),
                set_target_time: Some((now_us + BACKOFF_US) as u64),
                set_target_angle: None,
            }
        } else {
            EventOutcome { speed, turn, drive: None, set_target_time: None, set_target_angle: None }
        },
        RTEvent::TargetAngleReached => EventOutcome {
            speed: RESUME_SPEED,
            turn,
            drive: Some((RESUME_SPEED, turn)),
            set_target_time: None,
            set_target_angle: None,
        },
        RTEvent::TargetTimeReached => {
            let lifted = turn + BACKOFF_TURN_URAD;
            let wrapped = if lifted >= TWO_PI_URAD {
                lifted - TWO_PI_URAD
            } else {
                lifted
            };
            EventOutcome {
                speed: 0,
                turn: wrapped as i64,
                drive: Some((0, wrapped as i64)),
                set_target_time: None,
                set_target_angle: Some(wrapped as i64),
            }
        },
        _ => EventOutcome {
            speed,
            turn,
            drive: None,
            set_target_time: None,
            set_target_angle: None,
        },
    }
}

/// Decide one autopilot event.
pub fn on_event(speed: i64, turn: i64, event: &RTEvent, now_us: u64) -> (r: EventOutcome)
    requires
        -UNIT <= speed <= UNIT,
        0 <= turn < TWO_PI_URAD,
        now_us + BACKOFF_US <= u64::MAX,
    ensures
        r == event_outcome_spec(speed, turn, *event, now_us),
        -UNIT <= r.speed <= UNIT,
        0 <= r.turn < TWO_PI_URAD,
        r.drive matches Some(d) ==> -UNIT <= d.0 <= UNIT && 0 <= d.1 < TWO_PI_URAD,
        r.set_target_angle matches Some(a) ==> 0 <= a < TWO_PI_URAD,
    {
    match event {
        RTEvent::SonarProximity => {
            if speed > 0 {
                EventOutcome {
                    speed: BACKOFF_SPEED,
                    turn,
                    drive: Some((BACKOFF_SPEED, turn)),
                    set_target_time: Some(now_us + BACKOFF_US),
                    set_target_angle: None,
                }
            } else {
                EventOutcome {
                    speed,
                    turn,
                    drive: None,
                    set_target_time: None,
                    set_target_angle: None,
                }
            }
        },
        RTEvent::TargetAngleReached => EventOutcome {
            speed: RESUME_SPEED,
            turn,
            drive: Some((RESUME_SPEED, turn)),
            set_target_time: None,
            set_target_angle: None,
        },
        RTEvent::TargetTimeReached => {
            let lifted: i64 = turn + BACKOFF_TURN_URAD;
            let wrapped: i64 = if lifted >= TWO_PI_URAD {
                lifted - TWO_PI_URAD
            } else {
                lifted
            };
            EventOutcome {
                speed: 0,
                turn: wrapped,
                drive: Some((0, wrapped)),
                set_target_time: None,
                set_target_angle: Some(wrapped),
            }
        },
        _ => EventOutcome {
            speed,
            turn,
            drive: None,
            set_target_time: None,
            set_target_angle: None,
        },
    }
}

/// What one network command decides.
#[derive(Clone, Copy, Debug, PartialEq, Eq)]
pub struct CommandOutcome {
    /// The new commanded speed, micro-units.
    pub speed: i64,
    /// Retarget the drive with these (power, turn) values, if set.
    pub drive: Option<(i64, i64)>,
    /// Push one sensor state to the network client.
    pub send_state: bool,
    /// The command is recognized but not implemented (logged only).
    pub unhandled: bool,
}

/// The reaction to one queued network command: a stop command zeroes the
/// effective target power and turn at once; a state request pushes one
/// snapshot; a move command is not implemented.
pub open spec fn command_outcome_spec(speed: i64, cmd: Command) -> CommandOutcome {
    match cmd {
        Command::StopNow => CommandOutcome {
            speed: 0,
            drive: Some((0, 0)),
            send_state: false,
            unhandled: false,
        },
        Command::GetSensorState => CommandOutcome {
            speed,
            drive: None,
            send_state: true,
            unhandled: false,
        },
        Command::Move { .. } => CommandOutcome {
            speed,
            drive: None,
            send_state: false,
            unhandled: true,
        },
    }
}

/// Decide one queued network command.
pub fn on_command(speed: i64, cmd: Command) -> (r: CommandOutcome)
    requires
        -UNIT <= speed <= UNIT,
    ensures
        r == command_outcome_spec(speed, cmd),
        -UNIT <= r.speed <= UNIT,
        r.drive matches Some(d) ==> d.0 == 0 && d.1 == 0,
{
    match cmd {
        Command::StopNow => CommandOutcome {
            speed: 0,
            drive: Some((0, 0)),
            send_state: false,
            unhandled: false,
        },
        Command::GetSensorState => CommandOutcome {
            speed,
            drive: None,
            send_state: true,
            unhandled: false,
        },
        Command::Move { .. } => CommandOutcome {
            speed,
            drive: None,
            send_state: false,
            unhandled: true,
        },
    }
}

/// A stop command idles the drive on the very next cycle: once both
/// targets are zero, the controller's command rendering is exactly the two
/// "off" commands for the drive PWM channels, whatever the rest of its
/// state holds.
pub proof fn lemma_stop_now_idles_next_cycle(pid: DrivePid)
    ensures
        (DrivePid { target_power: 0, target_udps: 0, ..pid }).pwm_commands_spec() =~= seq![
            RTCommand::SetPwmOff(MOT_LPWM),
            RTCommand::SetPwmOff(MOT_RPWM),
        ],
{
}

} // verus!
