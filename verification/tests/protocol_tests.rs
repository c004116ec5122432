//! Tests of the line protocol, the command queue, the supervisor
//! decisions and the two-phase control update.

use tank_core::control::ControlCore;
use tank_core::messages::Command;
use tank_core::messages::EndCondition;
use tank_core::messages::Response;
use tank_core::protocol::fold_line;
use tank_core::protocol::handle_line;
use tank_core::protocol::help_text;
use tank_core::protocol::TcpInterfaceState;
use tank_core::real_time::DeviceError;
use tank_core::real_time::RTCommand;
use tank_core::real_time::RTResponse;
use tank_core::real_time::RawSensorState;
use tank_core::real_time::Vec3;
use tank_core::sensor_processing::RTEvent;
use tank_core::supervisor::on_command;
use tank_core::supervisor::on_event;
use tank_core::supervisor::on_key;
use tank_core::supervisor::CommandQueue;

fn line(s: &str) -> Vec<u8> {
    s.as_bytes().to_vec()
}

#[test]
fn sensornow_yields_exactly_one_state_push() {
    // one "sensornow" line queues exactly one state request, which
    // the control loop answers with exactly one SensorState response,
    // after the Ok acknowledgment.
    let outcome = handle_line(&line("sensornow\n"));
    assert_eq!(outcome.responses, vec![Response::CommandOk]);
    assert_eq!(outcome.command, Some(Command::GetSensorState));
    assert!(outcome.human_readable.is_none());
    assert!(outcome.auto_send.is_none());

    let mut queue = CommandQueue::new();
    let next = queue.next_command(vec![outcome.command.unwrap()]);
    assert_eq!(next, Some(Command::GetSensorState));

    let mut handle = ControlCore::new(0);
    let decision = on_command(0, next.unwrap());
    assert!(decision.send_state);
    let mut pushes: Vec<Response> = Vec::new();
    if decision.send_state {
        pushes.push(Response::SensorState(handle.sensor_state().clone()));
    }
    assert_eq!(pushes.len(), 1);
    assert!(matches!(pushes[0], Response::SensorState(_)));
    // Nothing further is queued: the next poll is empty.
    assert_eq!(queue.next_command(vec![]), None);
}

#[test]
fn stopnow_zeroes_targets_and_clears_queue() {
    // stopnow takes priority over every queued motion command, clears
    // the queue of them, and zeroes the effective targets for the very
    // next cycle.
    let motion = Command::Move {
        speed: 500_000,
        target_yaw: None,
        end: Some(EndCondition::AngleReached),
    };
    let mut queue = CommandQueue::new();
    assert_eq!(queue.next_command(vec![motion]), Some(motion));
    // Queue more motion, then a stop in the same batch.
    let next = queue.next_command(vec![motion, motion, Command::StopNow]);
    assert_eq!(next, Some(Command::StopNow));
    // Every queued non-stop command is gone.
    assert_eq!(queue.next_command(vec![]), None);

    let mut handle = ControlCore::new(0);
    handle.set_drive(750_000, 900_000);
    let decision = on_command(750_000, Command::StopNow);
    assert_eq!(decision.speed, 0);
    assert_eq!(decision.drive, Some((0, 0)));
    if let Some((power, turn)) = decision.drive {
        handle.set_drive(power, turn);
    }
    // The very next command rendering is the idle fast path.
    let (_events, _states, commands) = handle.update(false, vec![]);
    assert_eq!(
        commands,
        vec![RTCommand::SetPwmOff(15), RTCommand::SetPwmOff(10)]
    );
}

#[test]
fn help_is_acknowledged_with_the_command_list() {
    let outcome = handle_line(&line("help\n"));
    assert_eq!(outcome.responses.len(), 2);
    assert_eq!(outcome.responses[0], Response::CommandOk);
    assert_eq!(outcome.responses[1], Response::UserMsg(help_text()));
    assert!(outcome.command.is_none());
}

#[test]
fn commands_are_case_insensitive_and_trimmed() {
    let outcome = handle_line(&line("  StopNow \r\n"));
    assert_eq!(outcome.responses, vec![Response::CommandOk]);
    assert_eq!(outcome.command, Some(Command::StopNow));

    let outcome = handle_line(&line("HUMANREADABLE TRUE\n"));
    assert_eq!(outcome.responses, vec![Response::CommandOk]);
    assert_eq!(outcome.human_readable, Some(true));
}

#[test]
fn flag_commands_set_their_flag() {
    let outcome = handle_line(&line("humanreadable false\n"));
    assert_eq!(outcome.human_readable, Some(false));
    assert!(outcome.auto_send.is_none());

    let outcome = handle_line(&line("autosensor true\n"));
    assert_eq!(outcome.auto_send, Some(true));
    assert!(outcome.human_readable.is_none());

    let outcome = handle_line(&line("autosensor false\n"));
    assert_eq!(outcome.auto_send, Some(false));
}

#[test]
fn bad_flag_argument_is_rejected_with_bool_complaint() {
    let outcome = handle_line(&line("humanreadable maybe\n"));
    assert_eq!(outcome.responses.len(), 2);
    assert_eq!(
        outcome.responses[0],
        Response::BadCommand(line("humanreadable maybe"))
    );
    assert_eq!(
        outcome.responses[1],
        Response::UserMsg(line("Argument should be 'true' or 'false'"))
    );
    assert!(outcome.human_readable.is_none());

    // A missing argument is rejected the same way.
    let outcome = handle_line(&line("autosensor\n"));
    assert_eq!(outcome.responses[0], Response::BadCommand(line("autosensor")));
}

#[test]
fn unknown_lines_echo_the_folded_text_with_help() {
    let outcome = handle_line(&line("Fire The Laser!\n"));
    assert_eq!(outcome.responses.len(), 2);
    assert_eq!(
        outcome.responses[0],
        Response::BadCommand(line("fire the laser!"))
    );
    assert_eq!(outcome.responses[1], Response::UserMsg(help_text()));

    let outcome = handle_line(&line("\n"));
    assert_eq!(outcome.responses[0], Response::BadCommand(line("")));
}

#[test]
fn fold_line_trims_and_lowercases() {
    assert_eq!(fold_line(&line("  Hello World \r\n")), line("hello world"));
    assert_eq!(fold_line(&line("\t \r\n")), line(""));
}

#[test]
fn queue_without_stop_is_fifo() {
    let mut queue = CommandQueue::new();
    let a = Command::GetSensorState;
    let b = Command::Move { speed: 1, target_yaw: Some(2), end: None };
    assert_eq!(queue.next_command(vec![a, b]), Some(a));
    assert_eq!(queue.next_command(vec![]), Some(b));
    assert_eq!(queue.next_command(vec![]), None);
}

#[test]
fn stop_keeps_what_arrived_after_it() {
    let mut queue = CommandQueue::new();
    let after = Command::GetSensorState;
    let next = queue.next_command(vec![Command::StopNow, after]);
    assert_eq!(next, Some(Command::StopNow));
    assert_eq!(queue.next_command(vec![]), Some(after));
}

#[test]
fn default_flags_are_human_readable_without_auto_send() {
    let flags = TcpInterfaceState::default();
    assert!(flags.human_readable);
    assert!(!flags.auto_send_state);
}

#[test]
fn control_update_commands_reflect_the_whole_batch() {
    // Two-phase contract: the commands reflect the state after the whole
    // batch, and each good sample publishes one snapshot.
    let mut handle = ControlCore::new(0);
    handle.set_drive(500_000, 0);
    let sample = RawSensorState {
        time_us: 16_666,
        gyro: Vec3 { x: 0, y: 0, z: 0 },
        accel: Vec3 { x: 0, y: 0, z: 0 },
        mag: Vec3 { x: 0, y: 0, z: 0 },
        orientation: Vec3 { x: 0, y: 0, z: 0 },
        temp: 0,
    };
    let batch = vec![
        RTResponse::I2C(Ok(sample)),
        RTResponse::Sonar(80_000_000, 16_700),
    ];
    let (events, states, commands) = handle.update(true, batch);
    assert!(events.is_empty());
    assert_eq!(states.len(), 1);
    assert_eq!(states[0].speed(), 500_000);
    assert_eq!(handle.sensor_state().sonar(), 40_000_000);
    // Zero error with gains (2, 1, 0): output is exactly the bias, and
    // the commands come from the post-batch state.
    assert_eq!(commands.len(), 6);
    assert_eq!(commands[2], RTCommand::SetPwm { pwm: 15, on: 0, off: 2043 });
}

#[test]
fn device_faults_surface_as_events() {
    let mut handle = ControlCore::new(0);
    let batch = vec![RTResponse::I2C(Err(DeviceError {
        detail: String::from("bus timeout"),
    }))];
    let (events, states, _commands) = handle.update(true, batch);
    assert_eq!(events.len(), 1);
    assert!(matches!(&events[0], RTEvent::SensorError(e) if e.detail == "bus timeout"));
    assert!(states.is_empty());
}

#[test]
fn proximity_event_backs_off_when_moving_forward() {
    let e = on_event(500_000, 100_000, &RTEvent::SonarProximity, 1_000_000);
    assert_eq!(e.speed, -500_000);
    assert_eq!(e.drive, Some((-500_000, 100_000)));
    assert_eq!(e.set_target_time, Some(1_500_000));
    // Standing still: the proximity event changes nothing.
    let e = on_event(0, 100_000, &RTEvent::SonarProximity, 1_000_000);
    assert_eq!(e.speed, 0);
    assert!(e.drive.is_none());
}

#[test]
fn time_reached_turns_and_arms_the_heading() {
    let e = on_event(-500_000, 6_000_000, &RTEvent::TargetTimeReached, 0);
    assert_eq!(e.speed, 0);
    // 6.0 rad + 0.959931 rad wraps past 2 pi.
    assert_eq!(e.turn, 6_000_000 + 959_931 - 6_283_185);
    assert_eq!(e.set_target_angle, Some(e.turn));
    assert_eq!(e.drive, Some((0, e.turn)));
}

#[test]
fn angle_reached_resumes_forward() {
    let e = on_event(0, 1_000_000, &RTEvent::TargetAngleReached, 0);
    assert_eq!(e.speed, 500_000);
    assert_eq!(e.drive, Some((500_000, 1_000_000)));
    assert!(e.set_target_angle.is_none());
}

#[test]
fn keys_step_speed_and_turn() {
    let k = on_key(900_000, 0, 'w');
    assert_eq!(k.speed, 1_000_000); // clamped at full power
    assert_eq!(k.drive, Some((1_000_000, 0)));

    let k = on_key(-900_000, 0, 's');
    assert_eq!(k.speed, -1_000_000);

    // Stepping the turn up retargets before the wrap is applied.
    let k = on_key(0, 6_000_000, 'd');
    assert_eq!(k.drive, Some((0, 6_785_398)));
    assert_eq!(k.turn, 6_785_398 - 6_283_185);

    let k = on_key(0, 100_000, 'a');
    assert_eq!(k.turn, 100_000 - 785_398 + 6_283_185);
    assert_eq!(k.drive, Some((0, k.turn)));

    let k = on_key(500_000, 1_000_000, 'z');
    assert!(k.stop);
    assert_eq!(k.speed, 0);
    assert_eq!(k.turn, 0);

    let k = on_key(500_000, 1_000_000, 'x');
    assert!(k.quit);

    let k = on_key(500_000, 1_000_000, 'q');
    assert!(!k.quit && !k.stop && k.drive.is_none());
}
