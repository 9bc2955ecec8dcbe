use input_logger::{Command, InputEvent, KeyState, Phase, Reporter, Signal};

fn press(code: u32, time: u32) -> Signal {
    Signal::Event(InputEvent::Key { code, state: KeyState::Pressed, time })
}

fn release(code: u32, time: u32) -> Signal {
    Signal::Event(InputEvent::Key { code, state: KeyState::Released, time })
}

/// Feeds the signals in order and returns all bytes written and the last command.
fn run(signals: &[Signal]) -> (String, Command, Reporter) {
    let mut r = Reporter::new();
    let mut out = Vec::new();
    let mut command = r.command();
    for s in signals {
        let reaction = r.step(*s);
        out.extend_from_slice(&reaction.output);
        command = reaction.command;
    }
    (String::from_utf8(out).unwrap(), command, r)
}

#[test]
fn new_reporter_asks_for_the_seat() {
    let r = Reporter::new();
    assert_eq!(r.phase(), Phase::Starting);
    assert_eq!(r.command(), Command::AssignSeat);
}

#[test]
fn header_alone_without_events() {
    let (out, command, _) = run(&[Signal::SeatAssigned]);
    assert_eq!(out, "code,time\n");
    assert_eq!(command, Command::Dispatch);
}

#[test]
fn header_first_then_rows() {
    let (out, command, r) = run(&[
        Signal::SeatAssigned,
        Signal::Dispatched,
        press(57, 10),
        Signal::QueueEmpty,
    ]);
    assert_eq!(out, "code,time\n57,8\n");
    assert_eq!(command, Command::Dispatch);
    assert_eq!(r.phase(), Phase::AwaitingDispatch);
}

#[test]
fn mixed_events_are_filtered() {
    let (out, _, _) = run(&[
        Signal::SeatAssigned,
        Signal::Dispatched,
        press(57, 100),
        release(57, 120),
        press(30, 130),
        Signal::Event(InputEvent::Other),
        release(30, 140),
        press(57, 2),
        press(57, 0),
        Signal::QueueEmpty,
    ]);
    assert_eq!(out, "code,time\n57,98\n57,0\n57,0\n");
}

#[test]
fn order_kept_across_dispatch_cycles() {
    let (out, _, _) = run(&[
        Signal::SeatAssigned,
        Signal::Dispatched,
        press(57, 50),
        press(57, 40),
        Signal::QueueEmpty,
        Signal::Dispatched,
        Signal::QueueEmpty,
        Signal::Dispatched,
        press(57, 30),
        Signal::QueueEmpty,
    ]);
    assert_eq!(out, "code,time\n57,48\n57,38\n57,28\n");
}

#[test]
fn seat_failure_aborts_before_header() {
    let (out, command, r) = run(&[Signal::SeatFailed, Signal::Dispatched, press(57, 10)]);
    assert_eq!(out, "");
    assert_eq!(command, Command::Abort);
    assert_eq!(r.phase(), Phase::Aborted);
}

#[test]
fn dispatch_error_mid_loop_stops_output() {
    let (out, command, r) = run(&[
        Signal::SeatAssigned,
        Signal::Dispatched,
        press(57, 10),
        Signal::QueueEmpty,
        Signal::DispatchFailed,
        Signal::Dispatched,
        press(57, 20),
        Signal::QueueEmpty,
    ]);
    assert_eq!(out, "code,time\n57,8\n");
    assert_eq!(command, Command::Fail);
    assert_eq!(r.phase(), Phase::Failed);
}

#[test]
fn dispatch_error_gives_one_fail_command() {
    let mut r = Reporter::new();
    assert_eq!(r.step(Signal::SeatAssigned).command, Command::Dispatch);
    let reaction = r.step(Signal::DispatchFailed);
    assert!(reaction.output.is_empty());
    assert_eq!(reaction.command, Command::Fail);
}

#[test]
fn events_outside_a_drain_write_nothing() {
    let (out, command, _) = run(&[press(57, 10), Signal::SeatAssigned, press(57, 10)]);
    assert_eq!(out, "code,time\n");
    assert_eq!(command, Command::Dispatch);
}
