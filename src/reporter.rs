use vstd::prelude::*;

use crate::event::{adjusted_time, corrected, is_reported, reported, InputEvent, TARGET_KEY};
use crate::line::{header_bytes, header_line, row_bytes, row_line};

verus! {

/// Where the reporter stands in its loop.
#[derive(Clone, Copy, Debug, PartialEq, Eq, Structural)]
pub enum Phase {
    /// The input seat has not been claimed yet.
    Starting,
    /// The event queue is drained; the next step is a dispatch.
    AwaitingDispatch,
    /// A dispatch succeeded; queued events are being read.
    Draining,
    /// The seat could not be claimed; the process ends.
    Aborted,
    /// A dispatch failed; the process ends with that error.
    Failed,
}

/// What the outside world reports back to the reporter.
#[derive(Clone, Copy, Debug, PartialEq, Eq, Structural)]
pub enum Signal {
    SeatAssigned,
    SeatFailed,
    Dispatched,
    DispatchFailed,
    Event(InputEvent),
    QueueEmpty,
}

/// What the reporter asks the outside world to do next.
#[derive(Clone, Copy, Debug, PartialEq, Eq, Structural)]
pub enum Command {
    AssignSeat,
    Dispatch,
    NextEvent,
    Abort,
    Fail,
}

/// The bytes to write, and then the command to carry out.
pub struct Reaction {
    pub output: Vec<u8>,
    pub command: Command,
}

/// The command that each phase waits on.
pub open spec fn command_of(p: Phase) -> Command {
    match p {
        Phase::Starting => Command::AssignSeat,
        Phase::AwaitingDispatch => Command::Dispatch,
        Phase::Draining => Command::NextEvent,
        Phase::Aborted => Command::Abort,
        Phase::Failed => Command::Fail,
    }
}

/// The phase after a signal. A signal that does not answer the phase's
/// command leaves the phase as it is; the two ending phases are never left.
pub open spec fn next_phase(p: Phase, s: Signal) -> Phase {
    match (p, s) {
        (Phase::Starting, Signal::SeatAssigned) => Phase::AwaitingDispatch,
        (Phase::Starting, Signal::SeatFailed) => Phase::Aborted,
        (Phase::AwaitingDispatch, Signal::Dispatched) => Phase::Draining,
        (Phase::AwaitingDispatch, Signal::DispatchFailed) => Phase::Failed,
        (Phase::Draining, Signal::QueueEmpty) => Phase::AwaitingDispatch,
        _ => p,
    }
}

/// The bytes that one event adds to the stream: a row of the key code and
/// the corrected time for a press of the monitored key, nothing otherwise.
pub open spec fn event_bytes(e: InputEvent) -> Seq<u8> {
    if reported(e) {
        row_bytes(TARGET_KEY as nat, corrected(e->time))
    } else {
        Seq::empty()
    }
}

/// The bytes written on a signal: the header once the seat is claimed, a row
/// for each reported event while draining, nothing else.
pub open spec fn output_of(p: Phase, s: Signal) -> Seq<u8> {
    match (p, s) {
        (Phase::Starting, Signal::SeatAssigned) => header_bytes(),
        (Phase::Draining, Signal::Event(e)) => event_bytes(e),
        _ => Seq::empty(),
    }
}

/// The phase after a whole sequence of signals.
pub open spec fn run_phase(p: Phase, ss: Seq<Signal>) -> Phase
    decreases ss.len(),
{
    if ss.len() == 0 {
        p
    } else {
        run_phase(next_phase(p, ss[0]), ss.drop_first())
    }
}

/// Everything written over a whole sequence of signals, in order.
pub open spec fn run_output(p: Phase, ss: Seq<Signal>) -> Seq<u8>
    decreases ss.len(),
{
    if ss.len() == 0 {
        Seq::empty()
    } else {
        output_of(p, ss[0]) + run_output(next_phase(p, ss[0]), ss.drop_first())
    }
}

/// The rows written for a sequence of events read in one drain, in order.
pub open spec fn report_of(es: Seq<InputEvent>) -> Seq<u8>
    decreases es.len(),
{
    if es.len() == 0 {
        Seq::empty()
    } else {
        event_bytes(es[0]) + report_of(es.drop_first())
    }
}

/// The decisions of the event loop: which bytes to write, and what to do next.
pub struct Reporter {
    phase: Phase,
}

impl View for Reporter {
    type V = Phase;

    closed spec fn view(&self) -> Phase {
        self.phase
    }
}

/// The output row for an event, if it is a press of the monitored key.
pub fn event_line(e: &InputEvent) -> (r: Vec<u8>)
    ensures
        r@ == event_bytes(*e),
{
    match e {
        InputEvent::Key { code: _, state: _, time } if is_reported(e) => {
            row_line(TARGET_KEY, adjusted_time(*time))
        },
        _ => {
            let r: Vec<u8> = Vec::new();
            assert(r@ =~= Seq::empty());
            r
        },
    }
}

impl Reporter {
    /// A reporter that has not claimed its seat yet.
    pub fn new() -> (r: Reporter)
        ensures
            r@ == Phase::Starting,
    {
        Reporter { phase: Phase::Starting }
    }

    /// The current phase.
    pub fn phase(&self) -> (r: Phase)
        ensures
            r == self@,
    {
        self.phase
    }

    /// The command that the current phase waits on.
    pub fn command(&self) -> (r: Command)
        ensures
            r == command_of(self@),
    {
        match self.phase {
            Phase::Starting => Command::AssignSeat,
            Phase::AwaitingDispatch => Command::Dispatch,
            Phase::Draining => Command::NextEvent,
            Phase::Aborted => Command::Abort,
            Phase::Failed => Command::Fail,
        }
    }

    /// Takes in one signal: moves to the next phase, and returns the bytes to
    /// write and the command of that phase.
    pub fn step(&mut self, s: Signal) -> (r: Reaction)
        ensures
            final(self)@ == next_phase(old(self)@, s),
            r.output@ == output_of(old(self)@, s),
            r.command == command_of(final(self)@),
    {
        let output = match (self.phase, s) {
            (Phase::Starting, Signal::SeatAssigned) => header_line(),
            (Phase::Draining, Signal::Event(e)) => event_line(&e),
            _ => Vec::new(),
        };
        self.phase = match (self.phase, s) {
            (Phase::Starting, Signal::SeatAssigned) => Phase::AwaitingDispatch,
            (Phase::Starting, Signal::SeatFailed) => Phase::Aborted,
            (Phase::AwaitingDispatch, Signal::Dispatched) => Phase::Draining,
            (Phase::AwaitingDispatch, Signal::DispatchFailed) => Phase::Failed,
            (Phase::Draining, Signal::QueueEmpty) => Phase::AwaitingDispatch,
            (p, _) => p,
        };
        assert(output@ =~= output_of(old(self)@, s));
        Reaction { output, command: self.command() }
    }
}

} // verus!
