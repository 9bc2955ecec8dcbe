use vstd::prelude::*;

use crate::event::{reported, KeyState, TARGET_KEY};
use crate::line::{header_bytes, lemma_decimal_nonempty};
use crate::event::InputEvent;
use crate::reporter::{
    event_bytes, next_phase, output_of, report_of, run_output, run_phase, Phase, Signal,
};

verus! {

/// Once the loop has ended, by an abort or a failure, no signal writes
/// anything more or leaves that phase.
pub proof fn ended_stays_silent(p: Phase, ss: Seq<Signal>)
    requires
        p == Phase::Aborted || p == Phase::Failed,
    ensures
        run_output(p, ss) == Seq::<u8>::empty(),
        run_phase(p, ss) == p,
    decreases ss.len(),
{
    if ss.len() > 0 {
        ended_stays_silent(p, ss.drop_first());
        assert(run_output(p, ss) =~= Seq::<u8>::empty());
    }
}

/// Running two sequences of signals one after the other writes what the
/// first writes followed by what the second writes from where the first ended:
/// nothing is reordered or held back across dispatch cycles.
pub proof fn run_concatenates(p: Phase, s1: Seq<Signal>, s2: Seq<Signal>)
    ensures
        run_output(p, s1 + s2) == run_output(p, s1) + run_output(run_phase(p, s1), s2),
        run_phase(p, s1 + s2) == run_phase(run_phase(p, s1), s2),
    decreases s1.len(),
{
    if s1.len() == 0 {
        assert(s1 + s2 =~= s2);
        assert(run_output(p, s1) + run_output(p, s2) =~= run_output(p, s2));
    } else {
        let q = next_phase(p, s1[0]);
        run_concatenates(q, s1.drop_first(), s2);
        assert((s1 + s2).drop_first() =~= s1.drop_first() + s2);
        assert((s1 + s2)[0] == s1[0]);
        assert(run_output(p, s1 + s2) =~= output_of(p, s1[0]) + (run_output(q, s1.drop_first())
            + run_output(run_phase(q, s1.drop_first()), s2)));
        assert(run_output(p, s1 + s2) =~= run_output(p, s1) + run_output(run_phase(p, s1), s2));
    }
}

/// Whatever signals come, the output is either empty or begins with the
/// header line `code,time`.
pub proof fn header_comes_first(ss: Seq<Signal>)
    ensures
        run_output(Phase::Starting, ss).len() == 0 || run_output(Phase::Starting, ss).take(
            header_bytes().len() as int,
        ) == header_bytes(),
    decreases ss.len(),
{
    if ss.len() > 0 {
        let rest = ss.drop_first();
        let q = next_phase(Phase::Starting, ss[0]);
        if ss[0] == Signal::SeatAssigned {
            assert((header_bytes() + run_output(q, rest)).take(header_bytes().len() as int)
                =~= header_bytes());
        } else if ss[0] == Signal::SeatFailed {
            ended_stays_silent(Phase::Aborted, rest);
            assert(run_output(Phase::Starting, ss) =~= Seq::<u8>::empty());
        } else {
            header_comes_first(rest);
            assert(run_output(Phase::Starting, ss) =~= run_output(Phase::Starting, rest));
        }
    }
}

/// An event writes something exactly when it is read while draining and is
/// a press of the monitored key: other keys, releases and other kinds of
/// event write nothing.
pub proof fn only_target_presses_write(p: Phase, e: InputEvent)
    ensures
        output_of(p, Signal::Event(e)).len() > 0 <==> (p == Phase::Draining && reported(e)),
        reported(e) <==> (e matches InputEvent::Key { code, state, time: _ }
            && code == TARGET_KEY && state == KeyState::Pressed),
{
    if p == Phase::Draining && reported(e) {
        lemma_decimal_nonempty(TARGET_KEY as nat);
    }
}

/// The events read in one drain write exactly the rows of the presses of the
/// monitored key among them, in the order they were read; the drain goes on.
pub proof fn drain_writes_report(es: Seq<InputEvent>)
    ensures
        run_output(Phase::Draining, es.map_values(|e: InputEvent| Signal::Event(e))) == report_of(es),
        run_phase(Phase::Draining, es.map_values(|e: InputEvent| Signal::Event(e))) == Phase::Draining,
    decreases es.len(),
{
    let ss = es.map_values(|e: InputEvent| Signal::Event(e));
    if es.len() > 0 {
        drain_writes_report(es.drop_first());
        assert(ss.drop_first() =~= es.drop_first().map_values(|e: InputEvent| Signal::Event(e)));
        assert(ss[0] == Signal::Event(es[0]));
    }
}

/// A failure to claim the seat ends the loop before anything is written,
/// the header included, whatever signals follow.
pub proof fn seat_failure_ends_silently(after: Seq<Signal>)
    ensures
        run_output(Phase::Starting, seq![Signal::SeatFailed] + after) == Seq::<u8>::empty(),
        run_phase(Phase::Starting, seq![Signal::SeatFailed] + after) == Phase::Aborted,
{
    let ss = seq![Signal::SeatFailed] + after;
    assert(ss[0] == Signal::SeatFailed);
    assert(ss.drop_first() =~= after);
    ended_stays_silent(Phase::Aborted, after);
    assert(run_output(Phase::Starting, ss) =~= Seq::<u8>::empty());
}

/// A dispatch failure ends the loop: after it nothing more is written and the
/// phase stays failed, whatever signals follow.
pub proof fn dispatch_failure_ends(p: Phase, before: Seq<Signal>, after: Seq<Signal>)
    requires
        run_phase(p, before) == Phase::AwaitingDispatch,
    ensures
        run_output(p, before + seq![Signal::DispatchFailed] + after) == run_output(p, before),
        run_phase(p, before + seq![Signal::DispatchFailed] + after) == Phase::Failed,
{
    let tail = seq![Signal::DispatchFailed] + after;
    assert(before + seq![Signal::DispatchFailed] + after =~= before + tail);
    run_concatenates(p, before, tail);
    assert(tail[0] == Signal::DispatchFailed);
    assert(tail.drop_first() =~= after);
    ended_stays_silent(Phase::Failed, after);
    assert(run_output(Phase::AwaitingDispatch, tail) =~= Seq::<u8>::empty());
    assert(run_output(p, before) + Seq::<u8>::empty() =~= run_output(p, before));
}

} // verus!
