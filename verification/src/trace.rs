//! What the event loop makes of a whole sequence of events.
//!
//! A trace lists the events in the order in which the loop handles them, each
//! with the tick at which it is handled. The functions here fold the model
//! over a trace from the left.

use vstd::prelude::*;
use crate::error::Error;
use crate::machine::{Action, Model, State, Timed};
use crate::signal::Expired;

verus! {

/// The loop after it was offered every event of `trace` in turn.
pub open spec fn replay(m: Model, trace: Seq<Timed>) -> Model
    decreases trace.len(),
{
    if trace.len() == 0 {
        m
    } else {
        replay(m, trace.drop_last()).next(trace.last().event, trace.last().at as nat)
    }
}

/// Whether the last event of a non-empty `trace` makes the watchdog fire.
pub open spec fn fires_at_end(m: Model, trace: Seq<Timed>) -> bool {
    replay(m, trace.drop_last()).react(trace.last().event, trace.last().at as nat)
        == Ok::<Action, Error>(Action::Expire(Expired))
}

/// How many expiration notices the loop produces over `trace`.
pub open spec fn notices(m: Model, trace: Seq<Timed>) -> nat
    decreases trace.len(),
{
    if trace.len() == 0 {
        0
    } else if fires_at_end(m, trace) {
        notices(m, trace.drop_last()) + 1
    } else {
        notices(m, trace.drop_last())
    }
}

/// How many events of `trace` the loop consumes: those that it is offered
/// before it has exited.
pub open spec fn consumed(m: Model, trace: Seq<Timed>) -> nat
    decreases trace.len(),
{
    if trace.len() == 0 {
        0
    } else if replay(m, trace.drop_last()).state != State::Terminated {
        consumed(m, trace.drop_last()) + 1
    } else {
        consumed(m, trace.drop_last())
    }
}

/// One more event extends each fold by one step of the model.
pub proof fn lemma_extend(m: Model, trace: Seq<Timed>, i: int)
    requires
        0 <= i < trace.len(),
    ensures
        trace.take(i + 1).drop_last() == trace.take(i),
        trace.take(i + 1).last() == trace[i],
        replay(m, trace.take(i + 1)) == replay(m, trace.take(i)).next(
            trace[i].event,
            trace[i].at as nat,
        ),
{
    assert(trace.take(i + 1).drop_last() =~= trace.take(i));
}

/// A loop that has exited stays as it is, whatever it is offered.
pub proof fn lemma_exit_is_final(m: Model, trace: Seq<Timed>)
    requires
        m.state == State::Terminated,
    ensures
        replay(m, trace) == m,
        notices(m, trace) == 0,
        consumed(m, trace) == 0,
    decreases trace.len(),
{
    if trace.len() > 0 {
        lemma_exit_is_final(m, trace.drop_last());
    }
}

/// Folding over a trace is folding over a prefix and then over the rest.
pub proof fn lemma_split(m: Model, trace: Seq<Timed>, i: int)
    requires
        0 <= i <= trace.len(),
    ensures
        replay(m, trace) == replay(replay(m, trace.take(i)), trace.skip(i)),
        notices(m, trace) == notices(m, trace.take(i)) + notices(
            replay(m, trace.take(i)),
            trace.skip(i),
        ),
        consumed(m, trace) == consumed(m, trace.take(i)) + consumed(
            replay(m, trace.take(i)),
            trace.skip(i),
        ),
    decreases trace.len(),
{
    if i == trace.len() {
        assert(trace.take(i) =~= trace);
        assert(trace.skip(i).len() == 0);
    } else {
        let shorter = trace.drop_last();
        lemma_split(m, shorter, i);
        assert(shorter.take(i) =~= trace.take(i));
        assert(shorter.skip(i) =~= trace.skip(i).drop_last());
        assert(trace.skip(i).last() == trace.last());
    }
}

} // verus!
