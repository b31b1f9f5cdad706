//! What holds of every watchdog, proved over the model.

use vstd::prelude::*;
use crate::error::Error;
use crate::machine::{Action, Event, Model, State, Timed};
use crate::signal::{Expired, Signal};
use crate::trace::{lemma_exit_is_final, lemma_extend, lemma_split, notices, replay};

verus! {

/// Whether the entry is a keep-alive.
pub open spec fn is_reset(entry: Timed) -> bool {
    entry.event == Event::Signal(Signal::Reset)
}

/// Whether the entry is a wake-up by the timer.
pub open spec fn is_wakeup(entry: Timed) -> bool {
    entry.event == Event::Elapsed
}

/// The tick of the latest reset in `trace`, or `since` where it holds none.
pub open spec fn last_reset(since: nat, trace: Seq<Timed>) -> nat
    decreases trace.len(),
{
    if trace.len() == 0 {
        since
    } else if is_reset(trace.last()) {
        trace.last().at as nat
    } else {
        last_reset(since, trace.drop_last())
    }
}

/// The events are handled in the order of their ticks, none before `since`.
pub open spec fn in_time_order(since: nat, trace: Seq<Timed>) -> bool {
    &&& forall|i: int| 0 <= i < trace.len() ==> since <= (#[trigger] trace[i]).at
    &&& forall|i: int, j: int|
        0 <= i <= j < trace.len() ==> (#[trigger] trace[i]).at <= (#[trigger] trace[j]).at
}

/// The trace holds keep-alives and wake-ups only.
pub open spec fn resets_and_wakeups(trace: Seq<Timed>) -> bool {
    forall|i: int| 0 <= i < trace.len() ==> is_reset(#[trigger] trace[i]) || is_wakeup(trace[i])
}

/// Each reset comes strictly less than `timeout` after the reset before it,
/// the first one after `since`.
pub open spec fn resets_spaced(timeout: nat, since: nat, trace: Seq<Timed>) -> bool {
    forall|i: int|
        0 <= i < trace.len() && is_reset(#[trigger] trace[i]) ==> trace[i].at < last_reset(
            since,
            trace.take(i),
        ) + timeout
}

/// The trace holds no keep-alive.
pub open spec fn without_reset(trace: Seq<Timed>) -> bool {
    forall|i: int| 0 <= i < trace.len() ==> !is_reset(#[trigger] trace[i])
}

/// The trace holds suspensions and wake-ups only.
pub open spec fn stops_and_wakeups(trace: Seq<Timed>) -> bool {
    forall|i: int|
        0 <= i < trace.len() ==> (#[trigger] trace[i]).event == Event::Signal(Signal::Stop)
            || is_wakeup(trace[i])
}

proof fn lemma_last_reset_unchanged(since: nat, trace: Seq<Timed>, i: int, j: int)
    requires
        0 <= i <= j <= trace.len(),
        forall|k: int| i <= k < j ==> !is_reset(#[trigger] trace[k]),
    ensures
        last_reset(since, trace.take(j)) == last_reset(since, trace.take(i)),
    decreases j - i,
{
    if i < j {
        lemma_last_reset_unchanged(since, trace, i, j - 1);
        assert(trace.take(j).drop_last() =~= trace.take(j - 1));
        assert(trace.take(j).last() == trace[j - 1]);
    }
}

proof fn lemma_wakeup_before_reset_is_early(
    timeout: nat,
    since: nat,
    trace: Seq<Timed>,
    i: int,
    j: int,
)
    requires
        in_time_order(since, trace),
        resets_spaced(timeout, since, trace),
        0 <= i < j < trace.len(),
        !is_reset(trace[i]),
        is_reset(trace[j]),
    ensures
        trace[i].at < last_reset(since, trace.take(i)) + timeout,
    decreases j - i,
{
    if exists|k: int| i < k < j && is_reset(trace[k]) {
        let k = choose|k: int| i < k < j && is_reset(trace[k]);
        lemma_wakeup_before_reset_is_early(timeout, since, trace, i, k);
    } else {
        lemma_last_reset_unchanged(since, trace, i, j);
        assert(trace[i].at <= trace[j].at);
    }
}

proof fn lemma_alive_while_wakeups_early(timeout: nat, since: nat, trace: Seq<Timed>, n: int)
    requires
        resets_and_wakeups(trace),
        0 <= n <= trace.len(),
        forall|i: int|
            0 <= i < n && is_wakeup(#[trigger] trace[i]) ==> trace[i].at < last_reset(
                since,
                trace.take(i),
            ) + timeout,
    ensures
        notices(Model::start(timeout, since), trace.take(n)) == 0,
        replay(Model::start(timeout, since), trace.take(n)) == (Model {
            state: State::Armed,
            timeout,
            armed_at: last_reset(since, trace.take(n)),
        }),
    decreases n,
{
    if n > 0 {
        lemma_alive_while_wakeups_early(timeout, since, trace, n - 1);
        lemma_extend(Model::start(timeout, since), trace, n - 1);
        assert(is_reset(trace[n - 1]) || is_wakeup(trace[n - 1]));
    }
}

proof fn lemma_notice_ends_loop(m: Model, trace: Seq<Timed>)
    ensures
        notices(m, trace) <= 1,
        notices(m, trace) == 1 ==> replay(m, trace).state == State::Terminated,
    decreases trace.len(),
{
    if trace.len() > 0 {
        lemma_notice_ends_loop(m, trace.drop_last());
    }
}

/// Liveness extension. Spawn a watchdog at `since` and let it handle
/// keep-alives and wake-ups in time order, each keep-alive strictly less than
/// the timeout after the one before. At every event handled earlier than the
/// timeout after the last keep-alive of the whole trace, the watchdog has not
/// fired: it is armed, and its countdown started at the latest keep-alive so
/// far.
pub proof fn law_resets_extend_liveness(timeout: nat, since: nat, trace: Seq<Timed>, n: int)
    requires
        in_time_order(since, trace),
        resets_and_wakeups(trace),
        resets_spaced(timeout, since, trace),
        0 <= n <= trace.len(),
        n > 0 ==> trace[n - 1].at < last_reset(since, trace) + timeout,
    ensures
        notices(Model::start(timeout, since), trace.take(n)) == 0,
        replay(Model::start(timeout, since), trace.take(n)) == (Model {
            state: State::Armed,
            timeout,
            armed_at: last_reset(since, trace.take(n)),
        }),
{
    let len = trace.len() as int;
    assert forall|i: int| 0 <= i < n && is_wakeup(#[trigger] trace[i]) implies trace[i].at
        < last_reset(since, trace.take(i)) + timeout by {
        if exists|j: int| i < j < len && is_reset(trace[j]) {
            let j = choose|j: int| i < j < len && is_reset(trace[j]);
            lemma_wakeup_before_reset_is_early(timeout, since, trace, i, j);
        } else {
            lemma_last_reset_unchanged(since, trace, i, len);
            assert(trace.take(len) =~= trace);
            assert(trace[i].at <= trace[n - 1].at);
        }
    }
    lemma_alive_while_wakeups_early(timeout, since, trace, n);
}

/// Expiry after the last keep-alive. After a trace as in the law of liveness
/// extension, all of it handled earlier than the timeout after its last
/// keep-alive, a wake-up makes the watchdog fire if and only if it comes at
/// least the timeout after that keep-alive.
pub proof fn law_expires_after_last_reset(timeout: nat, since: nat, trace: Seq<Timed>, wake: nat)
    requires
        in_time_order(since, trace),
        resets_and_wakeups(trace),
        resets_spaced(timeout, since, trace),
        trace.len() > 0 ==> trace.last().at < last_reset(since, trace) + timeout,
    ensures
        replay(Model::start(timeout, since), trace).react(Event::Elapsed, wake) == Ok::<
            Action,
            Error,
        >(
            if wake >= last_reset(since, trace) + timeout {
                Action::Expire(Expired)
            } else {
                Action::Continue
            },
        ),
{
    law_resets_extend_liveness(timeout, since, trace, trace.len() as int);
    assert(trace.take(trace.len() as int) =~= trace);
}

/// Exactly-once expiry. Whatever a watchdog is offered, and in whatever state
/// it starts, it produces at most one expiration notice, and once it has
/// produced one its loop has exited.
pub proof fn law_at_most_one_notice(m: Model, trace: Seq<Timed>)
    ensures
        notices(m, trace) <= 1,
        notices(m, trace) == 1 ==> replay(m, trace).state == State::Terminated,
{
    lemma_notice_ends_loop(m, trace);
}

/// Suspension. A suspended watchdog that is offered no keep-alive never
/// fires, at whatever ticks the timer wakes it.
pub proof fn law_suspended_never_fires(m: Model, trace: Seq<Timed>)
    requires
        m.state == State::Suspended,
        without_reset(trace),
    ensures
        notices(m, trace) == 0,
        replay(m, trace).state != State::Armed,
    decreases trace.len(),
{
    if trace.len() > 0 {
        let shorter = trace.drop_last();
        assert forall|i: int| 0 <= i < shorter.len() implies !is_reset(#[trigger] shorter[i]) by {
            assert(shorter[i] == trace[i]);
        }
        law_suspended_never_fires(m, shorter);
        assert(!is_reset(trace[trace.len() - 1]));
    }
}

/// Resumption. Stop a running watchdog, let it idle over suspensions and
/// wake-ups at any ticks, and reset it at `resumed_at`: it is armed again and
/// counts down the full timeout from `resumed_at`, not the remainder of an
/// earlier countdown.
pub proof fn law_reset_grants_full_window(
    m: Model,
    stopped_at: nat,
    idle: Seq<Timed>,
    resumed_at: nat,
    wake: nat,
)
    requires
        m.state != State::Terminated,
        stops_and_wakeups(idle),
    ensures
        ({
            let suspended = m.next(Event::Signal(Signal::Stop), stopped_at);
            let resumed = replay(suspended, idle).next(Event::Signal(Signal::Reset), resumed_at);
            &&& notices(suspended, idle) == 0
            &&& resumed == (Model { state: State::Armed, timeout: m.timeout, armed_at: resumed_at })
            &&& resumed.due(wake) <==> wake >= resumed_at + m.timeout
        }),
{
    let suspended = m.next(Event::Signal(Signal::Stop), stopped_at);
    lemma_idle_stays_suspended(suspended, idle);
}

proof fn lemma_idle_stays_suspended(m: Model, idle: Seq<Timed>)
    requires
        m.state == State::Suspended,
        stops_and_wakeups(idle),
    ensures
        notices(m, idle) == 0,
        replay(m, idle) == m,
    decreases idle.len(),
{
    if idle.len() > 0 {
        let shorter = idle.drop_last();
        assert forall|i: int| 0 <= i < shorter.len() implies (#[trigger] shorter[i]).event
            == Event::Signal(Signal::Stop) || is_wakeup(shorter[i]) by {
            assert(shorter[i] == idle[i]);
        }
        lemma_idle_stays_suspended(m, shorter);
        let end = idle[idle.len() - 1];
        assert(end.event == Event::Signal(Signal::Stop) || is_wakeup(end));
    }
}

/// Post-expiry rejection. Once a watchdog has fired, every further signal is
/// refused as inactive and changes nothing.
pub proof fn law_expired_rejects_signals(m: Model, trace: Seq<Timed>, signal: Signal, now: nat)
    requires
        notices(m, trace) > 0,
    ensures
        replay(m, trace).react(Event::Signal(signal), now) == Err::<Action, Error>(Error::Inactive),
        replay(m, trace).next(Event::Signal(signal), now) == replay(m, trace),
{
    lemma_notice_ends_loop(m, trace);
}

/// Graceful shutdown. Where the inbox is closed before the watchdog has
/// fired, the loop exits at that point and never produces a notice, whatever
/// comes before or after.
pub proof fn law_graceful_shutdown(
    m: Model,
    before: Seq<Timed>,
    closed: Timed,
    after: Seq<Timed>,
)
    requires
        closed.event == Event::Closed,
        notices(m, before) == 0,
    ensures
        replay(m, before.push(closed)).state == State::Terminated,
        replay(m, before.push(closed) + after) == replay(m, before.push(closed)),
        notices(m, before.push(closed) + after) == 0,
{
    let upto = before.push(closed);
    let whole = upto + after;
    assert(upto.drop_last() =~= before);
    assert(upto.last() == closed);
    lemma_split(m, whole, upto.len() as int);
    assert(whole.take(upto.len() as int) =~= upto);
    assert(whole.skip(upto.len() as int) =~= after);
    lemma_exit_is_final(replay(m, upto), after);
}

} // verus!
