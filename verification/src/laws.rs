use vstd::prelude::*;

use crate::guard::{
    fresh_guard, guard_wf, spec_after_failure, spec_pending_action, spec_step, ConnectOutcome,
    GuardAction, GuardEvent, GuardView, Phase,
};
use crate::duration::duration_from_millis;
use crate::polling_strategy::{spec_read_next, spec_read_timed, PollingResult};
use crate::utils::{doubled, retry_delay, spec_backoff_millis, BACKOFF_BASE_MS};
use crate::StreamEvent;

verus! {

/// The state a guard reaches from `v` by taking `events` in order.
pub open spec fn run<T, E>(v: GuardView, events: Seq<GuardEvent<T, E>>) -> GuardView
    decreases events.len(),
{
    if events.len() == 0 {
        v
    } else {
        spec_step(run(v, events.drop_last()), events.last()).0
    }
}

/// The events a guard hands on, in order, while it takes `events` from `v`.
pub open spec fn emitted<T, E>(v: GuardView, events: Seq<GuardEvent<T, E>>) -> Seq<StreamEvent<T>>
    decreases events.len(),
{
    if events.len() == 0 {
        Seq::empty()
    } else {
        let before = emitted(v, events.drop_last());
        match spec_step(run(v, events.drop_last()), events.last()).1 {
            Some(e) => before.push(e),
            None => before,
        }
    }
}

/// The number of `Reconnecting` events since the last `Data` event (or since the
/// start).
pub open spec fn reconnects_since_data<T>(s: Seq<StreamEvent<T>>) -> nat
    decreases s.len(),
{
    if s.len() == 0 {
        0
    } else {
        match s.last() {
            StreamEvent::Reconnecting => reconnects_since_data(s.drop_last()) + 1,
            StreamEvent::Data(_) => 0,
        }
    }
}

/// The items of the `Data` events in `s`, in order.
pub open spec fn data_of<T>(s: Seq<StreamEvent<T>>) -> Seq<T>
    decreases s.len(),
{
    if s.len() == 0 {
        Seq::empty()
    } else {
        match s.last() {
            StreamEvent::Data(item) => data_of(s.drop_last()).push(item),
            StreamEvent::Reconnecting => data_of(s.drop_last()),
        }
    }
}

/// The items that a connected stream yielded while a guard took `events` from
/// `v`, in order: those that came while the guard was polling.
pub open spec fn items_yielded<T, E>(v: GuardView, events: Seq<GuardEvent<T, E>>) -> Seq<T>
    decreases events.len(),
{
    if events.len() == 0 {
        Seq::empty()
    } else {
        let before = items_yielded(v, events.drop_last());
        match events.last() {
            GuardEvent::Poll(PollingResult::Item(item)) => {
                if run(v, events.drop_last()).phase == Phase::Polling {
                    before.push(item)
                } else {
                    before
                }
            },
            _ => before,
        }
    }
}

/// The number of `Reconnecting` events in `s`.
pub open spec fn reconnect_count<T>(s: Seq<StreamEvent<T>>) -> nat
    decreases s.len(),
{
    if s.len() == 0 {
        0
    } else {
        match s.last() {
            StreamEvent::Reconnecting => reconnect_count(s.drop_last()) + 1,
            StreamEvent::Data(_) => reconnect_count(s.drop_last()),
        }
    }
}

/// The number of connection attempts among `events`: each ends in one `Connect`
/// outcome.
pub open spec fn connect_attempts<T, E>(events: Seq<GuardEvent<T, E>>) -> nat
    decreases events.len(),
{
    if events.len() == 0 {
        0
    } else {
        connect_attempts(events.drop_last()) + if events.last() is Connect {
            1nat
        } else {
            0nat
        }
    }
}

/// The number of backoff delays waited out among `events`.
pub open spec fn backoffs_waited<T, E>(events: Seq<GuardEvent<T, E>>) -> nat
    decreases events.len(),
{
    if events.len() == 0 {
        0
    } else {
        backoffs_waited(events.drop_last()) + if events.last() is BackoffElapsed {
            1nat
        } else {
            0nat
        }
    }
}

/// `event` is the outcome of the work that a guard in state `v` waits on.
pub open spec fn answers<T, E>(v: GuardView, event: GuardEvent<T, E>) -> bool {
    match event {
        GuardEvent::Connect(_) => v.phase == Phase::Connecting,
        GuardEvent::Poll(_) => v.phase == Phase::Polling,
        GuardEvent::BackoffElapsed => v.phase == Phase::BackingOff,
    }
}

/// Each of `events` is the outcome of the work the guard waited on at that point,
/// as when a runner does what the guard asks.
pub open spec fn faithful<T, E>(v: GuardView, events: Seq<GuardEvent<T, E>>) -> bool
    decreases events.len(),
{
    if events.len() == 0 {
        true
    } else {
        faithful(v, events.drop_last()) && answers(run(v, events.drop_last()), events.last())
    }
}

/// The outcomes that count as a failure: a failed or timed-out connection attempt
/// while connecting, and a poll timeout while connected.
pub open spec fn is_failure<T, E>(v: GuardView, event: GuardEvent<T, E>) -> bool {
    ||| v.phase == Phase::Connecting && (event matches GuardEvent::Connect(o) && o
        != ConnectOutcome::Connected)
    ||| v.phase == Phase::Polling && (event matches GuardEvent::Poll(PollingResult::Timeout))
}

/// Every step keeps a guard in a valid state.
pub proof fn lemma_step_keeps_wf<T, E>(v: GuardView, event: GuardEvent<T, E>)
    requires
        guard_wf(v),
    ensures
        guard_wf(spec_step(v, event).0),
{
}

/// A guard reports `Reconnecting` exactly on a failure; an item, an item error,
/// the end of the stream, a successful connection or the end of a delay never
/// makes it report one.
pub proof fn lemma_reconnecting_only_on_failure<T, E>(v: GuardView, event: GuardEvent<T, E>)
    requires
        guard_wf(v),
    ensures
        (spec_step(v, event).1 == Some(StreamEvent::<T>::Reconnecting)) <==> is_failure(v, event),
{
}

/// An item error while connected is skipped: nothing is handed on, the guard
/// stays as it was, and it polls again.
pub proof fn lemma_item_error_is_skipped<T, E>(v: GuardView, err: E)
    requires
        v.phase == Phase::Polling,
    ensures
        spec_step(v, GuardEvent::<T, E>::Poll(PollingResult::Error(err))) == (
            v,
            None::<StreamEvent<T>>,
            GuardAction::Poll,
        ),
{
}

/// The end of the stream ends the guard, without reconnecting.
pub proof fn lemma_stream_end_finishes<T, E>(v: GuardView)
    requires
        v.phase == Phase::Polling,
    ensures
        spec_step(v, GuardEvent::<T, E>::Poll(PollingResult::StreamEnded)) == (
            GuardView { phase: Phase::Finished, ..v },
            None::<StreamEvent<T>>,
            GuardAction::Stop,
        ),
{
}

/// An item while connected is handed on as it came, the failure count starts
/// again from zero, and the guard polls again.
pub proof fn lemma_item_is_handed_on<T, E>(v: GuardView, item: T)
    requires
        v.phase == Phase::Polling,
    ensures
        spec_step(v, GuardEvent::<T, E>::Poll(PollingResult::Item(item))) == (
            GuardView { try_count: 0, ..v },
            Some(StreamEvent::Data(item)),
            GuardAction::Poll,
        ),
{
}

/// Without a deadline, polling never leads to a reconnection.
pub proof fn lemma_untimed_poll_never_reconnects<T, E>(v: GuardView, next: Option<Result<T, E>>)
    requires
        v.phase == Phase::Polling,
    ensures
        spec_step(v, GuardEvent::Poll(spec_read_next(next))).1 != Some(StreamEvent::<T>::Reconnecting),
{
}

/// The first failure of a fresh guard that may retry waits the base delay of 2.5
/// seconds before reconnecting; the n-th failure in a row waits the n-th delay of
/// the backoff.
pub proof fn lemma_failure_waits_backoff<T>(v: GuardView)
    requires
        guard_wf(v),
        v.phase == Phase::Connecting || v.phase == Phase::Polling,
        v.try_count < v.max_retries,
    ensures
        spec_after_failure::<T>(v).2 == GuardAction::Sleep(retry_delay(v.try_count as nat)),
        spec_pending_action(spec_after_failure::<T>(v).0) == GuardAction::Sleep(
            retry_delay(v.try_count as nat),
        ),
        v.try_count == 0 ==> retry_delay(v.try_count as nat) == duration_from_millis(
            BACKOFF_BASE_MS,
        ),
{
}

/// A failure with no retry left stops the guard, after reporting `Reconnecting`.
pub proof fn lemma_failure_without_retry_left_stops<T>(v: GuardView)
    requires
        guard_wf(v),
        v.phase == Phase::Connecting || v.phase == Phase::Polling,
        v.try_count == v.max_retries,
    ensures
        spec_after_failure::<T>(v).0.phase == Phase::Finished,
        spec_after_failure::<T>(v).1 == Some(StreamEvent::<T>::Reconnecting),
        spec_after_failure::<T>(v).2 == GuardAction::Stop,
{
}

/// Once a guard has finished it stays so and hands nothing more on, whatever
/// it is told.
pub proof fn lemma_finished_is_final<T, E>(v: GuardView, events: Seq<GuardEvent<T, E>>)
    requires
        v.phase == Phase::Finished,
    ensures
        run(v, events) == v,
        emitted(v, events) == Seq::<StreamEvent<T>>::empty(),
    decreases events.len(),
{
    if events.len() > 0 {
        lemma_finished_is_final(v, events.drop_last());
    }
}

/// From its start, a guard's failure count is the number of `Reconnecting` events
/// it has handed on since the last `Data` event, and that number is never more
/// than `max_retries + 1`, whatever happens.
pub proof fn lemma_reconnects_bounded<T, E>(
    max_retries: u32,
    connect_timeout: std::time::Duration,
    events: Seq<GuardEvent<T, E>>,
)
    ensures
        guard_wf(run(fresh_guard(max_retries, connect_timeout), events)),
        run(fresh_guard(max_retries, connect_timeout), events).max_retries == max_retries,
        run(fresh_guard(max_retries, connect_timeout), events).try_count == reconnects_since_data(
            emitted(fresh_guard(max_retries, connect_timeout), events),
        ),
        reconnects_since_data(emitted(fresh_guard(max_retries, connect_timeout), events))
            <= max_retries as int + 1,
    decreases events.len(),
{
    let v0 = fresh_guard(max_retries, connect_timeout);
    if events.len() > 0 {
        let prefix = events.drop_last();
        lemma_reconnects_bounded(max_retries, connect_timeout, prefix);
        let v = run(v0, prefix);
        let before = emitted(v0, prefix);
        let e = events.last();
        lemma_step_keeps_wf(v, e);
        match spec_step(v, e).1 {
            Some(ev) => {
                assert(before.push(ev).drop_last() =~= before);
            },
            None => {},
        }
    }
}

/// The data a guard hands on is exactly what its streams yielded while
/// connected, in the same order: nothing is lost, repeated or made up.
pub proof fn lemma_data_is_what_streams_yielded<T, E>(
    v: GuardView,
    events: Seq<GuardEvent<T, E>>,
)
    ensures
        data_of(emitted(v, events)) == items_yielded(v, events),
    decreases events.len(),
{
    if events.len() > 0 {
        let prefix = events.drop_last();
        lemma_data_is_what_streams_yielded(v, prefix);
        let before = emitted(v, prefix);
        match spec_step(run(v, prefix), events.last()).1 {
            Some(ev) => {
                assert(before.push(ev).drop_last() =~= before);
            },
            None => {},
        }
    }
}

/// Connection attempts over a run from the start, when the runner does what the
/// guard asks. With `c` attempts made, `s` delays waited out and `r`
/// `Reconnecting` events handed on: every attempt but the first follows a
/// `Reconnecting` event and its delay, so `c == s + 1` once an attempt has been
/// made and no delay is pending. When the guard has finished, it finished
/// because the connected stream ended exactly when the failure count is within
/// `max_retries`; then `c == r + 1`. Otherwise the retries ran out, and `c == r`.
pub proof fn lemma_connection_attempts<T, E>(
    max_retries: u32,
    connect_timeout: std::time::Duration,
    events: Seq<GuardEvent<T, E>>,
)
    requires
        faithful(fresh_guard(max_retries, connect_timeout), events),
    ensures
        ({
            let w = run(fresh_guard(max_retries, connect_timeout), events);
            let c = connect_attempts(events);
            let s = backoffs_waited(events);
            let r = reconnect_count(emitted(fresh_guard(max_retries, connect_timeout), events));
            &&& w.phase == Phase::Connecting ==> c == r && s == r
            &&& w.phase == Phase::Polling ==> c == r + 1 && s == r
            &&& w.phase == Phase::BackingOff ==> c == r && s + 1 == r
            &&& w.phase == Phase::Finished && w.try_count <= max_retries ==> c == r + 1 && s == r
            &&& w.phase == Phase::Finished && w.try_count > max_retries ==> c == r && s + 1 == r
            &&& w.phase == Phase::Finished ==> events.len() > 0 && (w.try_count <= max_retries
                <==> events.last() matches GuardEvent::Poll(PollingResult::StreamEnded))
        }),
    decreases events.len(),
{
    let v0 = fresh_guard(max_retries, connect_timeout);
    if events.len() > 0 {
        let prefix = events.drop_last();
        lemma_connection_attempts(max_retries, connect_timeout, prefix);
        lemma_reconnects_bounded(max_retries, connect_timeout, prefix);
        let before = emitted(v0, prefix);
        match spec_step(run(v0, prefix), events.last()).1 {
            Some(ev) => {
                assert(before.push(ev).drop_last() =~= before);
            },
            None => {},
        }
    }
}

/// Every step asks for exactly the work that the state it leads to waits on.
pub proof fn lemma_action_is_pending_work<T, E>(v: GuardView, event: GuardEvent<T, E>)
    requires
        guard_wf(v),
    ensures
        spec_step(v, event).2 == spec_pending_action(spec_step(v, event).0),
{
}

/// A successful connection always leads to polling the new stream, whatever the
/// failure count and the retries allowed.
pub proof fn lemma_connected_polls<T, E>(v: GuardView)
    requires
        guard_wf(v),
        v.phase == Phase::Connecting,
    ensures
        spec_step(v, GuardEvent::<T, E>::Connect(ConnectOutcome::Connected)) == (
            GuardView { phase: Phase::Polling, ..v },
            None::<StreamEvent<T>>,
            GuardAction::Poll,
        ),
{
}

/// A failure (connection error, connection timeout or poll timeout) that leaves a
/// retry reports `Reconnecting`, counts the failure, and waits before
/// reconnecting: 2.5 seconds doubled once per earlier failure in a row, at most
/// one minute.
pub proof fn lemma_failure_with_retry_left<T, E>(v: GuardView, event: GuardEvent<T, E>)
    requires
        guard_wf(v),
        is_failure(v, event),
        v.try_count < v.max_retries,
    ensures
        spec_step(v, event) == (
            GuardView { try_count: (v.try_count + 1) as u64, phase: Phase::BackingOff, ..v },
            Some(StreamEvent::<T>::Reconnecting),
            GuardAction::Sleep(
                duration_from_millis(spec_backoff_millis(2500, 60_000, v.try_count as nat) as u64),
            ),
        ),
        spec_pending_action(spec_step(v, event).0) == spec_step(v, event).2,
{
}

/// A failure that leaves no retry reports `Reconnecting`, counts the failure and
/// stops.
pub proof fn lemma_failure_without_retry_left<T, E>(v: GuardView, event: GuardEvent<T, E>)
    requires
        guard_wf(v),
        is_failure(v, event),
        v.try_count == v.max_retries,
    ensures
        spec_step(v, event) == (
            GuardView { try_count: (v.try_count + 1) as u64, phase: Phase::Finished, ..v },
            Some(StreamEvent::<T>::Reconnecting),
            GuardAction::Stop,
        ),
{
}

/// The delays before reconnecting are 2.5, 5, 10, 20 and 40 seconds for the
/// first five failures in a row, and one minute from the sixth on.
pub proof fn lemma_default_delays(n: nat)
    ensures
        spec_backoff_millis(2500, 60_000, 0) == 2500,
        spec_backoff_millis(2500, 60_000, 1) == 5000,
        spec_backoff_millis(2500, 60_000, 2) == 10_000,
        spec_backoff_millis(2500, 60_000, 3) == 20_000,
        spec_backoff_millis(2500, 60_000, 4) == 40_000,
        n >= 5 ==> spec_backoff_millis(2500, 60_000, n) == 60_000,
{
    reveal_with_fuel(doubled, 6);
    if n >= 5 {
        crate::utils::lemma_doubled_monotone(2500, 5, n);
    }
}

/// An item error from the stream, read under either strategy, is skipped: the
/// guard hands nothing on, stays as it was, and polls again.
pub proof fn lemma_item_error_skipped_under_either_strategy<T, E>(v: GuardView, err: E)
    requires
        v.phase == Phase::Polling,
    ensures
        spec_step(v, GuardEvent::Poll(spec_read_next(Some(Err::<T, E>(err))))) == (
            v,
            None::<StreamEvent<T>>,
            GuardAction::Poll,
        ),
        spec_step(v, GuardEvent::Poll(spec_read_timed(Some(Some(Err::<T, E>(err)))))) == (
            v,
            None::<StreamEvent<T>>,
            GuardAction::Poll,
        ),
{
}

} // verus!
