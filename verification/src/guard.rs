use std::time::Duration;
use vstd::prelude::*;

use crate::polling_strategy::{spec_read_next, PollingResult};
use crate::utils::{exponential_backoff, retry_delay};
use crate::StreamEvent;

verus! {

/// Where a guard stands between two pieces of outside work.
#[derive(Debug, Clone, Copy, PartialEq, Eq, Structural)]
pub enum Phase {
    /// Waiting for the outcome of a connection attempt.
    Connecting,
    /// Connected; waiting for the outcome of a poll of the stream.
    Polling,
    /// Waiting out the delay before the next connection attempt.
    BackingOff,
    /// Done: no more work and no more events.
    Finished,
}

/// How a connection attempt ended.
#[derive(Debug, Clone, Copy, PartialEq, Eq, Structural)]
pub enum ConnectOutcome {
    /// The connection function returned a stream.
    Connected,
    /// The connection function returned an error.
    Failed,
    /// The connection function did not answer within the connection timeout.
    TimedOut,
}

/// The outcome of the work that a guard last asked for.
pub enum GuardEvent<T, E> {
    /// A connection attempt ended.
    Connect(ConnectOutcome),
    /// A poll of the connected stream ended.
    Poll(PollingResult<T, E>),
    /// The delay before reconnecting has passed.
    BackoffElapsed,
}

/// The work that a guard asks its runner to do next.
#[derive(Debug, Clone, Copy, PartialEq, Eq)]
pub enum GuardAction {
    /// Call the connection function, giving up after the duration.
    Connect(Duration),
    /// Poll the connected stream for its next item.
    Poll,
    /// Wait for the duration, then report `BackoffElapsed`.
    Sleep(Duration),
    /// Stop: the guarded stream has ended.
    Stop,
}

/// What one step of a guard produces: an event to hand to the consumer, if any,
/// and the next piece of work.
pub struct Step<T> {
    pub emit: Option<StreamEvent<T>>,
    pub action: GuardAction,
}

/// The state of a guard, as plain values.
#[derive(Debug, Clone, Copy)]
pub struct GuardView {
    /// Failures since the last item (or since the start).
    pub try_count: u64,
    /// Failures after which the guard still reconnects.
    pub max_retries: u32,
    /// How long a connection attempt may take.
    pub connect_timeout: Duration,
    pub phase: Phase,
}

/// The states that a guard can be in: the failure count never passes
/// `max_retries` while the guard goes on, passes it by one at most once it has
/// stopped, and is positive while the guard waits to reconnect.
pub open spec fn guard_wf(v: GuardView) -> bool {
    &&& v.try_count <= v.max_retries as int + 1
    &&& v.phase != Phase::Finished ==> v.try_count <= v.max_retries
    &&& v.phase == Phase::BackingOff ==> v.try_count >= 1
}

/// A guard that has not done anything yet: it is about to connect.
pub open spec fn fresh_guard(max_retries: u32, connect_timeout: Duration) -> GuardView {
    GuardView { try_count: 0, max_retries, connect_timeout, phase: Phase::Connecting }
}

/// The work that a guard waits on in a given state.
pub open spec fn spec_pending_action(v: GuardView) -> GuardAction {
    match v.phase {
        Phase::Connecting => GuardAction::Connect(v.connect_timeout),
        Phase::Polling => GuardAction::Poll,
        Phase::BackingOff => GuardAction::Sleep(retry_delay((v.try_count - 1) as nat)),
        Phase::Finished => GuardAction::Stop,
    }
}

/// After a failed connection, a connection timeout or a poll timeout: report
/// `Reconnecting`, count the failure, then wait and reconnect while the count is at
/// most `max_retries`, else stop. The n-th failure in a row waits
/// `retry_delay(n - 1)`, so the first one waits the base delay.
pub open spec fn spec_after_failure<T>(v: GuardView) -> (GuardView, Option<StreamEvent<T>>, GuardAction) {
    let n = v.try_count + 1;
    if n <= v.max_retries {
        (
            GuardView { try_count: n as u64, phase: Phase::BackingOff, ..v },
            Some(StreamEvent::Reconnecting),
            GuardAction::Sleep(retry_delay(v.try_count as nat)),
        )
    } else {
        (
            GuardView { try_count: n as u64, phase: Phase::Finished, ..v },
            Some(StreamEvent::Reconnecting),
            GuardAction::Stop,
        )
    }
}

/// One step of a guard: the next state, the event handed to the consumer, and
/// the next piece of work. An event that does not answer the work the guard waits
/// on changes nothing and asks for that work again.
pub open spec fn spec_step<T, E>(v: GuardView, event: GuardEvent<T, E>) -> (
    GuardView,
    Option<StreamEvent<T>>,
    GuardAction,
) {
    match event {
        GuardEvent::Connect(outcome) => {
            if v.phase == Phase::Connecting {
                match outcome {
                    ConnectOutcome::Connected => (
                        GuardView { phase: Phase::Polling, ..v },
                        None,
                        GuardAction::Poll,
                    ),
                    _ => spec_after_failure(v),
                }
            } else {
                (v, None, spec_pending_action(v))
            }
        },
        GuardEvent::Poll(result) => {
            if v.phase == Phase::Polling {
                match result {
                    PollingResult::Item(item) => (
                        GuardView { try_count: 0, ..v },
                        Some(StreamEvent::Data(item)),
                        GuardAction::Poll,
                    ),
                    PollingResult::Error(_) => (v, None, GuardAction::Poll),
                    PollingResult::StreamEnded => (
                        GuardView { phase: Phase::Finished, ..v },
                        None,
                        GuardAction::Stop,
                    ),
                    PollingResult::Timeout => spec_after_failure(v),
                }
            } else {
                (v, None, spec_pending_action(v))
            }
        },
        GuardEvent::BackoffElapsed => {
            if v.phase == Phase::BackingOff {
                (
                    GuardView { phase: Phase::Connecting, ..v },
                    None,
                    GuardAction::Connect(v.connect_timeout),
                )
            } else {
                (v, None, spec_pending_action(v))
            }
        },
    }
}

/// The decisions of a guarded stream: when to connect, poll, wait or stop, and
/// which events to hand on.
pub struct GuardState {
    inner: GuardView,
}

impl GuardState {
    #[verifier::type_invariant]
    spec fn inv(self) -> bool {
        guard_wf(self.inner)
    }
}

impl View for GuardState {
    type V = GuardView;

    closed spec fn view(&self) -> GuardView {
        self.inner
    }
}

impl GuardState {
    /// A guard about to make its first connection attempt.
    pub fn new(max_retries: u32, connect_timeout: Duration) -> (g: Self)
        ensures
            g@ == fresh_guard(max_retries, connect_timeout),
    {
        GuardState { inner: GuardView { try_count: 0, max_retries, connect_timeout, phase: Phase::Connecting } }
    }

    /// Where the guard stands.
    pub fn phase(&self) -> (p: Phase)
        ensures
            p == self@.phase,
            guard_wf(self@),
    {
        proof {
            use_type_invariant(self);
        }
        self.inner.phase
    }

    /// Failures since the last item (or since the start).
    pub fn try_count(&self) -> (n: u64)
        ensures
            n == self@.try_count,
            guard_wf(self@),
    {
        proof {
            use_type_invariant(self);
        }
        self.inner.try_count
    }

    /// The work the guard waits on.
    pub fn pending_action(&self) -> (a: GuardAction)
        ensures
            a == spec_pending_action(self@),
            guard_wf(self@),
    {
        proof {
            use_type_invariant(self);
        }
        let v = self.inner;
        match v.phase {
            Phase::Connecting => GuardAction::Connect(v.connect_timeout),
            Phase::Polling => GuardAction::Poll,
            Phase::BackingOff => GuardAction::Sleep(exponential_backoff((v.try_count - 1) as u32)),
            Phase::Finished => GuardAction::Stop,
        }
    }

    fn after_failure<T>(&mut self) -> (s: Step<T>)
        requires
            old(self)@.phase == Phase::Connecting || old(self)@.phase == Phase::Polling,
        ensures
            (final(self)@, s.emit, s.action) == spec_after_failure::<T>(old(self)@),
    {
        proof {
            use_type_invariant(&*self);
        }
        let v = self.inner;
        if v.try_count < v.max_retries as u64 {
            let delay = exponential_backoff(v.try_count as u32);
            self.inner = GuardView { try_count: v.try_count + 1, phase: Phase::BackingOff, ..v };
            Step { emit: Some(StreamEvent::Reconnecting), action: GuardAction::Sleep(delay) }
        } else {
            self.inner = GuardView { try_count: v.try_count + 1, phase: Phase::Finished, ..v };
            Step { emit: Some(StreamEvent::Reconnecting), action: GuardAction::Stop }
        }
    }

    /// Takes the outcome of the work last asked for; returns the event to hand on,
    /// if any, and the next piece of work.
    pub fn step<T, E>(&mut self, event: GuardEvent<T, E>) -> (s: Step<T>)
        ensures
            (final(self)@, s.emit, s.action) == spec_step(old(self)@, event),
            guard_wf(final(self)@),
    {
        proof {
            use_type_invariant(&*self);
        }
        let v = self.inner;
        match event {
            GuardEvent::Connect(outcome) => {
                if v.phase == Phase::Connecting {
                    match outcome {
                        ConnectOutcome::Connected => {
                            self.inner = GuardView { phase: Phase::Polling, ..v };
                            Step { emit: None, action: GuardAction::Poll }
                        },
                        _ => self.after_failure(),
                    }
                } else {
                    Step { emit: None, action: self.pending_action() }
                }
            },
            GuardEvent::Poll(result) => {
                if v.phase == Phase::Polling {
                    match result {
                        PollingResult::Item(item) => {
                            self.inner = GuardView { try_count: 0, ..v };
                            Step { emit: Some(StreamEvent::Data(item)), action: GuardAction::Poll }
                        },
                        PollingResult::Error(_) => Step { emit: None, action: GuardAction::Poll },
                        PollingResult::StreamEnded => {
                            self.inner = GuardView { phase: Phase::Finished, ..v };
                            Step { emit: None, action: GuardAction::Stop }
                        },
                        PollingResult::Timeout => self.after_failure(),
                    }
                } else {
                    Step { emit: None, action: self.pending_action() }
                }
            },
            GuardEvent::BackoffElapsed => {
                if v.phase == Phase::BackingOff {
                    self.inner = GuardView { phase: Phase::Connecting, ..v };
                    Step { emit: None, action: GuardAction::Connect(v.connect_timeout) }
                } else {
                    Step { emit: None, action: self.pending_action() }
                }
            },
        }
    }
}

} // verus!
