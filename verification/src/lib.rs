use std::time::Duration;
use vstd::prelude::*;

pub mod duration;
pub mod guard;
pub mod laws;
pub mod polling_strategy;
pub mod utils;

pub use guard::{ConnectOutcome, GuardAction, GuardEvent, GuardState, GuardView, Phase, Step};
pub use polling_strategy::{PollingResult, WithTimeout, WithoutTimeout};
pub use utils::exponential_backoff;

use crate::duration::{duration_from_millis, millis_to_duration};
use crate::guard::fresh_guard;

verus! {

/// What a guarded stream hands to its consumer.
#[derive(Debug, PartialEq, Eq)]
pub enum StreamEvent<T> {
    /// An item of the underlying stream.
    Data(T),
    /// The connection was lost or could not be made; the guard reconnects or stops.
    Reconnecting,
}

/// Retries that a new builder allows.
pub const DEFAULT_MAX_RETRIES: u32 = 3;

/// Per-event timeout, in milliseconds, that a new builder sets (ten seconds).
pub const DEFAULT_EVENT_TIMEOUT_MS: u64 = 10_000;

/// How long, in milliseconds, one connection attempt may take (one second).
pub const CONNECT_TIMEOUT_MS: u64 = 1000;

/// The configuration of a guarded stream: how to connect, how often to retry,
/// and how to poll.
pub struct StreamGuardBuilder<ConnectFn, PollingStrategy> {
    pub connect_fn: ConnectFn,
    pub max_retries: u32,
    pub polling_strategy: PollingStrategy,
}

/// A started guarded stream: the connection function, the polling strategy, and
/// the decisions between them.
pub struct StreamGuard<ConnectFn, PollingStrategy> {
    pub connect_fn: ConnectFn,
    pub polling_strategy: PollingStrategy,
    pub state: GuardState,
}

impl<ConnectFn> StreamGuardBuilder<ConnectFn, WithTimeout> {
    /// A builder with three retries and a ten-second timeout per event.
    pub fn new(connect_fn: ConnectFn) -> (b: Self)
        ensures
            b.connect_fn == connect_fn,
            b.max_retries == DEFAULT_MAX_RETRIES,
            b.polling_strategy == WithTimeout(duration_from_millis(DEFAULT_EVENT_TIMEOUT_MS)),
    {
        StreamGuardBuilder {
            connect_fn,
            max_retries: DEFAULT_MAX_RETRIES,
            polling_strategy: WithTimeout(millis_to_duration(DEFAULT_EVENT_TIMEOUT_MS)),
        }
    }

    /// Sets how many times the guard reconnects after failures in a row.
    pub fn max_retries(self, max_retries: u32) -> (b: Self)
        ensures
            b.connect_fn == self.connect_fn,
            b.max_retries == max_retries,
            b.polling_strategy == self.polling_strategy,
    {
        StreamGuardBuilder { max_retries, ..self }
    }
}

impl<ConnectFn: Copy, PS> StreamGuardBuilder<ConnectFn, PS> {
    /// The same configuration, polling with a timeout of `t` per event.
    pub fn next_event_timeout(&self, t: Duration) -> (b: StreamGuardBuilder<ConnectFn, WithTimeout>)
        ensures
            b.connect_fn == self.connect_fn,
            b.max_retries == self.max_retries,
            b.polling_strategy == WithTimeout(t),
    {
        StreamGuardBuilder {
            connect_fn: self.connect_fn,
            max_retries: self.max_retries,
            polling_strategy: WithTimeout(t),
        }
    }

    /// The same configuration, waiting as long as it takes for each event.
    pub fn without_timeout(&self) -> (b: StreamGuardBuilder<ConnectFn, WithoutTimeout>)
        ensures
            b.connect_fn == self.connect_fn,
            b.max_retries == self.max_retries,
            b.polling_strategy == WithoutTimeout,
    {
        StreamGuardBuilder {
            connect_fn: self.connect_fn,
            max_retries: self.max_retries,
            polling_strategy: WithoutTimeout,
        }
    }
}

impl<ConnectFn, PS> StreamGuardBuilder<ConnectFn, PS> {
    /// Starts the guarded stream: it first connects, with one second allowed per
    /// connection attempt, and has seen no failure yet.
    pub fn stream_events(self) -> (g: StreamGuard<ConnectFn, PS>)
        ensures
            g.connect_fn == self.connect_fn,
            g.polling_strategy == self.polling_strategy,
            g.state@ == fresh_guard(self.max_retries, duration_from_millis(CONNECT_TIMEOUT_MS)),
    {
        let StreamGuardBuilder { connect_fn, max_retries, polling_strategy } = self;
        StreamGuard {
            connect_fn,
            polling_strategy,
            state: GuardState::new(max_retries, millis_to_duration(CONNECT_TIMEOUT_MS)),
        }
    }
}


} // verus!
