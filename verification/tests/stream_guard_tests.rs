use std::time::Duration;

use stream_guard::guard::{ConnectOutcome, GuardAction, GuardEvent, GuardState, Phase};
use stream_guard::polling_strategy::{PollingResult, WithTimeout, WithoutTimeout};
use stream_guard::utils::{backoff_delay, backoff_millis};
use stream_guard::{exponential_backoff, StreamEvent, StreamGuardBuilder};

/// One scripted poll: an item, an item error, or a deadline that passes first.
#[derive(Clone)]
enum Poll {
    Item(i32),
    ItemError(&'static str),
    Late,
}

/// One scripted connection attempt.
#[derive(Clone)]
enum Conn {
    Fails,
    TimesOut,
    /// Connects to a stream that yields these polls, then ends.
    Stream(Vec<Poll>),
}

struct Run {
    events: Vec<StreamEvent<i32>>,
    sleeps: Vec<Duration>,
    stopped: bool,
    attempts: usize,
}

impl Run {
    fn data(&self) -> Vec<i32> {
        self.events
            .iter()
            .filter_map(|e| match e {
                StreamEvent::Data(x) => Some(*x),
                StreamEvent::Reconnecting => None,
            })
            .collect()
    }

    fn reconnects(&self) -> usize {
        self.events.iter().filter(|e| **e == StreamEvent::Reconnecting).count()
    }
}

/// Runs a guard the way its runner does, with scripted connection attempts:
/// `connect(n)` says how attempt `n` (from 0) goes. Stops at `Stop`, or once more
/// than `max_events` events were handed on.
fn simulate(
    mut state: GuardState,
    timed: bool,
    mut connect: impl FnMut(usize) -> Conn,
    max_events: usize,
) -> Run {
    let mut run = Run { events: Vec::new(), sleeps: Vec::new(), stopped: false, attempts: 0 };
    let mut attempts = 0;
    let mut polls: Vec<Poll> = Vec::new();
    let mut action = state.pending_action();
    loop {
        let event = match action {
            GuardAction::Connect(limit) => {
                assert_eq!(limit, Duration::from_secs(1));
                let conn = connect(attempts);
                attempts += 1;
                run.attempts = attempts;
                match conn {
                    Conn::Fails => GuardEvent::Connect(ConnectOutcome::Failed),
                    Conn::TimesOut => GuardEvent::Connect(ConnectOutcome::TimedOut),
                    Conn::Stream(p) => {
                        polls = p;
                        polls.reverse();
                        GuardEvent::Connect(ConnectOutcome::Connected)
                    },
                }
            },
            GuardAction::Poll => {
                let next: Option<Option<Result<i32, &'static str>>> = match polls.pop() {
                    Some(Poll::Item(x)) => Some(Some(Ok(x))),
                    Some(Poll::ItemError(e)) => Some(Some(Err(e))),
                    Some(Poll::Late) => None,
                    None => Some(None),
                };
                let result = if timed {
                    WithTimeout(Duration::from_millis(100)).poll_result(next)
                } else {
                    // without a deadline a late item simply arrives later
                    let next = next.unwrap_or_else(|| match polls.pop() {
                        Some(Poll::Item(x)) => Some(Ok(x)),
                        Some(Poll::ItemError(e)) => Some(Err(e)),
                        _ => None,
                    });
                    WithoutTimeout.poll_result(next)
                };
                GuardEvent::Poll(result)
            },
            GuardAction::Sleep(d) => {
                run.sleeps.push(d);
                GuardEvent::BackoffElapsed
            },
            GuardAction::Stop => {
                run.stopped = true;
                break;
            },
        };
        let step = state.step(event);
        if let Some(ev) = step.emit {
            run.events.push(ev);
            if run.events.len() > max_events {
                break;
            }
        }
        action = step.action;
    }
    run
}

fn started(max_retries: u32) -> GuardState {
    StreamGuardBuilder::new(0u8).max_retries(max_retries).stream_events().state
}

fn items(xs: &[i32]) -> Vec<Poll> {
    xs.iter().map(|x| Poll::Item(*x)).collect()
}

#[test]
fn test_basic_stream_guard_functionality() {
    let run = simulate(started(2), true, |_| Conn::Stream(items(&[1, 2, 3, 4, 5])), 100);
    assert_eq!(run.reconnects(), 0, "Should not reconnect for successful stream");
    assert_eq!(run.data(), vec![1, 2, 3, 4, 5]);
    assert!(run.stopped);
}

#[test]
fn test_with_timeout_polling_strategy() {
    // each connection yields 1, then the next item comes too late
    let run = simulate(started(1), true, |_| Conn::Stream(vec![Poll::Item(1), Poll::Late, Poll::Item(2)]), 10);
    assert!(run.data().len() > 0, "Should receive some data");
    assert!(run.reconnects() > 0, "Should have reconnection events due to timeouts");
}

#[test]
fn test_without_timeout_polling_strategy() {
    let state = StreamGuardBuilder::new(0u8).max_retries(1).without_timeout().stream_events().state;
    let run = simulate(
        state,
        false,
        |_| Conn::Stream(vec![Poll::Item(1), Poll::Late, Poll::Item(2), Poll::Late, Poll::Item(3)]),
        10,
    );
    assert!(run.stopped, "Should complete without timeout");
    assert_eq!(run.data(), vec![1, 2, 3]);
    assert_eq!(run.reconnects(), 0, "Should not reconnect without timeout strategy");
}

#[test]
fn test_connection_failure_and_retry() {
    let run = simulate(
        started(5),
        true,
        |n| if n < 2 { Conn::Fails } else { Conn::Stream(items(&[1, 2, 3])) },
        15,
    );
    assert!(run.stopped, "Test should complete");
    assert!(run.reconnects() >= 2, "Should have multiple reconnection attempts");
    assert!(run.data().len() > 0, "Should eventually receive data after retries");
}

#[test]
fn test_max_retries_exceeded() {
    let run = simulate(started(2), true, |_| Conn::Fails, 10);
    assert!(run.stopped, "Test should complete when max retries exceeded");
    assert_eq!(run.data().len(), 0, "Should not receive any data when always failing");
    assert!(run.reconnects() <= 3, "Should not exceed max retries + 1");
}

#[test]
fn test_connection_timeout() {
    let run = simulate(started(2), true, |_| Conn::TimesOut, 5);
    assert!(run.stopped, "Test should complete");
    assert_eq!(run.data().len(), 0, "Should not receive data when connection times out");
    assert!(run.reconnects() > 0, "Should attempt to reconnect after connection timeout");
}

#[test]
fn test_stream_item_errors() {
    let run = simulate(
        started(1),
        true,
        |_| {
            Conn::Stream(vec![
                Poll::Item(1),
                Poll::ItemError("Item error"),
                Poll::Item(2),
                Poll::ItemError("Another error"),
                Poll::Item(3),
            ])
        },
        10,
    );
    assert!(run.stopped, "Test should complete");
    assert!(run.data().contains(&1), "Should receive first item");
    assert!(run.data().contains(&2), "Should receive second item");
    assert!(run.data().contains(&3), "Should receive third item");
    assert_eq!(run.reconnects(), 0, "Item errors should not trigger reconnection");
}

#[test]
fn test_empty_stream_ends_gracefully() {
    let run = simulate(started(1), true, |_| Conn::Stream(vec![]), 5);
    assert!(run.stopped, "Test should complete");
    assert_eq!(run.data().len(), 0, "Should not receive any data from empty stream");
    assert_eq!(run.reconnects(), 0, "Empty stream should end gracefully without reconnection");
}

#[test]
fn test_exponential_backoff_timing() {
    // the short base and cap that a test configuration uses
    assert_eq!(backoff_delay(100, 1000, 0), Duration::from_millis(100));
    assert_eq!(backoff_delay(100, 1000, 1), Duration::from_millis(200));
    assert_eq!(backoff_delay(100, 1000, 2), Duration::from_millis(400));
    assert_eq!(backoff_delay(100, 1000, 3), Duration::from_millis(800));
    assert_eq!(backoff_delay(100, 1000, 4), Duration::from_millis(1000));
    assert_eq!(backoff_delay(100, 1000, 10), Duration::from_millis(1000));
}

#[test]
fn test_builder_configuration() {
    let stream_guard = StreamGuardBuilder::new(0u8)
        .max_retries(10)
        .next_event_timeout(Duration::from_secs(30));
    assert_eq!(stream_guard.max_retries, 10);
    let WithTimeout(duration) = stream_guard.polling_strategy;
    assert_eq!(duration, Duration::from_secs(30));
}

#[test]
fn test_without_timeout_configuration() {
    let stream_guard = StreamGuardBuilder::new(0u8).max_retries(5).without_timeout();
    assert_eq!(stream_guard.max_retries, 5);
    let WithoutTimeout = stream_guard.polling_strategy;
}

#[test]
fn test_comprehensive_stream_guard_behavior() {
    // fails twice, then connects to a stream whose second item comes too late
    let run = simulate(
        started(5),
        true,
        |n| {
            if n < 2 {
                Conn::Fails
            } else {
                Conn::Stream(vec![Poll::Item(1), Poll::Late, Poll::Item(2), Poll::ItemError("Stream error"), Poll::Item(3)])
            }
        },
        20,
    );
    assert!(run.reconnects() >= 2, "Should reconnect due to initial failures");
    assert!(run.data().len() > 0, "Should eventually receive some data");
    assert!(run.data().contains(&1), "Should receive first data item");
}

#[test]
fn production_backoff_values() {
    assert_eq!(exponential_backoff(0), Duration::from_millis(2500));
    assert_eq!(exponential_backoff(1), Duration::from_millis(5000));
    assert_eq!(exponential_backoff(2), Duration::from_millis(10_000));
    assert_eq!(exponential_backoff(3), Duration::from_millis(20_000));
    assert_eq!(exponential_backoff(4), Duration::from_millis(40_000));
    assert_eq!(exponential_backoff(5), Duration::from_secs(60));
    assert_eq!(exponential_backoff(u32::MAX), Duration::from_secs(60));
}

#[test]
fn backoff_edge_cases() {
    assert_eq!(backoff_millis(0, 1000, 40), 0);
    assert_eq!(backoff_millis(5000, 1000, 0), 1000);
    assert_eq!(backoff_millis(u64::MAX / 2 + 1, u64::MAX, 1), u64::MAX);
    assert_eq!(backoff_millis(1, u64::MAX, 63), 1u64 << 63);
    assert_eq!(backoff_millis(1, u64::MAX, 64), u64::MAX);
    assert_eq!(backoff_millis(3, 100, 5), 96);
    assert_eq!(backoff_millis(3, 100, 6), 100);
}

#[test]
fn backoff_is_monotone_and_doubles() {
    let mut prev = backoff_millis(7, 5000, 0);
    for n in 1..40 {
        let cur = backoff_millis(7, 5000, n);
        assert!(cur >= prev);
        assert_eq!(cur, (2 * prev).min(5000));
        prev = cur;
    }
}

#[test]
fn builder_defaults() {
    let b = StreamGuardBuilder::new(0u8);
    assert_eq!(b.max_retries, 3);
    assert_eq!(b.polling_strategy.0, Duration::from_secs(10));
    let g = b.stream_events();
    assert_eq!(g.state.phase(), Phase::Connecting);
    assert_eq!(g.state.try_count(), 0);
    assert_eq!(g.state.pending_action(), GuardAction::Connect(Duration::from_secs(1)));
}

#[test]
fn retries_wait_with_backoff_and_stop_after_max_plus_one() {
    let run = simulate(started(3), true, |_| Conn::Fails, 100);
    assert!(run.stopped);
    assert_eq!(run.reconnects(), 4);
    assert_eq!(
        run.sleeps,
        vec![Duration::from_millis(2500), Duration::from_millis(5000), Duration::from_millis(10_000)]
    );
}

#[test]
fn zero_retries_stop_at_first_failure() {
    let run = simulate(started(0), true, |_| Conn::TimesOut, 100);
    assert!(run.stopped);
    assert_eq!(run.reconnects(), 1);
    assert!(run.sleeps.is_empty());
}

#[test]
fn data_resets_the_failure_count() {
    let mut g = started(1);
    let s = g.step::<i32, ()>(GuardEvent::Connect(ConnectOutcome::Failed));
    assert_eq!(s.emit, Some(StreamEvent::Reconnecting));
    assert_eq!(g.try_count(), 1);
    assert_eq!(g.phase(), Phase::BackingOff);
    assert_eq!(g.pending_action(), GuardAction::Sleep(Duration::from_millis(2500)));
    let s = g.step::<i32, ()>(GuardEvent::BackoffElapsed);
    assert_eq!(s.action, GuardAction::Connect(Duration::from_secs(1)));
    g.step::<i32, ()>(GuardEvent::Connect(ConnectOutcome::Connected));
    let s = g.step::<i32, ()>(GuardEvent::Poll(PollingResult::Item(9)));
    assert_eq!(s.emit, Some(StreamEvent::Data(9)));
    assert_eq!(g.try_count(), 0);
    // a poll timeout is a failure again, with a full set of retries
    let s = g.step::<i32, ()>(GuardEvent::Poll(PollingResult::Timeout));
    assert_eq!(s.emit, Some(StreamEvent::Reconnecting));
    assert_eq!(s.action, GuardAction::Sleep(Duration::from_millis(2500)));
}

#[test]
fn item_error_changes_nothing() {
    let mut g = started(1);
    g.step::<i32, &str>(GuardEvent::Connect(ConnectOutcome::Connected));
    let s = g.step::<i32, &str>(GuardEvent::Poll(PollingResult::Error("bad")));
    assert_eq!(s.emit, None);
    assert_eq!(s.action, GuardAction::Poll);
    assert_eq!(g.phase(), Phase::Polling);
    assert_eq!(g.try_count(), 0);
}

#[test]
fn finished_guard_stays_finished() {
    let mut g = started(1);
    g.step::<i32, ()>(GuardEvent::Connect(ConnectOutcome::Connected));
    let s = g.step::<i32, ()>(GuardEvent::Poll(PollingResult::StreamEnded));
    assert_eq!(s.emit, None);
    assert_eq!(s.action, GuardAction::Stop);
    for ev in [
        GuardEvent::Connect(ConnectOutcome::Failed),
        GuardEvent::Poll(PollingResult::Timeout),
        GuardEvent::Poll(PollingResult::Item(1)),
        GuardEvent::BackoffElapsed,
    ] {
        let s = g.step::<i32, ()>(ev);
        assert_eq!(s.emit, None);
        assert_eq!(s.action, GuardAction::Stop);
        assert_eq!(g.phase(), Phase::Finished);
    }
}

#[test]
fn out_of_turn_event_is_ignored() {
    let mut g = started(2);
    let s = g.step::<i32, ()>(GuardEvent::Poll(PollingResult::Item(4)));
    assert_eq!(s.emit, None);
    assert_eq!(s.action, GuardAction::Connect(Duration::from_secs(1)));
    let s = g.step::<i32, ()>(GuardEvent::BackoffElapsed);
    assert_eq!(s.emit, None);
    assert_eq!(g.phase(), Phase::Connecting);
}

#[test]
fn poll_results_read_as_documented() {
    let t = WithTimeout(Duration::from_millis(5));
    assert!(matches!(t.poll_result::<i32, ()>(None), PollingResult::Timeout));
    assert!(matches!(t.poll_result::<i32, ()>(Some(None)), PollingResult::StreamEnded));
    assert!(matches!(t.poll_result::<i32, ()>(Some(Some(Ok(3)))), PollingResult::Item(3)));
    assert!(matches!(t.poll_result::<i32, i32>(Some(Some(Err(4)))), PollingResult::Error(4)));
    assert!(matches!(WithoutTimeout.poll_result::<i32, ()>(None), PollingResult::StreamEnded));
    assert!(matches!(WithoutTimeout.poll_result::<i32, ()>(Some(Ok(8))), PollingResult::Item(8)));
}

#[test]
fn data_in_order_across_reconnects() {
    // the first connection yields 1 and 2, then stalls; the second yields 3 and ends
    let run = simulate(
        started(2),
        true,
        |n| {
            if n == 0 {
                Conn::Stream(vec![Poll::Item(1), Poll::ItemError("skip"), Poll::Item(2), Poll::Late])
            } else {
                Conn::Stream(items(&[3]))
            }
        },
        100,
    );
    assert!(run.stopped);
    assert_eq!(run.data(), vec![1, 2, 3]);
    assert_eq!(run.events, vec![
        StreamEvent::Data(1),
        StreamEvent::Data(2),
        StreamEvent::Reconnecting,
        StreamEvent::Data(3),
    ]);
    assert_eq!(run.sleeps, vec![Duration::from_millis(2500)]);
}

#[test]
fn connection_attempts_match_reconnects() {
    // ended by the stream: one more attempt than reconnections
    let run = simulate(
        started(4),
        true,
        |n| if n < 3 { Conn::TimesOut } else { Conn::Stream(items(&[5])) },
        100,
    );
    assert!(run.stopped);
    assert_eq!(run.reconnects(), 3);
    assert_eq!(run.attempts, 4);
    assert_eq!(run.sleeps.len(), 3);
    // retries ran out: as many attempts as reconnections
    let run = simulate(started(4), true, |_| Conn::Fails, 100);
    assert!(run.stopped);
    assert_eq!(run.reconnects(), 5);
    assert_eq!(run.attempts, 5);
    assert_eq!(run.sleeps.len(), 4);
}
