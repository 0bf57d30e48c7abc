# stream_guard

Decisions of a resilient stream: when to connect, poll, back off or stop, and
which events to hand to the consumer, verified with Verus.

- `src/guard.rs`: the guard as a state machine (`GuardState::step`), with its
  specification `spec_step`.
- `src/laws.rs`: what holds of every run of a guard (retries bounded, data handed
  on in order, a finished guard stays finished, ...).
- `src/utils.rs`: the capped exponential backoff and its laws.
- `src/polling_strategy.rs`: how one poll's outcome reads under each strategy.
- `src/lib.rs`: the builder and the started guard.
- `app/main.rs`: the async runner (tokio, futures, async-stream) and a demo.
