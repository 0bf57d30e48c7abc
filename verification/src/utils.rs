use std::time::Duration;
use vstd::prelude::*;

use crate::duration::{duration_from_millis, millis_to_duration};

verus! {

/// First delay, in milliseconds, before reconnecting.
pub const BACKOFF_BASE_MS: u64 = 2500;

/// Longest delay, in milliseconds, before reconnecting (one minute).
pub const BACKOFF_CAP_MS: u64 = 60_000;

/// `base` doubled `times` times, that is `base * 2^times`.
pub open spec fn doubled(base: nat, times: nat) -> nat
    decreases times,
{
    if times == 0 {
        base
    } else {
        2 * doubled(base, (times - 1) as nat)
    }
}

/// The delay in milliseconds before retry number `attempt` (counted from 0):
/// `base` doubled once per attempt, never more than `cap`.
pub open spec fn spec_backoff_millis(base: nat, cap: nat, attempt: nat) -> nat {
    if doubled(base, attempt) <= cap {
        doubled(base, attempt)
    } else {
        cap
    }
}

/// The delay before retry number `attempt` with the library's own base and cap.
pub open spec fn retry_delay(attempt: nat) -> Duration {
    duration_from_millis(
        spec_backoff_millis(BACKOFF_BASE_MS as nat, BACKOFF_CAP_MS as nat, attempt) as u64,
    )
}

/// Doubling more often never gives less.
pub proof fn lemma_doubled_monotone(base: nat, i: nat, j: nat)
    requires
        i <= j,
    ensures
        doubled(base, i) <= doubled(base, j),
    decreases j,
{
    if i < j {
        lemma_doubled_monotone(base, i, (j - 1) as nat);
    }
}

/// Doubling once more doubles the value.
pub proof fn lemma_doubled_step(base: nat, i: nat)
    ensures
        doubled(base, i + 1) == 2 * doubled(base, i),
{
}


/// The first delay is the base, unless the base is already over the cap.
pub proof fn lemma_backoff_starts_at_base(base: nat, cap: nat)
    ensures
        spec_backoff_millis(base, cap, 0) == if base <= cap {
            base
        } else {
            cap
        },
{
}

/// No delay is longer than the cap.
pub proof fn lemma_backoff_capped(base: nat, cap: nat, attempt: nat)
    ensures
        spec_backoff_millis(base, cap, attempt) <= cap,
{
}

/// Each delay is twice the one before, until the cap is reached.
pub proof fn lemma_backoff_doubles(base: nat, cap: nat, attempt: nat)
    ensures
        spec_backoff_millis(base, cap, attempt + 1) == if 2 * spec_backoff_millis(
            base,
            cap,
            attempt,
        ) <= cap {
            2 * spec_backoff_millis(base, cap, attempt)
        } else {
            cap
        },
{
    lemma_doubled_step(base, attempt);
}

/// A later attempt never waits less than an earlier one.
pub proof fn lemma_backoff_monotone(base: nat, cap: nat, i: nat, j: nat)
    requires
        i <= j,
    ensures
        spec_backoff_millis(base, cap, i) <= spec_backoff_millis(base, cap, j),
{
    lemma_doubled_monotone(base, i, j);
}

/// Computes `min(base_ms * 2^attempt, cap_ms)` without overflow, for every attempt.
pub fn backoff_millis(base_ms: u64, cap_ms: u64, attempt: u32) -> (ms: u64)
    ensures
        ms == spec_backoff_millis(base_ms as nat, cap_ms as nat, attempt as nat),
{
    if base_ms == 0 {
        proof {
            lemma_doubled_zero(attempt as nat);
        }
        return 0;
    }
    if base_ms > cap_ms {
        proof {
            lemma_doubled_monotone(base_ms as nat, 0, attempt as nat);
        }
        return cap_ms;
    }
    let mut cur: u64 = base_ms;
    let mut i: u32 = 0;
    while i < attempt
        invariant
            i <= attempt,
            cur as nat == doubled(base_ms as nat, i as nat),
            cur <= cap_ms,
        decreases attempt - i,
    {
        if cur > cap_ms / 2 {
            proof {
                lemma_doubled_step(base_ms as nat, i as nat);
                lemma_doubled_monotone(base_ms as nat, (i + 1) as nat, attempt as nat);
            }
            return cap_ms;
        }
        cur = cur * 2;
        i = i + 1;
    }
    cur
}

/// Base doubled any number of times stays zero.
proof fn lemma_doubled_zero(times: nat)
    ensures
        doubled(0, times) == 0,
    decreases times,
{
    if times > 0 {
        lemma_doubled_zero((times - 1) as nat);
    }
}

/// The delay before retry number `attempt`, for a given base and cap in milliseconds.
pub fn backoff_delay(base_ms: u64, cap_ms: u64, attempt: u32) -> (d: Duration)
    ensures
        d == duration_from_millis(
            spec_backoff_millis(base_ms as nat, cap_ms as nat, attempt as nat) as u64,
        ),
{
    let ms = backoff_millis(base_ms, cap_ms, attempt);
    millis_to_duration(ms)
}

/// The delay before retry number `attempt`: 2.5 seconds doubled per attempt,
/// capped at one minute.
pub fn exponential_backoff(attempt: u32) -> (d: Duration)
    ensures
        d == retry_delay(attempt as nat),
{
    backoff_delay(BACKOFF_BASE_MS, BACKOFF_CAP_MS, attempt)
}

} // verus!
