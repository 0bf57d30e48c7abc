use std::time::Duration;
use vstd::prelude::*;

verus! {

/// The `Duration` that `std::time::Duration::from_millis` builds from a count of
/// milliseconds.
pub uninterp spec fn duration_from_millis(millis: u64) -> Duration;

/// Calls `std::time::Duration::from_millis`. The contract claims only that the
/// result is the duration named by `duration_from_millis` for the same count, so
/// that equal counts give equal durations; nothing is said of its inside.
#[verifier::external_body]
pub(crate) fn millis_to_duration(millis: u64) -> (d: Duration)
    ensures
        d == duration_from_millis(millis),
{
    Duration::from_millis(millis)
}

} // verus!
