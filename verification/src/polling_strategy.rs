use std::time::Duration;
use vstd::prelude::*;

verus! {

/// What one poll of the underlying stream produced.
#[derive(Debug)]
pub enum PollingResult<T, ItemErr> {
    /// The stream yielded an item.
    Item(T),
    /// The stream yielded an error in place of an item.
    Error(ItemErr),
    /// The stream has no more items.
    StreamEnded,
    /// No item came before the deadline.
    Timeout,
}

/// Poll with a deadline: an item that does not come within the duration counts as
/// a timeout.
#[derive(Debug, Clone, Copy)]
pub struct WithTimeout(pub Duration);

/// Poll without a deadline: wait as long as the stream needs.
#[derive(Debug, Clone, Copy)]
pub struct WithoutTimeout;

/// How the outcome of one poll reads, where `None` stands for the end of the
/// stream.
pub open spec fn spec_read_next<T, E>(next: Option<Result<T, E>>) -> PollingResult<T, E> {
    match next {
        Some(Ok(item)) => PollingResult::Item(item),
        Some(Err(err)) => PollingResult::Error(err),
        None => PollingResult::StreamEnded,
    }
}

/// How the outcome of one poll under a deadline reads, where the outer `None`
/// stands for a deadline that passed first.
pub open spec fn spec_read_timed<T, E>(outcome: Option<Option<Result<T, E>>>) -> PollingResult<
    T,
    E,
> {
    match outcome {
        Some(next) => spec_read_next(next),
        None => PollingResult::Timeout,
    }
}

impl WithTimeout {
    /// Reads the outcome of one poll under the deadline: `None` when the deadline
    /// passed first, else what the stream produced.
    pub fn poll_result<T, E>(&self, outcome: Option<Option<Result<T, E>>>) -> (r: PollingResult<
        T,
        E,
    >)
        ensures
            r == spec_read_timed(outcome),
            outcome matches Some(Some(Ok(item))) ==> r == PollingResult::<T, E>::Item(item),
            outcome matches Some(Some(Err(err))) ==> r == PollingResult::<T, E>::Error(err),
            outcome == Some(None::<Result<T, E>>) ==> r == PollingResult::<T, E>::StreamEnded,
            outcome is None ==> r == PollingResult::<T, E>::Timeout,
    {
        match outcome {
            Some(Some(Ok(item))) => PollingResult::Item(item),
            Some(Some(Err(err))) => PollingResult::Error(err),
            Some(None) => PollingResult::StreamEnded,
            None => PollingResult::Timeout,
        }
    }
}

impl WithoutTimeout {
    /// Reads what the stream produced; with no deadline there is never a timeout.
    pub fn poll_result<T, E>(&self, next: Option<Result<T, E>>) -> (r: PollingResult<T, E>)
        ensures
            r == spec_read_next(next),
            !(r is Timeout),
            next matches Some(Ok(item)) ==> r == PollingResult::<T, E>::Item(item),
            next matches Some(Err(err)) ==> r == PollingResult::<T, E>::Error(err),
            next is None ==> r == PollingResult::<T, E>::StreamEnded,
    {
        match next {
            Some(Ok(item)) => PollingResult::Item(item),
            Some(Err(err)) => PollingResult::Error(err),
            None => PollingResult::StreamEnded,
        }
    }
}

/// Under either strategy an item reads as that item, an item error as that
/// error, and the end of the stream as its end; only a deadline that passed first
/// reads as a timeout.
pub proof fn lemma_poll_reading<T, E>(item: T, err: E)
    ensures
        spec_read_next(Some(Ok::<T, E>(item))) == PollingResult::<T, E>::Item(item),
        spec_read_next(Some(Err::<T, E>(err))) == PollingResult::<T, E>::Error(err),
        spec_read_next(None::<Result<T, E>>) == PollingResult::<T, E>::StreamEnded,
        spec_read_timed(Some(Some(Ok::<T, E>(item)))) == PollingResult::<T, E>::Item(item),
        spec_read_timed(Some(Some(Err::<T, E>(err)))) == PollingResult::<T, E>::Error(err),
        spec_read_timed(Some(None::<Result<T, E>>)) == PollingResult::<T, E>::StreamEnded,
        spec_read_timed(None::<Option<Result<T, E>>>) == PollingResult::<T, E>::Timeout,
{
}

} // verus!
