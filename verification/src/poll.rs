//! The two result shapes that the bridge mediates between: the poll-driven
//! one (`Poll`, ready or pending) and the blocking-style one (`SyncError`,
//! a failure that may be the would-block signal).

use vstd::prelude::*;

verus! {

/// The outcome of one poll of a resumable operation.
#[derive(Debug, PartialEq, Eq)]
pub enum Poll<T> {
    /// The operation has completed with this value.
    Ready(T),
    /// The operation cannot make progress yet; a wake-up has been arranged.
    Pending,
}

/// The failure of one blocking-style call.
#[derive(Debug, PartialEq, Eq)]
pub enum SyncError<E> {
    /// The call needs more input or output before it can complete. This is a
    /// signal between the adapter and the engine, never a failure to report.
    WouldBlock,
    /// The transport or the engine failed.
    Other(E),
}

/// What a blocking-style caller is told for a poll outcome: a ready outcome
/// as it is, a pending one as the would-block signal.
pub open spec fn blocking_of<R, E>(polled: Poll<Result<R, E>>) -> Result<R, SyncError<E>> {
    match polled {
        Poll::Ready(Ok(value)) => Ok(value),
        Poll::Ready(Err(error)) => Err(SyncError::Other(error)),
        Poll::Pending => Err(SyncError::WouldBlock),
    }
}

/// What a poll-driven caller is told for the outcome of a blocking-style call:
/// the would-block signal suspends, everything else is ready.
pub open spec fn polled_of<R, E>(outcome: Result<R, SyncError<E>>) -> Poll<Result<R, E>> {
    match outcome {
        Ok(value) => Poll::Ready(Ok(value)),
        Err(SyncError::WouldBlock) => Poll::Pending,
        Err(SyncError::Other(error)) => Poll::Ready(Err(error)),
    }
}

impl<R, E> Poll<Result<R, E>> {
    /// Turns a poll outcome into the result of a blocking-style call.
    pub fn into_blocking(self) -> (outcome: Result<R, SyncError<E>>)
        ensures
            outcome == blocking_of(self),
    {
        match self {
            Poll::Ready(Ok(value)) => Ok(value),
            Poll::Ready(Err(error)) => Err(SyncError::Other(error)),
            Poll::Pending => Err(SyncError::WouldBlock),
        }
    }

    /// Turns the result of a blocking-style call into a poll outcome.
    pub fn from_blocking(outcome: Result<R, SyncError<E>>) -> (polled: Self)
        ensures
            polled == polled_of(outcome),
    {
        match outcome {
            Ok(value) => Poll::Ready(Ok(value)),
            Err(SyncError::WouldBlock) => Poll::Pending,
            Err(SyncError::Other(error)) => Poll::Ready(Err(error)),
        }
    }
}

/// The bridge is transparent: an outcome that crosses it from the transport
/// to the engine and back reaches the caller as the transport gave it. In
/// particular the would-block signal never comes out as a failure.
pub proof fn lemma_bridge_round_trip<R, E>(polled: Poll<Result<R, E>>)
    ensures
        polled_of(blocking_of(polled)) == polled,
        polled is Pending <==> blocking_of(polled) == Err::<R, SyncError<E>>(SyncError::WouldBlock),
{
}

/// The other direction: a blocking-style result survives the trip through
/// the poll-driven shape.
pub proof fn lemma_blocking_round_trip<R, E>(outcome: Result<R, SyncError<E>>)
    ensures
        blocking_of(polled_of(outcome)) == outcome,
        polled_of(outcome) is Pending <==> outcome == Err::<R, SyncError<E>>(SyncError::WouldBlock),
{
}

} // verus!
