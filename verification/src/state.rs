//! What a slot holds, and how a taken slot reads as a plain value.

use crate::error::PerformError;
use vstd::prelude::*;

verus! {

/// The state of one registered operation.
#[derive(Debug, Clone, PartialEq, Eq)]
pub enum PerformState<T> {
    /// The operation is registered and has produced nothing yet.
    Empty,
    /// The operation finished and left this value.
    Done(T),
}

impl<T> PerformState<T> {
    /// Whether the operation has finished.
    pub fn is_done(&self) -> (done: bool)
        ensures
            done == (self is Done),
    {
        match self {
            PerformState::Empty => false,
            PerformState::Done(_) => true,
        }
    }
}

/// What a take returns: the state of the slot, or why there is none to
/// report.
pub type StoreEntry<T> = Result<PerformState<T>, PerformError>;

/// The outcome of a take without the slot's state in it: the value of a
/// finished operation, `Empty` for one that has not finished, and any
/// failure as it is.
pub open spec fn delivered<T>(taken: StoreEntry<T>) -> Result<T, PerformError> {
    match taken {
        Ok(PerformState::Done(value)) => Ok(value),
        Ok(PerformState::Empty) => Err(PerformError::Empty),
        Err(error) => Err(error),
    }
}

/// Reads the outcome of a take as a value or a failure. A slot that is
/// still empty gives `Empty`.
pub fn value_or_error<T>(taken: StoreEntry<T>) -> (outcome: Result<T, PerformError>)
    ensures
        outcome == delivered(taken),
{
    match taken {
        Ok(PerformState::Done(value)) => Ok(value),
        Ok(PerformState::Empty) => Err(PerformError::Empty),
        Err(error) => Err(error),
    }
}

} // verus!
