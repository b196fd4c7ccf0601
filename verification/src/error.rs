//! The failure classes of the store, and the rule for a lookup that found
//! no entry.

use vstd::prelude::*;

verus! {

/// Why a value could not be handed out.
#[derive(Debug, Clone, Copy, PartialEq, Eq, Structural)]
pub enum PerformError {
    /// The lock was held elsewhere. Ask again; nothing is wrong.
    Locked,
    /// The identifier has no slot: it was never registered, its registration
    /// is not visible yet, or its value was taken already.
    NotFound,
    /// No value has been written yet.
    Empty,
}

impl PerformError {
    /// The name of the failure class, as a sequence of characters.
    pub open spec fn label(self) -> Seq<char> {
        match self {
            PerformError::Locked => "Locked"@,
            PerformError::NotFound => "NotFound"@,
            PerformError::Empty => "Empty"@,
        }
    }

    /// The text shown for this failure.
    pub fn message(&self) -> (text: &'static str)
        ensures
            text@ == self.label(),
    {
        match self {
            PerformError::Locked => "Locked",
            PerformError::NotFound => "NotFound",
            PerformError::Empty => "Empty",
        }
    }
}

/// What `ok_or_empty` returns: the result that the lookup found, or
/// `NotFound` where the identifier had no entry.
pub open spec fn found_or_missing<T>(option: Option<Result<T, PerformError>>) -> Result<
    T,
    PerformError,
> {
    match option {
        Some(result) => result,
        None => Err(PerformError::NotFound),
    }
}

/// Unwraps what the lookup of an identifier found. A lookup that came back
/// empty means that the identifier has no entry, and reads as `NotFound`.
pub fn ok_or_empty<T>(option: Option<Result<T, PerformError>>) -> (found: Result<T, PerformError>)
    ensures
        found == found_or_missing(option),
{
    match option {
        Some(result) => result,
        None => Err(PerformError::NotFound),
    }
}

} // verus!
