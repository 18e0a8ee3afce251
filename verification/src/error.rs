//! Errors of arena operations.

use vstd::prelude::*;

verus! {

/// Why the slot storage refused to lend out a slot.
#[derive(Debug)]
pub enum BorrowError {
    /// The position lies beyond the last slot.
    ElementOutOfBounds,
    /// Shared access was asked for while the slot is lent out exclusively.
    ElementAlreadyBorrowedMutably,
    /// Exclusive access was asked for while the slot is lent out.
    ElementAlreadyBorrowed,
    /// Any other refusal, with the storage's message; a vacant slot is reported this way.
    Other(String),
}

/// Why an arena operation failed.
#[derive(Debug)]
pub enum ArenaError {
    /// The slot storage refused the access.
    BorrowError(BorrowError),
    /// The index passed in names no slot.
    InvalidIndexUsage,
    /// The slot addressed holds no element.
    RemovedElementAccess,
}

/// What an arena operation returns.
pub type ArenaResult<T> = Result<T, ArenaError>;

impl ArenaError {
    /// The outcome of an arena operation that handed its request on to
    /// the slot storage: what the storage gave, with a refusal of the
    /// storage wrapped as an arena error.
    pub fn from_storage<G>(outcome: Result<G, BorrowError>) -> (res: ArenaResult<G>)
        ensures
            res == match outcome {
                Ok(guard) => Ok::<G, ArenaError>(guard),
                Err(error) => Err(ArenaError::BorrowError(error)),
            },
    {
        match outcome {
            Ok(guard) => Ok(guard),
            Err(error) => Err(ArenaError::BorrowError(error)),
        }
    }
}

impl From<BorrowError> for ArenaError {
    /// The arena error that wraps `error`.
    fn from(error: BorrowError) -> (r: ArenaError) {
        ArenaError::BorrowError(error)
    }
}

impl vstd::std_specs::convert::FromSpecImpl<BorrowError> for ArenaError {
    open spec fn obeys_from_spec() -> bool {
        true
    }

    open spec fn from_spec(error: BorrowError) -> ArenaError {
        ArenaError::BorrowError(error)
    }
}

} // verus!
