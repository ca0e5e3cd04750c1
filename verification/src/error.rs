//! Failure kinds of the session and token operations.

use vstd::prelude::*;

verus! {

/// What a record store reports when an operation did not go through.
#[derive(Clone, Copy, Debug, PartialEq, Eq, Structural)]
pub enum StorageError {
    /// The backend could not carry out the operation.
    Backend,
    /// No record has the identifier that was asked for.
    NotFound,
}

/// What an operation of this library reports to its caller.
#[derive(Clone, Copy, Debug, PartialEq, Eq, Structural)]
pub enum Error {
    /// Entropy or digest computation failed.
    GenerationFailure,
    /// The record store failed.
    StorageFailure,
    /// A referenced identifier is absent from the record store.
    NotFound,
}

impl Error {
    /// The error a caller sees for a given store error.
    pub open spec fn of_storage(e: StorageError) -> Error {
        match e {
            StorageError::Backend => Error::StorageFailure,
            StorageError::NotFound => Error::NotFound,
        }
    }

    /// Surfaces a store error unchanged in kind.
    pub fn from_storage(e: StorageError) -> (r: Error)
        ensures
            r == Self::of_storage(e),
    {
        match e {
            StorageError::Backend => Error::StorageFailure,
            StorageError::NotFound => Error::NotFound,
        }
    }

    /// A short message for logs and user-facing failures.
    pub fn message(&self) -> (r: &'static str)
        ensures
            r@ == match *self {
                Error::GenerationFailure => "generation failure"@,
                Error::StorageFailure => "storage failure"@,
                Error::NotFound => "not found"@,
            },
    {
        match self {
            Error::GenerationFailure => "generation failure",
            Error::StorageFailure => "storage failure",
            Error::NotFound => "not found",
        }
    }
}

/// What an operation returns once the store has answered.
pub open spec fn confirmed<T>(value: T, stored: Result<(), StorageError>) -> Result<T, Error> {
    match stored {
        Ok(_) => Ok(value),
        Err(e) => Err(Error::of_storage(e)),
    }
}

/// Hands `value` out if the store accepted the write, and the store's error
/// otherwise: a failed write is never silently dropped.
pub fn confirm<T>(value: T, stored: Result<(), StorageError>) -> (r: Result<T, Error>)
    ensures
        r == confirmed(value, stored),
{
    match stored {
        Ok(_) => Ok(value),
        Err(e) => Err(Error::from_storage(e)),
    }
}

/// What an operation returns, given the result of its first step and the
/// store's answer to the write that follows it. A failed step comes back as
/// it is; the store is asked only after a step that succeeded, so its answer
/// counts only there.
pub open spec fn settled<T>(step: Result<T, Error>, stored: Result<(), StorageError>) -> Result<
    T,
    Error,
> {
    match step {
        Ok(value) => confirmed(value, stored),
        Err(e) => Err(e),
    }
}

/// Settles an operation once its first step and the store have answered.
pub fn settle<T>(step: Result<T, Error>, stored: Result<(), StorageError>) -> (r: Result<T, Error>)
    ensures
        r == settled(step, stored),
{
    match step {
        Ok(value) => confirm(value, stored),
        Err(e) => Err(e),
    }
}

} // verus!
