//! Errors of I/O operations, as far as the decisions here look into them.

use vstd::prelude::*;

verus! {

/// What kind of error an I/O operation met.
#[derive(Clone, Copy, Debug, PartialEq, Eq, Structural)]
pub enum ErrorKind {
    /// The operation cannot go on without blocking; it may when the handle is ready.
    WouldBlock,
    /// Anything else.
    Other,
}

/// An error of an I/O operation.
#[derive(Debug)]
pub struct Error<E> {
    /// What kind of error it is.
    pub kind: ErrorKind,
    /// The error itself.
    pub error: E,
}

/// Tells if an I/O operation has come to an end: it succeeded, or failed with an error other than
/// that it would block.
pub open spec fn is_final<R, E>(outcome: Result<R, Error<E>>) -> bool {
    match outcome {
        Ok(_) => true,
        Err(error) => error.kind != ErrorKind::WouldBlock,
    }
}

/// What an operation returns to its caller.
pub open spec fn returned<R, E>(outcome: Result<R, Error<E>>) -> Result<R, E> {
    match outcome {
        Ok(value) => Ok(value),
        Err(error) => Err(error.error),
    }
}

/// Decides if an operation has come to an end, and with what: `None` if it would block and has
/// to be tried again.
pub fn settle<R, E>(outcome: Result<R, Error<E>>) -> (settled: Option<Result<R, E>>)
    ensures
        settled is Some <==> is_final(outcome),
        settled matches Some(result) ==> result == returned(outcome),
        settled is None <==> (outcome matches Err(error) && error.kind == ErrorKind::WouldBlock),
        outcome matches Ok(value) ==> settled == Some(Ok::<R, E>(value)),
        settled matches Some(Err(error)) ==> outcome is Err && error == outcome->Err_0.error,
{
    match outcome {
        Ok(value) => Some(Ok(value)),
        Err(error) => if error.kind == ErrorKind::WouldBlock {
            None
        } else {
            Some(Err(error.error))
        },
    }
}

/// Only an error that says that the operation would block leaves it without an end; everything else
/// is returned as it came.
pub proof fn law_only_blocking_is_not_final<R, E>(outcome: Result<R, Error<E>>)
    ensures
        !is_final(outcome) <==> (outcome matches Err(error) && error.kind
            == ErrorKind::WouldBlock),
        outcome matches Ok(value) ==> returned(outcome) == Ok::<R, E>(value),
        outcome matches Err(error) ==> returned(outcome) == Err::<R, E>(error.error),
{
}

} // verus!
