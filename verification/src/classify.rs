//! Telling a call that would block from one that failed.
//!
//! A readiness report is advisory: by the time the call runs, the descriptor
//! may no longer be usable, and the operating system answers "would block".
//! That answer is no failure of the operation. Every other error is.

use crate::operation::Attempt;
use vstd::prelude::*;

verus! {

/// `std::io::Error`, as a value that is carried through and never looked
/// into.
#[verifier::external_type_specification]
#[verifier::external_body]
pub struct ExIoError(std::io::Error);

/// Whether `std::io::Error::kind` says `ErrorKind::WouldBlock` of `error`.
pub uninterp spec fn is_would_block(error: std::io::Error) -> bool;

/// Calls `std::io::Error::kind` and reports whether the kind is
/// `ErrorKind::WouldBlock`. The kind of an error is fixed when the error is
/// made, so the answer is a function of the error alone; nothing more is
/// claimed of it.
#[verifier::external_body]
fn would_block(error: &std::io::Error) -> (b: bool)
    ensures
        b == is_would_block(*error),
{
    match error.kind() {
        std::io::ErrorKind::WouldBlock => true,
        _ => false,
    }
}

/// What a failed attempt counts as, once it is known whether it would have
/// blocked.
pub open spec fn spec_classify_error<T, E>(error: E, blocked: bool) -> Attempt<T, E> {
    if blocked {
        Attempt::WouldBlock
    } else {
        Attempt::Failed(error)
    }
}

/// What the result of a non-blocking call counts as.
pub open spec fn spec_classify<T>(result: Result<T, std::io::Error>) -> Attempt<
    T,
    std::io::Error,
> {
    match result {
        Ok(value) => Attempt::Done(value),
        Err(error) => spec_classify_error(error, is_would_block(error)),
    }
}

/// Classifies a failed attempt whose error is `error`, given whether the
/// error says that the call would have blocked. A blocked call is absorbed
/// and its error dropped; any other error is kept as it is.
pub fn classify_error<T, E>(error: E, blocked: bool) -> (attempt: Attempt<T, E>)
    ensures
        attempt == spec_classify_error::<T, E>(error, blocked),
{
    if blocked {
        Attempt::WouldBlock
    } else {
        Attempt::Failed(error)
    }
}

/// Classifies the result of one non-blocking call: success, "would block",
/// or a failure that carries the error unmodified.
pub fn classify<T>(result: Result<T, std::io::Error>) -> (attempt: Attempt<T, std::io::Error>)
    ensures
        attempt == spec_classify(result),
{
    match result {
        Ok(value) => Attempt::Done(value),
        Err(error) => {
            let blocked = would_block(&error);
            classify_error(error, blocked)
        },
    }
}

} // verus!
