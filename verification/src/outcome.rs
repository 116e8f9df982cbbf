//! Outcomes: a success with its value or a failure with its cause, and the ways to open one.

use std::fmt::Debug;
use vstd::prelude::*;

verus! {

/// An outcome with its success value read as an unbounded integer.
pub open spec fn widened<E>(outcome: Result<i32, E>) -> Result<int, E> {
    match outcome {
        Ok(value) => Ok(value as int),
        Err(failure) => Err(failure),
    }
}

/// An outcome is a success or a failure: always one of the two, never both, and it is made of
/// nothing but the value or the cause it carries.
pub proof fn outcome_is_success_or_failure<T, E>(outcome: Result<T, E>)
    ensures
        outcome is Ok <==> !(outcome is Err),
        outcome is Ok ==> outcome == Ok::<T, E>(outcome->Ok_0),
        outcome is Err ==> outcome == Err::<T, E>(outcome->Err_0),
{
}

/// Takes the value out of an outcome and gives up on a failure. Here giving up is ruled out
/// ahead of the call: the caller shows that the outcome is a success.
pub fn unwrap_success<T, E: Debug>(outcome: Result<T, E>) -> (value: T)
    requires
        outcome is Ok,
    ensures
        outcome == Ok::<T, E>(value),
{
    outcome.unwrap()
}

/// Takes the value out of an outcome and gives up on a failure with `message`. Here giving up
/// is ruled out ahead of the call: the caller shows that the outcome is a success, and
/// `message` plays no part.
pub fn expect_success<T, E: Debug>(outcome: Result<T, E>, message: &str) -> (value: T)
    requires
        outcome is Ok,
    ensures
        outcome == Ok::<T, E>(value),
{
    outcome.expect(message)
}

} // verus!
