//! Reading a number and doubling it, with every way to fail gathered under one error type.

use crate::decimal::{decimal_i32, parse_i32, parsed_i32};
use crate::outcome::widened;
use crate::propagation::{double_fits, doubled_outcome};
use std::num::ParseIntError;
use vstd::prelude::*;
use vstd::std_specs::convert::FromSpecImpl;

verus! {

/// The ways `parse_and_double_custom_err` can fail.
#[derive(Debug)]
pub enum MyError {
    /// The text wrote the number zero.
    DivisionByZero,
    /// The text wrote no 32-bit integer; the reader's failure is kept inside.
    ParseError(ParseIntError),
}

impl From<ParseIntError> for MyError {
    /// Wraps a reading failure, unchanged, as a `ParseError`.
    fn from(err: ParseIntError) -> (wrapped: Self) {
        MyError::ParseError(err)
    }
}

impl FromSpecImpl<ParseIntError> for MyError {
    open spec fn obeys_from_spec() -> bool {
        true
    }

    open spec fn from_spec(err: ParseIntError) -> Self {
        MyError::ParseError(err)
    }
}

/// What reading and doubling `text` comes to under the single error type: a reading failure
/// wrapped as `ParseError`, `DivisionByZero` for the number zero, and twice the number
/// otherwise.
pub open spec fn custom_outcome(text: Seq<char>) -> Result<int, MyError> {
    match parsed_i32(text) {
        Err(failure) => Err(MyError::ParseError(failure)),
        Ok(n) => if n == 0 {
            Err(MyError::DivisionByZero)
        } else {
            Ok(2 * n)
        },
    }
}

/// Reads `s` as a 32-bit integer and doubles it, failing with a `MyError` either way: a text
/// that is no such integer gives the reader's failure as `MyError::from` wraps it, and the
/// number zero gives `DivisionByZero`.
///
/// The caller vouches that the double fits; `checked_parse_and_double_custom_err` asks for
/// nothing.
pub fn parse_and_double_custom_err(s: &str) -> (outcome: Result<i32, MyError>)
    requires
        decimal_i32(s@) matches Some(n) ==> double_fits(n),
    ensures
        widened(outcome) == custom_outcome(s@),
{
    let num: i32 = match parse_i32(s) {
        Ok(num) => num,
        Err(failure) => return Err(MyError::from(failure)),
    };
    if num == 0 {
        Err(MyError::DivisionByZero)
    } else {
        Ok(num * 2)
    }
}

/// `parse_and_double_custom_err` for any text: `None` where the number reads well but its
/// double does not fit in 32 bits, and the outcome of `parse_and_double_custom_err` everywhere
/// else.
pub fn checked_parse_and_double_custom_err(s: &str) -> (outcome: Option<Result<i32, MyError>>)
    ensures
        outcome is None <==> (decimal_i32(s@) matches Some(n) && !double_fits(n)),
        outcome matches Some(inner) ==> widened(inner) == custom_outcome(s@),
{
    match parse_i32(s) {
        Ok(num) if num.checked_mul(2).is_none() => None,
        _ => Some(parse_and_double_custom_err(s)),
    }
}

/// Under the single error type the outcome is that of plain reading and doubling but for two
/// things: the reader's failure comes wrapped as `ParseError`, and a double of zero becomes
/// `DivisionByZero`.
pub proof fn custom_outcome_follows_doubled_outcome(text: Seq<char>)
    ensures
        custom_outcome(text) == match doubled_outcome(text) {
            Err(failure) => Err(MyError::ParseError(failure)),
            Ok(double) => if double == 0 {
                Err(MyError::DivisionByZero)
            } else {
                Ok(double)
            },
        },
{
}

/// Reading and doubling the same text twice gives the same outcome: two results that each meet
/// the contract of `parse_and_double_custom_err` are equal, failure included.
pub proof fn parse_and_double_custom_err_is_repeatable(
    text: Seq<char>,
    first: Result<i32, MyError>,
    second: Result<i32, MyError>,
)
    requires
        widened(first) == custom_outcome(text),
        widened(second) == custom_outcome(text),
    ensures
        first == second,
{
}

} // verus!
