//! Reading a number and doubling it, with a reading failure handed to the caller untouched.

use crate::decimal::{decimal_i32, parse_i32, parsed_i32};
use crate::outcome::widened;
use std::num::ParseIntError;
use vstd::prelude::*;

verus! {

/// Whether twice `n` is still a 32-bit integer.
pub open spec fn double_fits(n: i32) -> bool {
    i32::MIN <= 2 * n <= i32::MAX
}

/// What reading and doubling `text` comes to: twice the number it writes, or the reader's own
/// failure.
pub open spec fn doubled_outcome(text: Seq<char>) -> Result<int, ParseIntError> {
    match parsed_i32(text) {
        Ok(n) => Ok(2 * n),
        Err(failure) => Err(failure),
    }
}

/// Reads `s` as a 32-bit integer and doubles it. A text that is no such integer fails with the
/// reader's failure, passed on as it is.
///
/// The caller vouches that the double fits; `checked_parse_and_double` asks for nothing.
pub fn parse_and_double(s: &str) -> (outcome: Result<i32, ParseIntError>)
    requires
        decimal_i32(s@) matches Some(n) ==> double_fits(n),
    ensures
        widened(outcome) == doubled_outcome(s@),
{
    let num: i32 = parse_i32(s)?;
    Ok(num * 2)
}

/// `parse_and_double` for any text: `None` where the number reads well but its double does not
/// fit in 32 bits, and the outcome of `parse_and_double` everywhere else.
pub fn checked_parse_and_double(s: &str) -> (outcome: Option<Result<i32, ParseIntError>>)
    ensures
        outcome is None <==> (decimal_i32(s@) matches Some(n) && !double_fits(n)),
        outcome matches Some(inner) ==> widened(inner) == doubled_outcome(s@),
{
    match parse_i32(s) {
        Ok(num) if num.checked_mul(2).is_none() => None,
        _ => Some(parse_and_double(s)),
    }
}

/// Reading and doubling the same text twice gives the same outcome: two results that each meet
/// the contract of `parse_and_double` are equal, failure included.
pub proof fn parse_and_double_is_repeatable(
    text: Seq<char>,
    first: Result<i32, ParseIntError>,
    second: Result<i32, ParseIntError>,
)
    requires
        widened(first) == doubled_outcome(text),
        widened(second) == doubled_outcome(text),
    ensures
        first == second,
{
}

} // verus!
