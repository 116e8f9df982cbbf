//! Signed decimal notation for 32-bit integers, and the standard library's reader for it.

use std::num::ParseIntError;
use vstd::prelude::*;

verus! {

/// Declares `std::num::ParseIntError`, the standard library's account of why a text is no
/// integer. It stays closed: nothing here looks inside one, it is only handed on as it came.
#[verifier::external_type_specification]
#[verifier::external_body]
pub struct ExParseIntError(std::num::ParseIntError);

/// One of the ten ASCII digits.
pub open spec fn is_digit(c: char) -> bool {
    '0' <= c <= '9'
}

/// The number a digit stands for.
pub open spec fn digit_value(c: char) -> int
    recommends
        is_digit(c),
{
    c as int - '0' as int
}

/// A run of one or more digits.
pub open spec fn is_digit_run(digits: Seq<char>) -> bool {
    &&& digits.len() > 0
    &&& forall|i: int| 0 <= i < digits.len() ==> is_digit(#[trigger] digits[i])
}

/// The number a run of digits writes, most significant digit first.
pub open spec fn digits_value(digits: Seq<char>) -> int
    recommends
        is_digit_run(digits),
    decreases digits.len(),
{
    if digits.len() == 0 {
        0
    } else {
        10 * digits_value(digits.drop_last()) + digit_value(digits.last())
    }
}

/// The integer that `text` writes in decimal: an optional `+` or `-`, then a run of digits and
/// nothing else. Any other text writes no integer.
pub open spec fn decimal_integer(text: Seq<char>) -> Option<int> {
    if text.len() > 0 && (text[0] == '+' || text[0] == '-') {
        let digits = text.skip(1);
        if !is_digit_run(digits) {
            None
        } else if text[0] == '-' {
            Some(-digits_value(digits))
        } else {
            Some(digits_value(digits))
        }
    } else if is_digit_run(text) {
        Some(digits_value(text))
    } else {
        None
    }
}

/// The 32-bit integer that `text` writes in decimal, if it writes one that fits.
pub open spec fn decimal_i32(text: Seq<char>) -> Option<i32> {
    match decimal_integer(text) {
        Some(n) => if i32::MIN <= n <= i32::MAX {
            Some(n as i32)
        } else {
            None
        },
        None => None,
    }
}

/// The failure that `str::parse::<i32>` reports for `text`, where `text` writes no 32-bit
/// integer. Nothing is said of what it holds, only that it is settled by the text: reading the
/// same text again reports the same failure.
pub uninterp spec fn parse_failure(text: Seq<char>) -> ParseIntError;

/// What reading `text` as a 32-bit integer comes to.
pub open spec fn parsed_i32(text: Seq<char>) -> Result<i32, ParseIntError> {
    match decimal_i32(text) {
        Some(n) => Ok(n),
        None => Err(parse_failure(text)),
    }
}

/// Calls `str::parse::<i32>`. Its contract is taken on trust from the standard library's
/// documentation, not proved: a text made of an optional `+` or `-` and then ASCII digits only
/// reads as the number it writes in decimal, provided that number fits in 32 bits; every other
/// text, the empty one and a sign alone among them, fails. The failure is the one that
/// `parse_failure` names.
#[verifier::external_body]
pub(crate) fn parse_i32(s: &str) -> (parsed: Result<i32, ParseIntError>)
    ensures
        parsed == match decimal_i32(s@) {
            Some(n) => Ok::<i32, ParseIntError>(n),
            None => Err(parse_failure(s@)),
        },
{
    s.parse::<i32>()
}

} // verus!
