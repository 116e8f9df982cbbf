//! Integer division as a fallible operation: a zero divisor is an outcome, not a trap.

use vstd::prelude::*;

verus! {

/// The text carried by the failure of a division by zero.
pub const ZERO_DIVISOR_MESSAGE: &'static str = "Cannot divide by zero";

/// The size of an integer with its sign dropped.
pub open spec fn magnitude(x: int) -> int {
    if x < 0 {
        -x
    } else {
        x
    }
}

/// The quotient of `a` by `b` rounded toward zero: the sizes are divided, and the result is
/// negative exactly when the operands differ in sign.
pub open spec fn quotient_toward_zero(a: int, b: int) -> int
    recommends
        b != 0,
{
    let size = magnitude(a) / magnitude(b);
    if (a < 0) == (b < 0) {
        size
    } else {
        -size
    }
}

/// What dividing `a` by `b` comes to: the quotient, or the fixed message when `b` is zero.
pub open spec fn divide_outcome(a: int, b: int) -> Result<int, Seq<char>> {
    if b == 0 {
        Err(ZERO_DIVISOR_MESSAGE@)
    } else {
        Ok(quotient_toward_zero(a, b))
    }
}

/// A division outcome as mathematics sees it: an unbounded integer, or the characters of a
/// message.
pub open spec fn outcome_view(outcome: Result<i32, String>) -> Result<int, Seq<char>> {
    match outcome {
        Ok(quotient) => Ok(quotient as int),
        Err(message) => Err(message@),
    }
}

/// Rounding toward zero never overshoots: the quotient times the divisor is no larger in size
/// than the dividend, what is left over is smaller in size than the divisor, and it is on the
/// dividend's side of zero.
pub proof fn quotient_rounds_toward_zero(a: int, b: int)
    by (nonlinear_arith)
    requires
        b != 0,
    ensures
        magnitude(quotient_toward_zero(a, b) * b) <= magnitude(a),
        magnitude(a - quotient_toward_zero(a, b) * b) < magnitude(b),
        a >= 0 ==> a - quotient_toward_zero(a, b) * b >= 0,
        a <= 0 ==> a - quotient_toward_zero(a, b) * b <= 0,
{
}

/// Rounding toward zero is the only choice: no other quotient leaves over something smaller in
/// size than the divisor and on the dividend's side of zero.
pub proof fn quotient_toward_zero_is_unique(a: int, b: int, q: int)
    by (nonlinear_arith)
    requires
        b != 0,
        magnitude(a - q * b) < magnitude(b),
        a >= 0 ==> a - q * b >= 0,
        a <= 0 ==> a - q * b <= 0,
    ensures
        q == quotient_toward_zero(a, b),
{
}

/// The quotient of two 32-bit integers fits in 32 bits but for `i32::MIN / -1`, and equals the
/// machine's own division.
proof fn lemma_machine_quotient(a: int, b: int)
    by (nonlinear_arith)
    requires
        i32::MIN <= a <= i32::MAX,
        i32::MIN <= b <= i32::MAX,
        b != 0,
        !(a == i32::MIN && b == -1),
    ensures
        i32::MIN <= quotient_toward_zero(a, b) <= i32::MAX,
        a >= 0 ==> a / b == quotient_toward_zero(a, b),
        a < 0 ==> -((-a) / b) == quotient_toward_zero(a, b),
{
}

/// Divides `a` by `b`, rounding toward zero; a zero divisor fails with `ZERO_DIVISOR_MESSAGE`.
///
/// The one pair left out is `i32::MIN / -1`, whose quotient is not a 32-bit integer.
pub fn divide(a: i32, b: i32) -> (outcome: Result<i32, String>)
    requires
        !(a == i32::MIN && b == -1),
    ensures
        outcome_view(outcome) == divide_outcome(a as int, b as int),
{
    if b == 0 {
        Err(ZERO_DIVISOR_MESSAGE.to_owned())
    } else {
        proof {
            lemma_machine_quotient(a as int, b as int);
        }
        Ok(a / b)
    }
}

/// Dividing the same numbers twice gives the same outcome: two results that each meet the
/// contract of `divide` agree in kind, in quotient and in message.
pub proof fn divide_is_repeatable(
    a: i32,
    b: i32,
    first: Result<i32, String>,
    second: Result<i32, String>,
)
    requires
        outcome_view(first) == divide_outcome(a as int, b as int),
        outcome_view(second) == divide_outcome(a as int, b as int),
    ensures
        first is Ok <==> second is Ok,
        first is Ok ==> first->Ok_0 == second->Ok_0,
        first is Err ==> first->Err_0@ == second->Err_0@,
{
}

} // verus!
