use vstd::prelude::*;
use vstd::arithmetic::power::lemma_pow0;

use crate::error::ErrorCode;
use crate::model::{add_result, div_result, mul_result, pow_result, sub_result};

verus! {

/// Safe arithmetic over one fixed unsigned integer width.
///
/// Each operation is a pure function of its two operands: it returns the
/// mathematically exact result when that result is representable at this
/// width, and otherwise fails with the one [`ErrorCode`] that names the
/// reason. No operation panics, wraps, or truncates.
pub trait SafeMath: Sized {
    /// The operand and result type; the same width as `Self`.
    type Output;

    /// The mathematical value of the receiver.
    spec fn sval(&self) -> int;

    /// The mathematical value of an operand or result.
    spec fn oval(v: Self::Output) -> int;

    /// The largest value representable at this width.
    spec fn width_max() -> int;

    /// At least one value besides zero is representable at every width.
    proof fn width_max_positive()
        ensures
            Self::width_max() >= 1,
    ;

    /// Operands with equal mathematical values are equal.
    proof fn oval_injective(x: Self::Output, y: Self::Output)
        requires
            Self::oval(x) == Self::oval(y),
        ensures
            x == y,
    ;

    /// Returns the exact sum of `self` and `rhs`, or fails with `Overflow`
    /// when the sum does not fit at this width.
    fn safe_add(&self, rhs: Self::Output) -> (r: Result<Self::Output, ErrorCode>)
        ensures
            (match r {
                Ok(v) => add_result(self.sval(), Self::oval(rhs), Self::width_max()) == Ok::<
                    int,
                    ErrorCode,
                >(Self::oval(v)),
                Err(e) => add_result(self.sval(), Self::oval(rhs), Self::width_max()) == Err::<
                    int,
                    ErrorCode,
                >(e),
            }),
    ;

    /// Returns the exact difference of `self` and `rhs`, or fails with
    /// `Underflow` when the difference would be negative.
    fn safe_sub(&self, rhs: Self::Output) -> (r: Result<Self::Output, ErrorCode>)
        ensures
            (match r {
                Ok(v) => sub_result(self.sval(), Self::oval(rhs)) == Ok::<int, ErrorCode>(
                    Self::oval(v),
                ),
                Err(e) => sub_result(self.sval(), Self::oval(rhs)) == Err::<int, ErrorCode>(e),
            }),
    ;

    /// Returns the exact product of `self` and `rhs` when it fits at this
    /// width. A product that does not fit is reported as `Underflow`, not
    /// `Overflow`: callers match on the stable numeric code of the kind, so
    /// the mapping is kept as it stands.
    fn safe_mul(&self, rhs: Self::Output) -> (r: Result<Self::Output, ErrorCode>)
        ensures
            (match r {
                Ok(v) => mul_result(self.sval(), Self::oval(rhs), Self::width_max()) == Ok::<
                    int,
                    ErrorCode,
                >(Self::oval(v)),
                Err(e) => mul_result(self.sval(), Self::oval(rhs), Self::width_max()) == Err::<
                    int,
                    ErrorCode,
                >(e),
            }),
    ;

    /// Returns the exact integer quotient of `self` by `rhs`, or fails with
    /// `DivisionByZero` when `rhs` is zero.
    fn safe_div(&self, rhs: Self::Output) -> (r: Result<Self::Output, ErrorCode>)
        ensures
            (match r {
                Ok(v) => div_result(self.sval(), Self::oval(rhs)) == Ok::<int, ErrorCode>(
                    Self::oval(v),
                ),
                Err(e) => div_result(self.sval(), Self::oval(rhs)) == Err::<int, ErrorCode>(e),
            }),
    ;

    /// Returns `self` raised to `exp` exactly, or fails with `Overflow`
    /// when the power does not fit at this width. `safe_pow(a, 0)` is 1 for
    /// every `a`, including 0.
    fn safe_pow(&self, exp: u32) -> (r: Result<Self::Output, ErrorCode>)
        ensures
            (match r {
                Ok(v) => pow_result(self.sval(), exp as nat, Self::width_max()) == Ok::<
                    int,
                    ErrorCode,
                >(Self::oval(v)),
                Err(e) => pow_result(self.sval(), exp as nat, Self::width_max()) == Err::<
                    int,
                    ErrorCode,
                >(e),
            }),
    ;
}

/// Relates an operation's returned value to the outcome the model demands:
/// a success must carry exactly the modelled value, a failure must carry
/// exactly the modelled error kind. Every `ensures` of [`SafeMath`] states
/// this relation between its result and the model of its operation.
pub open spec fn lifts_to<T: SafeMath>(r: Result<T::Output, ErrorCode>, m: Result<
    int,
    ErrorCode,
>) -> bool {
    match r {
        Ok(v) => m == Ok::<int, ErrorCode>(T::oval(v)),
        Err(e) => m == Err::<int, ErrorCode>(e),
    }
}

/// An operation called twice with the same operands yields the same result:
/// the contract pins every outcome to a function of the operands alone, so
/// any two results it admits for one modelled outcome are equal.
pub proof fn lemma_operation_deterministic<T: SafeMath>(
    m: Result<int, ErrorCode>,
    r1: Result<T::Output, ErrorCode>,
    r2: Result<T::Output, ErrorCode>,
)
    requires
        lifts_to::<T>(r1, m),
        lifts_to::<T>(r2, m),
    ensures
        r1 == r2,
{
    match (r1, r2) {
        (Ok(v1), Ok(v2)) => T::oval_injective(v1, v2),
        _ => (),
    }
}

/// Dividing any value by zero fails with `DivisionByZero`, for every
/// dividend including zero.
pub proof fn lemma_div_by_zero<T: SafeMath>(a: &T, rhs: T::Output, r: Result<
    T::Output,
    ErrorCode,
>)
    requires
        T::oval(rhs) == 0,
        lifts_to::<T>(r, div_result(a.sval(), T::oval(rhs))),
    ensures
        r == Err::<T::Output, ErrorCode>(ErrorCode::DivisionByZero),
{
}

/// Raising any value to the zeroth power succeeds and yields one, for every
/// base including zero.
pub proof fn lemma_pow_zero_exponent<T: SafeMath>(a: &T, r: Result<T::Output, ErrorCode>)
    requires
        lifts_to::<T>(r, pow_result(a.sval(), 0, T::width_max())),
    ensures
        r matches Ok(v) && T::oval(v) == 1,
{
    T::width_max_positive();
    lemma_pow0(a.sval());
}

} // verus!
