use vstd::prelude::*;

verus! {

/// The three ways a safe arithmetic operation can fail. The set is closed:
/// no operation of this library fails in any other way.
#[derive(Clone, Copy, Debug, PartialEq, Eq, Structural)]
pub enum ErrorCode {
    /// The mathematical result exceeds the largest representable value.
    Overflow,
    /// The mathematical result would be negative.
    Underflow,
    /// The divisor is zero.
    DivisionByZero,
}

/// The stable numeric code of an error kind: its zero-based position in the
/// enumeration. Callers match on these codes, so the mapping must never
/// change: `Overflow` is 0, `Underflow` is 1, `DivisionByZero` is 2.
pub open spec fn spec_code(e: ErrorCode) -> u32 {
    match e {
        ErrorCode::Overflow => 0,
        ErrorCode::Underflow => 1,
        ErrorCode::DivisionByZero => 2,
    }
}

impl ErrorCode {
    /// The numeric code of this error kind, for export to a host error
    /// representation that carries an integer code.
    pub fn code(&self) -> (c: u32)
        ensures
            c == spec_code(*self),
    {
        match self {
            ErrorCode::Overflow => 0,
            ErrorCode::Underflow => 1,
            ErrorCode::DivisionByZero => 2,
        }
    }

    /// The fixed human-readable description of this error kind.
    pub fn message(&self) -> (m: &'static str)
        ensures
            *self is Overflow ==> m@ == "overflow"@,
            *self is Underflow ==> m@ == "underflow"@,
            *self is DivisionByZero ==> m@ == "division by zero"@,
    {
        match self {
            ErrorCode::Overflow => "overflow",
            ErrorCode::Underflow => "underflow",
            ErrorCode::DivisionByZero => "division by zero",
        }
    }
}

/// The mapping from error kind to numeric code is a bijection: two kinds
/// with the same code are the same kind.
pub proof fn lemma_code_injective(e1: ErrorCode, e2: ErrorCode)
    requires
        spec_code(e1) == spec_code(e2),
    ensures
        e1 == e2,
{
}

} // verus!
