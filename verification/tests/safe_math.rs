use solana_safe_math::{ErrorCode, SafeMath};

// --- exact results on success, across widths ---

#[test]
fn add_exact_values() {
    assert_eq!(2u8.safe_add(3), Ok(5));
    assert_eq!(1000u16.safe_add(24), Ok(1024));
    assert_eq!(10u32.safe_add(0), Ok(10));
    assert_eq!(10u64.safe_add(7), Ok(17));
    assert_eq!(u128::MAX.safe_add(0), Ok(u128::MAX));
}

#[test]
fn sub_exact_values() {
    assert_eq!(7u8.safe_sub(4), Ok(3));
    assert_eq!(1024u16.safe_sub(1000), Ok(24));
    assert_eq!(10u32.safe_sub(10), Ok(0));
    assert_eq!(u64::MAX.safe_sub(1), Ok(u64::MAX - 1));
    assert_eq!(100u128.safe_sub(1), Ok(99));
}

#[test]
fn mul_exact_values() {
    assert_eq!(6u8.safe_mul(7), Ok(42));
    assert_eq!(255u16.safe_mul(255), Ok(65025));
    assert_eq!(10u32.safe_mul(0), Ok(0));
    assert_eq!(u64::MAX.safe_mul(1), Ok(u64::MAX));
    assert_eq!((1u128 << 64).safe_mul(1u128 << 63), Ok(1u128 << 127));
}

#[test]
fn div_exact_values() {
    assert_eq!(84u8.safe_div(2), Ok(42));
    assert_eq!(7u16.safe_div(2), Ok(3));
    assert_eq!(0u32.safe_div(5), Ok(0));
    assert_eq!(u64::MAX.safe_div(u64::MAX), Ok(1));
    assert_eq!(100u128.safe_div(7), Ok(14));
}

#[test]
fn pow_exact_values() {
    assert_eq!(3u8.safe_pow(4), Ok(81));
    assert_eq!(2u16.safe_pow(10), Ok(1024));
    assert_eq!(10u32.safe_pow(9), Ok(1_000_000_000));
    assert_eq!(2u64.safe_pow(63), Ok(1u64 << 63));
    assert_eq!(2u128.safe_pow(127), Ok(1u128 << 127));
}

// --- boundary: addition overflows at MAX + 1 on every width ---

#[test]
fn add_max_plus_one_overflows() {
    assert_eq!(u8::MAX.safe_add(1), Err(ErrorCode::Overflow));
    assert_eq!(u16::MAX.safe_add(1), Err(ErrorCode::Overflow));
    assert_eq!(u32::MAX.safe_add(1), Err(ErrorCode::Overflow));
    assert_eq!(u64::MAX.safe_add(1), Err(ErrorCode::Overflow));
    assert_eq!(u128::MAX.safe_add(1), Err(ErrorCode::Overflow));
}

// --- boundary: subtraction below zero underflows on every width ---

#[test]
fn sub_zero_minus_one_underflows() {
    assert_eq!(0u8.safe_sub(1), Err(ErrorCode::Underflow));
    assert_eq!(0u16.safe_sub(1), Err(ErrorCode::Underflow));
    assert_eq!(0u32.safe_sub(1), Err(ErrorCode::Underflow));
    assert_eq!(0u64.safe_sub(1), Err(ErrorCode::Underflow));
    assert_eq!(0u128.safe_sub(1), Err(ErrorCode::Underflow));
}

// --- boundary: division by zero, including a zero dividend ---

#[test]
fn div_by_zero_fails() {
    assert_eq!(0u8.safe_div(0), Err(ErrorCode::DivisionByZero));
    assert_eq!(1u16.safe_div(0), Err(ErrorCode::DivisionByZero));
    assert_eq!(123u32.safe_div(0), Err(ErrorCode::DivisionByZero));
    assert_eq!(u64::MAX.safe_div(0), Err(ErrorCode::DivisionByZero));
    assert_eq!(0u128.safe_div(0), Err(ErrorCode::DivisionByZero));
}

// --- boundary: power ---

#[test]
fn pow_zero_exponent_is_one() {
    assert_eq!(0u8.safe_pow(0), Ok(1));
    assert_eq!(0u16.safe_pow(0), Ok(1));
    assert_eq!(5u32.safe_pow(0), Ok(1));
    assert_eq!(u64::MAX.safe_pow(0), Ok(1));
    assert_eq!(u128::MAX.safe_pow(0), Ok(1));
}

#[test]
fn pow_max_squared_overflows() {
    assert_eq!(u8::MAX.safe_pow(2), Err(ErrorCode::Overflow));
    assert_eq!(u16::MAX.safe_pow(2), Err(ErrorCode::Overflow));
    assert_eq!(u32::MAX.safe_pow(2), Err(ErrorCode::Overflow));
    assert_eq!(u64::MAX.safe_pow(2), Err(ErrorCode::Overflow));
    assert_eq!(u128::MAX.safe_pow(2), Err(ErrorCode::Overflow));
}

#[test]
fn pow_degenerate_bases() {
    assert_eq!(0u8.safe_pow(5), Ok(0));
    assert_eq!(0u64.safe_pow(u32::MAX), Ok(0));
    assert_eq!(1u16.safe_pow(u32::MAX), Ok(1));
    assert_eq!(1u128.safe_pow(1_000_000), Ok(1));
}

#[test]
fn pow_just_past_the_edge_overflows() {
    assert_eq!(2u8.safe_pow(7), Ok(128));
    assert_eq!(2u8.safe_pow(8), Err(ErrorCode::Overflow));
    assert_eq!(2u64.safe_pow(64), Err(ErrorCode::Overflow));
    assert_eq!(2u128.safe_pow(128), Err(ErrorCode::Overflow));
    assert_eq!(10u32.safe_pow(10), Err(ErrorCode::Overflow));
}

// --- boundary: the multiplication failure kind, consistent across widths ---

// A product that does not fit is reported as Underflow on every width; the
// mapping is part of the stable contract because callers match on the
// numeric code of the kind.
#[test]
fn mul_max_times_two_fails_as_underflow() {
    assert_eq!(u8::MAX.safe_mul(2), Err(ErrorCode::Underflow));
    assert_eq!(u16::MAX.safe_mul(2), Err(ErrorCode::Underflow));
    assert_eq!(u32::MAX.safe_mul(2), Err(ErrorCode::Underflow));
    assert_eq!(u64::MAX.safe_mul(2), Err(ErrorCode::Underflow));
    assert_eq!(u128::MAX.safe_mul(2), Err(ErrorCode::Underflow));
}

// --- determinism: the same call twice yields the same outcome ---

#[test]
fn repeated_calls_agree() {
    assert_eq!(250u8.safe_add(10), 250u8.safe_add(10));
    assert_eq!(3u16.safe_sub(9), 3u16.safe_sub(9));
    assert_eq!(9u32.safe_mul(9), 9u32.safe_mul(9));
    assert_eq!(9u64.safe_div(0), 9u64.safe_div(0));
    assert_eq!(6u128.safe_pow(40), 6u128.safe_pow(40));
}

// --- width isolation: interleaved widths do not disturb each other ---

#[test]
fn widths_are_isolated() {
    let a8 = u8::MAX.safe_add(1);
    let a64 = 1u64.safe_add(1);
    let b8 = u8::MAX.safe_add(1);
    let m16 = u16::MAX.safe_mul(3);
    let d32 = 9u32.safe_div(3);
    let b64 = 1u64.safe_add(1);
    assert_eq!(a8, Err(ErrorCode::Overflow));
    assert_eq!(a8, b8);
    assert_eq!(a64, Ok(2));
    assert_eq!(a64, b64);
    assert_eq!(m16, Err(ErrorCode::Underflow));
    assert_eq!(d32, Ok(3));
}

// --- the error taxonomy itself ---

#[test]
fn error_codes_are_stable() {
    assert_eq!(ErrorCode::Overflow.code(), 0);
    assert_eq!(ErrorCode::Underflow.code(), 1);
    assert_eq!(ErrorCode::DivisionByZero.code(), 2);
}

#[test]
fn error_messages_are_fixed() {
    assert_eq!(ErrorCode::Overflow.message(), "overflow");
    assert_eq!(ErrorCode::Underflow.message(), "underflow");
    assert_eq!(ErrorCode::DivisionByZero.message(), "division by zero");
}
