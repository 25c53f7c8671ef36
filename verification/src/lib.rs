//! Safe unsigned arithmetic for transactional program logic.
//!
//! Every operation (`safe_add`, `safe_sub`, `safe_mul`, `safe_div`,
//! `safe_pow`) either returns the mathematically exact result or fails with
//! one of three typed errors — [`ErrorCode::Overflow`],
//! [`ErrorCode::Underflow`], [`ErrorCode::DivisionByZero`] — instead of
//! wrapping silently. The [`SafeMath`] trait is implemented for every
//! unsigned integer width from 8 to 128 bits.

pub mod error;
pub mod math;
pub mod model;
pub mod widths;

pub use crate::error::ErrorCode;
pub use crate::math::SafeMath;
