use vstd::prelude::*;
use vstd::arithmetic::power::{lemma0_pow, lemma1_pow, lemma_pow0, pow};

use crate::error::ErrorCode;
use crate::math::SafeMath;
use crate::model::{lemma_pow_exceeds, lemma_pow_step};

verus! {

impl SafeMath for u128 {
    type Output = u128;

    open spec fn sval(&self) -> int {
        *self as int
    }

    open spec fn oval(v: u128) -> int {
        v as int
    }

    open spec fn width_max() -> int {
        u128::MAX as int
    }

    proof fn width_max_positive() {
    }

    proof fn oval_injective(x: u128, y: u128) {
    }

    fn safe_add(&self, rhs: u128) -> (r: Result<u128, ErrorCode>) {
        match self.checked_add(rhs) {
            Some(v) => Ok(v),
            None => Err(ErrorCode::Overflow),
        }
    }

    fn safe_sub(&self, rhs: u128) -> (r: Result<u128, ErrorCode>) {
        match self.checked_sub(rhs) {
            Some(v) => Ok(v),
            None => Err(ErrorCode::Underflow),
        }
    }

    fn safe_mul(&self, rhs: u128) -> (r: Result<u128, ErrorCode>) {
        match self.checked_mul(rhs) {
            Some(v) => Ok(v),
            None => Err(ErrorCode::Underflow),
        }
    }

    fn safe_div(&self, rhs: u128) -> (r: Result<u128, ErrorCode>) {
        match self.checked_div(rhs) {
            Some(v) => Ok(v),
            None => Err(ErrorCode::DivisionByZero),
        }
    }

    fn safe_pow(&self, exp: u32) -> (r: Result<u128, ErrorCode>) {
        let base: u128 = *self;
        if base == 0 {
            if exp == 0 {
                proof {
                    lemma_pow0(0);
                }
                return Ok(1);
            }
            proof {
                lemma0_pow(exp as nat);
            }
            return Ok(0);
        }
        if base == 1 {
            proof {
                lemma1_pow(exp as nat);
            }
            return Ok(1);
        }
        let mut result: u128 = 1;
        let mut i: u32 = 0;
        proof {
            lemma_pow0(base as int);
        }
        while i < exp
            invariant
                base == *self,
                i <= exp,
                result == pow(base as int, i as nat),
            decreases exp - i,
        {
            match result.checked_mul(base) {
                Some(next) => {
                    proof {
                        lemma_pow_step(base as int, i as nat);
                    }
                    result = next;
                    i = i + 1;
                }
                None => {
                    proof {
                        lemma_pow_exceeds(base as int, i as nat, exp as nat, u128::MAX as int);
                    }
                    return Err(ErrorCode::Overflow);
                }
            }
        }
        Ok(result)
    }
}

impl SafeMath for u64 {
    type Output = u64;

    open spec fn sval(&self) -> int {
        *self as int
    }

    open spec fn oval(v: u64) -> int {
        v as int
    }

    open spec fn width_max() -> int {
        u64::MAX as int
    }

    proof fn width_max_positive() {
    }

    proof fn oval_injective(x: u64, y: u64) {
    }

    fn safe_add(&self, rhs: u64) -> (r: Result<u64, ErrorCode>) {
        match self.checked_add(rhs) {
            Some(v) => Ok(v),
            None => Err(ErrorCode::Overflow),
        }
    }

    fn safe_sub(&self, rhs: u64) -> (r: Result<u64, ErrorCode>) {
        match self.checked_sub(rhs) {
            Some(v) => Ok(v),
            None => Err(ErrorCode::Underflow),
        }
    }

    fn safe_mul(&self, rhs: u64) -> (r: Result<u64, ErrorCode>) {
        match self.checked_mul(rhs) {
            Some(v) => Ok(v),
            None => Err(ErrorCode::Underflow),
        }
    }

    fn safe_div(&self, rhs: u64) -> (r: Result<u64, ErrorCode>) {
        match self.checked_div(rhs) {
            Some(v) => Ok(v),
            None => Err(ErrorCode::DivisionByZero),
        }
    }

    fn safe_pow(&self, exp: u32) -> (r: Result<u64, ErrorCode>) {
        let base: u64 = *self;
        if base == 0 {
            if exp == 0 {
                proof {
                    lemma_pow0(0);
                }
                return Ok(1);
            }
            proof {
                lemma0_pow(exp as nat);
            }
            return Ok(0);
        }
        if base == 1 {
            proof {
                lemma1_pow(exp as nat);
            }
            return Ok(1);
        }
        let mut result: u64 = 1;
        let mut i: u32 = 0;
        proof {
            lemma_pow0(base as int);
        }
        while i < exp
            invariant
                base == *self,
                i <= exp,
                result == pow(base as int, i as nat),
            decreases exp - i,
        {
            match result.checked_mul(base) {
                Some(next) => {
                    proof {
                        lemma_pow_step(base as int, i as nat);
                    }
                    result = next;
                    i = i + 1;
                }
                None => {
                    proof {
                        lemma_pow_exceeds(base as int, i as nat, exp as nat, u64::MAX as int);
                    }
                    return Err(ErrorCode::Overflow);
                }
            }
        }
        Ok(result)
    }
}

impl SafeMath for u32 {
    type Output = u32;

    open spec fn sval(&self) -> int {
        *self as int
    }

    open spec fn oval(v: u32) -> int {
        v as int
    }

    open spec fn width_max() -> int {
        u32::MAX as int
    }

    proof fn width_max_positive() {
    }

    proof fn oval_injective(x: u32, y: u32) {
    }

    fn safe_add(&self, rhs: u32) -> (r: Result<u32, ErrorCode>) {
        match self.checked_add(rhs) {
            Some(v) => Ok(v),
            None => Err(ErrorCode::Overflow),
        }
    }

    fn safe_sub(&self, rhs: u32) -> (r: Result<u32, ErrorCode>) {
        match self.checked_sub(rhs) {
            Some(v) => Ok(v),
            None => Err(ErrorCode::Underflow),
        }
    }

    fn safe_mul(&self, rhs: u32) -> (r: Result<u32, ErrorCode>) {
        match self.checked_mul(rhs) {
            Some(v) => Ok(v),
            None => Err(ErrorCode::Underflow),
        }
    }

    fn safe_div(&self, rhs: u32) -> (r: Result<u32, ErrorCode>) {
        match self.checked_div(rhs) {
            Some(v) => Ok(v),
            None => Err(ErrorCode::DivisionByZero),
        }
    }

    fn safe_pow(&self, exp: u32) -> (r: Result<u32, ErrorCode>) {
        let base: u32 = *self;
        if base == 0 {
            if exp == 0 {
                proof {
                    lemma_pow0(0);
                }
                return Ok(1);
            }
            proof {
                lemma0_pow(exp as nat);
            }
            return Ok(0);
        }
        if base == 1 {
            proof {
                lemma1_pow(exp as nat);
            }
            return Ok(1);
        }
        let mut result: u32 = 1;
        let mut i: u32 = 0;
        proof {
            lemma_pow0(base as int);
        }
        while i < exp
            invariant
                base == *self,
                i <= exp,
                result == pow(base as int, i as nat),
            decreases exp - i,
        {
            match result.checked_mul(base) {
                Some(next) => {
                    proof {
                        lemma_pow_step(base as int, i as nat);
                    }
                    result = next;
                    i = i + 1;
                }
                None => {
                    proof {
                        lemma_pow_exceeds(base as int, i as nat, exp as nat, u32::MAX as int);
                    }
                    return Err(ErrorCode::Overflow);
                }
            }
        }
        Ok(result)
    }
}

impl SafeMath for u16 {
    type Output = u16;

    open spec fn sval(&self) -> int {
        *self as int
    }

    open spec fn oval(v: u16) -> int {
        v as int
    }

    open spec fn width_max() -> int {
        u16::MAX as int
    }

    proof fn width_max_positive() {
    }

    proof fn oval_injective(x: u16, y: u16) {
    }

    fn safe_add(&self, rhs: u16) -> (r: Result<u16, ErrorCode>) {
        match self.checked_add(rhs) {
            Some(v) => Ok(v),
            None => Err(ErrorCode::Overflow),
        }
    }

    fn safe_sub(&self, rhs: u16) -> (r: Result<u16, ErrorCode>) {
        match self.checked_sub(rhs) {
            Some(v) => Ok(v),
            None => Err(ErrorCode::Underflow),
        }
    }

    fn safe_mul(&self, rhs: u16) -> (r: Result<u16, ErrorCode>) {
        match self.checked_mul(rhs) {
            Some(v) => Ok(v),
            None => Err(ErrorCode::Underflow),
        }
    }

    fn safe_div(&self, rhs: u16) -> (r: Result<u16, ErrorCode>) {
        match self.checked_div(rhs) {
            Some(v) => Ok(v),
            None => Err(ErrorCode::DivisionByZero),
        }
    }

    fn safe_pow(&self, exp: u32) -> (r: Result<u16, ErrorCode>) {
        let base: u16 = *self;
        if base == 0 {
            if exp == 0 {
                proof {
                    lemma_pow0(0);
                }
                return Ok(1);
            }
            proof {
                lemma0_pow(exp as nat);
            }
            return Ok(0);
        }
        if base == 1 {
            proof {
                lemma1_pow(exp as nat);
            }
            return Ok(1);
        }
        let mut result: u16 = 1;
        let mut i: u32 = 0;
        proof {
            lemma_pow0(base as int);
        }
        while i < exp
            invariant
                base == *self,
                i <= exp,
                result == pow(base as int, i as nat),
            decreases exp - i,
        {
            match result.checked_mul(base) {
                Some(next) => {
                    proof {
                        lemma_pow_step(base as int, i as nat);
                    }
                    result = next;
                    i = i + 1;
                }
                None => {
                    proof {
                        lemma_pow_exceeds(base as int, i as nat, exp as nat, u16::MAX as int);
                    }
                    return Err(ErrorCode::Overflow);
                }
            }
        }
        Ok(result)
    }
}

impl SafeMath for u8 {
    type Output = u8;

    open spec fn sval(&self) -> int {
        *self as int
    }

    open spec fn oval(v: u8) -> int {
        v as int
    }

    open spec fn width_max() -> int {
        u8::MAX as int
    }

    proof fn width_max_positive() {
    }

    proof fn oval_injective(x: u8, y: u8) {
    }

    fn safe_add(&self, rhs: u8) -> (r: Result<u8, ErrorCode>) {
        match self.checked_add(rhs) {
            Some(v) => Ok(v),
            None => Err(ErrorCode::Overflow),
        }
    }

    fn safe_sub(&self, rhs: u8) -> (r: Result<u8, ErrorCode>) {
        match self.checked_sub(rhs) {
            Some(v) => Ok(v),
            None => Err(ErrorCode::Underflow),
        }
    }

    fn safe_mul(&self, rhs: u8) -> (r: Result<u8, ErrorCode>) {
        match self.checked_mul(rhs) {
            Some(v) => Ok(v),
            None => Err(ErrorCode::Underflow),
        }
    }

    fn safe_div(&self, rhs: u8) -> (r: Result<u8, ErrorCode>) {
        match self.checked_div(rhs) {
            Some(v) => Ok(v),
            None => Err(ErrorCode::DivisionByZero),
        }
    }

    fn safe_pow(&self, exp: u32) -> (r: Result<u8, ErrorCode>) {
        let base: u8 = *self;
        if base == 0 {
            if exp == 0 {
                proof {
                    lemma_pow0(0);
                }
                return Ok(1);
            }
            proof {
                lemma0_pow(exp as nat);
            }
            return Ok(0);
        }
        if base == 1 {
            proof {
                lemma1_pow(exp as nat);
            }
            return Ok(1);
        }
        let mut result: u8 = 1;
        let mut i: u32 = 0;
        proof {
            lemma_pow0(base as int);
        }
        while i < exp
            invariant
                base == *self,
                i <= exp,
                result == pow(base as int, i as nat),
            decreases exp - i,
        {
            match result.checked_mul(base) {
                Some(next) => {
                    proof {
                        lemma_pow_step(base as int, i as nat);
                    }
                    result = next;
                    i = i + 1;
                }
                None => {
                    proof {
                        lemma_pow_exceeds(base as int, i as nat, exp as nat, u8::MAX as int);
                    }
                    return Err(ErrorCode::Overflow);
                }
            }
        }
        Ok(result)
    }
}

} // verus!

