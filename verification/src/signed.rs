//! The signed integer types.

use crate::decimal::render_signed;
use crate::integer::{quotient_by_minus_one, Integer, Numeral, Signed};
use crate::types::NumericType;
use vstd::prelude::*;

verus! {

impl Numeral for i8 {
    open spec fn value(self) -> int {
        self as int
    }

    open spec fn of(i: int) -> i8 {
        i as i8
    }

    open spec fn kind() -> NumericType {
        NumericType::I8
    }

    open spec fn band(self, rhs: i8) -> i8 {
        self & rhs
    }

    open spec fn bor(self, rhs: i8) -> i8 {
        self | rhs
    }

    open spec fn bxor(self, rhs: i8) -> i8 {
        self ^ rhs
    }

    open spec fn shifted_left(self, n: int) -> i8 {
        self << n
    }

    open spec fn shifted_right(self, n: int) -> i8 {
        self >> n
    }

    proof fn kind_is_integer() {
    }

    proof fn value_in_range(self) {
    }

    proof fn of_value(self) {
    }

    proof fn value_of(i: int) {
    }
}

impl Integer for i8 {
    fn nought() -> (z: i8) {
        num_traits::Zero::zero()
    }

    fn try_add(self, rhs: i8) -> (r: Option<i8>) {
        num_traits::CheckedAdd::checked_add(&self, &rhs)
    }

    fn try_sub(self, rhs: i8) -> (r: Option<i8>) {
        num_traits::CheckedSub::checked_sub(&self, &rhs)
    }

    fn try_mul(self, rhs: i8) -> (r: Option<i8>) {
        num_traits::CheckedMul::checked_mul(&self, &rhs)
    }

    fn try_div(self, rhs: i8) -> (r: Option<i8>) {
        num_traits::CheckedDiv::checked_div(&self, &rhs)
    }

    fn try_rem(self, rhs: i8) -> (r: Option<i8>) {
        num_traits::CheckedRem::checked_rem(&self, &rhs)
    }

    fn try_neg(self) -> (r: Option<i8>) {
        num_traits::CheckedNeg::checked_neg(&self)
    }

    fn try_shl(self, count: u32) -> (r: Option<i8>) {
        num_traits::CheckedShl::checked_shl(&self, count)
    }

    fn try_shr(self, count: u32) -> (r: Option<i8>) {
        num_traits::CheckedShr::checked_shr(&self, count)
    }

    fn raw_add(self, rhs: i8) -> (r: i8) {
        self + rhs
    }

    fn raw_sub(self, rhs: i8) -> (r: i8) {
        self - rhs
    }

    fn raw_mul(self, rhs: i8) -> (r: i8) {
        self * rhs
    }

    fn raw_div(self, rhs: i8) -> (r: i8) {
        proof {
            if rhs == -1 {
                quotient_by_minus_one(self as int);
            }
        }
        self / rhs
    }

    fn raw_rem(self, rhs: i8) -> (r: i8) {
        proof {
            if rhs == -1 {
                quotient_by_minus_one(self as int);
            }
        }
        self % rhs
    }

    fn raw_shl(self, count: i8) -> (r: i8) {
        self << count
    }

    fn raw_shr(self, count: i8) -> (r: i8) {
        self >> count
    }

    fn bit_and(self, rhs: i8) -> (r: i8) {
        self & rhs
    }

    fn bit_or(self, rhs: i8) -> (r: i8) {
        self | rhs
    }

    fn bit_xor(self, rhs: i8) -> (r: i8) {
        self ^ rhs
    }

    fn equals(self, rhs: i8) -> (b: bool) {
        self == rhs
    }

    fn below(self, rhs: i8) -> (b: bool) {
        self < rhs
    }

    fn width() -> (w: i8) {
        8
    }

    fn default_value() -> (z: i8) {
        Default::default()
    }

    fn render(self) -> (s: String) {
        render_signed(self as i128)
    }
}

impl Signed for i8 {
    fn raw_neg(self) -> (r: i8) {
        -self
    }
}

impl Numeral for i16 {
    open spec fn value(self) -> int {
        self as int
    }

    open spec fn of(i: int) -> i16 {
        i as i16
    }

    open spec fn kind() -> NumericType {
        NumericType::I16
    }

    open spec fn band(self, rhs: i16) -> i16 {
        self & rhs
    }

    open spec fn bor(self, rhs: i16) -> i16 {
        self | rhs
    }

    open spec fn bxor(self, rhs: i16) -> i16 {
        self ^ rhs
    }

    open spec fn shifted_left(self, n: int) -> i16 {
        self << n
    }

    open spec fn shifted_right(self, n: int) -> i16 {
        self >> n
    }

    proof fn kind_is_integer() {
    }

    proof fn value_in_range(self) {
    }

    proof fn of_value(self) {
    }

    proof fn value_of(i: int) {
    }
}

impl Integer for i16 {
    fn nought() -> (z: i16) {
        num_traits::Zero::zero()
    }

    fn try_add(self, rhs: i16) -> (r: Option<i16>) {
        num_traits::CheckedAdd::checked_add(&self, &rhs)
    }

    fn try_sub(self, rhs: i16) -> (r: Option<i16>) {
        num_traits::CheckedSub::checked_sub(&self, &rhs)
    }

    fn try_mul(self, rhs: i16) -> (r: Option<i16>) {
        num_traits::CheckedMul::checked_mul(&self, &rhs)
    }

    fn try_div(self, rhs: i16) -> (r: Option<i16>) {
        num_traits::CheckedDiv::checked_div(&self, &rhs)
    }

    fn try_rem(self, rhs: i16) -> (r: Option<i16>) {
        num_traits::CheckedRem::checked_rem(&self, &rhs)
    }

    fn try_neg(self) -> (r: Option<i16>) {
        num_traits::CheckedNeg::checked_neg(&self)
    }

    fn try_shl(self, count: u32) -> (r: Option<i16>) {
        num_traits::CheckedShl::checked_shl(&self, count)
    }

    fn try_shr(self, count: u32) -> (r: Option<i16>) {
        num_traits::CheckedShr::checked_shr(&self, count)
    }

    fn raw_add(self, rhs: i16) -> (r: i16) {
        self + rhs
    }

    fn raw_sub(self, rhs: i16) -> (r: i16) {
        self - rhs
    }

    fn raw_mul(self, rhs: i16) -> (r: i16) {
        self * rhs
    }

    fn raw_div(self, rhs: i16) -> (r: i16) {
        proof {
            if rhs == -1 {
                quotient_by_minus_one(self as int);
            }
        }
        self / rhs
    }

    fn raw_rem(self, rhs: i16) -> (r: i16) {
        proof {
            if rhs == -1 {
                quotient_by_minus_one(self as int);
            }
        }
        self % rhs
    }

    fn raw_shl(self, count: i16) -> (r: i16) {
        self << count
    }

    fn raw_shr(self, count: i16) -> (r: i16) {
        self >> count
    }

    fn bit_and(self, rhs: i16) -> (r: i16) {
        self & rhs
    }

    fn bit_or(self, rhs: i16) -> (r: i16) {
        self | rhs
    }

    fn bit_xor(self, rhs: i16) -> (r: i16) {
        self ^ rhs
    }

    fn equals(self, rhs: i16) -> (b: bool) {
        self == rhs
    }

    fn below(self, rhs: i16) -> (b: bool) {
        self < rhs
    }

    fn width() -> (w: i16) {
        16
    }

    fn default_value() -> (z: i16) {
        Default::default()
    }

    fn render(self) -> (s: String) {
        render_signed(self as i128)
    }
}

impl Signed for i16 {
    fn raw_neg(self) -> (r: i16) {
        -self
    }
}

impl Numeral for i32 {
    open spec fn value(self) -> int {
        self as int
    }

    open spec fn of(i: int) -> i32 {
        i as i32
    }

    open spec fn kind() -> NumericType {
        NumericType::I32
    }

    open spec fn band(self, rhs: i32) -> i32 {
        self & rhs
    }

    open spec fn bor(self, rhs: i32) -> i32 {
        self | rhs
    }

    open spec fn bxor(self, rhs: i32) -> i32 {
        self ^ rhs
    }

    open spec fn shifted_left(self, n: int) -> i32 {
        self << n
    }

    open spec fn shifted_right(self, n: int) -> i32 {
        self >> n
    }

    proof fn kind_is_integer() {
    }

    proof fn value_in_range(self) {
    }

    proof fn of_value(self) {
    }

    proof fn value_of(i: int) {
    }
}

impl Integer for i32 {
    fn nought() -> (z: i32) {
        num_traits::Zero::zero()
    }

    fn try_add(self, rhs: i32) -> (r: Option<i32>) {
        num_traits::CheckedAdd::checked_add(&self, &rhs)
    }

    fn try_sub(self, rhs: i32) -> (r: Option<i32>) {
        num_traits::CheckedSub::checked_sub(&self, &rhs)
    }

    fn try_mul(self, rhs: i32) -> (r: Option<i32>) {
        num_traits::CheckedMul::checked_mul(&self, &rhs)
    }

    fn try_div(self, rhs: i32) -> (r: Option<i32>) {
        num_traits::CheckedDiv::checked_div(&self, &rhs)
    }

    fn try_rem(self, rhs: i32) -> (r: Option<i32>) {
        num_traits::CheckedRem::checked_rem(&self, &rhs)
    }

    fn try_neg(self) -> (r: Option<i32>) {
        num_traits::CheckedNeg::checked_neg(&self)
    }

    fn try_shl(self, count: u32) -> (r: Option<i32>) {
        num_traits::CheckedShl::checked_shl(&self, count)
    }

    fn try_shr(self, count: u32) -> (r: Option<i32>) {
        num_traits::CheckedShr::checked_shr(&self, count)
    }

    fn raw_add(self, rhs: i32) -> (r: i32) {
        self + rhs
    }

    fn raw_sub(self, rhs: i32) -> (r: i32) {
        self - rhs
    }

    fn raw_mul(self, rhs: i32) -> (r: i32) {
        self * rhs
    }

    fn raw_div(self, rhs: i32) -> (r: i32) {
        proof {
            if rhs == -1 {
                quotient_by_minus_one(self as int);
            }
        }
        self / rhs
    }

    fn raw_rem(self, rhs: i32) -> (r: i32) {
        proof {
            if rhs == -1 {
                quotient_by_minus_one(self as int);
            }
        }
        self % rhs
    }

    fn raw_shl(self, count: i32) -> (r: i32) {
        self << count
    }

    fn raw_shr(self, count: i32) -> (r: i32) {
        self >> count
    }

    fn bit_and(self, rhs: i32) -> (r: i32) {
        self & rhs
    }

    fn bit_or(self, rhs: i32) -> (r: i32) {
        self | rhs
    }

    fn bit_xor(self, rhs: i32) -> (r: i32) {
        self ^ rhs
    }

    fn equals(self, rhs: i32) -> (b: bool) {
        self == rhs
    }

    fn below(self, rhs: i32) -> (b: bool) {
        self < rhs
    }

    fn width() -> (w: i32) {
        32
    }

    fn default_value() -> (z: i32) {
        Default::default()
    }

    fn render(self) -> (s: String) {
        render_signed(self as i128)
    }
}

impl Signed for i32 {
    fn raw_neg(self) -> (r: i32) {
        -self
    }
}

impl Numeral for i64 {
    open spec fn value(self) -> int {
        self as int
    }

    open spec fn of(i: int) -> i64 {
        i as i64
    }

    open spec fn kind() -> NumericType {
        NumericType::I64
    }

    open spec fn band(self, rhs: i64) -> i64 {
        self & rhs
    }

    open spec fn bor(self, rhs: i64) -> i64 {
        self | rhs
    }

    open spec fn bxor(self, rhs: i64) -> i64 {
        self ^ rhs
    }

    open spec fn shifted_left(self, n: int) -> i64 {
        self << n
    }

    open spec fn shifted_right(self, n: int) -> i64 {
        self >> n
    }

    proof fn kind_is_integer() {
    }

    proof fn value_in_range(self) {
    }

    proof fn of_value(self) {
    }

    proof fn value_of(i: int) {
    }
}

impl Integer for i64 {
    fn nought() -> (z: i64) {
        num_traits::Zero::zero()
    }

    fn try_add(self, rhs: i64) -> (r: Option<i64>) {
        num_traits::CheckedAdd::checked_add(&self, &rhs)
    }

    fn try_sub(self, rhs: i64) -> (r: Option<i64>) {
        num_traits::CheckedSub::checked_sub(&self, &rhs)
    }

    fn try_mul(self, rhs: i64) -> (r: Option<i64>) {
        num_traits::CheckedMul::checked_mul(&self, &rhs)
    }

    fn try_div(self, rhs: i64) -> (r: Option<i64>) {
        num_traits::CheckedDiv::checked_div(&self, &rhs)
    }

    fn try_rem(self, rhs: i64) -> (r: Option<i64>) {
        num_traits::CheckedRem::checked_rem(&self, &rhs)
    }

    fn try_neg(self) -> (r: Option<i64>) {
        num_traits::CheckedNeg::checked_neg(&self)
    }

    fn try_shl(self, count: u32) -> (r: Option<i64>) {
        num_traits::CheckedShl::checked_shl(&self, count)
    }

    fn try_shr(self, count: u32) -> (r: Option<i64>) {
        num_traits::CheckedShr::checked_shr(&self, count)
    }

    fn raw_add(self, rhs: i64) -> (r: i64) {
        self + rhs
    }

    fn raw_sub(self, rhs: i64) -> (r: i64) {
        self - rhs
    }

    fn raw_mul(self, rhs: i64) -> (r: i64) {
        self * rhs
    }

    fn raw_div(self, rhs: i64) -> (r: i64) {
        proof {
            if rhs == -1 {
                quotient_by_minus_one(self as int);
            }
        }
        self / rhs
    }

    fn raw_rem(self, rhs: i64) -> (r: i64) {
        proof {
            if rhs == -1 {
                quotient_by_minus_one(self as int);
            }
        }
        self % rhs
    }

    fn raw_shl(self, count: i64) -> (r: i64) {
        self << count
    }

    fn raw_shr(self, count: i64) -> (r: i64) {
        self >> count
    }

    fn bit_and(self, rhs: i64) -> (r: i64) {
        self & rhs
    }

    fn bit_or(self, rhs: i64) -> (r: i64) {
        self | rhs
    }

    fn bit_xor(self, rhs: i64) -> (r: i64) {
        self ^ rhs
    }

    fn equals(self, rhs: i64) -> (b: bool) {
        self == rhs
    }

    fn below(self, rhs: i64) -> (b: bool) {
        self < rhs
    }

    fn width() -> (w: i64) {
        64
    }

    fn default_value() -> (z: i64) {
        Default::default()
    }

    fn render(self) -> (s: String) {
        render_signed(self as i128)
    }
}

impl Signed for i64 {
    fn raw_neg(self) -> (r: i64) {
        -self
    }
}

impl Numeral for i128 {
    open spec fn value(self) -> int {
        self as int
    }

    open spec fn of(i: int) -> i128 {
        i as i128
    }

    open spec fn kind() -> NumericType {
        NumericType::I128
    }

    open spec fn band(self, rhs: i128) -> i128 {
        self & rhs
    }

    open spec fn bor(self, rhs: i128) -> i128 {
        self | rhs
    }

    open spec fn bxor(self, rhs: i128) -> i128 {
        self ^ rhs
    }

    open spec fn shifted_left(self, n: int) -> i128 {
        self << n
    }

    open spec fn shifted_right(self, n: int) -> i128 {
        self >> n
    }

    proof fn kind_is_integer() {
    }

    proof fn value_in_range(self) {
    }

    proof fn of_value(self) {
    }

    proof fn value_of(i: int) {
    }
}

impl Integer for i128 {
    fn nought() -> (z: i128) {
        num_traits::Zero::zero()
    }

    fn try_add(self, rhs: i128) -> (r: Option<i128>) {
        num_traits::CheckedAdd::checked_add(&self, &rhs)
    }

    fn try_sub(self, rhs: i128) -> (r: Option<i128>) {
        num_traits::CheckedSub::checked_sub(&self, &rhs)
    }

    fn try_mul(self, rhs: i128) -> (r: Option<i128>) {
        num_traits::CheckedMul::checked_mul(&self, &rhs)
    }

    fn try_div(self, rhs: i128) -> (r: Option<i128>) {
        num_traits::CheckedDiv::checked_div(&self, &rhs)
    }

    fn try_rem(self, rhs: i128) -> (r: Option<i128>) {
        num_traits::CheckedRem::checked_rem(&self, &rhs)
    }

    fn try_neg(self) -> (r: Option<i128>) {
        num_traits::CheckedNeg::checked_neg(&self)
    }

    fn try_shl(self, count: u32) -> (r: Option<i128>) {
        num_traits::CheckedShl::checked_shl(&self, count)
    }

    fn try_shr(self, count: u32) -> (r: Option<i128>) {
        num_traits::CheckedShr::checked_shr(&self, count)
    }

    fn raw_add(self, rhs: i128) -> (r: i128) {
        self + rhs
    }

    fn raw_sub(self, rhs: i128) -> (r: i128) {
        self - rhs
    }

    fn raw_mul(self, rhs: i128) -> (r: i128) {
        self * rhs
    }

    fn raw_div(self, rhs: i128) -> (r: i128) {
        proof {
            if rhs == -1 {
                quotient_by_minus_one(self as int);
            }
        }
        self / rhs
    }

    fn raw_rem(self, rhs: i128) -> (r: i128) {
        proof {
            if rhs == -1 {
                quotient_by_minus_one(self as int);
            }
        }
        self % rhs
    }

    fn raw_shl(self, count: i128) -> (r: i128) {
        self << count
    }

    fn raw_shr(self, count: i128) -> (r: i128) {
        self >> count
    }

    fn bit_and(self, rhs: i128) -> (r: i128) {
        self & rhs
    }

    fn bit_or(self, rhs: i128) -> (r: i128) {
        self | rhs
    }

    fn bit_xor(self, rhs: i128) -> (r: i128) {
        self ^ rhs
    }

    fn equals(self, rhs: i128) -> (b: bool) {
        self == rhs
    }

    fn below(self, rhs: i128) -> (b: bool) {
        self < rhs
    }

    fn width() -> (w: i128) {
        128
    }

    fn default_value() -> (z: i128) {
        Default::default()
    }

    fn render(self) -> (s: String) {
        render_signed(self)
    }
}

impl Signed for i128 {
    fn raw_neg(self) -> (r: i128) {
        -self
    }
}

} // verus!
