//! The unsigned integer types.

use crate::decimal::render_unsigned;
use crate::integer::{Integer, Numeral};
use crate::types::NumericType;
use vstd::prelude::*;

verus! {

impl Numeral for u8 {
    open spec fn value(self) -> int {
        self as int
    }

    open spec fn of(i: int) -> u8 {
        i as u8
    }

    open spec fn kind() -> NumericType {
        NumericType::U8
    }

    open spec fn band(self, rhs: u8) -> u8 {
        self & rhs
    }

    open spec fn bor(self, rhs: u8) -> u8 {
        self | rhs
    }

    open spec fn bxor(self, rhs: u8) -> u8 {
        self ^ rhs
    }

    open spec fn shifted_left(self, n: int) -> u8 {
        self << n
    }

    open spec fn shifted_right(self, n: int) -> u8 {
        self >> n
    }

    proof fn kind_is_integer() {
    }

    proof fn value_in_range(self) {
    }

    proof fn of_value(self) {
    }

    proof fn value_of(i: int) {
    }
}

impl Integer for u8 {
    fn nought() -> (z: u8) {
        num_traits::Zero::zero()
    }

    fn try_add(self, rhs: u8) -> (r: Option<u8>) {
        num_traits::CheckedAdd::checked_add(&self, &rhs)
    }

    fn try_sub(self, rhs: u8) -> (r: Option<u8>) {
        num_traits::CheckedSub::checked_sub(&self, &rhs)
    }

    fn try_mul(self, rhs: u8) -> (r: Option<u8>) {
        num_traits::CheckedMul::checked_mul(&self, &rhs)
    }

    fn try_div(self, rhs: u8) -> (r: Option<u8>) {
        num_traits::CheckedDiv::checked_div(&self, &rhs)
    }

    fn try_rem(self, rhs: u8) -> (r: Option<u8>) {
        num_traits::CheckedRem::checked_rem(&self, &rhs)
    }

    fn try_neg(self) -> (r: Option<u8>) {
        num_traits::CheckedNeg::checked_neg(&self)
    }

    fn try_shl(self, count: u32) -> (r: Option<u8>) {
        num_traits::CheckedShl::checked_shl(&self, count)
    }

    fn try_shr(self, count: u32) -> (r: Option<u8>) {
        num_traits::CheckedShr::checked_shr(&self, count)
    }

    fn raw_add(self, rhs: u8) -> (r: u8) {
        self + rhs
    }

    fn raw_sub(self, rhs: u8) -> (r: u8) {
        self - rhs
    }

    fn raw_mul(self, rhs: u8) -> (r: u8) {
        self * rhs
    }

    fn raw_div(self, rhs: u8) -> (r: u8) {
        self / rhs
    }

    fn raw_rem(self, rhs: u8) -> (r: u8) {
        self % rhs
    }

    fn raw_shl(self, count: u8) -> (r: u8) {
        self << count
    }

    fn raw_shr(self, count: u8) -> (r: u8) {
        self >> count
    }

    fn bit_and(self, rhs: u8) -> (r: u8) {
        self & rhs
    }

    fn bit_or(self, rhs: u8) -> (r: u8) {
        self | rhs
    }

    fn bit_xor(self, rhs: u8) -> (r: u8) {
        self ^ rhs
    }

    fn equals(self, rhs: u8) -> (b: bool) {
        self == rhs
    }

    fn below(self, rhs: u8) -> (b: bool) {
        self < rhs
    }

    fn width() -> (w: u8) {
        8
    }

    fn default_value() -> (z: u8) {
        Default::default()
    }

    fn render(self) -> (s: String) {
        render_unsigned(self as u128)
    }
}

impl Numeral for u16 {
    open spec fn value(self) -> int {
        self as int
    }

    open spec fn of(i: int) -> u16 {
        i as u16
    }

    open spec fn kind() -> NumericType {
        NumericType::U16
    }

    open spec fn band(self, rhs: u16) -> u16 {
        self & rhs
    }

    open spec fn bor(self, rhs: u16) -> u16 {
        self | rhs
    }

    open spec fn bxor(self, rhs: u16) -> u16 {
        self ^ rhs
    }

    open spec fn shifted_left(self, n: int) -> u16 {
        self << n
    }

    open spec fn shifted_right(self, n: int) -> u16 {
        self >> n
    }

    proof fn kind_is_integer() {
    }

    proof fn value_in_range(self) {
    }

    proof fn of_value(self) {
    }

    proof fn value_of(i: int) {
    }
}

impl Integer for u16 {
    fn nought() -> (z: u16) {
        num_traits::Zero::zero()
    }

    fn try_add(self, rhs: u16) -> (r: Option<u16>) {
        num_traits::CheckedAdd::checked_add(&self, &rhs)
    }

    fn try_sub(self, rhs: u16) -> (r: Option<u16>) {
        num_traits::CheckedSub::checked_sub(&self, &rhs)
    }

    fn try_mul(self, rhs: u16) -> (r: Option<u16>) {
        num_traits::CheckedMul::checked_mul(&self, &rhs)
    }

    fn try_div(self, rhs: u16) -> (r: Option<u16>) {
        num_traits::CheckedDiv::checked_div(&self, &rhs)
    }

    fn try_rem(self, rhs: u16) -> (r: Option<u16>) {
        num_traits::CheckedRem::checked_rem(&self, &rhs)
    }

    fn try_neg(self) -> (r: Option<u16>) {
        num_traits::CheckedNeg::checked_neg(&self)
    }

    fn try_shl(self, count: u32) -> (r: Option<u16>) {
        num_traits::CheckedShl::checked_shl(&self, count)
    }

    fn try_shr(self, count: u32) -> (r: Option<u16>) {
        num_traits::CheckedShr::checked_shr(&self, count)
    }

    fn raw_add(self, rhs: u16) -> (r: u16) {
        self + rhs
    }

    fn raw_sub(self, rhs: u16) -> (r: u16) {
        self - rhs
    }

    fn raw_mul(self, rhs: u16) -> (r: u16) {
        self * rhs
    }

    fn raw_div(self, rhs: u16) -> (r: u16) {
        self / rhs
    }

    fn raw_rem(self, rhs: u16) -> (r: u16) {
        self % rhs
    }

    fn raw_shl(self, count: u16) -> (r: u16) {
        self << count
    }

    fn raw_shr(self, count: u16) -> (r: u16) {
        self >> count
    }

    fn bit_and(self, rhs: u16) -> (r: u16) {
        self & rhs
    }

    fn bit_or(self, rhs: u16) -> (r: u16) {
        self | rhs
    }

    fn bit_xor(self, rhs: u16) -> (r: u16) {
        self ^ rhs
    }

    fn equals(self, rhs: u16) -> (b: bool) {
        self == rhs
    }

    fn below(self, rhs: u16) -> (b: bool) {
        self < rhs
    }

    fn width() -> (w: u16) {
        16
    }

    fn default_value() -> (z: u16) {
        Default::default()
    }

    fn render(self) -> (s: String) {
        render_unsigned(self as u128)
    }
}

impl Numeral for u32 {
    open spec fn value(self) -> int {
        self as int
    }

    open spec fn of(i: int) -> u32 {
        i as u32
    }

    open spec fn kind() -> NumericType {
        NumericType::U32
    }

    open spec fn band(self, rhs: u32) -> u32 {
        self & rhs
    }

    open spec fn bor(self, rhs: u32) -> u32 {
        self | rhs
    }

    open spec fn bxor(self, rhs: u32) -> u32 {
        self ^ rhs
    }

    open spec fn shifted_left(self, n: int) -> u32 {
        self << n
    }

    open spec fn shifted_right(self, n: int) -> u32 {
        self >> n
    }

    proof fn kind_is_integer() {
    }

    proof fn value_in_range(self) {
    }

    proof fn of_value(self) {
    }

    proof fn value_of(i: int) {
    }
}

impl Integer for u32 {
    fn nought() -> (z: u32) {
        num_traits::Zero::zero()
    }

    fn try_add(self, rhs: u32) -> (r: Option<u32>) {
        num_traits::CheckedAdd::checked_add(&self, &rhs)
    }

    fn try_sub(self, rhs: u32) -> (r: Option<u32>) {
        num_traits::CheckedSub::checked_sub(&self, &rhs)
    }

    fn try_mul(self, rhs: u32) -> (r: Option<u32>) {
        num_traits::CheckedMul::checked_mul(&self, &rhs)
    }

    fn try_div(self, rhs: u32) -> (r: Option<u32>) {
        num_traits::CheckedDiv::checked_div(&self, &rhs)
    }

    fn try_rem(self, rhs: u32) -> (r: Option<u32>) {
        num_traits::CheckedRem::checked_rem(&self, &rhs)
    }

    fn try_neg(self) -> (r: Option<u32>) {
        num_traits::CheckedNeg::checked_neg(&self)
    }

    fn try_shl(self, count: u32) -> (r: Option<u32>) {
        num_traits::CheckedShl::checked_shl(&self, count)
    }

    fn try_shr(self, count: u32) -> (r: Option<u32>) {
        num_traits::CheckedShr::checked_shr(&self, count)
    }

    fn raw_add(self, rhs: u32) -> (r: u32) {
        self + rhs
    }

    fn raw_sub(self, rhs: u32) -> (r: u32) {
        self - rhs
    }

    fn raw_mul(self, rhs: u32) -> (r: u32) {
        self * rhs
    }

    fn raw_div(self, rhs: u32) -> (r: u32) {
        self / rhs
    }

    fn raw_rem(self, rhs: u32) -> (r: u32) {
        self % rhs
    }

    fn raw_shl(self, count: u32) -> (r: u32) {
        self << count
    }

    fn raw_shr(self, count: u32) -> (r: u32) {
        self >> count
    }

    fn bit_and(self, rhs: u32) -> (r: u32) {
        self & rhs
    }

    fn bit_or(self, rhs: u32) -> (r: u32) {
        self | rhs
    }

    fn bit_xor(self, rhs: u32) -> (r: u32) {
        self ^ rhs
    }

    fn equals(self, rhs: u32) -> (b: bool) {
        self == rhs
    }

    fn below(self, rhs: u32) -> (b: bool) {
        self < rhs
    }

    fn width() -> (w: u32) {
        32
    }

    fn default_value() -> (z: u32) {
        Default::default()
    }

    fn render(self) -> (s: String) {
        render_unsigned(self as u128)
    }
}

impl Numeral for u64 {
    open spec fn value(self) -> int {
        self as int
    }

    open spec fn of(i: int) -> u64 {
        i as u64
    }

    open spec fn kind() -> NumericType {
        NumericType::U64
    }

    open spec fn band(self, rhs: u64) -> u64 {
        self & rhs
    }

    open spec fn bor(self, rhs: u64) -> u64 {
        self | rhs
    }

    open spec fn bxor(self, rhs: u64) -> u64 {
        self ^ rhs
    }

    open spec fn shifted_left(self, n: int) -> u64 {
        self << n
    }

    open spec fn shifted_right(self, n: int) -> u64 {
        self >> n
    }

    proof fn kind_is_integer() {
    }

    proof fn value_in_range(self) {
    }

    proof fn of_value(self) {
    }

    proof fn value_of(i: int) {
    }
}

impl Integer for u64 {
    fn nought() -> (z: u64) {
        num_traits::Zero::zero()
    }

    fn try_add(self, rhs: u64) -> (r: Option<u64>) {
        num_traits::CheckedAdd::checked_add(&self, &rhs)
    }

    fn try_sub(self, rhs: u64) -> (r: Option<u64>) {
        num_traits::CheckedSub::checked_sub(&self, &rhs)
    }

    fn try_mul(self, rhs: u64) -> (r: Option<u64>) {
        num_traits::CheckedMul::checked_mul(&self, &rhs)
    }

    fn try_div(self, rhs: u64) -> (r: Option<u64>) {
        num_traits::CheckedDiv::checked_div(&self, &rhs)
    }

    fn try_rem(self, rhs: u64) -> (r: Option<u64>) {
        num_traits::CheckedRem::checked_rem(&self, &rhs)
    }

    fn try_neg(self) -> (r: Option<u64>) {
        num_traits::CheckedNeg::checked_neg(&self)
    }

    fn try_shl(self, count: u32) -> (r: Option<u64>) {
        num_traits::CheckedShl::checked_shl(&self, count)
    }

    fn try_shr(self, count: u32) -> (r: Option<u64>) {
        num_traits::CheckedShr::checked_shr(&self, count)
    }

    fn raw_add(self, rhs: u64) -> (r: u64) {
        self + rhs
    }

    fn raw_sub(self, rhs: u64) -> (r: u64) {
        self - rhs
    }

    fn raw_mul(self, rhs: u64) -> (r: u64) {
        self * rhs
    }

    fn raw_div(self, rhs: u64) -> (r: u64) {
        self / rhs
    }

    fn raw_rem(self, rhs: u64) -> (r: u64) {
        self % rhs
    }

    fn raw_shl(self, count: u64) -> (r: u64) {
        self << count
    }

    fn raw_shr(self, count: u64) -> (r: u64) {
        self >> count
    }

    fn bit_and(self, rhs: u64) -> (r: u64) {
        self & rhs
    }

    fn bit_or(self, rhs: u64) -> (r: u64) {
        self | rhs
    }

    fn bit_xor(self, rhs: u64) -> (r: u64) {
        self ^ rhs
    }

    fn equals(self, rhs: u64) -> (b: bool) {
        self == rhs
    }

    fn below(self, rhs: u64) -> (b: bool) {
        self < rhs
    }

    fn width() -> (w: u64) {
        64
    }

    fn default_value() -> (z: u64) {
        Default::default()
    }

    fn render(self) -> (s: String) {
        render_unsigned(self as u128)
    }
}

impl Numeral for u128 {
    open spec fn value(self) -> int {
        self as int
    }

    open spec fn of(i: int) -> u128 {
        i as u128
    }

    open spec fn kind() -> NumericType {
        NumericType::U128
    }

    open spec fn band(self, rhs: u128) -> u128 {
        self & rhs
    }

    open spec fn bor(self, rhs: u128) -> u128 {
        self | rhs
    }

    open spec fn bxor(self, rhs: u128) -> u128 {
        self ^ rhs
    }

    open spec fn shifted_left(self, n: int) -> u128 {
        self << n
    }

    open spec fn shifted_right(self, n: int) -> u128 {
        self >> n
    }

    proof fn kind_is_integer() {
    }

    proof fn value_in_range(self) {
    }

    proof fn of_value(self) {
    }

    proof fn value_of(i: int) {
    }
}

impl Integer for u128 {
    fn nought() -> (z: u128) {
        num_traits::Zero::zero()
    }

    fn try_add(self, rhs: u128) -> (r: Option<u128>) {
        num_traits::CheckedAdd::checked_add(&self, &rhs)
    }

    fn try_sub(self, rhs: u128) -> (r: Option<u128>) {
        num_traits::CheckedSub::checked_sub(&self, &rhs)
    }

    fn try_mul(self, rhs: u128) -> (r: Option<u128>) {
        num_traits::CheckedMul::checked_mul(&self, &rhs)
    }

    fn try_div(self, rhs: u128) -> (r: Option<u128>) {
        num_traits::CheckedDiv::checked_div(&self, &rhs)
    }

    fn try_rem(self, rhs: u128) -> (r: Option<u128>) {
        num_traits::CheckedRem::checked_rem(&self, &rhs)
    }

    fn try_neg(self) -> (r: Option<u128>) {
        num_traits::CheckedNeg::checked_neg(&self)
    }

    fn try_shl(self, count: u32) -> (r: Option<u128>) {
        num_traits::CheckedShl::checked_shl(&self, count)
    }

    fn try_shr(self, count: u32) -> (r: Option<u128>) {
        num_traits::CheckedShr::checked_shr(&self, count)
    }

    fn raw_add(self, rhs: u128) -> (r: u128) {
        self + rhs
    }

    fn raw_sub(self, rhs: u128) -> (r: u128) {
        self - rhs
    }

    fn raw_mul(self, rhs: u128) -> (r: u128) {
        self * rhs
    }

    fn raw_div(self, rhs: u128) -> (r: u128) {
        self / rhs
    }

    fn raw_rem(self, rhs: u128) -> (r: u128) {
        self % rhs
    }

    fn raw_shl(self, count: u128) -> (r: u128) {
        self << count
    }

    fn raw_shr(self, count: u128) -> (r: u128) {
        self >> count
    }

    fn bit_and(self, rhs: u128) -> (r: u128) {
        self & rhs
    }

    fn bit_or(self, rhs: u128) -> (r: u128) {
        self | rhs
    }

    fn bit_xor(self, rhs: u128) -> (r: u128) {
        self ^ rhs
    }

    fn equals(self, rhs: u128) -> (b: bool) {
        self == rhs
    }

    fn below(self, rhs: u128) -> (b: bool) {
        self < rhs
    }

    fn width() -> (w: u128) {
        128
    }

    fn default_value() -> (z: u128) {
        Default::default()
    }

    fn render(self) -> (s: String) {
        render_unsigned(self)
    }
}

} // verus!
