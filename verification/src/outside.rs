//! What is assumed of the `num_traits` implementations for the primitive
//! integers, and of the integer power functions of the standard library.
//! None of these contracts is proved: each restates what the documentation
//! of the function promises.

use crate::integer::{quotient, remainder};
use vstd::arithmetic::power::pow;
use vstd::prelude::*;

verus! {

/// `Zero::zero` of `num_traits` for `i8`: the number zero.
pub assume_specification[ <i8 as num_traits::Zero>::zero ]() -> (r: i8)
    ensures
        r == (0i8),
;

/// `CheckedAdd::checked_add` of `num_traits` for `i8`: the sum, or `None` where the
/// sum is outside the range of `i8`.
pub assume_specification[ <i8 as num_traits::CheckedAdd>::checked_add ](x: &i8, v: &i8) -> (r: Option<i8>)
    ensures
        r == (if i8::MIN <= *x + *v <= i8::MAX {
            Some((*x + *v) as i8)
        } else {
            None
        }),
;

/// `CheckedSub::checked_sub` of `num_traits` for `i8`: the difference, or `None` where the
/// difference is outside the range of `i8`.
pub assume_specification[ <i8 as num_traits::CheckedSub>::checked_sub ](x: &i8, v: &i8) -> (r: Option<i8>)
    ensures
        r == (if i8::MIN <= *x - *v <= i8::MAX {
            Some((*x - *v) as i8)
        } else {
            None
        }),
;

/// `CheckedMul::checked_mul` of `num_traits` for `i8`: the product, or `None` where the
/// product is outside the range of `i8`.
pub assume_specification[ <i8 as num_traits::CheckedMul>::checked_mul ](x: &i8, v: &i8) -> (r: Option<i8>)
    ensures
        r == (if i8::MIN <= *x * *v <= i8::MAX {
            Some((*x * *v) as i8)
        } else {
            None
        }),
;

/// `CheckedDiv::checked_div` of `num_traits` for `i8`: the quotient rounded
/// towards zero, or `None` where the divisor is zero or the quotient is outside
/// the range of `i8`.
pub assume_specification[ <i8 as num_traits::CheckedDiv>::checked_div ](x: &i8, v: &i8) -> (r: Option<i8>)
    ensures
        r == (if *v == 0 || !(i8::MIN <= quotient(*x as int, *v as int) <= i8::MAX) {
            None
        } else {
            Some(quotient(*x as int, *v as int) as i8)
        }),
;

/// `CheckedRem::checked_rem` of `num_traits` for `i8`: the remainder of the
/// division rounded towards zero, or `None` where the divisor is zero or the
/// quotient is outside the range of `i8`.
pub assume_specification[ <i8 as num_traits::CheckedRem>::checked_rem ](x: &i8, v: &i8) -> (r: Option<i8>)
    ensures
        r == (if *v == 0 || !(i8::MIN <= quotient(*x as int, *v as int) <= i8::MAX) {
            None
        } else {
            Some(remainder(*x as int, *v as int) as i8)
        }),
;

/// `CheckedNeg::checked_neg` of `num_traits` for `i8`: the negation, or `None`
/// where the negation is outside the range of `i8`.
pub assume_specification[ <i8 as num_traits::CheckedNeg>::checked_neg ](x: &i8) -> (r: Option<i8>)
    ensures
        r == (if i8::MIN <= -*x <= i8::MAX {
            Some((-*x) as i8)
        } else {
            None
        }),
;

/// `CheckedShl::checked_shl` of `num_traits` for `i8`: the value shifted left, or
/// `None` where the count is 8 or more.
pub assume_specification[ <i8 as num_traits::CheckedShl>::checked_shl ](x: &i8, rhs: u32) -> (r: Option<i8>)
    ensures
        r == (if rhs < 8 {
            Some(*x << rhs)
        } else {
            None
        }),
;

/// `CheckedShr::checked_shr` of `num_traits` for `i8`: the value shifted right, or
/// `None` where the count is 8 or more.
pub assume_specification[ <i8 as num_traits::CheckedShr>::checked_shr ](x: &i8, rhs: u32) -> (r: Option<i8>)
    ensures
        r == (if rhs < 8 {
            Some(*x >> rhs)
        } else {
            None
        }),
;

/// `Zero::zero` of `num_traits` for `i16`: the number zero.
pub assume_specification[ <i16 as num_traits::Zero>::zero ]() -> (r: i16)
    ensures
        r == (0i16),
;

/// `CheckedAdd::checked_add` of `num_traits` for `i16`: the sum, or `None` where the
/// sum is outside the range of `i16`.
pub assume_specification[ <i16 as num_traits::CheckedAdd>::checked_add ](x: &i16, v: &i16) -> (r: Option<i16>)
    ensures
        r == (if i16::MIN <= *x + *v <= i16::MAX {
            Some((*x + *v) as i16)
        } else {
            None
        }),
;

/// `CheckedSub::checked_sub` of `num_traits` for `i16`: the difference, or `None` where the
/// difference is outside the range of `i16`.
pub assume_specification[ <i16 as num_traits::CheckedSub>::checked_sub ](x: &i16, v: &i16) -> (r: Option<i16>)
    ensures
        r == (if i16::MIN <= *x - *v <= i16::MAX {
            Some((*x - *v) as i16)
        } else {
            None
        }),
;

/// `CheckedMul::checked_mul` of `num_traits` for `i16`: the product, or `None` where the
/// product is outside the range of `i16`.
pub assume_specification[ <i16 as num_traits::CheckedMul>::checked_mul ](x: &i16, v: &i16) -> (r: Option<i16>)
    ensures
        r == (if i16::MIN <= *x * *v <= i16::MAX {
            Some((*x * *v) as i16)
        } else {
            None
        }),
;

/// `CheckedDiv::checked_div` of `num_traits` for `i16`: the quotient rounded
/// towards zero, or `None` where the divisor is zero or the quotient is outside
/// the range of `i16`.
pub assume_specification[ <i16 as num_traits::CheckedDiv>::checked_div ](x: &i16, v: &i16) -> (r: Option<i16>)
    ensures
        r == (if *v == 0 || !(i16::MIN <= quotient(*x as int, *v as int) <= i16::MAX) {
            None
        } else {
            Some(quotient(*x as int, *v as int) as i16)
        }),
;

/// `CheckedRem::checked_rem` of `num_traits` for `i16`: the remainder of the
/// division rounded towards zero, or `None` where the divisor is zero or the
/// quotient is outside the range of `i16`.
pub assume_specification[ <i16 as num_traits::CheckedRem>::checked_rem ](x: &i16, v: &i16) -> (r: Option<i16>)
    ensures
        r == (if *v == 0 || !(i16::MIN <= quotient(*x as int, *v as int) <= i16::MAX) {
            None
        } else {
            Some(remainder(*x as int, *v as int) as i16)
        }),
;

/// `CheckedNeg::checked_neg` of `num_traits` for `i16`: the negation, or `None`
/// where the negation is outside the range of `i16`.
pub assume_specification[ <i16 as num_traits::CheckedNeg>::checked_neg ](x: &i16) -> (r: Option<i16>)
    ensures
        r == (if i16::MIN <= -*x <= i16::MAX {
            Some((-*x) as i16)
        } else {
            None
        }),
;

/// `CheckedShl::checked_shl` of `num_traits` for `i16`: the value shifted left, or
/// `None` where the count is 16 or more.
pub assume_specification[ <i16 as num_traits::CheckedShl>::checked_shl ](x: &i16, rhs: u32) -> (r: Option<i16>)
    ensures
        r == (if rhs < 16 {
            Some(*x << rhs)
        } else {
            None
        }),
;

/// `CheckedShr::checked_shr` of `num_traits` for `i16`: the value shifted right, or
/// `None` where the count is 16 or more.
pub assume_specification[ <i16 as num_traits::CheckedShr>::checked_shr ](x: &i16, rhs: u32) -> (r: Option<i16>)
    ensures
        r == (if rhs < 16 {
            Some(*x >> rhs)
        } else {
            None
        }),
;

/// `Zero::zero` of `num_traits` for `i32`: the number zero.
pub assume_specification[ <i32 as num_traits::Zero>::zero ]() -> (r: i32)
    ensures
        r == (0i32),
;

/// `CheckedAdd::checked_add` of `num_traits` for `i32`: the sum, or `None` where the
/// sum is outside the range of `i32`.
pub assume_specification[ <i32 as num_traits::CheckedAdd>::checked_add ](x: &i32, v: &i32) -> (r: Option<i32>)
    ensures
        r == (if i32::MIN <= *x + *v <= i32::MAX {
            Some((*x + *v) as i32)
        } else {
            None
        }),
;

/// `CheckedSub::checked_sub` of `num_traits` for `i32`: the difference, or `None` where the
/// difference is outside the range of `i32`.
pub assume_specification[ <i32 as num_traits::CheckedSub>::checked_sub ](x: &i32, v: &i32) -> (r: Option<i32>)
    ensures
        r == (if i32::MIN <= *x - *v <= i32::MAX {
            Some((*x - *v) as i32)
        } else {
            None
        }),
;

/// `CheckedMul::checked_mul` of `num_traits` for `i32`: the product, or `None` where the
/// product is outside the range of `i32`.
pub assume_specification[ <i32 as num_traits::CheckedMul>::checked_mul ](x: &i32, v: &i32) -> (r: Option<i32>)
    ensures
        r == (if i32::MIN <= *x * *v <= i32::MAX {
            Some((*x * *v) as i32)
        } else {
            None
        }),
;

/// `CheckedDiv::checked_div` of `num_traits` for `i32`: the quotient rounded
/// towards zero, or `None` where the divisor is zero or the quotient is outside
/// the range of `i32`.
pub assume_specification[ <i32 as num_traits::CheckedDiv>::checked_div ](x: &i32, v: &i32) -> (r: Option<i32>)
    ensures
        r == (if *v == 0 || !(i32::MIN <= quotient(*x as int, *v as int) <= i32::MAX) {
            None
        } else {
            Some(quotient(*x as int, *v as int) as i32)
        }),
;

/// `CheckedRem::checked_rem` of `num_traits` for `i32`: the remainder of the
/// division rounded towards zero, or `None` where the divisor is zero or the
/// quotient is outside the range of `i32`.
pub assume_specification[ <i32 as num_traits::CheckedRem>::checked_rem ](x: &i32, v: &i32) -> (r: Option<i32>)
    ensures
        r == (if *v == 0 || !(i32::MIN <= quotient(*x as int, *v as int) <= i32::MAX) {
            None
        } else {
            Some(remainder(*x as int, *v as int) as i32)
        }),
;

/// `CheckedNeg::checked_neg` of `num_traits` for `i32`: the negation, or `None`
/// where the negation is outside the range of `i32`.
pub assume_specification[ <i32 as num_traits::CheckedNeg>::checked_neg ](x: &i32) -> (r: Option<i32>)
    ensures
        r == (if i32::MIN <= -*x <= i32::MAX {
            Some((-*x) as i32)
        } else {
            None
        }),
;

/// `CheckedShl::checked_shl` of `num_traits` for `i32`: the value shifted left, or
/// `None` where the count is 32 or more.
pub assume_specification[ <i32 as num_traits::CheckedShl>::checked_shl ](x: &i32, rhs: u32) -> (r: Option<i32>)
    ensures
        r == (if rhs < 32 {
            Some(*x << rhs)
        } else {
            None
        }),
;

/// `CheckedShr::checked_shr` of `num_traits` for `i32`: the value shifted right, or
/// `None` where the count is 32 or more.
pub assume_specification[ <i32 as num_traits::CheckedShr>::checked_shr ](x: &i32, rhs: u32) -> (r: Option<i32>)
    ensures
        r == (if rhs < 32 {
            Some(*x >> rhs)
        } else {
            None
        }),
;

/// `Zero::zero` of `num_traits` for `i64`: the number zero.
pub assume_specification[ <i64 as num_traits::Zero>::zero ]() -> (r: i64)
    ensures
        r == (0i64),
;

/// `CheckedAdd::checked_add` of `num_traits` for `i64`: the sum, or `None` where the
/// sum is outside the range of `i64`.
pub assume_specification[ <i64 as num_traits::CheckedAdd>::checked_add ](x: &i64, v: &i64) -> (r: Option<i64>)
    ensures
        r == (if i64::MIN <= *x + *v <= i64::MAX {
            Some((*x + *v) as i64)
        } else {
            None
        }),
;

/// `CheckedSub::checked_sub` of `num_traits` for `i64`: the difference, or `None` where the
/// difference is outside the range of `i64`.
pub assume_specification[ <i64 as num_traits::CheckedSub>::checked_sub ](x: &i64, v: &i64) -> (r: Option<i64>)
    ensures
        r == (if i64::MIN <= *x - *v <= i64::MAX {
            Some((*x - *v) as i64)
        } else {
            None
        }),
;

/// `CheckedMul::checked_mul` of `num_traits` for `i64`: the product, or `None` where the
/// product is outside the range of `i64`.
pub assume_specification[ <i64 as num_traits::CheckedMul>::checked_mul ](x: &i64, v: &i64) -> (r: Option<i64>)
    ensures
        r == (if i64::MIN <= *x * *v <= i64::MAX {
            Some((*x * *v) as i64)
        } else {
            None
        }),
;

/// `CheckedDiv::checked_div` of `num_traits` for `i64`: the quotient rounded
/// towards zero, or `None` where the divisor is zero or the quotient is outside
/// the range of `i64`.
pub assume_specification[ <i64 as num_traits::CheckedDiv>::checked_div ](x: &i64, v: &i64) -> (r: Option<i64>)
    ensures
        r == (if *v == 0 || !(i64::MIN <= quotient(*x as int, *v as int) <= i64::MAX) {
            None
        } else {
            Some(quotient(*x as int, *v as int) as i64)
        }),
;

/// `CheckedRem::checked_rem` of `num_traits` for `i64`: the remainder of the
/// division rounded towards zero, or `None` where the divisor is zero or the
/// quotient is outside the range of `i64`.
pub assume_specification[ <i64 as num_traits::CheckedRem>::checked_rem ](x: &i64, v: &i64) -> (r: Option<i64>)
    ensures
        r == (if *v == 0 || !(i64::MIN <= quotient(*x as int, *v as int) <= i64::MAX) {
            None
        } else {
            Some(remainder(*x as int, *v as int) as i64)
        }),
;

/// `CheckedNeg::checked_neg` of `num_traits` for `i64`: the negation, or `None`
/// where the negation is outside the range of `i64`.
pub assume_specification[ <i64 as num_traits::CheckedNeg>::checked_neg ](x: &i64) -> (r: Option<i64>)
    ensures
        r == (if i64::MIN <= -*x <= i64::MAX {
            Some((-*x) as i64)
        } else {
            None
        }),
;

/// `CheckedShl::checked_shl` of `num_traits` for `i64`: the value shifted left, or
/// `None` where the count is 64 or more.
pub assume_specification[ <i64 as num_traits::CheckedShl>::checked_shl ](x: &i64, rhs: u32) -> (r: Option<i64>)
    ensures
        r == (if rhs < 64 {
            Some(*x << rhs)
        } else {
            None
        }),
;

/// `CheckedShr::checked_shr` of `num_traits` for `i64`: the value shifted right, or
/// `None` where the count is 64 or more.
pub assume_specification[ <i64 as num_traits::CheckedShr>::checked_shr ](x: &i64, rhs: u32) -> (r: Option<i64>)
    ensures
        r == (if rhs < 64 {
            Some(*x >> rhs)
        } else {
            None
        }),
;

/// `Zero::zero` of `num_traits` for `i128`: the number zero.
pub assume_specification[ <i128 as num_traits::Zero>::zero ]() -> (r: i128)
    ensures
        r == (0i128),
;

/// `CheckedAdd::checked_add` of `num_traits` for `i128`: the sum, or `None` where the
/// sum is outside the range of `i128`.
pub assume_specification[ <i128 as num_traits::CheckedAdd>::checked_add ](x: &i128, v: &i128) -> (r: Option<i128>)
    ensures
        r == (if i128::MIN <= *x + *v <= i128::MAX {
            Some((*x + *v) as i128)
        } else {
            None
        }),
;

/// `CheckedSub::checked_sub` of `num_traits` for `i128`: the difference, or `None` where the
/// difference is outside the range of `i128`.
pub assume_specification[ <i128 as num_traits::CheckedSub>::checked_sub ](x: &i128, v: &i128) -> (r: Option<i128>)
    ensures
        r == (if i128::MIN <= *x - *v <= i128::MAX {
            Some((*x - *v) as i128)
        } else {
            None
        }),
;

/// `CheckedMul::checked_mul` of `num_traits` for `i128`: the product, or `None` where the
/// product is outside the range of `i128`.
pub assume_specification[ <i128 as num_traits::CheckedMul>::checked_mul ](x: &i128, v: &i128) -> (r: Option<i128>)
    ensures
        r == (if i128::MIN <= *x * *v <= i128::MAX {
            Some((*x * *v) as i128)
        } else {
            None
        }),
;

/// `CheckedDiv::checked_div` of `num_traits` for `i128`: the quotient rounded
/// towards zero, or `None` where the divisor is zero or the quotient is outside
/// the range of `i128`.
pub assume_specification[ <i128 as num_traits::CheckedDiv>::checked_div ](x: &i128, v: &i128) -> (r: Option<i128>)
    ensures
        r == (if *v == 0 || !(i128::MIN <= quotient(*x as int, *v as int) <= i128::MAX) {
            None
        } else {
            Some(quotient(*x as int, *v as int) as i128)
        }),
;

/// `CheckedRem::checked_rem` of `num_traits` for `i128`: the remainder of the
/// division rounded towards zero, or `None` where the divisor is zero or the
/// quotient is outside the range of `i128`.
pub assume_specification[ <i128 as num_traits::CheckedRem>::checked_rem ](x: &i128, v: &i128) -> (r: Option<i128>)
    ensures
        r == (if *v == 0 || !(i128::MIN <= quotient(*x as int, *v as int) <= i128::MAX) {
            None
        } else {
            Some(remainder(*x as int, *v as int) as i128)
        }),
;

/// `CheckedNeg::checked_neg` of `num_traits` for `i128`: the negation, or `None`
/// where the negation is outside the range of `i128`.
pub assume_specification[ <i128 as num_traits::CheckedNeg>::checked_neg ](x: &i128) -> (r: Option<i128>)
    ensures
        r == (if i128::MIN <= -*x <= i128::MAX {
            Some((-*x) as i128)
        } else {
            None
        }),
;

/// `CheckedShl::checked_shl` of `num_traits` for `i128`: the value shifted left, or
/// `None` where the count is 128 or more.
pub assume_specification[ <i128 as num_traits::CheckedShl>::checked_shl ](x: &i128, rhs: u32) -> (r: Option<i128>)
    ensures
        r == (if rhs < 128 {
            Some(*x << rhs)
        } else {
            None
        }),
;

/// `CheckedShr::checked_shr` of `num_traits` for `i128`: the value shifted right, or
/// `None` where the count is 128 or more.
pub assume_specification[ <i128 as num_traits::CheckedShr>::checked_shr ](x: &i128, rhs: u32) -> (r: Option<i128>)
    ensures
        r == (if rhs < 128 {
            Some(*x >> rhs)
        } else {
            None
        }),
;

/// `Zero::zero` of `num_traits` for `u8`: the number zero.
pub assume_specification[ <u8 as num_traits::Zero>::zero ]() -> (r: u8)
    ensures
        r == (0u8),
;

/// `CheckedAdd::checked_add` of `num_traits` for `u8`: the sum, or `None` where the
/// sum is outside the range of `u8`.
pub assume_specification[ <u8 as num_traits::CheckedAdd>::checked_add ](x: &u8, v: &u8) -> (r: Option<u8>)
    ensures
        r == (if u8::MIN <= *x + *v <= u8::MAX {
            Some((*x + *v) as u8)
        } else {
            None
        }),
;

/// `CheckedSub::checked_sub` of `num_traits` for `u8`: the difference, or `None` where the
/// difference is outside the range of `u8`.
pub assume_specification[ <u8 as num_traits::CheckedSub>::checked_sub ](x: &u8, v: &u8) -> (r: Option<u8>)
    ensures
        r == (if u8::MIN <= *x - *v <= u8::MAX {
            Some((*x - *v) as u8)
        } else {
            None
        }),
;

/// `CheckedMul::checked_mul` of `num_traits` for `u8`: the product, or `None` where the
/// product is outside the range of `u8`.
pub assume_specification[ <u8 as num_traits::CheckedMul>::checked_mul ](x: &u8, v: &u8) -> (r: Option<u8>)
    ensures
        r == (if u8::MIN <= *x * *v <= u8::MAX {
            Some((*x * *v) as u8)
        } else {
            None
        }),
;

/// `CheckedDiv::checked_div` of `num_traits` for `u8`: the quotient rounded
/// towards zero, or `None` where the divisor is zero or the quotient is outside
/// the range of `u8`.
pub assume_specification[ <u8 as num_traits::CheckedDiv>::checked_div ](x: &u8, v: &u8) -> (r: Option<u8>)
    ensures
        r == (if *v == 0 || !(u8::MIN <= quotient(*x as int, *v as int) <= u8::MAX) {
            None
        } else {
            Some(quotient(*x as int, *v as int) as u8)
        }),
;

/// `CheckedRem::checked_rem` of `num_traits` for `u8`: the remainder of the
/// division rounded towards zero, or `None` where the divisor is zero or the
/// quotient is outside the range of `u8`.
pub assume_specification[ <u8 as num_traits::CheckedRem>::checked_rem ](x: &u8, v: &u8) -> (r: Option<u8>)
    ensures
        r == (if *v == 0 || !(u8::MIN <= quotient(*x as int, *v as int) <= u8::MAX) {
            None
        } else {
            Some(remainder(*x as int, *v as int) as u8)
        }),
;

/// `CheckedNeg::checked_neg` of `num_traits` for `u8`: the negation, or `None`
/// where the negation is outside the range of `u8`.
pub assume_specification[ <u8 as num_traits::CheckedNeg>::checked_neg ](x: &u8) -> (r: Option<u8>)
    ensures
        r == (if u8::MIN <= -*x <= u8::MAX {
            Some((-*x) as u8)
        } else {
            None
        }),
;

/// `CheckedShl::checked_shl` of `num_traits` for `u8`: the value shifted left, or
/// `None` where the count is 8 or more.
pub assume_specification[ <u8 as num_traits::CheckedShl>::checked_shl ](x: &u8, rhs: u32) -> (r: Option<u8>)
    ensures
        r == (if rhs < 8 {
            Some(*x << rhs)
        } else {
            None
        }),
;

/// `CheckedShr::checked_shr` of `num_traits` for `u8`: the value shifted right, or
/// `None` where the count is 8 or more.
pub assume_specification[ <u8 as num_traits::CheckedShr>::checked_shr ](x: &u8, rhs: u32) -> (r: Option<u8>)
    ensures
        r == (if rhs < 8 {
            Some(*x >> rhs)
        } else {
            None
        }),
;

/// `Zero::zero` of `num_traits` for `u16`: the number zero.
pub assume_specification[ <u16 as num_traits::Zero>::zero ]() -> (r: u16)
    ensures
        r == (0u16),
;

/// `CheckedAdd::checked_add` of `num_traits` for `u16`: the sum, or `None` where the
/// sum is outside the range of `u16`.
pub assume_specification[ <u16 as num_traits::CheckedAdd>::checked_add ](x: &u16, v: &u16) -> (r: Option<u16>)
    ensures
        r == (if u16::MIN <= *x + *v <= u16::MAX {
            Some((*x + *v) as u16)
        } else {
            None
        }),
;

/// `CheckedSub::checked_sub` of `num_traits` for `u16`: the difference, or `None` where the
/// difference is outside the range of `u16`.
pub assume_specification[ <u16 as num_traits::CheckedSub>::checked_sub ](x: &u16, v: &u16) -> (r: Option<u16>)
    ensures
        r == (if u16::MIN <= *x - *v <= u16::MAX {
            Some((*x - *v) as u16)
        } else {
            None
        }),
;

/// `CheckedMul::checked_mul` of `num_traits` for `u16`: the product, or `None` where the
/// product is outside the range of `u16`.
pub assume_specification[ <u16 as num_traits::CheckedMul>::checked_mul ](x: &u16, v: &u16) -> (r: Option<u16>)
    ensures
        r == (if u16::MIN <= *x * *v <= u16::MAX {
            Some((*x * *v) as u16)
        } else {
            None
        }),
;

/// `CheckedDiv::checked_div` of `num_traits` for `u16`: the quotient rounded
/// towards zero, or `None` where the divisor is zero or the quotient is outside
/// the range of `u16`.
pub assume_specification[ <u16 as num_traits::CheckedDiv>::checked_div ](x: &u16, v: &u16) -> (r: Option<u16>)
    ensures
        r == (if *v == 0 || !(u16::MIN <= quotient(*x as int, *v as int) <= u16::MAX) {
            None
        } else {
            Some(quotient(*x as int, *v as int) as u16)
        }),
;

/// `CheckedRem::checked_rem` of `num_traits` for `u16`: the remainder of the
/// division rounded towards zero, or `None` where the divisor is zero or the
/// quotient is outside the range of `u16`.
pub assume_specification[ <u16 as num_traits::CheckedRem>::checked_rem ](x: &u16, v: &u16) -> (r: Option<u16>)
    ensures
        r == (if *v == 0 || !(u16::MIN <= quotient(*x as int, *v as int) <= u16::MAX) {
            None
        } else {
            Some(remainder(*x as int, *v as int) as u16)
        }),
;

/// `CheckedNeg::checked_neg` of `num_traits` for `u16`: the negation, or `None`
/// where the negation is outside the range of `u16`.
pub assume_specification[ <u16 as num_traits::CheckedNeg>::checked_neg ](x: &u16) -> (r: Option<u16>)
    ensures
        r == (if u16::MIN <= -*x <= u16::MAX {
            Some((-*x) as u16)
        } else {
            None
        }),
;

/// `CheckedShl::checked_shl` of `num_traits` for `u16`: the value shifted left, or
/// `None` where the count is 16 or more.
pub assume_specification[ <u16 as num_traits::CheckedShl>::checked_shl ](x: &u16, rhs: u32) -> (r: Option<u16>)
    ensures
        r == (if rhs < 16 {
            Some(*x << rhs)
        } else {
            None
        }),
;

/// `CheckedShr::checked_shr` of `num_traits` for `u16`: the value shifted right, or
/// `None` where the count is 16 or more.
pub assume_specification[ <u16 as num_traits::CheckedShr>::checked_shr ](x: &u16, rhs: u32) -> (r: Option<u16>)
    ensures
        r == (if rhs < 16 {
            Some(*x >> rhs)
        } else {
            None
        }),
;

/// `Zero::zero` of `num_traits` for `u32`: the number zero.
pub assume_specification[ <u32 as num_traits::Zero>::zero ]() -> (r: u32)
    ensures
        r == (0u32),
;

/// `CheckedAdd::checked_add` of `num_traits` for `u32`: the sum, or `None` where the
/// sum is outside the range of `u32`.
pub assume_specification[ <u32 as num_traits::CheckedAdd>::checked_add ](x: &u32, v: &u32) -> (r: Option<u32>)
    ensures
        r == (if u32::MIN <= *x + *v <= u32::MAX {
            Some((*x + *v) as u32)
        } else {
            None
        }),
;

/// `CheckedSub::checked_sub` of `num_traits` for `u32`: the difference, or `None` where the
/// difference is outside the range of `u32`.
pub assume_specification[ <u32 as num_traits::CheckedSub>::checked_sub ](x: &u32, v: &u32) -> (r: Option<u32>)
    ensures
        r == (if u32::MIN <= *x - *v <= u32::MAX {
            Some((*x - *v) as u32)
        } else {
            None
        }),
;

/// `CheckedMul::checked_mul` of `num_traits` for `u32`: the product, or `None` where the
/// product is outside the range of `u32`.
pub assume_specification[ <u32 as num_traits::CheckedMul>::checked_mul ](x: &u32, v: &u32) -> (r: Option<u32>)
    ensures
        r == (if u32::MIN <= *x * *v <= u32::MAX {
            Some((*x * *v) as u32)
        } else {
            None
        }),
;

/// `CheckedDiv::checked_div` of `num_traits` for `u32`: the quotient rounded
/// towards zero, or `None` where the divisor is zero or the quotient is outside
/// the range of `u32`.
pub assume_specification[ <u32 as num_traits::CheckedDiv>::checked_div ](x: &u32, v: &u32) -> (r: Option<u32>)
    ensures
        r == (if *v == 0 || !(u32::MIN <= quotient(*x as int, *v as int) <= u32::MAX) {
            None
        } else {
            Some(quotient(*x as int, *v as int) as u32)
        }),
;

/// `CheckedRem::checked_rem` of `num_traits` for `u32`: the remainder of the
/// division rounded towards zero, or `None` where the divisor is zero or the
/// quotient is outside the range of `u32`.
pub assume_specification[ <u32 as num_traits::CheckedRem>::checked_rem ](x: &u32, v: &u32) -> (r: Option<u32>)
    ensures
        r == (if *v == 0 || !(u32::MIN <= quotient(*x as int, *v as int) <= u32::MAX) {
            None
        } else {
            Some(remainder(*x as int, *v as int) as u32)
        }),
;

/// `CheckedNeg::checked_neg` of `num_traits` for `u32`: the negation, or `None`
/// where the negation is outside the range of `u32`.
pub assume_specification[ <u32 as num_traits::CheckedNeg>::checked_neg ](x: &u32) -> (r: Option<u32>)
    ensures
        r == (if u32::MIN <= -*x <= u32::MAX {
            Some((-*x) as u32)
        } else {
            None
        }),
;

/// `CheckedShl::checked_shl` of `num_traits` for `u32`: the value shifted left, or
/// `None` where the count is 32 or more.
pub assume_specification[ <u32 as num_traits::CheckedShl>::checked_shl ](x: &u32, rhs: u32) -> (r: Option<u32>)
    ensures
        r == (if rhs < 32 {
            Some(*x << rhs)
        } else {
            None
        }),
;

/// `CheckedShr::checked_shr` of `num_traits` for `u32`: the value shifted right, or
/// `None` where the count is 32 or more.
pub assume_specification[ <u32 as num_traits::CheckedShr>::checked_shr ](x: &u32, rhs: u32) -> (r: Option<u32>)
    ensures
        r == (if rhs < 32 {
            Some(*x >> rhs)
        } else {
            None
        }),
;

/// `Zero::zero` of `num_traits` for `u64`: the number zero.
pub assume_specification[ <u64 as num_traits::Zero>::zero ]() -> (r: u64)
    ensures
        r == (0u64),
;

/// `CheckedAdd::checked_add` of `num_traits` for `u64`: the sum, or `None` where the
/// sum is outside the range of `u64`.
pub assume_specification[ <u64 as num_traits::CheckedAdd>::checked_add ](x: &u64, v: &u64) -> (r: Option<u64>)
    ensures
        r == (if u64::MIN <= *x + *v <= u64::MAX {
            Some((*x + *v) as u64)
        } else {
            None
        }),
;

/// `CheckedSub::checked_sub` of `num_traits` for `u64`: the difference, or `None` where the
/// difference is outside the range of `u64`.
pub assume_specification[ <u64 as num_traits::CheckedSub>::checked_sub ](x: &u64, v: &u64) -> (r: Option<u64>)
    ensures
        r == (if u64::MIN <= *x - *v <= u64::MAX {
            Some((*x - *v) as u64)
        } else {
            None
        }),
;

/// `CheckedMul::checked_mul` of `num_traits` for `u64`: the product, or `None` where the
/// product is outside the range of `u64`.
pub assume_specification[ <u64 as num_traits::CheckedMul>::checked_mul ](x: &u64, v: &u64) -> (r: Option<u64>)
    ensures
        r == (if u64::MIN <= *x * *v <= u64::MAX {
            Some((*x * *v) as u64)
        } else {
            None
        }),
;

/// `CheckedDiv::checked_div` of `num_traits` for `u64`: the quotient rounded
/// towards zero, or `None` where the divisor is zero or the quotient is outside
/// the range of `u64`.
pub assume_specification[ <u64 as num_traits::CheckedDiv>::checked_div ](x: &u64, v: &u64) -> (r: Option<u64>)
    ensures
        r == (if *v == 0 || !(u64::MIN <= quotient(*x as int, *v as int) <= u64::MAX) {
            None
        } else {
            Some(quotient(*x as int, *v as int) as u64)
        }),
;

/// `CheckedRem::checked_rem` of `num_traits` for `u64`: the remainder of the
/// division rounded towards zero, or `None` where the divisor is zero or the
/// quotient is outside the range of `u64`.
pub assume_specification[ <u64 as num_traits::CheckedRem>::checked_rem ](x: &u64, v: &u64) -> (r: Option<u64>)
    ensures
        r == (if *v == 0 || !(u64::MIN <= quotient(*x as int, *v as int) <= u64::MAX) {
            None
        } else {
            Some(remainder(*x as int, *v as int) as u64)
        }),
;

/// `CheckedNeg::checked_neg` of `num_traits` for `u64`: the negation, or `None`
/// where the negation is outside the range of `u64`.
pub assume_specification[ <u64 as num_traits::CheckedNeg>::checked_neg ](x: &u64) -> (r: Option<u64>)
    ensures
        r == (if u64::MIN <= -*x <= u64::MAX {
            Some((-*x) as u64)
        } else {
            None
        }),
;

/// `CheckedShl::checked_shl` of `num_traits` for `u64`: the value shifted left, or
/// `None` where the count is 64 or more.
pub assume_specification[ <u64 as num_traits::CheckedShl>::checked_shl ](x: &u64, rhs: u32) -> (r: Option<u64>)
    ensures
        r == (if rhs < 64 {
            Some(*x << rhs)
        } else {
            None
        }),
;

/// `CheckedShr::checked_shr` of `num_traits` for `u64`: the value shifted right, or
/// `None` where the count is 64 or more.
pub assume_specification[ <u64 as num_traits::CheckedShr>::checked_shr ](x: &u64, rhs: u32) -> (r: Option<u64>)
    ensures
        r == (if rhs < 64 {
            Some(*x >> rhs)
        } else {
            None
        }),
;

/// `Zero::zero` of `num_traits` for `u128`: the number zero.
pub assume_specification[ <u128 as num_traits::Zero>::zero ]() -> (r: u128)
    ensures
        r == (0u128),
;

/// `CheckedAdd::checked_add` of `num_traits` for `u128`: the sum, or `None` where the
/// sum is outside the range of `u128`.
pub assume_specification[ <u128 as num_traits::CheckedAdd>::checked_add ](x: &u128, v: &u128) -> (r: Option<u128>)
    ensures
        r == (if u128::MIN <= *x + *v <= u128::MAX {
            Some((*x + *v) as u128)
        } else {
            None
        }),
;

/// `CheckedSub::checked_sub` of `num_traits` for `u128`: the difference, or `None` where the
/// difference is outside the range of `u128`.
pub assume_specification[ <u128 as num_traits::CheckedSub>::checked_sub ](x: &u128, v: &u128) -> (r: Option<u128>)
    ensures
        r == (if u128::MIN <= *x - *v <= u128::MAX {
            Some((*x - *v) as u128)
        } else {
            None
        }),
;

/// `CheckedMul::checked_mul` of `num_traits` for `u128`: the product, or `None` where the
/// product is outside the range of `u128`.
pub assume_specification[ <u128 as num_traits::CheckedMul>::checked_mul ](x: &u128, v: &u128) -> (r: Option<u128>)
    ensures
        r == (if u128::MIN <= *x * *v <= u128::MAX {
            Some((*x * *v) as u128)
        } else {
            None
        }),
;

/// `CheckedDiv::checked_div` of `num_traits` for `u128`: the quotient rounded
/// towards zero, or `None` where the divisor is zero or the quotient is outside
/// the range of `u128`.
pub assume_specification[ <u128 as num_traits::CheckedDiv>::checked_div ](x: &u128, v: &u128) -> (r: Option<u128>)
    ensures
        r == (if *v == 0 || !(u128::MIN <= quotient(*x as int, *v as int) <= u128::MAX) {
            None
        } else {
            Some(quotient(*x as int, *v as int) as u128)
        }),
;

/// `CheckedRem::checked_rem` of `num_traits` for `u128`: the remainder of the
/// division rounded towards zero, or `None` where the divisor is zero or the
/// quotient is outside the range of `u128`.
pub assume_specification[ <u128 as num_traits::CheckedRem>::checked_rem ](x: &u128, v: &u128) -> (r: Option<u128>)
    ensures
        r == (if *v == 0 || !(u128::MIN <= quotient(*x as int, *v as int) <= u128::MAX) {
            None
        } else {
            Some(remainder(*x as int, *v as int) as u128)
        }),
;

/// `CheckedNeg::checked_neg` of `num_traits` for `u128`: the negation, or `None`
/// where the negation is outside the range of `u128`.
pub assume_specification[ <u128 as num_traits::CheckedNeg>::checked_neg ](x: &u128) -> (r: Option<u128>)
    ensures
        r == (if u128::MIN <= -*x <= u128::MAX {
            Some((-*x) as u128)
        } else {
            None
        }),
;

/// `CheckedShl::checked_shl` of `num_traits` for `u128`: the value shifted left, or
/// `None` where the count is 128 or more.
pub assume_specification[ <u128 as num_traits::CheckedShl>::checked_shl ](x: &u128, rhs: u32) -> (r: Option<u128>)
    ensures
        r == (if rhs < 128 {
            Some(*x << rhs)
        } else {
            None
        }),
;

/// `CheckedShr::checked_shr` of `num_traits` for `u128`: the value shifted right, or
/// `None` where the count is 128 or more.
pub assume_specification[ <u128 as num_traits::CheckedShr>::checked_shr ](x: &u128, rhs: u32) -> (r: Option<u128>)
    ensures
        r == (if rhs < 128 {
            Some(*x >> rhs)
        } else {
            None
        }),
;

/// `i64::checked_pow` of the standard library: the power, or `None` where the
/// power is outside the range of `i64`.
pub assume_specification[ i64::checked_pow ](x: i64, exp: u32) -> (r: Option<i64>)
    ensures
        r == (if i64::MIN <= pow(x as int, exp as nat) <= i64::MAX {
            Some(pow(x as int, exp as nat) as i64)
        } else {
            None
        }),
;

/// `i64::pow` of the standard library: the power, for arguments whose power
/// is in the range of `i64`.
pub assume_specification[ i64::pow ](x: i64, exp: u32) -> (r: i64)
    requires
        i64::MIN <= pow(x as int, exp as nat) <= i64::MAX,
    ensures
        r == pow(x as int, exp as nat),
;

} // verus!
