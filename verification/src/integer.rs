//! The integer types as the operators see them: each value stands for a
//! mathematical integer, and each type offers the primitive operations that
//! the operators are built from.

use crate::decimal::decimal;
use crate::types::NumericType;
use vstd::prelude::*;

verus! {

/// The quotient of a division that rounds towards zero. (In specifications
/// `/` rounds so that the remainder is not negative.)
pub open spec fn quotient(x: int, y: int) -> int
    recommends
        y != 0,
{
    if x >= 0 {
        x / y
    } else {
        -((-x) / y)
    }
}

/// The remainder of a division that rounds towards zero; it has the sign of
/// the dividend.
pub open spec fn remainder(x: int, y: int) -> int
    recommends
        y != 0,
{
    if x >= 0 {
        x % y
    } else {
        -((-x) % y)
    }
}

/// Division by minus one negates.
pub proof fn quotient_by_minus_one(x: int)
    ensures
        quotient(x, -1) == -x,
{
}

/// The value of `T` that stands for `i`, if `i` is in the range of `T`.
pub open spec fn narrow<T: Numeral>(i: int) -> Option<T> {
    if T::kind().fits(i) {
        Some(T::of(i))
    } else {
        None
    }
}

/// A fixed-width integer type as a set of values, each of which stands for a
/// mathematical integer.
pub trait Numeral: Copy + Sized {
    /// The mathematical integer that a value stands for.
    spec fn value(self) -> int;

    /// The value that stands for `i`, for `i` in the range of the type.
    spec fn of(i: int) -> Self;

    /// The type's tag.
    spec fn kind() -> NumericType;

    /// Bitwise conjunction.
    spec fn band(self, rhs: Self) -> Self;

    /// Bitwise disjunction.
    spec fn bor(self, rhs: Self) -> Self;

    /// Bitwise exclusive disjunction.
    spec fn bxor(self, rhs: Self) -> Self;

    /// The value shifted left by `n` bits, for `n` below the type's width;
    /// bits that leave the type are lost.
    spec fn shifted_left(self, n: int) -> Self;

    /// The value shifted right by `n` bits, for `n` below the type's width;
    /// a signed value keeps its sign.
    spec fn shifted_right(self, n: int) -> Self;

    /// The tag is that of an integer type.
    proof fn kind_is_integer()
        ensures
            Self::kind().is_integer(),
    ;

    /// Every value stands for an integer in the type's range.
    proof fn value_in_range(self)
        ensures
            Self::kind().fits(self.value()),
    ;

    /// A value is determined by the integer that it stands for.
    proof fn of_value(self)
        ensures
            Self::of(self.value()) == self,
    ;

    /// Every integer in the type's range has a value that stands for it.
    proof fn value_of(i: int)
        requires
            Self::kind().fits(i),
        ensures
            Self::of(i).value() == i,
    ;

}

/// A fixed-width integer type with the primitive operations that the
/// operators are built from. The `try_` operations report a result that the
/// type cannot hold; the `raw_` operations leave such inputs out.
pub trait Integer: Numeral {
    /// Zero.
    fn nought() -> (z: Self)
        ensures
            z.value() == 0,
    ;

    /// The sum, unless it leaves the type's range.
    fn try_add(self, rhs: Self) -> (r: Option<Self>)
        ensures
            r == narrow::<Self>(self.value() + rhs.value()),
    ;

    /// The difference, unless it leaves the type's range.
    fn try_sub(self, rhs: Self) -> (r: Option<Self>)
        ensures
            r == narrow::<Self>(self.value() - rhs.value()),
    ;

    /// The product, unless it leaves the type's range.
    fn try_mul(self, rhs: Self) -> (r: Option<Self>)
        ensures
            r == narrow::<Self>(self.value() * rhs.value()),
    ;

    /// The quotient rounded towards zero, unless the divisor is zero or the
    /// quotient leaves the type's range.
    fn try_div(self, rhs: Self) -> (r: Option<Self>)
        ensures
            r == (if rhs.value() == 0 {
                None
            } else {
                narrow::<Self>(quotient(self.value(), rhs.value()))
            }),
    ;

    /// The remainder of the division rounded towards zero, unless the divisor
    /// is zero or the quotient leaves the type's range.
    fn try_rem(self, rhs: Self) -> (r: Option<Self>)
        ensures
            r == (if rhs.value() == 0 || !Self::kind().fits(quotient(self.value(), rhs.value())) {
                None
            } else {
                Some(Self::of(remainder(self.value(), rhs.value())))
            }),
    ;

    /// The negation, unless it leaves the type's range.
    fn try_neg(self) -> (r: Option<Self>)
        ensures
            r == narrow::<Self>(-self.value()),
    ;

    /// The value shifted left, unless the count reaches the type's width.
    fn try_shl(self, count: u32) -> (r: Option<Self>)
        ensures
            r == (if count < Self::kind().bits() {
                Some(self.shifted_left(count as int))
            } else {
                None
            }),
    ;

    /// The value shifted right, unless the count reaches the type's width.
    fn try_shr(self, count: u32) -> (r: Option<Self>)
        ensures
            r == (if count < Self::kind().bits() {
                Some(self.shifted_right(count as int))
            } else {
                None
            }),
    ;

    /// The sum, where it is in the type's range.
    fn raw_add(self, rhs: Self) -> (r: Self)
        requires
            Self::kind().fits(self.value() + rhs.value()),
        ensures
            r.value() == self.value() + rhs.value(),
    ;

    /// The difference, where it is in the type's range.
    fn raw_sub(self, rhs: Self) -> (r: Self)
        requires
            Self::kind().fits(self.value() - rhs.value()),
        ensures
            r.value() == self.value() - rhs.value(),
    ;

    /// The product, where it is in the type's range.
    fn raw_mul(self, rhs: Self) -> (r: Self)
        requires
            Self::kind().fits(self.value() * rhs.value()),
        ensures
            r.value() == self.value() * rhs.value(),
    ;

    /// The quotient rounded towards zero, where the divisor is not zero and
    /// the quotient is in the type's range.
    fn raw_div(self, rhs: Self) -> (r: Self)
        requires
            rhs.value() != 0,
            Self::kind().fits(quotient(self.value(), rhs.value())),
        ensures
            r.value() == quotient(self.value(), rhs.value()),
    ;

    /// The remainder of the division rounded towards zero, where the divisor
    /// is not zero and the quotient is in the type's range.
    fn raw_rem(self, rhs: Self) -> (r: Self)
        requires
            rhs.value() != 0,
            Self::kind().fits(quotient(self.value(), rhs.value())),
        ensures
            r.value() == remainder(self.value(), rhs.value()),
    ;

    /// The value shifted left by a count that is not negative and below the
    /// type's width.
    fn raw_shl(self, count: Self) -> (r: Self)
        requires
            0 <= count.value() < Self::kind().bits(),
        ensures
            r == self.shifted_left(count.value()),
    ;

    /// The value shifted right by a count that is not negative and below the
    /// type's width.
    fn raw_shr(self, count: Self) -> (r: Self)
        requires
            0 <= count.value() < Self::kind().bits(),
        ensures
            r == self.shifted_right(count.value()),
    ;

    /// Bitwise conjunction.
    fn bit_and(self, rhs: Self) -> (r: Self)
        ensures
            r == self.band(rhs),
    ;

    /// Bitwise disjunction.
    fn bit_or(self, rhs: Self) -> (r: Self)
        ensures
            r == self.bor(rhs),
    ;

    /// Bitwise exclusive disjunction.
    fn bit_xor(self, rhs: Self) -> (r: Self)
        ensures
            r == self.bxor(rhs),
    ;

    /// Whether two values stand for the same integer.
    fn equals(self, rhs: Self) -> (b: bool)
        ensures
            b == (self.value() == rhs.value()),
    ;

    /// Whether this value stands for a lesser integer than the other.
    fn below(self, rhs: Self) -> (b: bool)
        ensures
            b == (self.value() < rhs.value()),
    ;

    /// The number of bits of the type.
    fn width() -> (w: Self)
        ensures
            w.value() == Self::kind().bits(),
    ;

    /// The value that the type has by default: zero.
    fn default_value() -> (z: Self)
        ensures
            z.value() == 0,
    ;

    /// The value in decimal notation.
    fn render(self) -> (s: String)
        ensures
            s@ == decimal(self.value()),
    ;
}

/// A signed integer type.
pub trait Signed: Integer {
    /// The negation, where it is in the type's range.
    fn raw_neg(self) -> (r: Self)
        requires
            Self::kind().fits(-self.value()),
        ensures
            r.value() == -self.value(),
    ;
}

} // verus!
