//! The arithmetic operators: a checked form that reports every result that
//! the operand type cannot hold, and an unchecked form that leaves such
//! inputs out of its domain.

use crate::error::{binary_text, outcome, unary_text, ArithmeticError, ErrorKind, Fault, FuncReturn};
use crate::integer::{narrow, quotient, remainder, Integer, Numeral, Signed};
use vstd::arithmetic::power::pow;
use vstd::prelude::*;

verus! {

/// The engine's default integer type.
pub type INT = i64;

/// What a checked operation returns: the value that stands for `i` where the
/// operand type can hold it, else the given failure.
pub open spec fn value_or<T: Numeral>(i: int, kind: ErrorKind, text: Seq<char>) -> Result<T, Fault> {
    match narrow::<T>(i) {
        Some(v) => Ok(v),
        None => Err(Fault { kind, text }),
    }
}

/// What [`add`] returns.
pub open spec fn add_result<T: Numeral>(x: T, y: T) -> Result<T, Fault> {
    value_or(
        x.value() + y.value(),
        ErrorKind::Overflow,
        binary_text("Addition overflow: "@, x.value(), " + "@, y.value()),
    )
}

/// What [`sub`] returns.
pub open spec fn sub_result<T: Numeral>(x: T, y: T) -> Result<T, Fault> {
    value_or(
        x.value() - y.value(),
        ErrorKind::Underflow,
        binary_text("Subtraction underflow: "@, x.value(), " - "@, y.value()),
    )
}

/// What [`mul`] returns.
pub open spec fn mul_result<T: Numeral>(x: T, y: T) -> Result<T, Fault> {
    value_or(
        x.value() * y.value(),
        ErrorKind::Overflow,
        binary_text("Multiplication overflow: "@, x.value(), " * "@, y.value()),
    )
}

/// What [`div`] returns: a zero divisor is reported before anything else.
pub open spec fn div_result<T: Numeral>(x: T, y: T) -> Result<T, Fault> {
    if y.value() == 0 {
        Err(
            Fault {
                kind: ErrorKind::DivisionByZero,
                text: binary_text("Division by zero: "@, x.value(), " / "@, y.value()),
            },
        )
    } else {
        value_or(
            quotient(x.value(), y.value()),
            ErrorKind::Overflow,
            binary_text("Division overflow: "@, x.value(), " / "@, y.value()),
        )
    }
}

/// Checked addition: the sum, or `Overflow` where the sum is outside the
/// range of `T`.
pub fn add<T: Integer>(x: T, y: T) -> (r: FuncReturn<T>)
    ensures
        outcome(r) == add_result(x, y),
{
    match x.try_add(y) {
        Some(sum) => Ok(sum),
        None => Err(ArithmeticError::binary(ErrorKind::Overflow, "Addition overflow: ", x, " + ", y)),
    }
}

/// Checked subtraction: the difference, or `Underflow` where the difference
/// is outside the range of `T`.
pub fn sub<T: Integer>(x: T, y: T) -> (r: FuncReturn<T>)
    ensures
        outcome(r) == sub_result(x, y),
{
    match x.try_sub(y) {
        Some(difference) => Ok(difference),
        None => Err(
            ArithmeticError::binary(ErrorKind::Underflow, "Subtraction underflow: ", x, " - ", y),
        ),
    }
}

/// Checked multiplication: the product, or `Overflow` where the product is
/// outside the range of `T`.
pub fn mul<T: Integer>(x: T, y: T) -> (r: FuncReturn<T>)
    ensures
        outcome(r) == mul_result(x, y),
{
    match x.try_mul(y) {
        Some(product) => Ok(product),
        None => Err(
            ArithmeticError::binary(ErrorKind::Overflow, "Multiplication overflow: ", x, " * ", y),
        ),
    }
}

/// Checked division, rounding towards zero: `DivisionByZero` where the
/// divisor is zero, whatever the dividend; else the quotient, or `Overflow`
/// where the quotient is outside the range of `T` (the least value of a
/// signed type divided by minus one).
pub fn div<T: Integer>(x: T, y: T) -> (r: FuncReturn<T>)
    ensures
        outcome(r) == div_result(x, y),
{
    if y.equals(T::nought()) {
        return Err(
            ArithmeticError::binary(ErrorKind::DivisionByZero, "Division by zero: ", x, " / ", y),
        );
    }
    match x.try_div(y) {
        Some(q) => Ok(q),
        None => Err(ArithmeticError::binary(ErrorKind::Overflow, "Division overflow: ", x, " / ", y)),
    }
}

/// What [`neg`] returns.
pub open spec fn neg_result<T: Numeral>(x: T) -> Result<T, Fault> {
    value_or(-x.value(), ErrorKind::Overflow, unary_text("Negation overflow: -"@, x.value()))
}

/// What [`abs`] returns.
pub open spec fn abs_result<T: Numeral>(x: T) -> Result<T, Fault> {
    if x.value() >= 0 {
        Ok(x)
    } else {
        neg_result(x)
    }
}

/// What [`modulo`] returns: a zero divisor and a quotient outside the range
/// of `T` are reported alike.
pub open spec fn modulo_result<T: Numeral>(x: T, y: T) -> Result<T, Fault> {
    if y.value() == 0 || !T::kind().fits(quotient(x.value(), y.value())) {
        Err(
            Fault {
                kind: ErrorKind::DivisionByZero,
                text: binary_text(
                    "Modulo division by zero or overflow: "@,
                    x.value(),
                    " % "@,
                    y.value(),
                ),
            },
        )
    } else {
        Ok(T::of(remainder(x.value(), y.value())))
    }
}

/// What [`shl`] returns.
pub open spec fn shl_result<T: Numeral>(x: T, bits: int) -> Result<T, Fault> {
    if bits < 0 {
        Err(
            Fault {
                kind: ErrorKind::NegativeShiftCount,
                text: binary_text("Left-shift by a negative number: "@, x.value(), " << "@, bits),
            },
        )
    } else if bits >= T::kind().bits() {
        Err(
            Fault {
                kind: ErrorKind::ShiftCountTooLarge,
                text: binary_text("Left-shift by too many bits: "@, x.value(), " << "@, bits),
            },
        )
    } else {
        Ok(x.shifted_left(bits))
    }
}

/// What [`shr`] returns.
pub open spec fn shr_result<T: Numeral>(x: T, bits: int) -> Result<T, Fault> {
    if bits < 0 {
        Err(
            Fault {
                kind: ErrorKind::NegativeShiftCount,
                text: binary_text("Right-shift by a negative number: "@, x.value(), " >> "@, bits),
            },
        )
    } else if bits >= T::kind().bits() {
        Err(
            Fault {
                kind: ErrorKind::ShiftCountTooLarge,
                text: binary_text("Right-shift by too many bits: "@, x.value(), " >> "@, bits),
            },
        )
    } else {
        Ok(x.shifted_right(bits))
    }
}

/// Checked negation: the negation, or `Overflow` where the negation is
/// outside the range of `T` (the least value of a signed type).
pub fn neg<T: Integer>(x: T) -> (r: FuncReturn<T>)
    ensures
        outcome(r) == neg_result(x),
{
    match x.try_neg() {
        Some(negation) => Ok(negation),
        None => Err(ArithmeticError::unary(ErrorKind::Overflow, "Negation overflow: -", x)),
    }
}

/// Checked absolute value: `x` itself where it is not negative, else what
/// [`neg`] returns.
pub fn abs<T: Integer>(x: T) -> (r: FuncReturn<T>)
    ensures
        outcome(r) == abs_result(x),
{
    if !x.below(T::nought()) {
        Ok(x)
    } else {
        match x.try_neg() {
            Some(negation) => Ok(negation),
            None => Err(ArithmeticError::unary(ErrorKind::Overflow, "Negation overflow: -", x)),
        }
    }
}

/// Checked remainder of the division that rounds towards zero:
/// `DivisionByZero` where the divisor is zero or the quotient is outside the
/// range of `T`; else the remainder, which has the sign of the dividend.
pub fn modulo<T: Integer>(x: T, y: T) -> (r: FuncReturn<T>)
    ensures
        outcome(r) == modulo_result(x, y),
{
    match x.try_rem(y) {
        Some(rest) => Ok(rest),
        None => Err(
            ArithmeticError::binary(
                ErrorKind::DivisionByZero,
                "Modulo division by zero or overflow: ",
                x,
                " % ",
                y,
            ),
        ),
    }
}

/// Checked left shift: `NegativeShiftCount` where the count is negative,
/// `ShiftCountTooLarge` where it is not below the width of `T`, else the value
/// shifted left.
pub fn shl<T: Integer>(x: T, y: INT) -> (r: FuncReturn<T>)
    ensures
        outcome(r) == shl_result(x, y as int),
{
    if y < 0 {
        return Err(
            ArithmeticError::binary(
                ErrorKind::NegativeShiftCount,
                "Left-shift by a negative number: ",
                x,
                " << ",
                y,
            ),
        );
    }
    let shifted = if y > 0xffff_ffff {
        None
    } else {
        x.try_shl(y as u32)
    };
    match shifted {
        Some(value) => Ok(value),
        None => Err(
            ArithmeticError::binary(
                ErrorKind::ShiftCountTooLarge,
                "Left-shift by too many bits: ",
                x,
                " << ",
                y,
            ),
        ),
    }
}

/// Checked right shift: `NegativeShiftCount` where the count is negative,
/// `ShiftCountTooLarge` where it is not below the width of `T`, else the value
/// shifted right.
pub fn shr<T: Integer>(x: T, y: INT) -> (r: FuncReturn<T>)
    ensures
        outcome(r) == shr_result(x, y as int),
{
    if y < 0 {
        return Err(
            ArithmeticError::binary(
                ErrorKind::NegativeShiftCount,
                "Right-shift by a negative number: ",
                x,
                " >> ",
                y,
            ),
        );
    }
    let shifted = if y > 0xffff_ffff {
        None
    } else {
        x.try_shr(y as u32)
    };
    match shifted {
        Some(value) => Ok(value),
        None => Err(
            ArithmeticError::binary(
                ErrorKind::ShiftCountTooLarge,
                "Right-shift by too many bits: ",
                x,
                " >> ",
                y,
            ),
        ),
    }
}

/// What [`pow_i_i`] returns.
pub open spec fn pow_i_i_result(x: INT, y: INT) -> Result<INT, Fault> {
    if y > u32::MAX {
        Err(
            Fault {
                kind: ErrorKind::ExponentTooLarge,
                text: binary_text(
                    "Integer raised to too large an index: "@,
                    x as int,
                    " ~ "@,
                    y as int,
                ),
            },
        )
    } else if y < 0 {
        Err(
            Fault {
                kind: ErrorKind::NegativeExponent,
                text: binary_text(
                    "Integer raised to a negative index: "@,
                    x as int,
                    " ~ "@,
                    y as int,
                ),
            },
        )
    } else {
        value_or(
            pow(x as int, y as nat),
            ErrorKind::Overflow,
            binary_text("Power overflow: "@, x as int, " ~ "@, y as int),
        )
    }
}

/// Checked integer power: `ExponentTooLarge` where the exponent is above the
/// greatest unsigned 32-bit number, `NegativeExponent` where it is negative,
/// else the power, or `Overflow` where the power is outside the range of the
/// default integer type.
pub fn pow_i_i(x: INT, y: INT) -> (r: FuncReturn<INT>)
    ensures
        outcome(r) == pow_i_i_result(x, y),
{
    if y > 0xffff_ffff {
        Err(
            ArithmeticError::binary(
                ErrorKind::ExponentTooLarge,
                "Integer raised to too large an index: ",
                x,
                " ~ ",
                y,
            ),
        )
    } else if y < 0 {
        Err(
            ArithmeticError::binary(
                ErrorKind::NegativeExponent,
                "Integer raised to a negative index: ",
                x,
                " ~ ",
                y,
            ),
        )
    } else {
        match x.checked_pow(y as u32) {
            Some(power) => Ok(power),
            None => Err(ArithmeticError::binary(ErrorKind::Overflow, "Power overflow: ", x, " ~ ", y)),
        }
    }
}

/// Unchecked integer power, for an exponent from zero to the greatest
/// unsigned 32-bit number and a power in the range of the default integer
/// type. On other inputs the compiled operation faults or wraps, so they are
/// outside the domain.
pub fn pow_i_i_u(x: INT, y: INT) -> (r: FuncReturn<INT>)
    requires
        0 <= y <= u32::MAX,
        i64::MIN <= pow(x as int, y as nat) <= i64::MAX,
    ensures
        r matches Ok(power) && power == pow(x as int, y as nat),
{
    Ok(x.pow(y as u32))
}

/// The sign of an integer: minus one, zero or one.
pub open spec fn signum(i: int) -> int {
    if i == 0 {
        0
    } else if i < 0 {
        -1
    } else {
        1
    }
}

/// The magnitude of an integer.
pub open spec fn magnitude(i: int) -> int {
    if i < 0 {
        -i
    } else {
        i
    }
}

/// Unchecked addition, for a sum in the range of `T`. On other inputs the
/// compiled operation faults or wraps, so they are outside the domain.
pub fn add_u<T: Integer>(x: T, y: T) -> (r: FuncReturn<T>)
    requires
        T::kind().fits(x.value() + y.value()),
    ensures
        r matches Ok(z) && z.value() == x.value() + y.value(),
{
    Ok(x.raw_add(y))
}

/// Unchecked subtraction, for a difference in the range of `T`. On other
/// inputs the compiled operation faults or wraps, so they are outside the
/// domain.
pub fn sub_u<T: Integer>(x: T, y: T) -> (r: FuncReturn<T>)
    requires
        T::kind().fits(x.value() - y.value()),
    ensures
        r matches Ok(z) && z.value() == x.value() - y.value(),
{
    Ok(x.raw_sub(y))
}

/// Unchecked multiplication, for a product in the range of `T`. On other
/// inputs the compiled operation faults or wraps, so they are outside the
/// domain.
pub fn mul_u<T: Integer>(x: T, y: T) -> (r: FuncReturn<T>)
    requires
        T::kind().fits(x.value() * y.value()),
    ensures
        r matches Ok(z) && z.value() == x.value() * y.value(),
{
    Ok(x.raw_mul(y))
}

/// Unchecked division, rounding towards zero, for a divisor other than zero
/// and a quotient in the range of `T`. On other inputs the compiled operation
/// faults, so they are outside the domain.
pub fn div_u<T: Integer>(x: T, y: T) -> (r: FuncReturn<T>)
    requires
        y.value() != 0,
        T::kind().fits(quotient(x.value(), y.value())),
    ensures
        r matches Ok(z) && z.value() == quotient(x.value(), y.value()),
{
    Ok(x.raw_div(y))
}

/// Unchecked negation, for a negation in the range of `T`. On the least value
/// of `T` the compiled operation faults or wraps, so it is outside the domain.
pub fn neg_u<T: Signed>(x: T) -> (r: FuncReturn<T>)
    requires
        T::kind().fits(-x.value()),
    ensures
        r matches Ok(z) && z.value() == -x.value(),
{
    Ok(x.raw_neg())
}

/// Unchecked absolute value, for a magnitude in the range of `T`. On the
/// least value of `T` the compiled operation faults or wraps, so it is outside
/// the domain.
pub fn abs_u<T: Signed>(x: T) -> (r: FuncReturn<T>)
    requires
        T::kind().fits(magnitude(x.value())),
    ensures
        r matches Ok(z) && z.value() == magnitude(x.value()),
{
    if x.below(T::default_value()) {
        Ok(x.raw_neg())
    } else {
        Ok(x)
    }
}

/// Bitwise conjunction. It never fails.
pub fn binary_and<T: Integer>(x: T, y: T) -> (r: FuncReturn<T>)
    ensures
        r matches Ok(z) && z == x.band(y),
{
    Ok(x.bit_and(y))
}

/// Bitwise disjunction. It never fails.
pub fn binary_or<T: Integer>(x: T, y: T) -> (r: FuncReturn<T>)
    ensures
        r matches Ok(z) && z == x.bor(y),
{
    Ok(x.bit_or(y))
}

/// Bitwise exclusive disjunction. It never fails.
pub fn binary_xor<T: Integer>(x: T, y: T) -> (r: FuncReturn<T>)
    ensures
        r matches Ok(z) && z == x.bxor(y),
{
    Ok(x.bit_xor(y))
}

/// Unchecked left shift, for a count from zero to below the width of `T`. On
/// other counts the compiled operation faults or wraps the count, so they are
/// outside the domain.
pub fn shl_u<T: Integer>(x: T, y: T) -> (r: FuncReturn<T>)
    requires
        0 <= y.value() < T::kind().bits(),
    ensures
        r matches Ok(z) && z == x.shifted_left(y.value()),
{
    Ok(x.raw_shl(y))
}

/// Unchecked right shift, for a count from zero to below the width of `T`. On
/// other counts the compiled operation faults or wraps the count, so they are
/// outside the domain.
pub fn shr_u<T: Integer>(x: T, y: T) -> (r: FuncReturn<T>)
    requires
        0 <= y.value() < T::kind().bits(),
    ensures
        r matches Ok(z) && z == x.shifted_right(y.value()),
{
    Ok(x.raw_shr(y))
}

/// Unchecked remainder of the division that rounds towards zero, for a
/// divisor other than zero and a quotient in the range of `T`. On other inputs
/// the compiled operation faults, so they are outside the domain.
pub fn modulo_u<T: Integer>(x: T, y: T) -> (r: FuncReturn<T>)
    requires
        y.value() != 0,
        T::kind().fits(quotient(x.value(), y.value())),
    ensures
        r matches Ok(z) && z.value() == remainder(x.value(), y.value()),
{
    Ok(x.raw_rem(y))
}

/// The sign of `x` as a default integer: minus one, zero or one. It never
/// fails, whatever the mode.
pub fn sign<T: Signed>(x: T) -> (r: FuncReturn<INT>)
    ensures
        r matches Ok(s) && s == signum(x.value()),
{
    let zero = T::nought();
    Ok(
        if x.equals(zero) {
            0
        } else if x.below(zero) {
            -1
        } else {
            1
        },
    )
}

/// The exponent that the power of a floating-point base is taken to:
/// `ExponentTooLarge` where `y` is above the greatest signed 32-bit number,
/// else `y` cut to its low 32 bits.
pub fn pow_f_i_index(y: INT) -> (r: Result<i32, ErrorKind>)
    ensures
        r == (if y > i32::MAX {
            Err::<i32, ErrorKind>(ErrorKind::ExponentTooLarge)
        } else {
            Ok(y as i32)
        }),
{
    if y > 0x7fff_ffff {
        Err(ErrorKind::ExponentTooLarge)
    } else {
        Ok(#[verifier::truncate] (y as i32))
    }
}

} // verus!
