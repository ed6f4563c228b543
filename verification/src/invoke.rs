//! Calling the implementation that a binding names.

use crate::arithmetic::{
    abs, abs_result, abs_u, add_result, add_u, binary_and, binary_or, binary_xor, div,
    div_result, div_u, magnitude, modulo, modulo_result, modulo_u, mul_result, mul_u, neg,
    neg_result, neg_u, pow_i_i, pow_i_i_result, pow_i_i_u, shl, shl_result, shl_u, shr, shr_result,
    shr_u, sign, signum, sub_result, sub_u, INT,
};
use crate::error::{outcome, Fault, FuncReturn};
use crate::integer::{quotient, remainder, Integer, Numeral, Signed};
use crate::table::{Binding, Primitive};
use crate::value::{Boxed, Operands, Value};
use vstd::arithmetic::power::pow;
use vstd::prelude::*;

verus! {

/// Whether an implementation for two operands of one type is defined on `x`
/// and `y`: a checked one everywhere, an unchecked one where the compiled
/// operation neither faults nor wraps.
pub open spec fn binary_domain<T: Numeral>(p: Primitive, x: T, y: T) -> bool {
    match p {
        Primitive::Add | Primitive::Sub | Primitive::Mul | Primitive::Div | Primitive::Modulo => true,
        Primitive::BinaryAnd | Primitive::BinaryOr | Primitive::BinaryXor => true,
        Primitive::AddU => T::kind().fits(x.value() + y.value()),
        Primitive::SubU => T::kind().fits(x.value() - y.value()),
        Primitive::MulU => T::kind().fits(x.value() * y.value()),
        Primitive::DivU | Primitive::ModuloU => y.value() != 0 && T::kind().fits(
            quotient(x.value(), y.value()),
        ),
        Primitive::ShlU | Primitive::ShrU => 0 <= y.value() < T::kind().bits(),
        _ => false,
    }
}

/// What an implementation for two operands of one type returns on `x` and
/// `y`.
pub open spec fn binary_model<T: Numeral>(p: Primitive, x: T, y: T) -> Result<T, Fault>
    recommends
        binary_domain(p, x, y),
{
    match p {
        Primitive::Add => add_result(x, y),
        Primitive::Sub => sub_result(x, y),
        Primitive::Mul => mul_result(x, y),
        Primitive::Div => div_result(x, y),
        Primitive::Modulo => modulo_result(x, y),
        Primitive::BinaryAnd => Ok(x.band(y)),
        Primitive::BinaryOr => Ok(x.bor(y)),
        Primitive::BinaryXor => Ok(x.bxor(y)),
        Primitive::AddU => Ok(T::of(x.value() + y.value())),
        Primitive::SubU => Ok(T::of(x.value() - y.value())),
        Primitive::MulU => Ok(T::of(x.value() * y.value())),
        Primitive::DivU => Ok(T::of(quotient(x.value(), y.value()))),
        Primitive::ModuloU => Ok(T::of(remainder(x.value(), y.value()))),
        Primitive::ShlU => Ok(x.shifted_left(y.value())),
        Primitive::ShrU => Ok(x.shifted_right(y.value())),
        _ => Ok(x),
    }
}

/// Whether an implementation for one operand that keeps the operand's type
/// is defined on `x`.
pub open spec fn unary_domain<T: Numeral>(p: Primitive, x: T) -> bool {
    match p {
        Primitive::Neg | Primitive::Abs => true,
        Primitive::NegU => T::kind().fits(-x.value()),
        Primitive::AbsU => T::kind().fits(magnitude(x.value())),
        _ => false,
    }
}

/// What an implementation for one operand that keeps the operand's type
/// returns on `x`.
pub open spec fn unary_model<T: Numeral>(p: Primitive, x: T) -> Result<T, Fault>
    recommends
        unary_domain(p, x),
{
    match p {
        Primitive::Neg => neg_result(x),
        Primitive::Abs => abs_result(x),
        Primitive::NegU => Ok(T::of(-x.value())),
        Primitive::AbsU => Ok(T::of(magnitude(x.value()))),
        _ => Ok(x),
    }
}

/// What a checked shift returns on `x` and a count of the default integer
/// type.
pub open spec fn shift_model<T: Numeral>(p: Primitive, x: T, count: INT) -> Result<T, Fault>
    recommends
        p is Shl || p is Shr,
{
    if p is Shl {
        shl_result(x, count as int)
    } else {
        shr_result(x, count as int)
    }
}

/// A result with its value as a [`Value`].
pub open spec fn lifted<T: Boxed>(r: Result<T, Fault>) -> Result<Value, Fault> {
    match r {
        Ok(v) => Ok(v.boxed()),
        Err(f) => Err(f),
    }
}

/// Whether an implementation takes one operand of a signed type and is
/// defined on `x`.
pub open spec fn defined_on_one<T: Numeral>(p: Primitive, x: T) -> bool {
    p is Sign || unary_domain(p, x)
}

/// What an implementation for one operand of a signed type returns on `x`.
pub open spec fn evaluate_one<T: Boxed>(p: Primitive, x: T) -> Result<Value, Fault> {
    if p is Sign {
        Ok(Value::I64(signum(x.value()) as i64))
    } else {
        lifted(unary_model(p, x))
    }
}

/// Whether an implementation is defined on operands of the default integer
/// type.
pub open spec fn defined_on_defaults(p: Primitive, x: INT, y: INT) -> bool {
    match p {
        Primitive::Shl | Primitive::Shr | Primitive::PowII => true,
        Primitive::PowIIU => 0 <= y <= u32::MAX && i64::MIN <= pow(x as int, y as nat) <= i64::MAX,
        _ => binary_domain(p, x, y),
    }
}

/// What an implementation returns on operands of the default integer type.
pub open spec fn evaluate_defaults(p: Primitive, x: INT, y: INT) -> Result<Value, Fault> {
    match p {
        Primitive::Shl | Primitive::Shr => lifted(shift_model(p, x, y)),
        Primitive::PowII => lifted(pow_i_i_result(x, y)),
        Primitive::PowIIU => Ok(Value::I64(pow(x as int, y as nat) as i64)),
        _ => lifted(binary_model(p, x, y)),
    }
}

/// Whether an implementation takes operands of these types and is defined
/// on them. The implementations for floating-point numbers take no [`Value`].
pub open spec fn defined(p: Primitive, operands: Operands) -> bool {
    match operands {
        Operands::Unary(x) => match x {
            Value::I8(a) => defined_on_one(p, a),
            Value::I16(a) => defined_on_one(p, a),
            Value::I32(a) => defined_on_one(p, a),
            Value::I64(a) => defined_on_one(p, a),
            Value::I128(a) => defined_on_one(p, a),
            _ => false,
        },
        Operands::Binary(x, y) => match (x, y) {
            (Value::I64(a), Value::I64(b)) => defined_on_defaults(p, a, b),
            (Value::I8(a), Value::I8(b)) => binary_domain(p, a, b),
            (Value::I16(a), Value::I16(b)) => binary_domain(p, a, b),
            (Value::I32(a), Value::I32(b)) => binary_domain(p, a, b),
            (Value::I128(a), Value::I128(b)) => binary_domain(p, a, b),
            (Value::U8(a), Value::U8(b)) => binary_domain(p, a, b),
            (Value::U16(a), Value::U16(b)) => binary_domain(p, a, b),
            (Value::U32(a), Value::U32(b)) => binary_domain(p, a, b),
            (Value::U64(a), Value::U64(b)) => binary_domain(p, a, b),
            (Value::U128(a), Value::U128(b)) => binary_domain(p, a, b),
            (Value::I8(_), Value::I64(_)) => p is Shl || p is Shr,
            (Value::I16(_), Value::I64(_)) => p is Shl || p is Shr,
            (Value::I32(_), Value::I64(_)) => p is Shl || p is Shr,
            (Value::I128(_), Value::I64(_)) => p is Shl || p is Shr,
            (Value::U8(_), Value::I64(_)) => p is Shl || p is Shr,
            (Value::U16(_), Value::I64(_)) => p is Shl || p is Shr,
            (Value::U32(_), Value::I64(_)) => p is Shl || p is Shr,
            (Value::U64(_), Value::I64(_)) => p is Shl || p is Shr,
            (Value::U128(_), Value::I64(_)) => p is Shl || p is Shr,
            _ => false,
        },
    }
}

/// What an implementation returns on the operands.
pub open spec fn evaluate(p: Primitive, operands: Operands) -> Result<Value, Fault>
    recommends
        defined(p, operands),
{
    match operands {
        Operands::Unary(x) => match x {
            Value::I8(a) => evaluate_one(p, a),
            Value::I16(a) => evaluate_one(p, a),
            Value::I32(a) => evaluate_one(p, a),
            Value::I64(a) => evaluate_one(p, a),
            Value::I128(a) => evaluate_one(p, a),
            _ => Ok(x),
        },
        Operands::Binary(x, y) => match (x, y) {
            (Value::I64(a), Value::I64(b)) => evaluate_defaults(p, a, b),
            (Value::I8(a), Value::I8(b)) => lifted(binary_model(p, a, b)),
            (Value::I16(a), Value::I16(b)) => lifted(binary_model(p, a, b)),
            (Value::I32(a), Value::I32(b)) => lifted(binary_model(p, a, b)),
            (Value::I128(a), Value::I128(b)) => lifted(binary_model(p, a, b)),
            (Value::U8(a), Value::U8(b)) => lifted(binary_model(p, a, b)),
            (Value::U16(a), Value::U16(b)) => lifted(binary_model(p, a, b)),
            (Value::U32(a), Value::U32(b)) => lifted(binary_model(p, a, b)),
            (Value::U64(a), Value::U64(b)) => lifted(binary_model(p, a, b)),
            (Value::U128(a), Value::U128(b)) => lifted(binary_model(p, a, b)),
            (Value::I8(a), Value::I64(c)) => lifted(shift_model(p, a, c)),
            (Value::I16(a), Value::I64(c)) => lifted(shift_model(p, a, c)),
            (Value::I32(a), Value::I64(c)) => lifted(shift_model(p, a, c)),
            (Value::I128(a), Value::I64(c)) => lifted(shift_model(p, a, c)),
            (Value::U8(a), Value::I64(c)) => lifted(shift_model(p, a, c)),
            (Value::U16(a), Value::I64(c)) => lifted(shift_model(p, a, c)),
            (Value::U32(a), Value::I64(c)) => lifted(shift_model(p, a, c)),
            (Value::U64(a), Value::I64(c)) => lifted(shift_model(p, a, c)),
            (Value::U128(a), Value::I64(c)) => lifted(shift_model(p, a, c)),
            _ => Ok(x),
        },
    }
}

/// A result with its value as a [`Value`].
fn lift<T: Boxed>(r: FuncReturn<T>) -> (v: FuncReturn<Value>)
    ensures
        outcome(v) == lifted(outcome(r)),
{
    match r {
        Ok(value) => Ok(value.into_value()),
        Err(e) => Err(e),
    }
}

/// Calls an implementation for two operands of one type.
fn binary<T: Integer>(p: Primitive, x: T, y: T) -> (r: FuncReturn<T>)
    requires
        binary_domain(p, x, y),
    ensures
        outcome(r) == binary_model(p, x, y),
{
    let r = match p {
        Primitive::Add => crate::arithmetic::add(x, y),
        Primitive::Sub => crate::arithmetic::sub(x, y),
        Primitive::Mul => crate::arithmetic::mul(x, y),
        Primitive::Div => div(x, y),
        Primitive::Modulo => modulo(x, y),
        Primitive::BinaryAnd => binary_and(x, y),
        Primitive::BinaryOr => binary_or(x, y),
        Primitive::BinaryXor => binary_xor(x, y),
        Primitive::AddU => add_u(x, y),
        Primitive::SubU => sub_u(x, y),
        Primitive::MulU => mul_u(x, y),
        Primitive::DivU => div_u(x, y),
        Primitive::ModuloU => modulo_u(x, y),
        Primitive::ShlU => shl_u(x, y),
        Primitive::ShrU => shr_u(x, y),
        _ => Ok(x),
    };
    proof {
        if let Ok(z) = r {
            z.of_value();
        }
    }
    r
}

/// Calls an implementation for one operand that keeps the operand's type.
fn unary<T: Signed>(p: Primitive, x: T) -> (r: FuncReturn<T>)
    requires
        unary_domain(p, x),
    ensures
        outcome(r) == unary_model(p, x),
{
    let r = match p {
        Primitive::Neg => neg(x),
        Primitive::Abs => abs(x),
        Primitive::NegU => neg_u(x),
        Primitive::AbsU => abs_u(x),
        _ => Ok(x),
    };
    proof {
        if let Ok(z) = r {
            z.of_value();
        }
    }
    r
}

/// Calls an implementation for one operand of a signed type.
fn call_one<T: Signed + Boxed>(p: Primitive, x: T) -> (r: FuncReturn<Value>)
    requires
        defined_on_one(p, x),
    ensures
        outcome(r) == evaluate_one(p, x),
{
    if matches!(p, Primitive::Sign) {
        lift(sign(x))
    } else {
        lift(unary(p, x))
    }
}

/// Calls a checked shift.
fn call_shift<T: Boxed>(p: Primitive, x: T, count: INT) -> (r: FuncReturn<Value>)
    requires
        p is Shl || p is Shr,
    ensures
        outcome(r) == lifted(shift_model(p, x, count)),
{
    if matches!(p, Primitive::Shl) {
        lift(shl(x, count))
    } else {
        lift(shr(x, count))
    }
}

/// Calls an implementation on operands of the default integer type.
fn call_defaults(p: Primitive, x: INT, y: INT) -> (r: FuncReturn<Value>)
    requires
        defined_on_defaults(p, x, y),
    ensures
        outcome(r) == evaluate_defaults(p, x, y),
{
    match p {
        Primitive::Shl | Primitive::Shr => call_shift(p, x, y),
        Primitive::PowII => lift(pow_i_i(x, y)),
        Primitive::PowIIU => lift(pow_i_i_u(x, y)),
        _ => lift(binary(p, x, y)),
    }
}

/// Calls the implementation of a binding on operands of the types that the
/// binding is for, and returns the value or the error of the implementation.
/// The operands are in the implementation's domain: an unchecked
/// implementation leaves out the inputs on which the compiled operation faults
/// or wraps. Nothing of the result is kept from one call to the next.
pub fn invoke(binding: &Binding, operands: Operands) -> (r: FuncReturn<Value>)
    requires
        operands.signature() == binding.signature,
        defined(binding.primitive, operands),
    ensures
        outcome(r) == evaluate(binding.primitive, operands),
{
    let p = binding.primitive;
    match operands {
        Operands::Unary(x) => match x {
            Value::I8(a) => call_one(p, a),
            Value::I16(a) => call_one(p, a),
            Value::I32(a) => call_one(p, a),
            Value::I64(a) => call_one(p, a),
            Value::I128(a) => call_one(p, a),
            _ => Ok(x),
        },
        Operands::Binary(x, y) => match (x, y) {
            (Value::I64(a), Value::I64(b)) => call_defaults(p, a, b),
            (Value::I8(a), Value::I8(b)) => lift(binary(p, a, b)),
            (Value::I16(a), Value::I16(b)) => lift(binary(p, a, b)),
            (Value::I32(a), Value::I32(b)) => lift(binary(p, a, b)),
            (Value::I128(a), Value::I128(b)) => lift(binary(p, a, b)),
            (Value::U8(a), Value::U8(b)) => lift(binary(p, a, b)),
            (Value::U16(a), Value::U16(b)) => lift(binary(p, a, b)),
            (Value::U32(a), Value::U32(b)) => lift(binary(p, a, b)),
            (Value::U64(a), Value::U64(b)) => lift(binary(p, a, b)),
            (Value::U128(a), Value::U128(b)) => lift(binary(p, a, b)),
            (Value::I8(a), Value::I64(c)) => call_shift(p, a, c),
            (Value::I16(a), Value::I64(c)) => call_shift(p, a, c),
            (Value::I32(a), Value::I64(c)) => call_shift(p, a, c),
            (Value::I128(a), Value::I64(c)) => call_shift(p, a, c),
            (Value::U8(a), Value::I64(c)) => call_shift(p, a, c),
            (Value::U16(a), Value::I64(c)) => call_shift(p, a, c),
            (Value::U32(a), Value::I64(c)) => call_shift(p, a, c),
            (Value::U64(a), Value::I64(c)) => call_shift(p, a, c),
            (Value::U128(a), Value::I64(c)) => call_shift(p, a, c),
            _ => Ok(x),
        },
    }
}

/// Whether an implementation for two operands of one type is defined on `x`
/// and `y`.
fn in_binary_domain<T: Integer>(p: Primitive, x: T, y: T) -> (b: bool)
    ensures
        b == binary_domain(p, x, y),
{
    match p {
        Primitive::Add | Primitive::Sub | Primitive::Mul | Primitive::Div | Primitive::Modulo => true,
        Primitive::BinaryAnd | Primitive::BinaryOr | Primitive::BinaryXor => true,
        Primitive::AddU => x.try_add(y).is_some(),
        Primitive::SubU => x.try_sub(y).is_some(),
        Primitive::MulU => x.try_mul(y).is_some(),
        Primitive::DivU | Primitive::ModuloU => x.try_div(y).is_some(),
        Primitive::ShlU | Primitive::ShrU => !y.below(T::nought()) && y.below(T::width()),
        _ => false,
    }
}

/// Whether an implementation takes one operand of a signed type and is
/// defined on `x`.
fn in_unary_domain<T: Integer>(p: Primitive, x: T) -> (b: bool)
    ensures
        b == defined_on_one(p, x),
{
    proof {
        x.value_in_range();
    }
    match p {
        Primitive::Neg | Primitive::Abs | Primitive::Sign => true,
        Primitive::NegU => x.try_neg().is_some(),
        Primitive::AbsU => !x.below(T::nought()) || x.try_neg().is_some(),
        _ => false,
    }
}

/// Whether an implementation is defined on operands of the default integer
/// type.
fn in_default_domain(p: Primitive, x: INT, y: INT) -> (b: bool)
    ensures
        b == defined_on_defaults(p, x, y),
{
    match p {
        Primitive::Shl | Primitive::Shr | Primitive::PowII => true,
        Primitive::PowIIU => 0 <= y && y <= 0xffff_ffff && x.checked_pow(y as u32).is_some(),
        _ => in_binary_domain(p, x, y),
    }
}

/// Whether a binding can be called on the operands: they have the types
/// that the binding is for, and they are in the domain of its implementation.
pub fn admits(binding: &Binding, operands: Operands) -> (b: bool)
    ensures
        b == (operands.signature() == binding.signature && defined(binding.primitive, operands)),
{
    if operands.types() != binding.signature {
        return false;
    }
    let p = binding.primitive;
    match operands {
        Operands::Unary(x) => match x {
            Value::I8(a) => in_unary_domain(p, a),
            Value::I16(a) => in_unary_domain(p, a),
            Value::I32(a) => in_unary_domain(p, a),
            Value::I64(a) => in_unary_domain(p, a),
            Value::I128(a) => in_unary_domain(p, a),
            _ => false,
        },
        Operands::Binary(x, y) => match (x, y) {
            (Value::I64(a), Value::I64(b)) => in_default_domain(p, a, b),
            (Value::I8(a), Value::I8(b)) => in_binary_domain(p, a, b),
            (Value::I16(a), Value::I16(b)) => in_binary_domain(p, a, b),
            (Value::I32(a), Value::I32(b)) => in_binary_domain(p, a, b),
            (Value::I128(a), Value::I128(b)) => in_binary_domain(p, a, b),
            (Value::U8(a), Value::U8(b)) => in_binary_domain(p, a, b),
            (Value::U16(a), Value::U16(b)) => in_binary_domain(p, a, b),
            (Value::U32(a), Value::U32(b)) => in_binary_domain(p, a, b),
            (Value::U64(a), Value::U64(b)) => in_binary_domain(p, a, b),
            (Value::U128(a), Value::U128(b)) => in_binary_domain(p, a, b),
            (Value::I8(_), Value::I64(_)) => matches!(p, Primitive::Shl | Primitive::Shr),
            (Value::I16(_), Value::I64(_)) => matches!(p, Primitive::Shl | Primitive::Shr),
            (Value::I32(_), Value::I64(_)) => matches!(p, Primitive::Shl | Primitive::Shr),
            (Value::I128(_), Value::I64(_)) => matches!(p, Primitive::Shl | Primitive::Shr),
            (Value::U8(_), Value::I64(_)) => matches!(p, Primitive::Shl | Primitive::Shr),
            (Value::U16(_), Value::I64(_)) => matches!(p, Primitive::Shl | Primitive::Shr),
            (Value::U32(_), Value::I64(_)) => matches!(p, Primitive::Shl | Primitive::Shr),
            (Value::U64(_), Value::I64(_)) => matches!(p, Primitive::Shl | Primitive::Shr),
            (Value::U128(_), Value::I64(_)) => matches!(p, Primitive::Shl | Primitive::Shr),
            _ => false,
        },
    }
}

/// Calls the implementation of a binding where the binding admits the
/// operands, and returns `None` where it does not.
pub fn try_invoke(binding: &Binding, operands: Operands) -> (r: Option<FuncReturn<Value>>)
    ensures
        r is Some <==> operands.signature() == binding.signature && defined(
            binding.primitive,
            operands,
        ),
        r matches Some(result) ==> outcome(result) == evaluate(binding.primitive, operands),
{
    if admits(binding, operands) {
        Some(invoke(binding, operands))
    } else {
        None
    }
}

} // verus!
