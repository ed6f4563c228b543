//! Laws of the operators, stated over what the operators are specified to
//! return.

use crate::arithmetic::{
    abs_result, add_result, div_result, magnitude, modulo_result, mul_result, neg_result,
    pow_i_i_result, shl_result, shr_result, signum, sub_result, INT,
};
use crate::error::{ErrorKind, Fault};
use crate::integer::{quotient, remainder, Numeral};
use crate::invoke::{defined, evaluate};
use crate::table::{
    binding_for, bindings_of, result_type, selection, Binding, Config, OperatorSymbol, Primitive,
    Signature,
};
use crate::value::{Operands, Value};
use vstd::arithmetic::power::pow;
use vstd::prelude::*;

verus! {

/// Checked addition returns the exact sum where the operand type can hold
/// it, and `Overflow` everywhere else.
pub proof fn add_is_exact<T: Numeral>(x: T, y: T)
    ensures
        T::kind().fits(x.value() + y.value()) ==> (add_result(x, y) matches Ok(z) && z.value()
            == x.value() + y.value()),
        !T::kind().fits(x.value() + y.value()) ==> (add_result(x, y) matches Err(f) && f.kind
            == ErrorKind::Overflow),
{
    if T::kind().fits(x.value() + y.value()) {
        T::value_of(x.value() + y.value());
    }
}

/// Checked subtraction returns the exact difference where the operand type
/// can hold it, and `Underflow` everywhere else.
pub proof fn sub_is_exact<T: Numeral>(x: T, y: T)
    ensures
        T::kind().fits(x.value() - y.value()) ==> (sub_result(x, y) matches Ok(z) && z.value()
            == x.value() - y.value()),
        !T::kind().fits(x.value() - y.value()) ==> (sub_result(x, y) matches Err(f) && f.kind
            == ErrorKind::Underflow),
{
    if T::kind().fits(x.value() - y.value()) {
        T::value_of(x.value() - y.value());
    }
}

/// Checked multiplication returns the exact product where the operand type
/// can hold it, and `Overflow` everywhere else.
pub proof fn mul_is_exact<T: Numeral>(x: T, y: T)
    ensures
        T::kind().fits(x.value() * y.value()) ==> (mul_result(x, y) matches Ok(z) && z.value()
            == x.value() * y.value()),
        !T::kind().fits(x.value() * y.value()) ==> (mul_result(x, y) matches Err(f) && f.kind
            == ErrorKind::Overflow),
{
    if T::kind().fits(x.value() * y.value()) {
        T::value_of(x.value() * y.value());
    }
}

/// Checked division by zero reports `DivisionByZero`, whatever the dividend,
/// and no other kind of error.
pub proof fn div_by_zero_is_reported<T: Numeral>(x: T, y: T)
    requires
        y.value() == 0,
    ensures
        div_result(x, y) matches Err(f) && f.kind == ErrorKind::DivisionByZero,
{
}

/// Checked negation of the least value of a signed type reports `Overflow`,
/// and so does its checked absolute value.
pub proof fn least_value_has_no_negation<T: Numeral>(x: T)
    requires
        T::kind().is_signed(),
        x.value() == T::kind().lowest(),
    ensures
        neg_result(x) matches Err(f) && f.kind == ErrorKind::Overflow,
        abs_result(x) matches Err(f) && f.kind == ErrorKind::Overflow,
{
}

/// A checked left shift reports `NegativeShiftCount` for every negative
/// count and `ShiftCountTooLarge` for every count from the width of the
/// operand type on, whatever the value shifted.
pub proof fn shl_rejects_bad_counts<T: Numeral>(x: T, bits: int)
    ensures
        bits < 0 ==> (shl_result(x, bits) matches Err(f) && f.kind == ErrorKind::NegativeShiftCount),
        bits >= T::kind().bits() ==> (shl_result(x, bits) matches Err(f) && f.kind
            == ErrorKind::ShiftCountTooLarge),
        0 <= bits < T::kind().bits() ==> shl_result(x, bits) is Ok,
{
}

/// A checked right shift reports `NegativeShiftCount` for every negative
/// count and `ShiftCountTooLarge` for every count from the width of the
/// operand type on, whatever the value shifted.
pub proof fn shr_rejects_bad_counts<T: Numeral>(x: T, bits: int)
    ensures
        bits < 0 ==> (shr_result(x, bits) matches Err(f) && f.kind == ErrorKind::NegativeShiftCount),
        bits >= T::kind().bits() ==> (shr_result(x, bits) matches Err(f) && f.kind
            == ErrorKind::ShiftCountTooLarge),
        0 <= bits < T::kind().bits() ==> shr_result(x, bits) is Ok,
{
}

/// A checked integer power reports `NegativeExponent` for every negative
/// exponent, whatever the base.
pub proof fn pow_rejects_negative_exponents(x: INT, y: INT)
    requires
        y < 0,
    ensures
        pow_i_i_result(x, y) matches Err(f) && f.kind == ErrorKind::NegativeExponent,
{
}

/// The sign is minus one, zero or one, and it is zero for zero alone.
pub proof fn sign_is_one_of_three(i: int)
    ensures
        signum(i) == -1 || signum(i) == 0 || signum(i) == 1,
        signum(i) == 0 <==> i == 0,
        signum(i) == -1 <==> i < 0,
{
}

/// Where checked addition returns a value, the inputs are in the domain of
/// unchecked addition, and every value that stands for the sum is that value.
pub proof fn add_forms_agree<T: Numeral>(x: T, y: T, v: T)
    requires
        add_result(x, y) == Ok::<T, Fault>(v),
    ensures
        T::kind().fits(x.value() + y.value()),
        forall|z: T| z.value() == x.value() + y.value() ==> z == v,
{
    assert forall|z: T| z.value() == x.value() + y.value() implies z == v by {
        z.of_value();
    }
}

/// Where checked subtraction returns a value, the inputs are in the domain
/// of unchecked subtraction, and every value that stands for the difference is
/// that value.
pub proof fn sub_forms_agree<T: Numeral>(x: T, y: T, v: T)
    requires
        sub_result(x, y) == Ok::<T, Fault>(v),
    ensures
        T::kind().fits(x.value() - y.value()),
        forall|z: T| z.value() == x.value() - y.value() ==> z == v,
{
    assert forall|z: T| z.value() == x.value() - y.value() implies z == v by {
        z.of_value();
    }
}

/// Where checked multiplication returns a value, the inputs are in the
/// domain of unchecked multiplication, and every value that stands for the
/// product is that value.
pub proof fn mul_forms_agree<T: Numeral>(x: T, y: T, v: T)
    requires
        mul_result(x, y) == Ok::<T, Fault>(v),
    ensures
        T::kind().fits(x.value() * y.value()),
        forall|z: T| z.value() == x.value() * y.value() ==> z == v,
{
    assert forall|z: T| z.value() == x.value() * y.value() implies z == v by {
        z.of_value();
    }
}

/// Where checked division returns a value, the inputs are in the domain of
/// unchecked division, and every value that stands for the quotient is that
/// value.
pub proof fn div_forms_agree<T: Numeral>(x: T, y: T, v: T)
    requires
        div_result(x, y) == Ok::<T, Fault>(v),
    ensures
        y.value() != 0,
        T::kind().fits(quotient(x.value(), y.value())),
        forall|z: T| z.value() == quotient(x.value(), y.value()) ==> z == v,
{
    assert forall|z: T| z.value() == quotient(x.value(), y.value()) implies z == v by {
        z.of_value();
    }
}

/// Where checked negation returns a value, the input is in the domain of
/// unchecked negation, and every value that stands for the negation is that
/// value.
pub proof fn neg_forms_agree<T: Numeral>(x: T, v: T)
    requires
        neg_result(x) == Ok::<T, Fault>(v),
    ensures
        T::kind().fits(-x.value()),
        forall|z: T| z.value() == -x.value() ==> z == v,
{
    assert forall|z: T| z.value() == -x.value() implies z == v by {
        z.of_value();
    }
}

/// Where the checked absolute value returns a value, the input is in the
/// domain of the unchecked absolute value, and every value that stands for the
/// magnitude is that value.
pub proof fn abs_forms_agree<T: Numeral>(x: T, v: T)
    requires
        abs_result(x) == Ok::<T, Fault>(v),
    ensures
        T::kind().fits(magnitude(x.value())),
        forall|z: T| z.value() == magnitude(x.value()) ==> z == v,
{
    x.value_in_range();
    x.of_value();
    assert forall|z: T| z.value() == magnitude(x.value()) implies z == v by {
        z.of_value();
    }
}

/// Where the checked remainder returns a value, the inputs are in the domain
/// of the unchecked remainder, and every value that stands for the remainder
/// is that value.
pub proof fn modulo_forms_agree<T: Numeral>(x: T, y: T, v: T)
    requires
        modulo_result(x, y) == Ok::<T, Fault>(v),
    ensures
        y.value() != 0,
        T::kind().fits(quotient(x.value(), y.value())),
        forall|z: T| z.value() == remainder(x.value(), y.value()) ==> z == v,
{
    assert forall|z: T| z.value() == remainder(x.value(), y.value()) implies z == v by {
        z.of_value();
    }
}

/// Where a checked left shift returns a value, a count of the operand type
/// that stands for the same number is in the domain of the unchecked left
/// shift, which returns that value.
pub proof fn shl_forms_agree<T: Numeral>(x: T, y: T, v: T)
    requires
        shl_result(x, y.value()) == Ok::<T, Fault>(v),
    ensures
        0 <= y.value() < T::kind().bits(),
        x.shifted_left(y.value()) == v,
{
}

/// Where a checked right shift returns a value, a count of the operand type
/// that stands for the same number is in the domain of the unchecked right
/// shift, which returns that value.
pub proof fn shr_forms_agree<T: Numeral>(x: T, y: T, v: T)
    requires
        shr_result(x, y.value()) == Ok::<T, Fault>(v),
    ensures
        0 <= y.value() < T::kind().bits(),
        x.shifted_right(y.value()) == v,
{
}

/// Where the checked integer power returns a value, the inputs are in the
/// domain of the unchecked integer power, which returns that value.
pub proof fn pow_forms_agree(x: INT, y: INT, v: INT)
    requires
        pow_i_i_result(x, y) == Ok::<INT, Fault>(v),
    ensures
        0 <= y <= u32::MAX,
        i64::MIN <= pow(x as int, y as nat) <= i64::MAX,
        v == pow(x as int, y as nat),
{
}

/// Whether an implementation is one of the unchecked family.
pub open spec fn is_unchecked(p: Primitive) -> bool {
    p is AddU || p is SubU || p is MulU || p is DivU || p is NegU || p is AbsU || p is ShlU
        || p is ShrU || p is ModuloU || p is PowIIU || p is PowFIU
}

/// Whether an implementation is one of the checked family.
pub open spec fn is_checked(p: Primitive) -> bool {
    p is Add || p is Sub || p is Mul || p is Div || p is Neg || p is Abs || p is Shl || p is Shr
        || p is Modulo || p is PowII || p is PowFI
}

/// A binding carries the symbol and the operand types that it is found
/// under, and the result type that belongs to them.
pub proof fn binding_matches_its_key(
    config: Config,
    symbol: OperatorSymbol,
    signature: Signature,
    b: Binding,
)
    requires
        bindings_of(config).contains_key((symbol, signature)),
        bindings_of(config)[(symbol, signature)] == b,
    ensures
        b.symbol == symbol,
        b.signature == signature,
        b.result == result_type(symbol, signature),
        selection(config, symbol, signature) == Some(b.primitive),
{
}

/// One mode holds for a whole table: in checked mode no binding names an
/// unchecked implementation for integer operands, and in unchecked mode no
/// binding names a checked implementation.
pub proof fn one_family_per_table(config: Config, symbol: OperatorSymbol, operands: Operands, b: Binding)
    requires
        binding_for(config, symbol, operands.signature()) == Some(b),
    ensures
        config.mode is Checked ==> !is_unchecked(b.primitive),
        config.mode is Unchecked ==> !is_checked(b.primitive),
{
}

/// In checked mode every binding can be called on all operands of its
/// types: a failure comes back as an error.
pub proof fn checked_bindings_are_total(
    config: Config,
    symbol: OperatorSymbol,
    operands: Operands,
    b: Binding,
)
    requires
        config.mode is Checked,
        binding_for(config, symbol, operands.signature()) == Some(b),
    ensures
        defined(b.primitive, operands),
{
}

/// A binding gives back a value of the type that it declares.
pub proof fn result_has_declared_type(
    config: Config,
    symbol: OperatorSymbol,
    operands: Operands,
    b: Binding,
    v: Value,
)
    requires
        binding_for(config, symbol, operands.signature()) == Some(b),
        defined(b.primitive, operands),
        evaluate(b.primitive, operands) == Ok::<Value, Fault>(v),
    ensures
        v.kind() == b.result,
{
}

} // verus!
