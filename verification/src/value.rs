//! The values that operators take and give back.

use crate::integer::{Integer, Numeral};
use crate::table::Signature;
use crate::types::NumericType;
use vstd::prelude::*;

verus! {

/// An integer of one of the ten integer types.
#[derive(Clone, Copy, Debug, PartialEq, Eq, Hash, Structural)]
pub enum Value {
    I8(i8),
    I16(i16),
    I32(i32),
    I64(i64),
    I128(i128),
    U8(u8),
    U16(u16),
    U32(u32),
    U64(u64),
    U128(u128),
}

impl Value {
    /// The type of the value.
    pub open spec fn kind(self) -> NumericType {
        match self {
            Value::I8(_) => NumericType::I8,
            Value::I16(_) => NumericType::I16,
            Value::I32(_) => NumericType::I32,
            Value::I64(_) => NumericType::I64,
            Value::I128(_) => NumericType::I128,
            Value::U8(_) => NumericType::U8,
            Value::U16(_) => NumericType::U16,
            Value::U32(_) => NumericType::U32,
            Value::U64(_) => NumericType::U64,
            Value::U128(_) => NumericType::U128,
        }
    }

    /// The mathematical integer that the value stands for.
    pub open spec fn value(self) -> int {
        match self {
            Value::I8(v) => v as int,
            Value::I16(v) => v as int,
            Value::I32(v) => v as int,
            Value::I64(v) => v as int,
            Value::I128(v) => v as int,
            Value::U8(v) => v as int,
            Value::U16(v) => v as int,
            Value::U32(v) => v as int,
            Value::U64(v) => v as int,
            Value::U128(v) => v as int,
        }
    }

    /// The type of the value.
    pub fn numeric_type(&self) -> (t: NumericType)
        ensures
            t == self.kind(),
    {
        match self {
            Value::I8(_) => NumericType::I8,
            Value::I16(_) => NumericType::I16,
            Value::I32(_) => NumericType::I32,
            Value::I64(_) => NumericType::I64,
            Value::I128(_) => NumericType::I128,
            Value::U8(_) => NumericType::U8,
            Value::U16(_) => NumericType::U16,
            Value::U32(_) => NumericType::U32,
            Value::U64(_) => NumericType::U64,
            Value::U128(_) => NumericType::U128,
        }
    }
}

/// The operands of one call of an operator.
#[derive(Clone, Copy, Debug, PartialEq, Eq, Hash, Structural)]
pub enum Operands {
    Unary(Value),
    Binary(Value, Value),
}

impl Operands {
    /// The types of the operands.
    pub open spec fn signature(self) -> Signature {
        match self {
            Operands::Unary(x) => Signature::Unary(x.kind()),
            Operands::Binary(x, y) => Signature::Binary(x.kind(), y.kind()),
        }
    }

    /// The types of the operands.
    pub fn types(&self) -> (s: Signature)
        ensures
            s == self.signature(),
    {
        match self {
            Operands::Unary(x) => Signature::Unary(x.numeric_type()),
            Operands::Binary(x, y) => Signature::Binary(x.numeric_type(), y.numeric_type()),
        }
    }
}

/// An integer type whose values can stand as a [`Value`].
pub trait Boxed: Integer {
    /// The value as a [`Value`].
    spec fn boxed(self) -> Value;

    /// The value keeps its type and the integer that it stands for.
    proof fn boxed_keeps(self)
        ensures
            self.boxed().kind() == Self::kind(),
            self.boxed().value() == self.value(),
    ;

    /// The value as a [`Value`].
    fn into_value(self) -> (v: Value)
        ensures
            v == self.boxed(),
    ;
}

impl Boxed for i8 {
    open spec fn boxed(self) -> Value {
        Value::I8(self)
    }

    proof fn boxed_keeps(self) {
    }

    fn into_value(self) -> (v: Value) {
        Value::I8(self)
    }
}

impl Boxed for i16 {
    open spec fn boxed(self) -> Value {
        Value::I16(self)
    }

    proof fn boxed_keeps(self) {
    }

    fn into_value(self) -> (v: Value) {
        Value::I16(self)
    }
}

impl Boxed for i32 {
    open spec fn boxed(self) -> Value {
        Value::I32(self)
    }

    proof fn boxed_keeps(self) {
    }

    fn into_value(self) -> (v: Value) {
        Value::I32(self)
    }
}

impl Boxed for i64 {
    open spec fn boxed(self) -> Value {
        Value::I64(self)
    }

    proof fn boxed_keeps(self) {
    }

    fn into_value(self) -> (v: Value) {
        Value::I64(self)
    }
}

impl Boxed for i128 {
    open spec fn boxed(self) -> Value {
        Value::I128(self)
    }

    proof fn boxed_keeps(self) {
    }

    fn into_value(self) -> (v: Value) {
        Value::I128(self)
    }
}

impl Boxed for u8 {
    open spec fn boxed(self) -> Value {
        Value::U8(self)
    }

    proof fn boxed_keeps(self) {
    }

    fn into_value(self) -> (v: Value) {
        Value::U8(self)
    }
}

impl Boxed for u16 {
    open spec fn boxed(self) -> Value {
        Value::U16(self)
    }

    proof fn boxed_keeps(self) {
    }

    fn into_value(self) -> (v: Value) {
        Value::U16(self)
    }
}

impl Boxed for u32 {
    open spec fn boxed(self) -> Value {
        Value::U32(self)
    }

    proof fn boxed_keeps(self) {
    }

    fn into_value(self) -> (v: Value) {
        Value::U32(self)
    }
}

impl Boxed for u64 {
    open spec fn boxed(self) -> Value {
        Value::U64(self)
    }

    proof fn boxed_keeps(self) {
    }

    fn into_value(self) -> (v: Value) {
        Value::U64(self)
    }
}

impl Boxed for u128 {
    open spec fn boxed(self) -> Value {
        Value::U128(self)
    }

    proof fn boxed_keeps(self) {
    }

    fn into_value(self) -> (v: Value) {
        Value::U128(self)
    }
}

} // verus!
