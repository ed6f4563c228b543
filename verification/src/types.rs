//! The numeric types that operators are defined over.

use vstd::prelude::*;

verus! {

/// A numeric type of the engine: a signed or unsigned integer of 8 to 128
/// bits, or a floating-point number of 32 or 64 bits.
#[derive(Clone, Copy, Debug, PartialEq, Eq, Hash, Structural)]
pub enum NumericType {
    I8,
    I16,
    I32,
    I64,
    I128,
    U8,
    U16,
    U32,
    U64,
    U128,
    F32,
    F64,
}

impl NumericType {
    /// Whether the type is one of the ten integer types.
    pub open spec fn is_integer(self) -> bool {
        !(self is F32 || self is F64)
    }

    /// Whether the type is one of the two floating-point types.
    pub open spec fn is_float(self) -> bool {
        self is F32 || self is F64
    }

    /// Whether the type is a signed integer.
    pub open spec fn is_signed(self) -> bool {
        self is I8 || self is I16 || self is I32 || self is I64 || self is I128
    }

    /// The number of bits of a value of the type.
    pub open spec fn bits(self) -> int {
        match self {
            NumericType::I8 | NumericType::U8 => 8,
            NumericType::I16 | NumericType::U16 => 16,
            NumericType::I32 | NumericType::U32 | NumericType::F32 => 32,
            NumericType::I64 | NumericType::U64 | NumericType::F64 => 64,
            NumericType::I128 | NumericType::U128 => 128,
        }
    }

    /// The least integer of an integer type.
    pub open spec fn lowest(self) -> int
        recommends
            self.is_integer(),
    {
        match self {
            NumericType::I8 => i8::MIN as int,
            NumericType::I16 => i16::MIN as int,
            NumericType::I32 => i32::MIN as int,
            NumericType::I64 => i64::MIN as int,
            NumericType::I128 => i128::MIN as int,
            _ => 0,
        }
    }

    /// The greatest integer of an integer type.
    pub open spec fn highest(self) -> int
        recommends
            self.is_integer(),
    {
        match self {
            NumericType::I8 => i8::MAX as int,
            NumericType::I16 => i16::MAX as int,
            NumericType::I32 => i32::MAX as int,
            NumericType::I64 => i64::MAX as int,
            NumericType::I128 => i128::MAX as int,
            NumericType::U8 => u8::MAX as int,
            NumericType::U16 => u16::MAX as int,
            NumericType::U32 => u32::MAX as int,
            NumericType::U64 => u64::MAX as int,
            NumericType::U128 => u128::MAX as int,
            _ => 0,
        }
    }

    /// Whether an integer lies in the range of an integer type.
    pub open spec fn fits(self, i: int) -> bool
        recommends
            self.is_integer(),
    {
        self.lowest() <= i <= self.highest()
    }
}

impl NumericType {
    /// The place of the type in the list of the numeric types.
    pub open spec fn ordinal(self) -> int {
        match self {
            NumericType::I8 => 0,
            NumericType::I16 => 1,
            NumericType::I32 => 2,
            NumericType::I64 => 3,
            NumericType::I128 => 4,
            NumericType::U8 => 5,
            NumericType::U16 => 6,
            NumericType::U32 => 7,
            NumericType::U64 => 8,
            NumericType::U128 => 9,
            NumericType::F32 => 10,
            NumericType::F64 => 11,
        }
    }

    /// The place of the type in the list of the numeric types.
    pub fn index(self) -> (i: usize)
        ensures
            i == self.ordinal(),
            i < 12,
    {
        match self {
            NumericType::I8 => 0,
            NumericType::I16 => 1,
            NumericType::I32 => 2,
            NumericType::I64 => 3,
            NumericType::I128 => 4,
            NumericType::U8 => 5,
            NumericType::U16 => 6,
            NumericType::U32 => 7,
            NumericType::U64 => 8,
            NumericType::U128 => 9,
            NumericType::F32 => 10,
            NumericType::F64 => 11,
        }
    }

    /// The type at a place in the list of the numeric types.
    pub fn from_index(i: usize) -> (t: NumericType)
        requires
            i < 12,
        ensures
            t.ordinal() == i,
    {
        if i == 0 {
            NumericType::I8
        } else if i == 1 {
            NumericType::I16
        } else if i == 2 {
            NumericType::I32
        } else if i == 3 {
            NumericType::I64
        } else if i == 4 {
            NumericType::I128
        } else if i == 5 {
            NumericType::U8
        } else if i == 6 {
            NumericType::U16
        } else if i == 7 {
            NumericType::U32
        } else if i == 8 {
            NumericType::U64
        } else if i == 9 {
            NumericType::U128
        } else if i == 10 {
            NumericType::F32
        } else {
            NumericType::F64
        }
    }

    /// Whether the type is one of the ten integer types.
    pub fn integer(self) -> (b: bool)
        ensures
            b == self.is_integer(),
    {
        !matches!(self, NumericType::F32 | NumericType::F64)
    }

    /// Whether the type is a signed integer.
    pub fn signed(self) -> (b: bool)
        ensures
            b == self.is_signed(),
    {
        matches!(
            self,
            NumericType::I8 | NumericType::I16 | NumericType::I32 | NumericType::I64
                | NumericType::I128
        )
    }
}

} // verus!
