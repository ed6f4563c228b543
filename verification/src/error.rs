//! The errors that the arithmetic operators report.

use crate::decimal::decimal;
use crate::integer::Integer;
use vstd::prelude::*;
use vstd::string::*;

verus! {

/// What went wrong in an arithmetic operation.
#[derive(Clone, Copy, Debug, PartialEq, Eq, Hash, Structural)]
pub enum ErrorKind {
    /// The result lies beyond the range of the operand type.
    Overflow,
    /// The result of a subtraction lies outside the range of the operand type.
    Underflow,
    /// The divisor is zero.
    DivisionByZero,
    /// The number of bits to shift by is negative.
    NegativeShiftCount,
    /// The number of bits to shift by is not below the width of the operand type.
    ShiftCountTooLarge,
    /// The exponent is negative.
    NegativeExponent,
    /// The exponent is beyond what the power function accepts.
    ExponentTooLarge,
}

/// An arithmetic failure: its kind and a message that names the operator and
/// the operands. No source position is attached; callers add their own.
#[derive(Clone, Debug, PartialEq, Eq)]
pub struct ArithmeticError {
    pub kind: ErrorKind,
    pub message: String,
}

/// The mathematical content of an [`ArithmeticError`].
pub struct Fault {
    pub kind: ErrorKind,
    pub text: Seq<char>,
}

impl View for ArithmeticError {
    type V = Fault;

    open spec fn view(&self) -> Fault {
        Fault { kind: self.kind, text: self.message@ }
    }
}

/// The result of an operator: a value, or the error that it reports.
pub type FuncReturn<T> = Result<T, ArithmeticError>;

/// A result with its error replaced by the error's mathematical content.
pub open spec fn outcome<T>(r: FuncReturn<T>) -> Result<T, Fault> {
    match r {
        Ok(v) => Ok(v),
        Err(e) => Err(e@),
    }
}

/// The message of a failed unary operation: `what`, then the operand.
pub open spec fn unary_text(what: Seq<char>, x: int) -> Seq<char> {
    what + decimal(x)
}

/// The message of a failed binary operation: `what`, then the two operands
/// with the operator symbol between them.
pub open spec fn binary_text(what: Seq<char>, x: int, op: Seq<char>, y: int) -> Seq<char> {
    what + decimal(x) + op + decimal(y)
}

impl ArithmeticError {
    /// An error of the given kind with the given message.
    pub fn new(kind: ErrorKind, message: String) -> (e: ArithmeticError)
        ensures
            e@ == (Fault { kind, text: message@ }),
    {
        ArithmeticError { kind, message }
    }

    /// The error of a failed unary operation on `x`.
    pub fn unary<A: Integer>(kind: ErrorKind, what: &str, x: A) -> (e: ArithmeticError)
        ensures
            e@ == (Fault { kind, text: unary_text(what@, x.value()) }),
    {
        let mut message = String::from_str(what);
        let operand = x.render();
        message.append(operand.as_str());
        ArithmeticError { kind, message }
    }

    /// The error of a failed binary operation on `x` and `y`.
    pub fn binary<A: Integer, B: Integer>(kind: ErrorKind, what: &str, x: A, op: &str, y: B) -> (e:
        ArithmeticError)
        ensures
            e@ == (Fault { kind, text: binary_text(what@, x.value(), op@, y.value()) }),
    {
        let mut message = String::from_str(what);
        let left = x.render();
        message.append(left.as_str());
        message.append(op);
        let right = y.render();
        message.append(right.as_str());
        ArithmeticError { kind, message }
    }
}

} // verus!
