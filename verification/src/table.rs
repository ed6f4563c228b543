//! The operator table: built once for a configuration, it binds each
//! operator symbol and operand type signature to the implementation that the
//! configuration selects.

use crate::types::NumericType;
use vstd::prelude::*;

verus! {

/// An operator symbol. `Minus` stands for subtraction with two operands and
/// for negation with one.
#[derive(Clone, Copy, Debug, PartialEq, Eq, Hash, Structural)]
pub enum OperatorSymbol {
    /// `+`
    Plus,
    /// `-`
    Minus,
    /// `*`
    Times,
    /// `/`
    Divide,
    /// `%`
    Modulo,
    /// `<<`
    ShiftLeft,
    /// `>>`
    ShiftRight,
    /// `&`
    And,
    /// `|`
    Or,
    /// `^`
    Xor,
    /// `abs`
    Abs,
    /// `sign`
    Sign,
    /// `~`
    Power,
}

/// The types of an operator's operands.
#[derive(Clone, Copy, Debug, PartialEq, Eq, Hash, Structural)]
pub enum Signature {
    Unary(NumericType),
    Binary(NumericType, NumericType),
}

/// An implementation of an operator, named after the function that computes
/// it.
#[derive(Clone, Copy, Debug, PartialEq, Eq, Hash, Structural)]
pub enum Primitive {
    Add,
    Sub,
    Mul,
    Div,
    Neg,
    Abs,
    AddU,
    SubU,
    MulU,
    DivU,
    NegU,
    AbsU,
    BinaryAnd,
    BinaryOr,
    BinaryXor,
    Shl,
    Shr,
    ShlU,
    ShrU,
    Modulo,
    ModuloU,
    PowII,
    PowIIU,
    PowFF,
    PowFI,
    PowFIU,
    Sign,
}

/// Whether operators detect results that the operand type cannot hold.
#[derive(Clone, Copy, Debug, PartialEq, Eq, Hash, Structural)]
pub enum Mode {
    Checked,
    Unchecked,
}

/// The integer types that operators are defined over.
#[derive(Clone, Copy, Debug, PartialEq, Eq, Hash, Structural)]
pub enum IntegerWidths {
    /// The default integer type alone.
    DefaultOnly,
    /// Every width from 8 bits on.
    Full,
}

/// What decides the contents of an operator table.
#[derive(Clone, Copy, Debug, PartialEq, Eq, Hash, Structural)]
pub struct Config {
    pub widths: IntegerWidths,
    /// Whether the 128-bit integers are among the widths of `Full`.
    pub include_wide: bool,
    pub include_floats: bool,
    pub mode: Mode,
}

/// An operator symbol and operand types bound to an implementation.
#[derive(Clone, Copy, Debug, PartialEq, Eq, Hash, Structural)]
pub struct Binding {
    pub symbol: OperatorSymbol,
    pub signature: Signature,
    pub primitive: Primitive,
    /// The type of the value that the implementation gives back.
    pub result: NumericType,
}

impl Config {
    /// Whether operators are defined over a type.
    pub open spec fn enables(self, t: NumericType) -> bool {
        match t {
            NumericType::F32 | NumericType::F64 => self.include_floats,
            NumericType::I64 => true,
            NumericType::I128 | NumericType::U128 => self.widths is Full && self.include_wide,
            _ => self.widths is Full,
        }
    }

    /// Whether operators are defined over a type.
    pub fn enabled(&self, t: NumericType) -> (b: bool)
        ensures
            b == self.enables(t),
    {
        match t {
            NumericType::F32 | NumericType::F64 => self.include_floats,
            NumericType::I64 => true,
            NumericType::I128 | NumericType::U128 => matches!(self.widths, IntegerWidths::Full)
                && self.include_wide,
            _ => matches!(self.widths, IntegerWidths::Full),
        }
    }
}

/// One of a checked and an unchecked implementation, by the mode.
pub open spec fn by_mode(mode: Mode, checked: Primitive, unchecked: Primitive) -> Primitive {
    match mode {
        Mode::Checked => checked,
        Mode::Unchecked => unchecked,
    }
}

/// The implementation of an operator with one operand of type `t`.
pub open spec fn unary_selection(mode: Mode, symbol: OperatorSymbol, t: NumericType) -> Option<
    Primitive,
> {
    if !(t.is_signed() || t.is_float()) {
        None
    } else {
        match symbol {
            OperatorSymbol::Minus => Some(
                if t.is_float() {
                    Primitive::NegU
                } else {
                    by_mode(mode, Primitive::Neg, Primitive::NegU)
                },
            ),
            OperatorSymbol::Abs => Some(
                if t.is_float() {
                    Primitive::AbsU
                } else {
                    by_mode(mode, Primitive::Abs, Primitive::AbsU)
                },
            ),
            OperatorSymbol::Sign => Some(Primitive::Sign),
            _ => None,
        }
    }
}

/// The implementation of an arithmetic operator with two operands of one
/// type: floating-point numbers need no check.
pub open spec fn arithmetic_selection(
    mode: Mode,
    t: NumericType,
    checked: Primitive,
    unchecked: Primitive,
) -> Primitive {
    if t.is_float() {
        unchecked
    } else {
        by_mode(mode, checked, unchecked)
    }
}

/// The implementation of an operator with operands of types `a` and `b`.
pub open spec fn binary_selection(
    mode: Mode,
    symbol: OperatorSymbol,
    a: NumericType,
    b: NumericType,
) -> Option<Primitive> {
    match symbol {
        OperatorSymbol::Plus => if a == b {
            Some(arithmetic_selection(mode, a, Primitive::Add, Primitive::AddU))
        } else {
            None
        },
        OperatorSymbol::Minus => if a == b {
            Some(arithmetic_selection(mode, a, Primitive::Sub, Primitive::SubU))
        } else {
            None
        },
        OperatorSymbol::Times => if a == b {
            Some(arithmetic_selection(mode, a, Primitive::Mul, Primitive::MulU))
        } else {
            None
        },
        OperatorSymbol::Divide => if a == b {
            Some(arithmetic_selection(mode, a, Primitive::Div, Primitive::DivU))
        } else {
            None
        },
        OperatorSymbol::Modulo => if a == b {
            Some(arithmetic_selection(mode, a, Primitive::Modulo, Primitive::ModuloU))
        } else {
            None
        },
        OperatorSymbol::And => if a == b && a.is_integer() {
            Some(Primitive::BinaryAnd)
        } else {
            None
        },
        OperatorSymbol::Or => if a == b && a.is_integer() {
            Some(Primitive::BinaryOr)
        } else {
            None
        },
        OperatorSymbol::Xor => if a == b && a.is_integer() {
            Some(Primitive::BinaryXor)
        } else {
            None
        },
        OperatorSymbol::ShiftLeft => if !a.is_integer() {
            None
        } else if mode is Checked && b is I64 {
            Some(Primitive::Shl)
        } else if mode is Unchecked && a == b {
            Some(Primitive::ShlU)
        } else {
            None
        },
        OperatorSymbol::ShiftRight => if !a.is_integer() {
            None
        } else if mode is Checked && b is I64 {
            Some(Primitive::Shr)
        } else if mode is Unchecked && a == b {
            Some(Primitive::ShrU)
        } else {
            None
        },
        OperatorSymbol::Power => if a is I64 && b is I64 {
            Some(by_mode(mode, Primitive::PowII, Primitive::PowIIU))
        } else if a is F64 && b is I64 {
            Some(by_mode(mode, Primitive::PowFI, Primitive::PowFIU))
        } else if a is F64 && b is F64 {
            Some(Primitive::PowFF)
        } else {
            None
        },
        _ => None,
    }
}

/// The implementation that a configuration selects for an operator symbol
/// and operand types, if the operator is defined for them: every operand type
/// must be enabled.
pub open spec fn selection(config: Config, symbol: OperatorSymbol, signature: Signature) -> Option<
    Primitive,
> {
    match signature {
        Signature::Unary(t) => if config.enables(t) {
            unary_selection(config.mode, symbol, t)
        } else {
            None
        },
        Signature::Binary(a, b) => if config.enables(a) && config.enables(b) {
            binary_selection(config.mode, symbol, a, b)
        } else {
            None
        },
    }
}

/// The type of the value that an operator gives back: the default integer for
/// the sign of an integer, else the type of the first operand.
pub open spec fn result_type(symbol: OperatorSymbol, signature: Signature) -> NumericType {
    match signature {
        Signature::Unary(t) => if symbol is Sign && t.is_integer() {
            NumericType::I64
        } else {
            t
        },
        Signature::Binary(a, _) => a,
    }
}

/// The binding that a configuration holds for a symbol and operand types, if
/// it holds one.
pub open spec fn binding_for(config: Config, symbol: OperatorSymbol, signature: Signature) -> Option<
    Binding,
> {
    match selection(config, symbol, signature) {
        Some(primitive) => Some(
            Binding { symbol, signature, primitive, result: result_type(symbol, signature) },
        ),
        None => None,
    }
}

/// One of a checked and an unchecked implementation, by the mode.
fn pick(mode: Mode, checked: Primitive, unchecked: Primitive) -> (p: Primitive)
    ensures
        p == by_mode(mode, checked, unchecked),
{
    match mode {
        Mode::Checked => checked,
        Mode::Unchecked => unchecked,
    }
}

/// The implementation of an arithmetic operator with two operands of types
/// `a` and `b`.
fn select_arithmetic(
    mode: Mode,
    a: NumericType,
    b: NumericType,
    checked: Primitive,
    unchecked: Primitive,
) -> (p: Option<Primitive>)
    ensures
        p == (if a == b {
            Some(arithmetic_selection(mode, a, checked, unchecked))
        } else {
            None
        }),
{
    if a != b {
        None
    } else if a.integer() {
        Some(pick(mode, checked, unchecked))
    } else {
        Some(unchecked)
    }
}

/// The implementation of a bitwise operator with operands of types `a` and
/// `b`.
fn select_bitwise(a: NumericType, b: NumericType, primitive: Primitive) -> (p: Option<Primitive>)
    ensures
        p == (if a == b && a.is_integer() {
            Some(primitive)
        } else {
            None
        }),
{
    if a == b && a.integer() {
        Some(primitive)
    } else {
        None
    }
}

/// The implementation of a shift of a value of type `a` by a count of type
/// `b`.
fn select_shift(
    mode: Mode,
    a: NumericType,
    b: NumericType,
    checked: Primitive,
    unchecked: Primitive,
) -> (p: Option<Primitive>)
    ensures
        p == (if !a.is_integer() {
            None
        } else if mode is Checked && b is I64 {
            Some(checked)
        } else if mode is Unchecked && a == b {
            Some(unchecked)
        } else {
            None
        }),
{
    if !a.integer() {
        None
    } else {
        match mode {
            Mode::Checked => if matches!(b, NumericType::I64) {
                Some(checked)
            } else {
                None
            },
            Mode::Unchecked => if a == b {
                Some(unchecked)
            } else {
                None
            },
        }
    }
}

/// The implementation of an operator with one operand of type `t`.
fn select_unary(mode: Mode, symbol: OperatorSymbol, t: NumericType) -> (p: Option<Primitive>)
    ensures
        p == unary_selection(mode, symbol, t),
{
    let float = !t.integer();
    if !(t.signed() || float) {
        return None;
    }
    match symbol {
        OperatorSymbol::Minus => Some(
            if float {
                Primitive::NegU
            } else {
                pick(mode, Primitive::Neg, Primitive::NegU)
            },
        ),
        OperatorSymbol::Abs => Some(
            if float {
                Primitive::AbsU
            } else {
                pick(mode, Primitive::Abs, Primitive::AbsU)
            },
        ),
        OperatorSymbol::Sign => Some(Primitive::Sign),
        _ => None,
    }
}

/// The implementation of an operator with operands of types `a` and `b`.
fn select_binary(mode: Mode, symbol: OperatorSymbol, a: NumericType, b: NumericType) -> (p: Option<
    Primitive,
>)
    ensures
        p == binary_selection(mode, symbol, a, b),
{
    match symbol {
        OperatorSymbol::Plus => select_arithmetic(mode, a, b, Primitive::Add, Primitive::AddU),
        OperatorSymbol::Minus => select_arithmetic(mode, a, b, Primitive::Sub, Primitive::SubU),
        OperatorSymbol::Times => select_arithmetic(mode, a, b, Primitive::Mul, Primitive::MulU),
        OperatorSymbol::Divide => select_arithmetic(mode, a, b, Primitive::Div, Primitive::DivU),
        OperatorSymbol::Modulo => select_arithmetic(
            mode,
            a,
            b,
            Primitive::Modulo,
            Primitive::ModuloU,
        ),
        OperatorSymbol::And => select_bitwise(a, b, Primitive::BinaryAnd),
        OperatorSymbol::Or => select_bitwise(a, b, Primitive::BinaryOr),
        OperatorSymbol::Xor => select_bitwise(a, b, Primitive::BinaryXor),
        OperatorSymbol::ShiftLeft => select_shift(mode, a, b, Primitive::Shl, Primitive::ShlU),
        OperatorSymbol::ShiftRight => select_shift(mode, a, b, Primitive::Shr, Primitive::ShrU),
        OperatorSymbol::Power => {
            let integer_exponent = matches!(b, NumericType::I64);
            if matches!(a, NumericType::I64) && integer_exponent {
                Some(pick(mode, Primitive::PowII, Primitive::PowIIU))
            } else if matches!(a, NumericType::F64) && integer_exponent {
                Some(pick(mode, Primitive::PowFI, Primitive::PowFIU))
            } else if matches!(a, NumericType::F64) && matches!(b, NumericType::F64) {
                Some(Primitive::PowFF)
            } else {
                None
            }
        },
        _ => None,
    }
}

/// The binding that a configuration holds for a symbol and operand types, if
/// it holds one.
pub fn select(config: &Config, symbol: OperatorSymbol, signature: Signature) -> (b: Option<Binding>)
    ensures
        b == binding_for(*config, symbol, signature),
{
    let (primitive, result) = match signature {
        Signature::Unary(t) => {
            let p = if config.enabled(t) {
                select_unary(config.mode, symbol, t)
            } else {
                None
            };
            let result = if matches!(symbol, OperatorSymbol::Sign) && t.integer() {
                NumericType::I64
            } else {
                t
            };
            (p, result)
        },
        Signature::Binary(a, b) => {
            let p = if config.enabled(a) && config.enabled(b) {
                select_binary(config.mode, symbol, a, b)
            } else {
                None
            };
            (p, a)
        },
    };
    match primitive {
        Some(primitive) => Some(Binding { symbol, signature, primitive, result }),
        None => None,
    }
}

impl OperatorSymbol {
    /// The place of the symbol in the list of the operator symbols.
    pub open spec fn ordinal(self) -> int {
        match self {
            OperatorSymbol::Plus => 0,
            OperatorSymbol::Minus => 1,
            OperatorSymbol::Times => 2,
            OperatorSymbol::Divide => 3,
            OperatorSymbol::Modulo => 4,
            OperatorSymbol::ShiftLeft => 5,
            OperatorSymbol::ShiftRight => 6,
            OperatorSymbol::And => 7,
            OperatorSymbol::Or => 8,
            OperatorSymbol::Xor => 9,
            OperatorSymbol::Abs => 10,
            OperatorSymbol::Sign => 11,
            OperatorSymbol::Power => 12,
        }
    }

    /// The place of the symbol in the list of the operator symbols.
    pub fn index(self) -> (i: usize)
        ensures
            i == self.ordinal(),
            i < 13,
    {
        match self {
            OperatorSymbol::Plus => 0,
            OperatorSymbol::Minus => 1,
            OperatorSymbol::Times => 2,
            OperatorSymbol::Divide => 3,
            OperatorSymbol::Modulo => 4,
            OperatorSymbol::ShiftLeft => 5,
            OperatorSymbol::ShiftRight => 6,
            OperatorSymbol::And => 7,
            OperatorSymbol::Or => 8,
            OperatorSymbol::Xor => 9,
            OperatorSymbol::Abs => 10,
            OperatorSymbol::Sign => 11,
            OperatorSymbol::Power => 12,
        }
    }

    /// The symbol at a place in the list of the operator symbols.
    pub fn from_index(i: usize) -> (s: OperatorSymbol)
        requires
            i < 13,
        ensures
            s.ordinal() == i,
    {
        if i == 0 {
            OperatorSymbol::Plus
        } else if i == 1 {
            OperatorSymbol::Minus
        } else if i == 2 {
            OperatorSymbol::Times
        } else if i == 3 {
            OperatorSymbol::Divide
        } else if i == 4 {
            OperatorSymbol::Modulo
        } else if i == 5 {
            OperatorSymbol::ShiftLeft
        } else if i == 6 {
            OperatorSymbol::ShiftRight
        } else if i == 7 {
            OperatorSymbol::And
        } else if i == 8 {
            OperatorSymbol::Or
        } else if i == 9 {
            OperatorSymbol::Xor
        } else if i == 10 {
            OperatorSymbol::Abs
        } else if i == 11 {
            OperatorSymbol::Sign
        } else {
            OperatorSymbol::Power
        }
    }

    /// The symbol as source text writes it.
    pub fn text(self) -> (s: &'static str)
        ensures
            s@ == self.notation(),
    {
        match self {
            OperatorSymbol::Plus => "+",
            OperatorSymbol::Minus => "-",
            OperatorSymbol::Times => "*",
            OperatorSymbol::Divide => "/",
            OperatorSymbol::Modulo => "%",
            OperatorSymbol::ShiftLeft => "<<",
            OperatorSymbol::ShiftRight => ">>",
            OperatorSymbol::And => "&",
            OperatorSymbol::Or => "|",
            OperatorSymbol::Xor => "^",
            OperatorSymbol::Abs => "abs",
            OperatorSymbol::Sign => "sign",
            OperatorSymbol::Power => "~",
        }
    }

    /// The symbol as source text writes it.
    pub open spec fn notation(self) -> Seq<char> {
        match self {
            OperatorSymbol::Plus => "+"@,
            OperatorSymbol::Minus => "-"@,
            OperatorSymbol::Times => "*"@,
            OperatorSymbol::Divide => "/"@,
            OperatorSymbol::Modulo => "%"@,
            OperatorSymbol::ShiftLeft => "<<"@,
            OperatorSymbol::ShiftRight => ">>"@,
            OperatorSymbol::And => "&"@,
            OperatorSymbol::Or => "|"@,
            OperatorSymbol::Xor => "^"@,
            OperatorSymbol::Abs => "abs"@,
            OperatorSymbol::Sign => "sign"@,
            OperatorSymbol::Power => "~"@,
        }
    }
}

/// The number of operand type signatures: twelve with one operand and twelve
/// times twelve with two.
pub const SIGNATURES: usize = 156;

/// The number of places in an operator table: one for each symbol and
/// signature.
pub const PLACES: usize = 2028;

impl Signature {
    /// The place of the signature in the list of the signatures.
    pub open spec fn ordinal(self) -> int {
        match self {
            Signature::Unary(t) => t.ordinal(),
            Signature::Binary(a, b) => 12 + a.ordinal() * 12 + b.ordinal(),
        }
    }

    /// The place of the signature in the list of the signatures.
    pub fn index(self) -> (i: usize)
        ensures
            i == self.ordinal(),
            i < SIGNATURES,
    {
        match self {
            Signature::Unary(t) => t.index(),
            Signature::Binary(a, b) => 12 + a.index() * 12 + b.index(),
        }
    }

    /// The signature at a place in the list of the signatures.
    pub fn from_index(i: usize) -> (s: Signature)
        requires
            i < SIGNATURES,
        ensures
            s.ordinal() == i,
    {
        if i < 12 {
            Signature::Unary(NumericType::from_index(i))
        } else {
            Signature::Binary(
                NumericType::from_index((i - 12) / 12),
                NumericType::from_index((i - 12) % 12),
            )
        }
    }
}

/// The place of a symbol and signature in an operator table.
pub open spec fn place(symbol: OperatorSymbol, signature: Signature) -> int {
    symbol.ordinal() * 156 + signature.ordinal()
}

/// Every symbol and signature has a place of its own in an operator table.
pub proof fn places_are_distinct(
    s1: OperatorSymbol,
    g1: Signature,
    s2: OperatorSymbol,
    g2: Signature,
)
    ensures
        0 <= place(s1, g1) < PLACES,
        place(s1, g1) == place(s2, g2) ==> s1 == s2 && g1 == g2,
{
    assert(0 <= g1.ordinal() < 156);
    assert(0 <= g2.ordinal() < 156);
    if place(s1, g1) == place(s2, g2) {
        assert(s1.ordinal() == s2.ordinal());
        assert(g1.ordinal() == g2.ordinal());
        match (g1, g2) {
            (Signature::Binary(a1, b1), Signature::Binary(a2, b2)) => {
                assert(a1.ordinal() == a2.ordinal());
                assert(b1.ordinal() == b2.ordinal());
            },
            _ => {},
        }
    }
}

/// The bindings that a configuration selects, by symbol and signature.
pub open spec fn bindings_of(config: Config) -> Map<(OperatorSymbol, Signature), Binding> {
    Map::new(
        |key: (OperatorSymbol, Signature)| binding_for(config, key.0, key.1) is Some,
        |key: (OperatorSymbol, Signature)| binding_for(config, key.0, key.1)->Some_0,
    )
}

/// The operator table of a configuration. It is filled once, when it is
/// built, and only read afterwards; no symbol and signature has more than one
/// binding.
pub struct OperatorTable {
    slots: Vec<Option<Binding>>,
}

impl View for OperatorTable {
    type V = Map<(OperatorSymbol, Signature), Binding>;

    /// The bindings of the table, by symbol and signature.
    closed spec fn view(&self) -> Map<(OperatorSymbol, Signature), Binding> {
        Map::new(
            |key: (OperatorSymbol, Signature)| self.slots@[place(key.0, key.1)] is Some,
            |key: (OperatorSymbol, Signature)| self.slots@[place(key.0, key.1)]->Some_0,
        )
    }
}

impl OperatorTable {
    /// The table has one place for each symbol and signature.
    #[verifier::type_invariant]
    spec fn complete(&self) -> bool {
        self.slots@.len() == PLACES
    }

    /// The binding of a symbol and signature in the table, if there is one.
    pub open spec fn lookup(&self, symbol: OperatorSymbol, signature: Signature) -> Option<Binding> {
        if self@.contains_key((symbol, signature)) {
            Some(self@[(symbol, signature)])
        } else {
            None
        }
    }
}

/// Builds the operator table of a configuration: it holds a binding for a
/// symbol and operand types exactly where the configuration defines the
/// operator for them, and the binding is the one that the configuration
/// selects.
pub fn build_operator_table(config: &Config) -> (table: OperatorTable)
    ensures
        table@ == bindings_of(*config),
{
    let mut slots: Vec<Option<Binding>> = Vec::new();
    let mut n: usize = 0;
    while n < PLACES
        invariant
            n <= PLACES,
            slots@.len() == n,
            forall|s: OperatorSymbol, g: Signature|
                #![trigger place(s, g)]
                place(s, g) < n ==> slots@[place(s, g)] == binding_for(*config, s, g),
        decreases PLACES - n,
    {
        let symbol = OperatorSymbol::from_index(n / SIGNATURES);
        let signature = Signature::from_index(n % SIGNATURES);
        let slot = select(config, symbol, signature);
        proof {
            assert(place(symbol, signature) == n);
            assert forall|s: OperatorSymbol, g: Signature|
                #![trigger place(s, g)]
                place(s, g) < n + 1 implies slots@.push(slot)[place(s, g)] == binding_for(
                *config,
                s,
                g,
            ) by {
                places_are_distinct(s, g, symbol, signature);
            }
        }
        slots.push(slot);
        n = n + 1;
    }
    let table = OperatorTable { slots };
    proof {
        assert forall|key: (OperatorSymbol, Signature)|
            table@.contains_key(key) == bindings_of(*config).contains_key(key) && (
            table@.contains_key(key) ==> table@[key] == bindings_of(*config)[key]) by {
            places_are_distinct(key.0, key.1, key.0, key.1);
            assert(table.slots@[place(key.0, key.1)] == binding_for(*config, key.0, key.1));
        }
        assert(table@ =~= bindings_of(*config));
    }
    table
}

/// Looks up the binding of an operator symbol and operand types. `None` says
/// that the configuration does not define the operator for these types; to
/// report that is the caller's part. The same symbol and types give the same
/// answer every time.
pub fn resolve(table: &OperatorTable, symbol: OperatorSymbol, signature: Signature) -> (b: Option<
    Binding,
>)
    ensures
        b == table.lookup(symbol, signature),
{
    proof {
        use_type_invariant(table);
        places_are_distinct(symbol, signature, symbol, signature);
    }
    table.slots[symbol.index() * SIGNATURES + signature.index()]
}

} // verus!
