use numeric_ops::error::ErrorKind;
use numeric_ops::invoke::{admits, invoke, try_invoke};
use numeric_ops::table::{
    build_operator_table, resolve, select, Binding, Config, IntegerWidths, Mode, OperatorSymbol,
    Primitive, Signature, PLACES, SIGNATURES,
};
use numeric_ops::types::NumericType;
use numeric_ops::value::{Operands, Value};

fn config(widths: IntegerWidths, include_wide: bool, include_floats: bool, mode: Mode) -> Config {
    Config { widths, include_wide, include_floats, mode }
}

fn full_checked() -> Config {
    config(IntegerWidths::Full, true, true, Mode::Checked)
}

fn full_unchecked() -> Config {
    config(IntegerWidths::Full, true, true, Mode::Unchecked)
}

fn primitive(c: &Config, symbol: OperatorSymbol, signature: Signature) -> Option<Primitive> {
    resolve(&build_operator_table(c), symbol, signature).map(|b| b.primitive)
}

fn all_types() -> Vec<NumericType> {
    (0..12).map(NumericType::from_index).collect()
}

fn all_symbols() -> Vec<OperatorSymbol> {
    (0..13).map(OperatorSymbol::from_index).collect()
}

fn all_signatures() -> Vec<Signature> {
    (0..SIGNATURES).map(Signature::from_index).collect()
}

#[test]
fn checked_table_binds_checked_arithmetic() {
    let c = full_checked();
    let both = Signature::Binary(NumericType::I32, NumericType::I32);
    assert_eq!(primitive(&c, OperatorSymbol::Plus, both), Some(Primitive::Add));
    assert_eq!(primitive(&c, OperatorSymbol::Minus, both), Some(Primitive::Sub));
    assert_eq!(primitive(&c, OperatorSymbol::Times, both), Some(Primitive::Mul));
    assert_eq!(primitive(&c, OperatorSymbol::Divide, both), Some(Primitive::Div));
    assert_eq!(primitive(&c, OperatorSymbol::Modulo, both), Some(Primitive::Modulo));
    assert_eq!(primitive(&c, OperatorSymbol::And, both), Some(Primitive::BinaryAnd));
    assert_eq!(primitive(&c, OperatorSymbol::Or, both), Some(Primitive::BinaryOr));
    assert_eq!(primitive(&c, OperatorSymbol::Xor, both), Some(Primitive::BinaryXor));
    let one = Signature::Unary(NumericType::I32);
    assert_eq!(primitive(&c, OperatorSymbol::Minus, one), Some(Primitive::Neg));
    assert_eq!(primitive(&c, OperatorSymbol::Abs, one), Some(Primitive::Abs));
    assert_eq!(primitive(&c, OperatorSymbol::Sign, one), Some(Primitive::Sign));
    let shift = Signature::Binary(NumericType::U8, NumericType::I64);
    assert_eq!(primitive(&c, OperatorSymbol::ShiftLeft, shift), Some(Primitive::Shl));
    assert_eq!(primitive(&c, OperatorSymbol::ShiftRight, shift), Some(Primitive::Shr));
    let defaults = Signature::Binary(NumericType::I64, NumericType::I64);
    assert_eq!(primitive(&c, OperatorSymbol::Power, defaults), Some(Primitive::PowII));
    assert_eq!(primitive(&c, OperatorSymbol::ShiftLeft, defaults), Some(Primitive::Shl));
}

#[test]
fn unchecked_table_binds_unchecked_arithmetic() {
    let c = full_unchecked();
    let both = Signature::Binary(NumericType::U16, NumericType::U16);
    assert_eq!(primitive(&c, OperatorSymbol::Plus, both), Some(Primitive::AddU));
    assert_eq!(primitive(&c, OperatorSymbol::Minus, both), Some(Primitive::SubU));
    assert_eq!(primitive(&c, OperatorSymbol::Times, both), Some(Primitive::MulU));
    assert_eq!(primitive(&c, OperatorSymbol::Divide, both), Some(Primitive::DivU));
    assert_eq!(primitive(&c, OperatorSymbol::Modulo, both), Some(Primitive::ModuloU));
    assert_eq!(primitive(&c, OperatorSymbol::ShiftLeft, both), Some(Primitive::ShlU));
    assert_eq!(primitive(&c, OperatorSymbol::ShiftRight, both), Some(Primitive::ShrU));
    assert_eq!(primitive(&c, OperatorSymbol::And, both), Some(Primitive::BinaryAnd));
    let shift = Signature::Binary(NumericType::U16, NumericType::I64);
    assert_eq!(primitive(&c, OperatorSymbol::ShiftLeft, shift), None);
    let one = Signature::Unary(NumericType::I8);
    assert_eq!(primitive(&c, OperatorSymbol::Minus, one), Some(Primitive::NegU));
    assert_eq!(primitive(&c, OperatorSymbol::Abs, one), Some(Primitive::AbsU));
    assert_eq!(primitive(&c, OperatorSymbol::Sign, one), Some(Primitive::Sign));
    let defaults = Signature::Binary(NumericType::I64, NumericType::I64);
    assert_eq!(primitive(&c, OperatorSymbol::Power, defaults), Some(Primitive::PowIIU));
}

#[test]
fn floats_are_never_checked() {
    for mode in [Mode::Checked, Mode::Unchecked] {
        let c = config(IntegerWidths::Full, true, true, mode);
        for t in [NumericType::F32, NumericType::F64] {
            let both = Signature::Binary(t, t);
            assert_eq!(primitive(&c, OperatorSymbol::Plus, both), Some(Primitive::AddU));
            assert_eq!(primitive(&c, OperatorSymbol::Minus, both), Some(Primitive::SubU));
            assert_eq!(primitive(&c, OperatorSymbol::Times, both), Some(Primitive::MulU));
            assert_eq!(primitive(&c, OperatorSymbol::Divide, both), Some(Primitive::DivU));
            assert_eq!(primitive(&c, OperatorSymbol::Modulo, both), Some(Primitive::ModuloU));
            assert_eq!(primitive(&c, OperatorSymbol::And, both), None);
            assert_eq!(primitive(&c, OperatorSymbol::ShiftLeft, both), None);
            let one = Signature::Unary(t);
            assert_eq!(primitive(&c, OperatorSymbol::Minus, one), Some(Primitive::NegU));
            assert_eq!(primitive(&c, OperatorSymbol::Abs, one), Some(Primitive::AbsU));
            assert_eq!(primitive(&c, OperatorSymbol::Sign, one), Some(Primitive::Sign));
        }
    }
    let checked = full_checked();
    let unchecked = full_unchecked();
    let by_integer = Signature::Binary(NumericType::F64, NumericType::I64);
    let by_float = Signature::Binary(NumericType::F64, NumericType::F64);
    assert_eq!(primitive(&checked, OperatorSymbol::Power, by_integer), Some(Primitive::PowFI));
    assert_eq!(primitive(&unchecked, OperatorSymbol::Power, by_integer), Some(Primitive::PowFIU));
    assert_eq!(primitive(&checked, OperatorSymbol::Power, by_float), Some(Primitive::PowFF));
    assert_eq!(primitive(&unchecked, OperatorSymbol::Power, by_float), Some(Primitive::PowFF));
    let narrow = Signature::Binary(NumericType::F32, NumericType::I64);
    assert_eq!(primitive(&checked, OperatorSymbol::Power, narrow), None);
}

#[test]
fn configuration_gates_the_types() {
    let no_floats = config(IntegerWidths::Full, true, false, Mode::Checked);
    let floats = Signature::Binary(NumericType::F64, NumericType::F64);
    assert_eq!(primitive(&no_floats, OperatorSymbol::Plus, floats), None);
    assert_eq!(primitive(&no_floats, OperatorSymbol::Sign, Signature::Unary(NumericType::F32)), None);

    let no_wide = config(IntegerWidths::Full, false, true, Mode::Checked);
    let wide = Signature::Binary(NumericType::I128, NumericType::I128);
    assert_eq!(primitive(&no_wide, OperatorSymbol::Plus, wide), None);
    assert_eq!(primitive(&full_checked(), OperatorSymbol::Plus, wide), Some(Primitive::Add));
    let wide_shift = Signature::Binary(NumericType::U128, NumericType::I64);
    assert_eq!(primitive(&no_wide, OperatorSymbol::ShiftLeft, wide_shift), None);

    let default_only = config(IntegerWidths::DefaultOnly, true, true, Mode::Checked);
    let small = Signature::Binary(NumericType::I32, NumericType::I32);
    let defaults = Signature::Binary(NumericType::I64, NumericType::I64);
    assert_eq!(primitive(&default_only, OperatorSymbol::Plus, small), None);
    assert_eq!(primitive(&default_only, OperatorSymbol::Plus, wide), None);
    assert_eq!(primitive(&default_only, OperatorSymbol::Plus, defaults), Some(Primitive::Add));
    assert_eq!(primitive(&default_only, OperatorSymbol::Plus, floats), Some(Primitive::AddU));
    assert_eq!(
        primitive(&default_only, OperatorSymbol::Minus, Signature::Unary(NumericType::I64)),
        Some(Primitive::Neg)
    );
}

#[test]
fn unsigned_integers_have_no_unary_operators() {
    let c = full_checked();
    for t in [
        NumericType::U8,
        NumericType::U16,
        NumericType::U32,
        NumericType::U64,
        NumericType::U128,
    ] {
        for symbol in all_symbols() {
            assert_eq!(primitive(&c, symbol, Signature::Unary(t)), None);
        }
    }
}

#[test]
fn mixed_operand_types_have_no_arithmetic() {
    let c = full_checked();
    let mixed = Signature::Binary(NumericType::I32, NumericType::I8);
    for symbol in all_symbols() {
        assert_eq!(primitive(&c, symbol, mixed), None);
    }
}

#[test]
fn bindings_carry_their_key_and_result_type() {
    for c in [full_checked(), full_unchecked()] {
        let table = build_operator_table(&c);
        let mut found = 0;
        for symbol in all_symbols() {
            for signature in all_signatures() {
                let b = resolve(&table, symbol, signature);
                assert_eq!(b, select(&c, symbol, signature));
                if let Some(b) = b {
                    found += 1;
                    assert_eq!(b.symbol, symbol);
                    assert_eq!(b.signature, signature);
                    let first = match signature {
                        Signature::Unary(t) => t,
                        Signature::Binary(t, _) => t,
                    };
                    if symbol == OperatorSymbol::Sign && first.integer() {
                        assert_eq!(b.result, NumericType::I64);
                    } else {
                        assert_eq!(b.result, first);
                    }
                }
            }
        }
        assert!(found > 100);
        assert!(found < PLACES);
    }
}

#[test]
fn resolve_gives_the_same_binding_every_time() {
    let table = build_operator_table(&full_checked());
    let again = build_operator_table(&full_checked());
    for symbol in all_symbols() {
        for signature in all_signatures() {
            let first = resolve(&table, symbol, signature);
            assert_eq!(resolve(&table, symbol, signature), first);
            assert_eq!(resolve(&again, symbol, signature), first);
        }
    }
}

#[test]
fn one_family_per_table() {
    let checked = [
        Primitive::Add,
        Primitive::Sub,
        Primitive::Mul,
        Primitive::Div,
        Primitive::Neg,
        Primitive::Abs,
        Primitive::Shl,
        Primitive::Shr,
        Primitive::Modulo,
        Primitive::PowII,
        Primitive::PowFI,
    ];
    let table = build_operator_table(&full_unchecked());
    for symbol in all_symbols() {
        for signature in all_signatures() {
            if let Some(b) = resolve(&table, symbol, signature) {
                assert!(!checked.contains(&b.primitive));
            }
        }
    }
}

#[test]
fn indexes_round_trip() {
    for (i, t) in all_types().into_iter().enumerate() {
        assert_eq!(t.index(), i);
    }
    for (i, s) in all_symbols().into_iter().enumerate() {
        assert_eq!(s.index(), i);
    }
    for (i, g) in all_signatures().into_iter().enumerate() {
        assert_eq!(g.index(), i);
    }
    assert_eq!(PLACES, 13 * SIGNATURES);
    assert_eq!(OperatorSymbol::ShiftLeft.text(), "<<");
    assert_eq!(OperatorSymbol::Power.text(), "~");
    assert_eq!(OperatorSymbol::Sign.text(), "sign");
}

fn call(c: &Config, symbol: OperatorSymbol, operands: Operands) -> Result<Value, ErrorKind> {
    let table = build_operator_table(c);
    let binding: Binding = resolve(&table, symbol, operands.types()).unwrap();
    invoke(&binding, operands).map_err(|e| e.kind)
}

#[test]
fn invoke_calls_the_checked_implementations() {
    let c = full_checked();
    let two = |x: i32, y: i32| Operands::Binary(Value::I32(x), Value::I32(y));
    assert_eq!(call(&c, OperatorSymbol::Plus, two(1, 2)), Ok(Value::I32(3)));
    assert_eq!(call(&c, OperatorSymbol::Plus, two(i32::MAX, 1)), Err(ErrorKind::Overflow));
    assert_eq!(call(&c, OperatorSymbol::Minus, two(1, 2)), Ok(Value::I32(-1)));
    assert_eq!(call(&c, OperatorSymbol::Minus, two(i32::MIN, 1)), Err(ErrorKind::Underflow));
    assert_eq!(call(&c, OperatorSymbol::Times, two(-4, 5)), Ok(Value::I32(-20)));
    assert_eq!(call(&c, OperatorSymbol::Divide, two(-7, 2)), Ok(Value::I32(-3)));
    assert_eq!(call(&c, OperatorSymbol::Divide, two(10, 0)), Err(ErrorKind::DivisionByZero));
    assert_eq!(call(&c, OperatorSymbol::Modulo, two(-7, 2)), Ok(Value::I32(-1)));
    assert_eq!(call(&c, OperatorSymbol::And, two(12, 10)), Ok(Value::I32(8)));
    assert_eq!(call(&c, OperatorSymbol::Or, two(12, 10)), Ok(Value::I32(14)));
    assert_eq!(call(&c, OperatorSymbol::Xor, two(12, 10)), Ok(Value::I32(6)));
    let one = |x: i16| Operands::Unary(Value::I16(x));
    assert_eq!(call(&c, OperatorSymbol::Minus, one(5)), Ok(Value::I16(-5)));
    assert_eq!(call(&c, OperatorSymbol::Minus, one(i16::MIN)), Err(ErrorKind::Overflow));
    assert_eq!(call(&c, OperatorSymbol::Abs, one(-5)), Ok(Value::I16(5)));
    assert_eq!(call(&c, OperatorSymbol::Sign, one(-5)), Ok(Value::I64(-1)));
    assert_eq!(call(&c, OperatorSymbol::Sign, one(0)), Ok(Value::I64(0)));
    let shift = |x: u8, n: i64| Operands::Binary(Value::U8(x), Value::I64(n));
    assert_eq!(call(&c, OperatorSymbol::ShiftLeft, shift(3, 2)), Ok(Value::U8(12)));
    assert_eq!(call(&c, OperatorSymbol::ShiftLeft, shift(3, 8)), Err(ErrorKind::ShiftCountTooLarge));
    assert_eq!(call(&c, OperatorSymbol::ShiftRight, shift(12, 2)), Ok(Value::U8(3)));
    assert_eq!(call(&c, OperatorSymbol::ShiftRight, shift(3, -1)), Err(ErrorKind::NegativeShiftCount));
    let defaults = |x: i64, y: i64| Operands::Binary(Value::I64(x), Value::I64(y));
    assert_eq!(call(&c, OperatorSymbol::Power, defaults(2, 10)), Ok(Value::I64(1024)));
    assert_eq!(call(&c, OperatorSymbol::Power, defaults(2, -3)), Err(ErrorKind::NegativeExponent));
    assert_eq!(call(&c, OperatorSymbol::Power, defaults(2, 64)), Err(ErrorKind::Overflow));
    assert_eq!(call(&c, OperatorSymbol::ShiftLeft, defaults(1, 62)), Ok(Value::I64(1 << 62)));
    assert_eq!(call(&c, OperatorSymbol::ShiftRight, defaults(-8, 1)), Ok(Value::I64(-4)));
    assert_eq!(call(&c, OperatorSymbol::Plus, defaults(1, 2)), Ok(Value::I64(3)));
    let wide = |x: u128, y: u128| Operands::Binary(Value::U128(x), Value::U128(y));
    assert_eq!(call(&c, OperatorSymbol::Plus, wide(u128::MAX, 1)), Err(ErrorKind::Overflow));
    assert_eq!(call(&c, OperatorSymbol::Times, wide(1 << 100, 4)), Ok(Value::U128(1 << 102)));
}

#[test]
fn invoke_calls_the_unchecked_implementations() {
    let c = full_unchecked();
    let two = |x: i8, y: i8| Operands::Binary(Value::I8(x), Value::I8(y));
    assert_eq!(call(&c, OperatorSymbol::Plus, two(1, 2)), Ok(Value::I8(3)));
    assert_eq!(call(&c, OperatorSymbol::Minus, two(1, 2)), Ok(Value::I8(-1)));
    assert_eq!(call(&c, OperatorSymbol::Times, two(-4, 5)), Ok(Value::I8(-20)));
    assert_eq!(call(&c, OperatorSymbol::Divide, two(-7, 2)), Ok(Value::I8(-3)));
    assert_eq!(call(&c, OperatorSymbol::Modulo, two(-7, 2)), Ok(Value::I8(-1)));
    assert_eq!(call(&c, OperatorSymbol::ShiftLeft, two(3, 2)), Ok(Value::I8(12)));
    assert_eq!(call(&c, OperatorSymbol::ShiftRight, two(-8, 1)), Ok(Value::I8(-4)));
    assert_eq!(call(&c, OperatorSymbol::Xor, two(12, 10)), Ok(Value::I8(6)));
    let one = |x: i128| Operands::Unary(Value::I128(x));
    assert_eq!(call(&c, OperatorSymbol::Minus, one(5)), Ok(Value::I128(-5)));
    assert_eq!(call(&c, OperatorSymbol::Abs, one(-5)), Ok(Value::I128(5)));
    assert_eq!(call(&c, OperatorSymbol::Sign, one(i128::MIN)), Ok(Value::I64(-1)));
    let defaults = |x: i64, y: i64| Operands::Binary(Value::I64(x), Value::I64(y));
    assert_eq!(call(&c, OperatorSymbol::Power, defaults(3, 4)), Ok(Value::I64(81)));
    assert_eq!(call(&c, OperatorSymbol::ShiftLeft, defaults(3, 4)), Ok(Value::I64(48)));
}

#[test]
fn invoke_keeps_the_message_of_the_implementation() {
    let table = build_operator_table(&full_checked());
    let operands = Operands::Binary(Value::I8(i8::MAX), Value::I8(1));
    let binding = resolve(&table, OperatorSymbol::Plus, operands.types()).unwrap();
    let e = invoke(&binding, operands).unwrap_err();
    assert_eq!(e.kind, ErrorKind::Overflow);
    assert_eq!(e.message, "Addition overflow: 127 + 1");
}

#[test]
fn values_know_their_types() {
    assert_eq!(Value::I8(1).numeric_type(), NumericType::I8);
    assert_eq!(Value::U128(1).numeric_type(), NumericType::U128);
    assert_eq!(
        Operands::Binary(Value::U16(1), Value::I64(2)).types(),
        Signature::Binary(NumericType::U16, NumericType::I64)
    );
    assert_eq!(Operands::Unary(Value::I32(1)).types(), Signature::Unary(NumericType::I32));
    assert!(NumericType::I128.signed());
    assert!(!NumericType::U8.signed());
    assert!(NumericType::U8.integer());
    assert!(!NumericType::F64.integer());
    let c = config(IntegerWidths::Full, false, false, Mode::Checked);
    assert!(c.enabled(NumericType::I64));
    assert!(c.enabled(NumericType::U8));
    assert!(!c.enabled(NumericType::U128));
    assert!(!c.enabled(NumericType::F32));
}

#[test]
fn bindings_admit_the_operands_in_their_domain() {
    let unchecked = build_operator_table(&full_unchecked());
    let two = |x: i8, y: i8| Operands::Binary(Value::I8(x), Value::I8(y));
    let plus = resolve(&unchecked, OperatorSymbol::Plus, two(0, 0).types()).unwrap();
    assert!(admits(&plus, two(100, 27)));
    assert!(!admits(&plus, two(100, 28)));
    assert!(!admits(&plus, Operands::Binary(Value::I16(1), Value::I16(2))));
    assert!(!admits(&plus, Operands::Unary(Value::I8(1))));
    assert_eq!(try_invoke(&plus, two(100, 27)), Some(Ok(Value::I8(127))));
    assert_eq!(try_invoke(&plus, two(100, 28)), None);
    let divide = resolve(&unchecked, OperatorSymbol::Divide, two(0, 0).types()).unwrap();
    assert!(admits(&divide, two(7, 2)));
    assert!(!admits(&divide, two(7, 0)));
    assert!(!admits(&divide, two(i8::MIN, -1)));
    let modulo = resolve(&unchecked, OperatorSymbol::Modulo, two(0, 0).types()).unwrap();
    assert!(!admits(&modulo, two(7, 0)));
    assert!(!admits(&modulo, two(i8::MIN, -1)));
    assert!(admits(&modulo, two(i8::MIN, 1)));
    let shift = resolve(&unchecked, OperatorSymbol::ShiftLeft, two(0, 0).types()).unwrap();
    assert!(admits(&shift, two(1, 7)));
    assert!(!admits(&shift, two(1, 8)));
    assert!(!admits(&shift, two(1, -1)));
    let one = |x: i8| Operands::Unary(Value::I8(x));
    let minus = resolve(&unchecked, OperatorSymbol::Minus, one(0).types()).unwrap();
    assert!(admits(&minus, one(i8::MAX)));
    assert!(!admits(&minus, one(i8::MIN)));
    let abs = resolve(&unchecked, OperatorSymbol::Abs, one(0).types()).unwrap();
    assert!(admits(&abs, one(5)));
    assert!(admits(&abs, one(-5)));
    assert!(!admits(&abs, one(i8::MIN)));
    let defaults = |x: i64, y: i64| Operands::Binary(Value::I64(x), Value::I64(y));
    let power = resolve(&unchecked, OperatorSymbol::Power, defaults(0, 0).types()).unwrap();
    assert!(admits(&power, defaults(2, 62)));
    assert!(!admits(&power, defaults(2, 63)));
    assert!(!admits(&power, defaults(2, -1)));
    assert!(!admits(&power, defaults(1, 1 << 32)));

    let checked = build_operator_table(&full_checked());
    let plus = resolve(&checked, OperatorSymbol::Plus, two(0, 0).types()).unwrap();
    assert!(admits(&plus, two(100, 28)));
    assert_eq!(
        try_invoke(&plus, two(100, 28)).map(|r| r.map_err(|e| e.kind)),
        Some(Err(ErrorKind::Overflow))
    );
    let unsigned = Binding {
        symbol: OperatorSymbol::Minus,
        signature: Signature::Unary(NumericType::U8),
        primitive: Primitive::Neg,
        result: NumericType::U8,
    };
    assert!(!admits(&unsigned, Operands::Unary(Value::U8(0))));
}
