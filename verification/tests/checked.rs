use numeric_ops::arithmetic;
use numeric_ops::error::{ArithmeticError, ErrorKind};

#[test]
fn add_reports_overflow_with_both_operands() {
    let e = arithmetic::add(i8::MAX, 1i8).unwrap_err();
    assert_eq!(e.kind, ErrorKind::Overflow);
    assert!(e.message.contains("127"));
    assert!(e.message.contains("1"));
    assert!(e.message.contains("+"));
    assert_eq!(e.message, "Addition overflow: 127 + 1");
}

#[test]
fn div_by_zero_is_reported_as_such() {
    let e = arithmetic::div(10i32, 0i32).unwrap_err();
    assert_eq!(e.kind, ErrorKind::DivisionByZero);
    assert_eq!(e.message, "Division by zero: 10 / 0");
}

#[test]
fn neg_of_least_i32_overflows() {
    let e = arithmetic::neg(i32::MIN).unwrap_err();
    assert_eq!(e.kind, ErrorKind::Overflow);
    assert_eq!(e.message, "Negation overflow: --2147483648");
    let a = arithmetic::abs(i32::MIN).unwrap_err();
    assert_eq!(a.kind, ErrorKind::Overflow);
    assert_eq!(a.message, "Negation overflow: --2147483648");
}

#[test]
fn shl_by_negative_count_is_rejected() {
    let e = arithmetic::shl(1i32, -1).unwrap_err();
    assert_eq!(e.kind, ErrorKind::NegativeShiftCount);
    assert_eq!(e.message, "Left-shift by a negative number: 1 << -1");
}

#[test]
fn pow_with_negative_exponent_is_rejected() {
    let e = arithmetic::pow_i_i(2i64, -3i64).unwrap_err();
    assert_eq!(e.kind, ErrorKind::NegativeExponent);
    assert_eq!(e.message, "Integer raised to a negative index: 2 ~ -3");
}

#[test]
fn sign_of_negative_i32_is_minus_one() {
    assert_eq!(arithmetic::sign(-5i32), Ok(-1i64));
}

#[test]
fn messages_name_operator_and_operands() {
    assert_eq!(
        arithmetic::sub(i16::MIN, 1i16).unwrap_err().message,
        "Subtraction underflow: -32768 - 1"
    );
    assert_eq!(
        arithmetic::mul(200u8, 2u8).unwrap_err().message,
        "Multiplication overflow: 200 * 2"
    );
    assert_eq!(
        arithmetic::div(i64::MIN, -1i64).unwrap_err().message,
        "Division overflow: -9223372036854775808 / -1"
    );
    assert_eq!(
        arithmetic::modulo(5u32, 0u32).unwrap_err().message,
        "Modulo division by zero or overflow: 5 % 0"
    );
    assert_eq!(
        arithmetic::shl(7u64, 64).unwrap_err().message,
        "Left-shift by too many bits: 7 << 64"
    );
    assert_eq!(
        arithmetic::shr(-7i8, -2).unwrap_err().message,
        "Right-shift by a negative number: -7 >> -2"
    );
    assert_eq!(
        arithmetic::shr(7i8, 8).unwrap_err().message,
        "Right-shift by too many bits: 7 >> 8"
    );
    assert_eq!(
        arithmetic::add(u128::MAX, 1u128).unwrap_err().message,
        "Addition overflow: 340282366920938463463374607431768211455 + 1"
    );
    assert_eq!(
        arithmetic::sub(i128::MIN, 1i128).unwrap_err().message,
        "Subtraction underflow: -170141183460469231731687303715884105728 - 1"
    );
}

#[test]
fn shift_counts_beyond_32_bits_are_too_large() {
    let e = arithmetic::shl(1i32, 1i64 << 32).unwrap_err();
    assert_eq!(e.kind, ErrorKind::ShiftCountTooLarge);
    let e = arithmetic::shr(1u8, (1i64 << 32) + 1).unwrap_err();
    assert_eq!(e.kind, ErrorKind::ShiftCountTooLarge);
    let e = arithmetic::shl(1u128, i64::MAX).unwrap_err();
    assert_eq!(e.kind, ErrorKind::ShiftCountTooLarge);
    assert_eq!(arithmetic::shl(1u128, 127), Ok(1u128 << 127));
    assert_eq!(arithmetic::shl(1i32, i64::MIN).unwrap_err().kind, ErrorKind::NegativeShiftCount);
}

#[test]
fn shl_loses_the_bits_that_leave_the_type() {
    assert_eq!(arithmetic::shl(0x81u8, 1), Ok(0x02u8));
    assert_eq!(arithmetic::shl(0x7fi8, 1), Ok(-2i8));
    assert_eq!(arithmetic::shl(5u16, 0), Ok(5u16));
}

#[test]
fn div_by_zero_never_reports_another_kind() {
    for x in [i8::MIN, -1, 0, 1, i8::MAX] {
        assert_eq!(arithmetic::div(x, 0i8).unwrap_err().kind, ErrorKind::DivisionByZero);
    }
    for x in [0u64, 1, u64::MAX] {
        assert_eq!(arithmetic::div(x, 0u64).unwrap_err().kind, ErrorKind::DivisionByZero);
    }
}

#[test]
fn checked_add_is_exact_on_all_i8() {
    for x in i8::MIN..=i8::MAX {
        for y in i8::MIN..=i8::MAX {
            let sum = x as i32 + y as i32;
            match arithmetic::add(x, y) {
                Ok(z) => assert_eq!(z as i32, sum),
                Err(e) => {
                    assert!(sum < i8::MIN as i32 || sum > i8::MAX as i32);
                    assert_eq!(e.kind, ErrorKind::Overflow);
                }
            }
            let difference = x as i32 - y as i32;
            match arithmetic::sub(x, y) {
                Ok(z) => assert_eq!(z as i32, difference),
                Err(e) => {
                    assert!(difference < i8::MIN as i32 || difference > i8::MAX as i32);
                    assert_eq!(e.kind, ErrorKind::Underflow);
                }
            }
            let product = x as i32 * y as i32;
            match arithmetic::mul(x, y) {
                Ok(z) => assert_eq!(z as i32, product),
                Err(e) => {
                    assert!(product < i8::MIN as i32 || product > i8::MAX as i32);
                    assert_eq!(e.kind, ErrorKind::Overflow);
                }
            }
        }
    }
}

#[test]
fn unchecked_and_checked_forms_agree_on_all_u8() {
    for x in u8::MIN..=u8::MAX {
        for y in u8::MIN..=u8::MAX {
            if let Ok(z) = arithmetic::add(x, y) {
                assert_eq!(arithmetic::add_u(x, y), Ok(z));
            }
            if let Ok(z) = arithmetic::sub(x, y) {
                assert_eq!(arithmetic::sub_u(x, y), Ok(z));
            }
            if let Ok(z) = arithmetic::mul(x, y) {
                assert_eq!(arithmetic::mul_u(x, y), Ok(z));
            }
            if let Ok(z) = arithmetic::div(x, y) {
                assert_eq!(arithmetic::div_u(x, y), Ok(z));
            }
            if let Ok(z) = arithmetic::modulo(x, y) {
                assert_eq!(arithmetic::modulo_u(x, y), Ok(z));
            }
            if let Ok(z) = arithmetic::shl(x, y as i64) {
                assert_eq!(arithmetic::shl_u(x, y), Ok(z));
            }
            if let Ok(z) = arithmetic::shr(x, y as i64) {
                assert_eq!(arithmetic::shr_u(x, y), Ok(z));
            }
        }
    }
}

#[test]
fn unchecked_and_checked_forms_agree_on_all_i8() {
    for x in i8::MIN..=i8::MAX {
        if let Ok(z) = arithmetic::neg(x) {
            assert_eq!(arithmetic::neg_u(x), Ok(z));
        }
        if let Ok(z) = arithmetic::abs(x) {
            assert_eq!(arithmetic::abs_u(x), Ok(z));
        }
        for y in i8::MIN..=i8::MAX {
            if let Ok(z) = arithmetic::div(x, y) {
                assert_eq!(arithmetic::div_u(x, y), Ok(z));
            }
            if let Ok(z) = arithmetic::modulo(x, y) {
                assert_eq!(arithmetic::modulo_u(x, y), Ok(z));
            }
            if let Ok(z) = arithmetic::shl(x, y as i64) {
                assert_eq!(arithmetic::shl_u(x, y), Ok(z));
            }
        }
    }
}

#[test]
fn sign_is_one_of_three_values() {
    for x in i8::MIN..=i8::MAX {
        let s = arithmetic::sign(x).unwrap();
        assert!(s == -1 || s == 0 || s == 1);
        assert_eq!(s == 0, x == 0);
        assert_eq!(s == -1, x < 0);
    }
}

#[test]
fn error_is_plain_data() {
    let e = ArithmeticError::new(ErrorKind::Underflow, String::from("text"));
    assert_eq!(e.kind, ErrorKind::Underflow);
    assert_eq!(e.message, "text");
    let u = ArithmeticError::unary(ErrorKind::Overflow, "Negation overflow: -", -128i8);
    assert_eq!(u.message, "Negation overflow: --128");
    let b = ArithmeticError::binary(ErrorKind::Overflow, "a ", 1u8, " ? ", -2i64);
    assert_eq!(b.message, "a 1 ? -2");
}
