use numeric_ops::arithmetic;
use numeric_ops::error::ErrorKind;

#[test]
fn pow_of_small_numbers() {
    assert_eq!(arithmetic::pow_i_i(2, 10), Ok(1024));
    assert_eq!(arithmetic::pow_i_i(-3, 3), Ok(-27));
    assert_eq!(arithmetic::pow_i_i(7, 0), Ok(1));
    assert_eq!(arithmetic::pow_i_i(0, 0), Ok(1));
    assert_eq!(arithmetic::pow_i_i(2, 62), Ok(1i64 << 62));
    assert_eq!(arithmetic::pow_i_i(-2, 63), Ok(i64::MIN));
    assert_eq!(arithmetic::pow_i_i(1, u32::MAX as i64), Ok(1));
    assert_eq!(arithmetic::pow_i_i(-1, u32::MAX as i64), Ok(-1));
}

#[test]
fn pow_reports_overflow() {
    let e = arithmetic::pow_i_i(2, 63).unwrap_err();
    assert_eq!(e.kind, ErrorKind::Overflow);
    assert_eq!(e.message, "Power overflow: 2 ~ 63");
    assert_eq!(arithmetic::pow_i_i(10, 19).unwrap_err().kind, ErrorKind::Overflow);
}

#[test]
fn pow_rejects_exponents_beyond_u32() {
    let e = arithmetic::pow_i_i(1, u32::MAX as i64 + 1).unwrap_err();
    assert_eq!(e.kind, ErrorKind::ExponentTooLarge);
    assert_eq!(e.message, "Integer raised to too large an index: 1 ~ 4294967296");
    assert_eq!(arithmetic::pow_i_i(0, i64::MAX).unwrap_err().kind, ErrorKind::ExponentTooLarge);
}

#[test]
fn pow_rejects_every_negative_exponent() {
    for x in [i64::MIN, -2, -1, 0, 1, 2, i64::MAX] {
        for y in [-1, -3, i64::MIN] {
            assert_eq!(arithmetic::pow_i_i(x, y).unwrap_err().kind, ErrorKind::NegativeExponent);
        }
    }
}

#[test]
fn unchecked_pow_agrees_with_checked_pow() {
    for x in -9i64..=9 {
        for y in 0i64..=19 {
            if let Ok(z) = arithmetic::pow_i_i(x, y) {
                assert_eq!(arithmetic::pow_i_i_u(x, y), Ok(z));
            }
        }
    }
    assert_eq!(arithmetic::pow_i_i_u(3, 4), Ok(81));
}

#[test]
fn float_power_index_is_bounded_by_i32() {
    assert_eq!(arithmetic::pow_f_i_index(0), Ok(0));
    assert_eq!(arithmetic::pow_f_i_index(-7), Ok(-7));
    assert_eq!(arithmetic::pow_f_i_index(i32::MAX as i64), Ok(i32::MAX));
    assert_eq!(arithmetic::pow_f_i_index(i32::MAX as i64 + 1), Err(ErrorKind::ExponentTooLarge));
    assert_eq!(arithmetic::pow_f_i_index(i64::MAX), Err(ErrorKind::ExponentTooLarge));
    assert_eq!(arithmetic::pow_f_i_index(i32::MIN as i64), Ok(i32::MIN));
    assert_eq!(arithmetic::pow_f_i_index(i32::MIN as i64 - 1), Ok(i32::MAX));
}
