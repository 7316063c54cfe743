use rts_core::text::to_decimal;

#[test]
pub fn zero_is_one_digit() {
    assert_eq!("0", to_decimal(0));
}

#[test]
pub fn positive_numbers_have_no_sign_and_no_leading_zero() {
    assert_eq!("7", to_decimal(7));
    assert_eq!("10", to_decimal(10));
    assert_eq!("1234567890", to_decimal(1234567890));
    assert_eq!("100", to_decimal(100));
}

#[test]
pub fn negative_numbers_start_with_a_minus_sign() {
    assert_eq!("-1", to_decimal(-1));
    assert_eq!("-42", to_decimal(-42));
    assert_eq!("-32768", to_decimal(i16::MIN as i128));
}

#[test]
pub fn the_ends_of_the_range_are_written_in_full() {
    assert_eq!("170141183460469231731687303715884105727", to_decimal(i128::MAX));
    assert_eq!("-170141183460469231731687303715884105728", to_decimal(i128::MIN));
    assert_eq!(u64::MAX.to_string(), to_decimal(u64::MAX as i128));
}

#[test]
pub fn decimal_agrees_with_the_standard_library() {
    let samples: [i128; 9] = [0, 9, 11, 99, 101, -9, -10, -999, 1 << 70];
    for n in samples {
        assert_eq!(n.to_string(), to_decimal(n));
    }
}
