use weather_cli::text::{
    decimal_string, four_digit_string, magnitude, tenths_string, two_digit_string,
};

#[test]
fn decimal_of_small_and_large_numbers() {
    assert_eq!(decimal_string(0), "0");
    assert_eq!(decimal_string(7), "7");
    assert_eq!(decimal_string(10), "10");
    assert_eq!(decimal_string(1013), "1013");
    assert_eq!(decimal_string(u64::MAX), "18446744073709551615");
}

#[test]
fn decimal_agrees_with_the_standard_library() {
    for n in [0u64, 1, 9, 10, 11, 99, 100, 101, 999, 1000, 65535, 1_000_000_007, u64::MAX - 1] {
        assert_eq!(decimal_string(n), n.to_string());
    }
}

#[test]
fn two_digits_pad_with_one_zero() {
    assert_eq!(two_digit_string(0), "00");
    assert_eq!(two_digit_string(5), "05");
    assert_eq!(two_digit_string(10), "10");
    assert_eq!(two_digit_string(59), "59");
    assert_eq!(two_digit_string(123), "123");
}

#[test]
fn four_digits_pad_with_up_to_three_zeros() {
    assert_eq!(four_digit_string(0), "0000");
    assert_eq!(four_digit_string(7), "0007");
    assert_eq!(four_digit_string(42), "0042");
    assert_eq!(four_digit_string(999), "0999");
    assert_eq!(four_digit_string(1000), "1000");
    assert_eq!(four_digit_string(2024), "2024");
    assert_eq!(four_digit_string(12345), "12345");
}

#[test]
fn magnitude_drops_the_sign() {
    assert_eq!(magnitude(0), 0);
    assert_eq!(magnitude(15), 15);
    assert_eq!(magnitude(-15), 15);
    assert_eq!(magnitude(i64::MAX), 9223372036854775807);
    assert_eq!(magnitude(i64::MIN), 9223372036854775808);
}

#[test]
fn tenths_have_one_decimal_place() {
    assert_eq!(tenths_string(0), "0.0");
    assert_eq!(tenths_string(7), "0.7");
    assert_eq!(tenths_string(-7), "-0.7");
    assert_eq!(tenths_string(10), "1.0");
    assert_eq!(tenths_string(215), "21.5");
    assert_eq!(tenths_string(-15), "-1.5");
    assert_eq!(tenths_string(-400), "-40.0");
    assert_eq!(tenths_string(i64::MAX), "922337203685477580.7");
    assert_eq!(tenths_string(i64::MIN), "-922337203685477580.8");
}
