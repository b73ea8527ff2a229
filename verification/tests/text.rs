use binomial_ci::text::{decimal_string, integer_string};
use binomial_ci::Decimal;

#[test]
fn integers_are_written_without_leading_zeros() {
    assert_eq!(integer_string(0), "0");
    assert_eq!(integer_string(7), "7");
    assert_eq!(integer_string(10), "10");
    assert_eq!(integer_string(1_234_567_890), "1234567890");
    assert_eq!(integer_string(-1), "-1");
    assert_eq!(integer_string(-905), "-905");
    assert_eq!(integer_string(i64::MAX), "9223372036854775807");
    assert_eq!(integer_string(i64::MIN), "-9223372036854775808");
}

#[test]
fn decimals_are_written_with_nine_fractional_digits() {
    assert_eq!(decimal_string(Decimal::Finite(0)), "0.000000000");
    assert_eq!(decimal_string(Decimal::Finite(1)), "0.000000001");
    assert_eq!(decimal_string(Decimal::Finite(400_000_000)), "0.400000000");
    assert_eq!(decimal_string(Decimal::Finite(1_000_000_000)), "1.000000000");
    assert_eq!(decimal_string(Decimal::Finite(12_000_000_345)), "12.000000345");
    assert_eq!(decimal_string(Decimal::Finite(-1)), "-0.000000001");
    assert_eq!(decimal_string(Decimal::Finite(-1_960_000_000)), "-1.960000000");
    assert_eq!(decimal_string(Decimal::Finite(i64::MAX)), "9223372036.854775807");
    assert_eq!(decimal_string(Decimal::Finite(i64::MIN)), "-9223372036.854775808");
}

#[test]
fn the_absence_of_a_number_is_written_as_nan() {
    assert_eq!(decimal_string(Decimal::Nan), "NaN");
}
