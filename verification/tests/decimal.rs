use ornery_bot::decimal::{decimal_string, signed_decimal_string};

#[test]
fn numbers_are_written_in_decimal() {
    assert_eq!(decimal_string(0), "0");
    assert_eq!(decimal_string(7), "7");
    assert_eq!(decimal_string(10), "10");
    assert_eq!(decimal_string(109), "109");
    assert_eq!(decimal_string(1000), "1000");
    assert_eq!(decimal_string(393248490739859458), "393248490739859458");
    assert_eq!(decimal_string(u64::MAX), "18446744073709551615");
    for number in [1u64, 9, 11, 99, 100, 12345, 9007199254740993] {
        assert_eq!(decimal_string(number), number.to_string());
    }
}

#[test]
fn negative_numbers_are_written_with_a_sign() {
    assert_eq!(signed_decimal_string(0), "0");
    assert_eq!(signed_decimal_string(5), "5");
    assert_eq!(signed_decimal_string(-5), "-5");
    assert_eq!(signed_decimal_string(-50), "-50");
    assert_eq!(signed_decimal_string(i64::MAX), "9223372036854775807");
    assert_eq!(signed_decimal_string(i64::MIN), "-9223372036854775808");
}
