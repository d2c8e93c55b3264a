use semantic_index::decimal::{push_decimal, push_digits, to_decimal};

#[test]
fn zero_is_one_digit() {
    assert_eq!(to_decimal(0), "0");
}

#[test]
fn small_and_large_numbers() {
    assert_eq!(to_decimal(7), "7");
    assert_eq!(to_decimal(10), "10");
    assert_eq!(to_decimal(768), "768");
    assert_eq!(to_decimal(1_000_000), "1000000");
    assert_eq!(to_decimal(i64::MAX), "9223372036854775807");
}

#[test]
fn negative_numbers_have_a_sign() {
    assert_eq!(to_decimal(-1), "-1");
    assert_eq!(to_decimal(-120), "-120");
    assert_eq!(to_decimal(i64::MIN), "-9223372036854775808");
}

#[test]
fn digits_are_appended_to_what_is_there() {
    let mut text = String::from("dim=");
    push_digits(&mut text, 784);
    assert_eq!(text, "dim=784");
    push_decimal(&mut text, -5);
    assert_eq!(text, "dim=784-5");
    push_digits(&mut text, u64::MAX);
    assert_eq!(text, "dim=784-518446744073709551615");
}

#[test]
fn decimal_agrees_with_the_standard_formatter() {
    for n in [-100_000i64, -99, -10, -9, 0, 9, 10, 99, 100, 101, 4096, 65_535, 123_456_789] {
        assert_eq!(to_decimal(n), format!("{}", n));
    }
}
