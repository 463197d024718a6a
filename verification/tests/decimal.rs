use spp::decimal::{digit_str, push_decimal, push_hundredths};

fn decimal_of(n: u128) -> String {
    let mut out = String::new();
    push_decimal(&mut out, n);
    out
}

fn hundredths_of(h: u128) -> String {
    let mut out = String::new();
    push_hundredths(&mut out, h);
    out
}

#[test]
fn each_digit_has_its_character() {
    let expected = ["0", "1", "2", "3", "4", "5", "6", "7", "8", "9"];
    for d in 0u8..10 {
        assert_eq!(digit_str(d), expected[d as usize]);
    }
}

#[test]
fn zero_is_written_as_one_digit() {
    assert_eq!(decimal_of(0), "0");
}

#[test]
fn decimal_notation_has_no_leading_zero() {
    assert_eq!(decimal_of(7), "7");
    assert_eq!(decimal_of(10), "10");
    assert_eq!(decimal_of(109), "109");
    assert_eq!(decimal_of(12345), "12345");
    assert_eq!(decimal_of(1_000_000), "1000000");
}

#[test]
fn decimal_notation_of_the_largest_number() {
    assert_eq!(decimal_of(u128::MAX), "340282366920938463463374607431768211455");
    assert_eq!(decimal_of(u64::MAX as u128), "18446744073709551615");
}

#[test]
fn decimal_notation_agrees_with_std() {
    for n in [1u128, 9, 11, 99, 100, 101, 999, 1000, 65535, 4294967296] {
        assert_eq!(decimal_of(n), n.to_string());
    }
}

#[test]
fn decimal_is_appended_to_what_is_there() {
    let mut out = String::from("step ");
    push_decimal(&mut out, 42);
    assert_eq!(out, "step 42");
}

#[test]
fn hundredths_always_show_two_fractional_digits() {
    assert_eq!(hundredths_of(0), "0.00");
    assert_eq!(hundredths_of(5), "0.05");
    assert_eq!(hundredths_of(50), "0.50");
    assert_eq!(hundredths_of(99), "0.99");
    assert_eq!(hundredths_of(100), "1.00");
    assert_eq!(hundredths_of(3333), "33.33");
    assert_eq!(hundredths_of(10000), "100.00");
    assert_eq!(hundredths_of(123456), "1234.56");
}

#[test]
fn hundredths_are_appended_to_what_is_there() {
    let mut out = String::from("ETA ");
    push_hundredths(&mut out, 207);
    assert_eq!(out, "ETA 2.07");
}
