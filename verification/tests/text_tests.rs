use gh_activity::text::{capitalize_first_letter, decimal_string};

#[test]
fn capitalizes_lowercase_word() {
    assert_eq!(capitalize_first_letter("opened"), "Opened");
}

#[test]
fn capitalize_keeps_capital() {
    assert_eq!(capitalize_first_letter("Closed"), "Closed");
}

#[test]
fn capitalize_empty_is_empty() {
    assert_eq!(capitalize_first_letter(""), "");
}

#[test]
fn capitalize_single_character() {
    assert_eq!(capitalize_first_letter("x"), "X");
}

#[test]
fn capitalize_touches_only_first_character() {
    assert_eq!(capitalize_first_letter("reopened issue"), "Reopened issue");
}

#[test]
fn capitalize_expanding_mapping() {
    // The sharp s upper-cases to the two characters "SS".
    assert_eq!(capitalize_first_letter("\u{df}eta"), "SSeta");
}

#[test]
fn decimal_zero() {
    assert_eq!(decimal_string(0), "0");
}

#[test]
fn decimal_single_digit() {
    assert_eq!(decimal_string(3), "3");
}

#[test]
fn decimal_two_digits() {
    assert_eq!(decimal_string(10), "10");
}

#[test]
fn decimal_many_digits() {
    assert_eq!(decimal_string(90210), "90210");
}

#[test]
fn decimal_largest_value() {
    assert_eq!(decimal_string(usize::MAX), usize::MAX.to_string());
}
