//! Tests of numeric-token recognition for the size facet, held against the
//! behavior of parsing the same token as an `f64`.

use html_richtext::numtok::is_numeric_token;

#[test]
fn accepts_plain_and_fractional_numbers() {
    assert!(is_numeric_token("0"));
    assert!(is_numeric_token("42"));
    assert!(is_numeric_token("10.5"));
    assert!(is_numeric_token("5."));
    assert!(is_numeric_token(".5"));
    assert!(is_numeric_token("-3.25"));
    assert!(is_numeric_token("+7"));
}

#[test]
fn accepts_exponents() {
    assert!(is_numeric_token("5e3"));
    assert!(is_numeric_token("5E3"));
    assert!(is_numeric_token("2.5e-10"));
    assert!(is_numeric_token("+3.25E+2"));
    assert!(is_numeric_token(".5e1"));
}

#[test]
fn accepts_special_words_in_any_case() {
    assert!(is_numeric_token("inf"));
    assert!(is_numeric_token("Infinity"));
    assert!(is_numeric_token("-INF"));
    assert!(is_numeric_token("NaN"));
    assert!(is_numeric_token("nan"));
}

#[test]
fn rejects_non_numbers() {
    assert!(!is_numeric_token(""));
    assert!(!is_numeric_token("."));
    assert!(!is_numeric_token("-"));
    assert!(!is_numeric_token("abc"));
    assert!(!is_numeric_token("1e"));
    assert!(!is_numeric_token("e5"));
    assert!(!is_numeric_token("1.2.3"));
    assert!(!is_numeric_token("12px"));
    assert!(!is_numeric_token(" 1"));
    assert!(!is_numeric_token("1 "));
    assert!(!is_numeric_token("--1"));
    assert!(!is_numeric_token("infin"));
}

#[test]
fn agrees_with_float_parsing() {
    let tokens = [
        "0", "42", "10.5", "5.", ".5", "-3.25", "+7", "5e3", "2.5e-10", "+3.25E+2", ".5e1",
        "inf", "Infinity", "-INF", "NaN", "", ".", "-", "abc", "1e", "e5", "1.2.3", "12px",
        " 1", "1 ", "--1", "infin", "5.e3", "1e+0", "0x10", "1_000",
    ];
    for t in tokens.iter() {
        assert_eq!(is_numeric_token(t), t.parse::<f64>().is_ok(), "token: {:?}", t);
    }
}
