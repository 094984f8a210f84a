use promg::text::{is_numeric_value, u64_to_dec};

#[test]
fn accepts_plain_integers() {
    assert!(is_numeric_value("0"));
    assert!(is_numeric_value("1"));
    assert!(is_numeric_value("60"));
    assert!(is_numeric_value("007"));
}

#[test]
fn accepts_signed_numbers() {
    assert!(is_numeric_value("+1"));
    assert!(is_numeric_value("-12.5"));
}

#[test]
fn accepts_fractions() {
    assert!(is_numeric_value("1.5"));
    assert!(is_numeric_value(".5"));
    assert!(is_numeric_value("5."));
    assert!(is_numeric_value("0.0"));
}

#[test]
fn accepts_exponents() {
    assert!(is_numeric_value("1e3"));
    assert!(is_numeric_value("1E3"));
    assert!(is_numeric_value("-2e-3"));
    assert!(is_numeric_value("+1E+10"));
    assert!(is_numeric_value("1.25e-4"));
    assert!(is_numeric_value(".5e2"));
}

#[test]
fn rejects_sentinels() {
    assert!(!is_numeric_value("NaN"));
    assert!(!is_numeric_value("nan"));
    assert!(!is_numeric_value("Inf"));
    assert!(!is_numeric_value("inf"));
    assert!(!is_numeric_value("+Inf"));
    assert!(!is_numeric_value("-Inf"));
    assert!(!is_numeric_value("Infinity"));
}

#[test]
fn rejects_malformed_tokens() {
    assert!(!is_numeric_value(""));
    assert!(!is_numeric_value("-"));
    assert!(!is_numeric_value("+"));
    assert!(!is_numeric_value("."));
    assert!(!is_numeric_value("e5"));
    assert!(!is_numeric_value("1e"));
    assert!(!is_numeric_value("1e+"));
    assert!(!is_numeric_value("1.2.3"));
    assert!(!is_numeric_value("1e2e3"));
    assert!(!is_numeric_value("--1"));
    assert!(!is_numeric_value("1.5e2.5"));
    assert!(!is_numeric_value("abc"));
    assert!(!is_numeric_value(" 1"));
    assert!(!is_numeric_value("1 "));
}

#[test]
fn decimal_rendering_is_exact() {
    assert_eq!(u64_to_dec(0), "0");
    assert_eq!(u64_to_dec(7), "7");
    assert_eq!(u64_to_dec(60), "60");
    assert_eq!(u64_to_dec(1234567890), "1234567890");
    assert_eq!(u64_to_dec(u64::MAX), "18446744073709551615");
}
