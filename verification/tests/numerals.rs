//! The fixed-point decimal reader and writer.

use morse_rs::numeric::{format_milli, parse_milli, parse_wpm, u32_to_string};

#[test]
fn parse_milli_integers_and_fractions() {
    assert_eq!(parse_milli("600"), Some(600_000));
    assert_eq!(parse_milli("0.001"), Some(1));
    assert_eq!(parse_milli("1"), Some(1_000));
    assert_eq!(parse_milli("1.5"), Some(1_500));
    assert_eq!(parse_milli("2.5"), Some(2_500));
    assert_eq!(parse_milli("0.2"), Some(200));
    assert_eq!(parse_milli("1."), Some(1_000));
    assert_eq!(parse_milli("0.1234"), Some(123));
    assert_eq!(parse_milli("007"), Some(7_000));
}

#[test]
fn parse_milli_rejects_bad_numerals() {
    assert_eq!(parse_milli(""), None);
    assert_eq!(parse_milli("."), None);
    assert_eq!(parse_milli(".5"), None);
    assert_eq!(parse_milli("abc"), None);
    assert_eq!(parse_milli("1.2.3"), None);
    assert_eq!(parse_milli("-1"), None);
    assert_eq!(parse_milli("+1"), None);
    assert_eq!(parse_milli("1 2"), None);
    assert_eq!(parse_milli("99999999999999999999"), None);
}

#[test]
fn parse_wpm_digits_only() {
    assert_eq!(parse_wpm("20"), Some(20));
    assert_eq!(parse_wpm("003"), Some(3));
    assert_eq!(parse_wpm("255"), Some(255));
    assert_eq!(parse_wpm("256"), None);
    assert_eq!(parse_wpm("1.5"), None);
    assert_eq!(parse_wpm(""), None);
    assert_eq!(parse_wpm("-4"), None);
}

#[test]
fn decimal_rendering() {
    assert_eq!(u32_to_string(0), "0");
    assert_eq!(u32_to_string(7), "7");
    assert_eq!(u32_to_string(1234), "1234");
    assert_eq!(u32_to_string(4_294_967_295), "4294967295");
}

#[test]
fn format_milli_shortest_form() {
    assert_eq!(format_milli(600_000), "600");
    assert_eq!(format_milli(500), "0.5");
    assert_eq!(format_milli(2_500), "2.5");
    assert_eq!(format_milli(1_000), "1");
    assert_eq!(format_milli(0), "0");
    assert_eq!(format_milli(123), "0.123");
    assert_eq!(format_milli(120), "0.12");
    assert_eq!(format_milli(100), "0.1");
    assert_eq!(format_milli(1_001), "1.001");
    assert_eq!(format_milli(500_500), "500.5");
}

#[test]
fn parse_then_format_round_trip() {
    for s in ["600", "0.5", "2.5", "1", "0.123", "500.5", "0.001"] {
        let v = parse_milli(s).unwrap();
        assert_eq!(format_milli(v), s);
    }
}
