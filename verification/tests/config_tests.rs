use cosmostrix::config::{ColorBg, RangeError, U16Range};
use std::str::FromStr;

#[test]
fn parses_default_glitch_range() {
    let r = U16Range::from_str("300,400").unwrap();
    assert_eq!((r.low, r.high), (300, 400));
}

#[test]
fn parses_with_white_space_and_plus() {
    let r = U16Range::from_str(" 1 ,\t3000 ").unwrap();
    assert_eq!((r.low, r.high), (1, 3000));
    let r = U16Range::from_str("+5,+5").unwrap();
    assert_eq!((r.low, r.high), (5, 5));
    let r = U16Range::from_str("\u{3000}7,65535\u{a0}").unwrap();
    assert_eq!((r.low, r.high), (7, 65535));
}

#[test]
fn missing_comma() {
    assert_eq!(U16Range::from_str("300").err().unwrap(), "expected: NUM1,NUM2");
    assert_eq!(U16Range::parse("").err().unwrap(), RangeError::MissingComma);
}

#[test]
fn invalid_low() {
    assert_eq!(U16Range::from_str("x,3").err().unwrap(), "invalid low value");
    assert_eq!(U16Range::parse("70000,1").err().unwrap(), RangeError::InvalidLow);
    assert_eq!(U16Range::parse(",1").err().unwrap(), RangeError::InvalidLow);
    assert_eq!(U16Range::parse("-1,1").err().unwrap(), RangeError::InvalidLow);
    assert_eq!(U16Range::parse("+,1").err().unwrap(), RangeError::InvalidLow);
}

#[test]
fn invalid_high() {
    assert_eq!(U16Range::from_str("3,y").err().unwrap(), "invalid high value");
    assert_eq!(U16Range::parse("1,2,3").err().unwrap(), RangeError::InvalidHigh);
    assert_eq!(U16Range::parse("1,65536").err().unwrap(), RangeError::InvalidHigh);
    assert_eq!(U16Range::parse("1,").err().unwrap(), RangeError::InvalidHigh);
}

#[test]
fn empty_or_zero_range() {
    let msg = "range must be >0 and low <= high (min allowed value is 1)";
    assert_eq!(U16Range::from_str("0,5").err().unwrap(), msg);
    assert_eq!(U16Range::from_str("5,0").err().unwrap(), msg);
    assert_eq!(U16Range::from_str("6,5").err().unwrap(), msg);
    assert_eq!(U16Range::parse("0,0").err().unwrap(), RangeError::Empty);
}

#[test]
fn low_errors_come_before_high_errors() {
    assert_eq!(U16Range::parse("a,b").err().unwrap(), RangeError::InvalidLow);
    assert_eq!(U16Range::parse("0,b").err().unwrap(), RangeError::InvalidHigh);
}

#[test]
fn formatted_ranges_read_back() {
    for (low, high) in [(1u16, 1u16), (1, 3000), (300, 400), (9, 10), (65535, 65535)] {
        let r = U16Range::from_str(&format!("{},{}", low, high)).unwrap();
        assert_eq!((r.low, r.high), (low, high));
    }
}

#[test]
fn error_messages() {
    assert_eq!(RangeError::MissingComma.message(), "expected: NUM1,NUM2");
    assert_eq!(RangeError::InvalidLow.message(), "invalid low value");
    assert_eq!(RangeError::InvalidHigh.message(), "invalid high value");
}

#[test]
fn background_modes_are_distinct() {
    assert_ne!(ColorBg::Black, ColorBg::Transparent);
    assert_ne!(ColorBg::Black, ColorBg::DefaultBackground);
}

#[test]
fn from_str_reports_each_refusal_message() {
    assert_eq!(U16Range::from_str("1").err().unwrap(), RangeError::MissingComma.message());
    assert_eq!(U16Range::from_str("q,1").err().unwrap(), RangeError::InvalidLow.message());
    assert_eq!(U16Range::from_str("1,q").err().unwrap(), RangeError::InvalidHigh.message());
    assert_eq!(U16Range::from_str("2,1").err().unwrap(), RangeError::Empty.message());
}
