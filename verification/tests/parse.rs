use microbench::parse::parse_i32;
use microbench::parse::ParseError;

#[test]
fn parses_plain_digits() {
    assert_eq!(parse_i32(b"0"), Ok(0));
    assert_eq!(parse_i32(b"123"), Ok(123));
    assert_eq!(parse_i32(b"007"), Ok(7));
}

#[test]
fn parses_signed_numbers() {
    assert_eq!(parse_i32(b"-45"), Ok(-45));
    assert_eq!(parse_i32(b"+7"), Ok(7));
    assert_eq!(parse_i32(b"-0"), Ok(0));
}

#[test]
fn rejects_malformed_text() {
    assert_eq!(parse_i32(b""), Err(ParseError::Invalid));
    assert_eq!(parse_i32(b"-"), Err(ParseError::Invalid));
    assert_eq!(parse_i32(b"+"), Err(ParseError::Invalid));
    assert_eq!(parse_i32(b"12x"), Err(ParseError::Invalid));
    assert_eq!(parse_i32(b"x12"), Err(ParseError::Invalid));
    assert_eq!(parse_i32(b" 12"), Err(ParseError::Invalid));
    assert_eq!(parse_i32(b"--5"), Err(ParseError::Invalid));
    assert_eq!(parse_i32(b"1.5"), Err(ParseError::Invalid));
}

#[test]
fn accepts_the_i32_boundaries() {
    assert_eq!(parse_i32(b"2147483647"), Ok(i32::MAX));
    assert_eq!(parse_i32(b"-2147483648"), Ok(i32::MIN));
}

#[test]
fn rejects_values_outside_i32() {
    assert_eq!(parse_i32(b"2147483648"), Err(ParseError::OutOfRange));
    assert_eq!(parse_i32(b"-2147483649"), Err(ParseError::OutOfRange));
    assert_eq!(parse_i32(b"99999999999999999999"), Err(ParseError::OutOfRange));
    assert_eq!(parse_i32(b"-99999999999999999999"), Err(ParseError::OutOfRange));
}
