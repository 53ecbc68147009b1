use rock_wire::decimal::{parse_u64, render_u64, DecimalError};

#[test]
fn parses_plain_and_signed_decimals() {
    assert_eq!(parse_u64("0"), Ok(0));
    assert_eq!(parse_u64("42"), Ok(42));
    assert_eq!(parse_u64("+42"), Ok(42));
    assert_eq!(parse_u64("007"), Ok(7));
    assert_eq!(parse_u64("18446744073709551615"), Ok(u64::MAX));
}

#[test]
fn refuses_what_is_no_u64() {
    assert_eq!(parse_u64(""), Err(DecimalError::Empty));
    assert_eq!(parse_u64("+"), Err(DecimalError::InvalidDigit));
    assert_eq!(parse_u64("-1"), Err(DecimalError::InvalidDigit));
    assert_eq!(parse_u64("12a"), Err(DecimalError::InvalidDigit));
    assert_eq!(parse_u64(" 1"), Err(DecimalError::InvalidDigit));
    assert_eq!(parse_u64("1_000"), Err(DecimalError::InvalidDigit));
    assert_eq!(parse_u64("٣"), Err(DecimalError::InvalidDigit));
    assert_eq!(parse_u64("18446744073709551616"), Err(DecimalError::PosOverflow));
    assert_eq!(parse_u64("99999999999999999999x"), Err(DecimalError::PosOverflow));
}

#[test]
fn agrees_with_std_parse() {
    let samples = [
        "", "+", "-", "0", "+0", "00", "1", "+1", "-1", "12a", "a12", " 1", "1 ", "1_0",
        "18446744073709551615", "18446744073709551616", "99999999999999999999x",
        "x99999999999999999999", "+18446744073709551615", "é", "4٢",
    ];
    for s in samples {
        let ours = parse_u64(s);
        let std = s.parse::<u64>();
        match (ours, std) {
            (Ok(a), Ok(b)) => assert_eq!(a, b, "{s:?}"),
            (Err(e), Err(f)) => assert_eq!(e.message(), f.to_string(), "{s:?}"),
            (a, b) => panic!("{s:?}: {a:?} against {b:?}"),
        }
    }
}

#[test]
fn error_messages() {
    assert_eq!(DecimalError::Empty.message(), "cannot parse integer from empty string");
    assert_eq!(DecimalError::InvalidDigit.message(), "invalid digit found in string");
    assert_eq!(DecimalError::PosOverflow.message(), "number too large to fit in target type");
}

#[test]
fn renders_decimal_without_leading_zeros() {
    assert_eq!(render_u64(0), "0");
    assert_eq!(render_u64(7), "7");
    assert_eq!(render_u64(10), "10");
    assert_eq!(render_u64(1234), "1234");
    assert_eq!(render_u64(u64::MAX), "18446744073709551615");
    for n in [0u64, 9, 10, 99, 100, 65_535, 4_294_967_296, u64::MAX - 1] {
        assert_eq!(render_u64(n), n.to_string());
    }
}

#[test]
fn parse_undoes_render() {
    for n in [0u64, 1, 9, 10, 11, 1_000_000, 123_456_789_012, u64::MAX] {
        assert_eq!(parse_u64(&render_u64(n)), Ok(n));
    }
}
