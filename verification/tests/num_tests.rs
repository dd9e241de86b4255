use hutao_installer::num::{parse_dec_u64, u64_to_dec_string, NumParseError};

#[test]
fn renders_decimal_digits() {
    assert_eq!(u64_to_dec_string(0), "0");
    assert_eq!(u64_to_dec_string(7), "7");
    assert_eq!(u64_to_dec_string(42), "42");
    assert_eq!(u64_to_dec_string(1048576), "1048576");
    assert_eq!(u64_to_dec_string(u64::MAX), "18446744073709551615");
}

#[test]
fn parses_decimal_digits() {
    assert_eq!(parse_dec_u64("0"), Ok(0));
    assert_eq!(parse_dec_u64("00042"), Ok(42));
    assert_eq!(parse_dec_u64("18446744073709551615"), Ok(u64::MAX));
}

#[test]
fn parse_rejects_empty_input() {
    assert_eq!(parse_dec_u64(""), Err(NumParseError::Empty));
}

#[test]
fn parse_rejects_non_digits() {
    assert_eq!(parse_dec_u64("1.5"), Err(NumParseError::InvalidDigit));
    assert_eq!(parse_dec_u64("+3"), Err(NumParseError::InvalidDigit));
    assert_eq!(parse_dec_u64(" 3"), Err(NumParseError::InvalidDigit));
    assert_eq!(parse_dec_u64("x"), Err(NumParseError::InvalidDigit));
}

#[test]
fn parse_rejects_values_over_sixty_four_bits() {
    assert_eq!(
        parse_dec_u64("18446744073709551616"),
        Err(NumParseError::Overflow)
    );
    assert_eq!(
        parse_dec_u64("99999999999999999999999"),
        Err(NumParseError::Overflow)
    );
}

#[test]
fn rendering_then_parsing_round_trips() {
    for n in [0u64, 1, 9, 10, 65535, 1 << 52, u64::MAX] {
        assert_eq!(parse_dec_u64(&u64_to_dec_string(n)), Ok(n));
    }
}
