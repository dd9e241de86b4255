use hutao_installer::http::{
    build_range_header, parse_content_length, probe_outcome, range_header_value,
    status_acceptable, supports_byte_ranges,
};
use hutao_installer::num::NumParseError;

#[test]
fn ranged_requests_need_partial_content() {
    assert!(status_acceptable(true, 206));
    assert!(!status_acceptable(true, 200));
    assert!(!status_acceptable(true, 416));
}

#[test]
fn plain_requests_need_ok() {
    assert!(status_acceptable(false, 200));
    assert!(!status_acceptable(false, 206));
    assert!(!status_acceptable(false, 404));
}

#[test]
fn range_header_renders_inclusive_bounds() {
    assert_eq!(range_header_value(0, 99), "bytes=0-99");
    assert_eq!(range_header_value(2621440, 5242879), "bytes=2621440-5242879");
    assert_eq!(
        range_header_value(0, u64::MAX),
        format!("bytes=0-{}", u64::MAX)
    );
}

#[test]
fn whole_body_requests_carry_no_range_header() {
    assert_eq!(build_range_header(0, 0), None);
    assert_eq!(build_range_header(0, 100).unwrap(), "bytes=0-99");
    assert_eq!(
        build_range_header(2621440, 2621440).unwrap(),
        "bytes=2621440-5242879"
    );
}

#[test]
fn only_the_bytes_unit_advertises_range_support() {
    assert!(supports_byte_ranges(&Some("bytes".to_string())));
    assert!(!supports_byte_ranges(&Some("none".to_string())));
    assert!(!supports_byte_ranges(&Some("Bytes".to_string())));
    assert!(!supports_byte_ranges(&None));
}

#[test]
fn probe_outcome_reads_headers_and_length() {
    let p = probe_outcome(
        &Some("bytes".to_string()),
        Some(10485760),
        "https://cdn.example.invalid/pkg".to_string(),
    );
    assert!(p.supports_range);
    assert_eq!(p.total_size, 10485760);
    assert_eq!(p.resolved_url, "https://cdn.example.invalid/pkg");

    let p = probe_outcome(&None, None, "u".to_string());
    assert!(!p.supports_range);
    assert_eq!(p.total_size, 0);
}

#[test]
fn content_length_parses_decimal_values() {
    assert_eq!(parse_content_length(&Some("0".to_string())), Ok(0));
    assert_eq!(
        parse_content_length(&Some("10485760".to_string())),
        Ok(10485760)
    );
    assert_eq!(
        parse_content_length(&Some("18446744073709551615".to_string())),
        Ok(u64::MAX)
    );
}

#[test]
fn content_length_rejects_bad_values() {
    assert_eq!(
        parse_content_length(&None),
        Err(NumParseError::Empty)
    );
    assert_eq!(
        parse_content_length(&Some(String::new())),
        Err(NumParseError::Empty)
    );
    assert_eq!(
        parse_content_length(&Some("12a".to_string())),
        Err(NumParseError::InvalidDigit)
    );
    assert_eq!(
        parse_content_length(&Some("-5".to_string())),
        Err(NumParseError::InvalidDigit)
    );
    assert_eq!(
        parse_content_length(&Some("18446744073709551616".to_string())),
        Err(NumParseError::Overflow)
    );
}
