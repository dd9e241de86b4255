use hutao_installer::version::{Version, VersionParseError};

#[test]
fn new_sets_all_parts() {
    let v = Version::new(1, 2, 3, 4);
    assert_eq!(v.major, 1);
    assert_eq!(v.minor, 2);
    assert_eq!(v.build, 3);
    assert_eq!(v.revision, 4);
}

#[test]
fn parses_one_to_four_parts() {
    assert_eq!(Version::from_string("7"), Ok(Version::new(7, 0, 0, 0)));
    assert_eq!(Version::from_string("1.2"), Ok(Version::new(1, 2, 0, 0)));
    assert_eq!(Version::from_string("1.2.3"), Ok(Version::new(1, 2, 3, 0)));
    assert_eq!(
        Version::from_string("10.0.19045.5371"),
        Ok(Version::new(10, 0, 19045, 5371))
    );
}

#[test]
fn rejects_more_than_four_parts() {
    assert_eq!(
        Version::from_string("1.2.3.4.5"),
        Err(VersionParseError::TooManyParts)
    );
}

#[test]
fn rejects_empty_and_malformed_parts() {
    assert!(Version::from_string("").is_err());
    assert!(Version::from_string("1..2").is_err());
    assert!(Version::from_string("1.2.").is_err());
    assert!(Version::from_string(".1").is_err());
    assert!(Version::from_string("a.b").is_err());
    assert!(Version::from_string("1.2x").is_err());
}

#[test]
fn rejects_parts_over_sixty_four_bits() {
    assert!(Version::from_string("18446744073709551616").is_err());
    assert_eq!(
        Version::from_string("18446744073709551615"),
        Ok(Version::new(u64::MAX, 0, 0, 0))
    );
}

#[test]
fn orders_lexicographically() {
    assert!(Version::new(1, 0, 0, 0) < Version::new(2, 0, 0, 0));
    assert!(Version::new(1, 39, 0, 0) > Version::new(1, 38, 99, 99));
    assert!(Version::new(10, 0, 19045, 5371) > Version::new(10, 0, 19045, 0));
    assert!(Version::new(1, 2, 3, 4) == Version::new(1, 2, 3, 4));
    assert!(Version::new(1, 2, 3, 4) >= Version::new(1, 2, 3, 4));
    assert!(Version::new(9, 9, 9, 9) < Version::new(10, 0, 0, 0));
}

#[test]
fn renders_three_parts_when_revision_is_zero() {
    assert_eq!(Version::new(1, 2, 3, 0).to_version_string(), "1.2.3");
    assert_eq!(Version::new(0, 0, 0, 0).to_version_string(), "0.0.0");
}

#[test]
fn renders_four_parts_when_revision_is_set() {
    assert_eq!(Version::new(1, 2, 3, 4).to_version_string(), "1.2.3.4");
    assert_eq!(
        Version::new(10, 0, 19045, 5371).to_version_string(),
        "10.0.19045.5371"
    );
}

#[test]
fn parsing_then_rendering_round_trips() {
    for s in ["1.2.3", "10.0.19045.5371", "0.0.0"] {
        let v = Version::from_string(s).unwrap();
        assert_eq!(v.to_version_string(), s);
    }
}
