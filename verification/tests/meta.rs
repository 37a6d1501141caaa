use celeste_rs::mods::meta::{Version, VersionParseError};

fn v(major: u16, minor: Option<u16>, patch: Option<u16>) -> Version {
    Version { major, minor, patch }
}

#[test]
fn version_reads_three_parts() {
    assert_eq!(Version::from_str("1.2.3").unwrap(), v(1, Some(2), Some(3)));
    assert_eq!(Version::from_str("10.0").unwrap(), v(10, Some(0), Some(0)));
    assert_eq!(Version::from_str("1.*").unwrap(), v(1, None, Some(0)));
    assert_eq!(Version::from_str("1.*.*").unwrap(), v(1, None, None));
    assert_eq!(Version::from_str("1.2.3.4").unwrap(), v(1, Some(2), Some(3)));
}

#[test]
fn version_errors_name_what_is_wrong() {
    assert!(matches!(Version::from_str("*.1"), Err(VersionParseError::WildcardMajor)));
    assert!(matches!(Version::from_str("1"), Err(VersionParseError::NoMinorVersion)));
    assert!(matches!(Version::from_str("1.x"), Err(VersionParseError::InvalidInt(_))));
    assert!(matches!(Version::from_str("70000.1"), Err(VersionParseError::InvalidInt(_))));
    assert!(matches!(Version::from_str(""), Err(VersionParseError::InvalidInt(_))));
}

#[test]
fn version_matching_follows_wildcards() {
    let installed = v(1, Some(4), Some(2));
    assert!(installed.matches(&v(1, Some(3), None)));
    assert!(installed.matches(&v(1, None, None)));
    assert!(installed.matches(&v(1, Some(4), Some(2))));
    assert!(!installed.matches(&v(1, Some(5), None)));
    assert!(!installed.matches(&v(2, None, None)));
    assert!(!installed.matches(&v(1, Some(4), Some(3))));
    assert!(installed.matches(&v(1, Some(3), Some(5))));
    assert!(v(1, Some(3), Some(0)).matches(&v(1, Some(2), Some(5))));
    assert!(!v(1, Some(3), Some(0)).matches(&v(1, Some(3), Some(1))));
}

#[test]
fn version_text_reads_back() {
    for version in [v(1, Some(2), Some(3)), v(0, None, None), v(65535, None, Some(7))] {
        let text = version.to_string();
        assert_eq!(Version::from_str(&text).unwrap(), version);
    }
    assert_eq!(v(1, None, None).to_string(), "1.*.*");
}

#[test]
fn versions_order_by_major_then_minor_then_patch() {
    assert!(v(1, Some(2), Some(0)) < v(1, Some(10), Some(0)));
    assert!(v(1, None, None) < v(1, Some(0), None));
    assert!(v(2, None, None) > v(1, Some(9), Some(9)));
}
