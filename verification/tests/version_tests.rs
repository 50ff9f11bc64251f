use vnext::severity::VersionBump;
use vnext::text::parse_type_list;
use vnext::version::{calculate_next_version, parse_version, Version};

#[test]
fn test_parse_version() {
    assert_eq!(parse_version("v1.2.3").unwrap(), Version::new(1, 2, 3));
    assert_eq!(parse_version("1.2.3").unwrap(), Version::new(1, 2, 3));
    assert!(parse_version("invalid").is_err());
}

#[test]
fn test_calculate_next_version() {
    let base = Version::new(1, 2, 3);

    let bump = VersionBump { major: false, minor: false, patch: false };
    assert_eq!(calculate_next_version(&base, &bump), Version::new(1, 2, 3));

    let bump = VersionBump { major: false, minor: false, patch: true };
    assert_eq!(calculate_next_version(&base, &bump), Version::new(1, 2, 4));

    let bump = VersionBump { major: false, minor: true, patch: false };
    assert_eq!(calculate_next_version(&base, &bump), Version::new(1, 3, 0));

    let bump = VersionBump { major: true, minor: false, patch: false };
    assert_eq!(calculate_next_version(&base, &bump), Version::new(2, 0, 0));
}

#[test]
fn test_next_version_is_pure() {
    // The same base and flags give the same version, run after run.
    let base = Version::new(3, 7, 9);
    let bump = VersionBump { major: false, minor: true, patch: true };
    let first = calculate_next_version(&base, &bump);
    let second = calculate_next_version(&base, &bump);
    assert_eq!(first, second);
    assert_eq!(first, Version::new(3, 8, 0));
}

#[test]
fn test_version_text() {
    assert_eq!(Version::new(0, 1, 0).text(), "0.1.0");
    assert_eq!(Version::new(12, 0, 345).text(), "12.0.345");
    assert_eq!(Version::zero().text(), "0.0.0");
}

#[test]
fn test_parse_version_strips_leading_v() {
    // A tag with and without the marker parses to the same version.
    assert_eq!(
        parse_version("v0.10.2").unwrap(),
        parse_version("0.10.2").unwrap()
    );
    // Pre-release and build metadata are dropped from the computed triple.
    assert_eq!(parse_version("v1.2.3-alpha+build5").unwrap(), Version::new(1, 2, 3));
}

#[test]
fn test_parse_type_list() {
    assert_eq!(
        parse_type_list("feat,minor"),
        vec!["feat".to_string(), "minor".to_string()]
    );
    assert_eq!(
        parse_type_list(" chore , noop "),
        vec!["chore".to_string(), "noop".to_string()]
    );
    assert_eq!(parse_type_list("major"), vec!["major".to_string()]);
    assert_eq!(parse_type_list(""), vec!["".to_string()]);
}
