use std::str::FromStr;

use gir_parser::Version;

#[test]
fn accessors() {
    let version = Version(5, Some(10), None);
    assert_eq!(version.major(), 5);
    assert_eq!(version.minor(), Some(10));
    assert_eq!(version.patch(), None);

    let version = Version(7, None, None);
    assert_eq!(version.major(), 7);
    assert_eq!(version.minor(), None);
    assert_eq!(version.patch(), None);

    let version = Version::new(1, 2, 3);
    assert_eq!(version.major(), 1);
    assert_eq!(version.minor(), Some(2));
    assert_eq!(version.patch(), Some(3));
}

#[test]
fn from_str() {
    // Full version
    let version = Version::from_str("1.2.3").unwrap();
    assert_eq!(version, Version::new(1, 2, 3));

    // Major.minor
    let version = Version::from_str("2.5").unwrap();
    assert_eq!(version, Version(2, Some(5), None));

    // Major only with dot
    let version = Version::from_str("3.").unwrap();
    assert_eq!(version, Version(3, None, None));

    // Major only without dot
    let version = Version::from_str("4").unwrap();
    assert_eq!(version, Version(4, None, None));

    // Four parts (only first three are used)
    let version = Version::from_str("1.2.3.4").unwrap();
    assert_eq!(version, Version::new(1, 2, 3));

    // Invalid parts are ignored
    let version = Version::from_str("5.invalid.7").unwrap();
    assert_eq!(version, Version(5, None, None));

    // Completely invalid input defaults to 0
    let version = Version::from_str("invalid").unwrap();
    assert_eq!(version, Version(0, None, None));

    // Empty string defaults to 0
    let version = Version::from_str("").unwrap();
    assert_eq!(version, Version(0, None, None));

    assert_eq!(Version::new(1, 2, 3).to_string(), "1.2.3");
    assert_eq!(Version(2, Some(5), None).to_string(), "2.5");
    assert_eq!(Version(3, None, None).to_string(), "3");
    assert_eq!(Version(4, None, Some(6)).to_string(), "4.0.6");
}

#[test]
fn eq_str() {
    // Test exact matches
    let version = Version::new(1, 2, 3);
    assert_eq!(version, *"1.2.3");
    assert!(version == *"1.2.3");

    // Test major.minor format
    let version = Version(2, Some(5), None);
    assert_eq!(version, *"2.5");
    assert!(version == *"2.5");

    // Test major only format
    let version = Version(3, None, None);
    assert_eq!(version, *"3");
    assert!(version == *"3");

    // Test non-matching versions
    let version = Version::new(1, 2, 3);
    assert_ne!(version, *"1.2.4");
    assert_ne!(version, *"2.2.3");
    assert_ne!(version, *"1.3.3");

    // Test invalid string comparison
    let version = Version::new(1, 2, 3);
    assert_ne!(version, *"invalid");
    assert_ne!(version, *"");
}

#[test]
fn ordering() {
    // Major version comparison
    assert!(Version(2, None, None) > Version(1, None, None));
    assert!(Version(1, None, None) < Version(2, None, None));

    // Minor version comparison
    assert!(Version(1, Some(5), None) > Version(1, Some(3), None));
    assert!(Version(1, Some(2), None) < Version(1, Some(4), None));

    // Patch version comparison
    assert!(Version::new(1, 2, 5) > Version::new(1, 2, 3));
    assert!(Version::new(1, 2, 1) < Version::new(1, 2, 2));

    // None is less than Some
    assert!(Version(1, None, None) < Version(1, Some(0), None));
    assert!(Version(1, Some(2), None) < Version::new(1, 2, 0));

    // Equality
    assert_eq!(Version::new(1, 2, 3), Version::new(1, 2, 3));
    assert_eq!(Version(5, None, None), Version(5, None, None));
}

#[test]
fn lenient_segments() {
    // A plus sign is accepted, as the unsigned scalar allows it.
    assert_eq!(Version::parse("+7.2"), Version(7, Some(2), None));
    // An overlarge component is treated as absent.
    assert_eq!(Version::parse("70000.2"), Version(0, None, None));
    assert_eq!(Version::parse("1.70000.3"), Version(1, None, None));
    // Whitespace does not parse.
    assert_eq!(Version::parse(" 1.2"), Version(0, None, None));
    // Empty middle segment ends the reading.
    assert_eq!(Version::parse("1..3"), Version(1, None, None));
}

#[test]
fn render_round_trip() {
    // Rendering then reading gives the version back whenever the minor is
    // present wherever the patch is.
    for v in [
        Version(0, None, None),
        Version(3, None, None),
        Version(65535, Some(0), None),
        Version(1, Some(2), Some(3)),
        Version(1, Some(0), Some(0)),
    ] {
        assert_eq!(Version::parse(&v.to_string()), v);
    }
    // The one shape outside the law: an absent minor under a present patch
    // renders the minor as zero, so it reads back with the minor present.
    let v = Version(4, None, Some(6));
    assert_eq!(Version::parse(&v.to_string()), Version(4, Some(0), Some(6)));
}
