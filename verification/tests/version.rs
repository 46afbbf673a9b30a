//! Version parsing and down-negotiation.

use arigato::raw::{Version, VersionError};

#[test]
fn parse() {
    let v: Version = "9P2000".parse().unwrap();
    assert_eq!(v.id(), "9P2000");
    assert_eq!(v.variant(), None);

    let v: Version = "9P2000.L".parse().unwrap();
    assert_eq!(v.id(), "9P2000");
    assert_eq!(v.variant(), Some("L"));
}

#[test]
fn negotiate_matched() {
    let v: Version = "9P2000".parse().unwrap();
    let v1: Version = "9P2000.L".parse().unwrap();

    assert_eq!(v.try_negotiate(&v).unwrap(), v, "9P2000 + 9P2000 = 9P2000");
    assert_eq!(v.try_negotiate(&v1).unwrap(), v, "9P2000 + 9P2000.L = 9P2000");
    assert!(v1.try_negotiate(&v).is_err(), "9P2000.L + 9P2000 = Error");

    let v2: Version = "9P2001.L".parse().unwrap();
    assert!(v.try_negotiate(&v2).is_err());
    assert!(v1.try_negotiate(&v2).is_err());
    assert!(v2.try_negotiate(&v1).is_err());
    assert!(v2.try_negotiate(&v).is_err());
}

#[test]
fn negotiate_error_kinds() {
    let plain: Version = "9P2000".parse().unwrap();
    let dotl: Version = "9P2000.L".parse().unwrap();
    let newer: Version = "9P2001.L".parse().unwrap();

    assert!(matches!(dotl.try_negotiate(&plain), Err(VersionError::MismatchedVariant)));
    assert!(matches!(plain.try_negotiate(&newer), Err(VersionError::MismatchedId)));
    assert!(matches!(dotl.try_negotiate(&newer), Err(VersionError::MismatchedId)));
}

#[test]
fn variant_with_dots_round_trips() {
    let v: Version = "9P2000.a.b".parse().unwrap();
    assert_eq!(v.id(), "9P2000");
    assert_eq!(v.variant(), Some("a.b"));
    let again: Version = v.text().parse().unwrap();
    assert_eq!(again, v);
    assert_eq!(v.text(), "9P2000.a.b");
}
