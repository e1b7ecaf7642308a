use repliagent::error::ErrorKind;
use repliagent::version::{versions_compatible, BackendRegistry, SemVer, VersionRange};

fn range(a: (u64, u64, u64), b: (u64, u64, u64)) -> VersionRange {
    VersionRange::new(SemVer::new(a.0, a.1, a.2), SemVer::new(b.0, b.1, b.2))
}

#[test]
fn overlapping_ranges_are_refused() {
    let mut reg = BackendRegistry::new();
    reg.register(range((3, 0, 0), (3, 2, 0)), "replica-set-3.0").unwrap();
    let r = reg.register(range((3, 1, 0), (3, 5, 0)), "replica-set-3.1");
    assert!(matches!(r, Err(ErrorKind::ConfigClash(_))));
}

#[test]
fn empty_range_is_refused() {
    let mut reg: BackendRegistry<&str> = BackendRegistry::new();
    let r = reg.register(range((3, 2, 0), (3, 2, 0)), "none");
    assert!(matches!(r, Err(ErrorKind::ConfigOption(_))));
}

#[test]
fn resolver_picks_the_single_matching_range() {
    let mut reg = BackendRegistry::new();
    reg.register(range((3, 0, 0), (3, 2, 0)), "first").unwrap();
    reg.register(range((3, 2, 0), (4, 0, 0)), "second").unwrap();
    let i = reg.resolve(&SemVer::new(3, 1, 4)).unwrap();
    assert_eq!(*reg.backend(i), "first");
    let i = reg.resolve_detected(&"3.1.4".to_string()).unwrap();
    assert_eq!(*reg.backend(i), "first");
    let i = reg.resolve_detected(&"3.2.0".to_string()).unwrap();
    assert_eq!(*reg.backend(i), "second");
}

#[test]
fn unsupported_versions_are_refused() {
    let mut reg = BackendRegistry::new();
    reg.register(range((3, 0, 0), (3, 2, 0)), "first").unwrap();
    assert_eq!(reg.resolve(&SemVer::new(4, 0, 0)), None);
    assert_eq!(
        reg.resolve_detected(&"4.0.1".to_string()),
        Err(ErrorKind::UnsupportedVersion("4.0.1".to_string()))
    );
    assert_eq!(
        reg.resolve_detected(&"3.1.0-rc1".to_string()),
        Err(ErrorKind::UnsupportedVersion("3.1.0-rc1".to_string()))
    );
    assert_eq!(
        reg.resolve_detected(&"not a version".to_string()),
        Err(ErrorKind::UnsupportedVersion("not a version".to_string()))
    );
}

#[test]
fn range_membership_and_overlap() {
    let a = range((3, 0, 0), (3, 2, 0));
    assert!(a.contains(&SemVer::new(3, 0, 0)));
    assert!(!a.contains(&SemVer::new(3, 2, 0)));
    assert!(a.overlaps(&range((3, 1, 9), (9, 0, 0))));
    assert!(!a.overlaps(&range((3, 2, 0), (9, 0, 0))));
}

#[test]
fn agent_version_compatibility() {
    assert!(versions_compatible("1.2.0", "1.9.3"));
    assert!(!versions_compatible("1.2.0", "2.0.0"));
    assert!(versions_compatible("0.1.0", "0.1.7"));
    assert!(!versions_compatible("0.1.0", "0.2.0"));
    assert!(!versions_compatible("junk", "0.2.0"));
}
