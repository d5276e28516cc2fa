use set_version::requirement::is_wildcard;
use set_version::requirement::settle;
use set_version::requirement::upgrade_requirement;
use set_version::requirement::UpgradeError;
use set_version::version::Version;

fn upgraded(version: (u64, u64, u64), requirement: &str) -> Option<String> {
    let version = Version::release(version.0, version.1, version.2);
    upgrade_requirement(requirement, &version).unwrap()
}

#[test]
fn wildcard_is_left_alone() {
    assert_eq!(upgraded((1, 0, 0), "*"), None);
    assert_eq!(upgraded((7, 3, 1), "*"), None);
}

#[test]
fn partial_caret_requirement_keeps_its_form() {
    assert_eq!(upgraded((1, 3, 0), "1.2"), Some("1.3".to_string()));
    assert_eq!(upgraded((1, 3, 0), "^1.2"), Some("^1.3".to_string()));
    assert_eq!(upgraded((2, 0, 0), "1"), Some("2".to_string()));
}

#[test]
fn exact_requirement_is_pinned_to_the_new_version() {
    assert_eq!(upgraded((1, 3, 0), "=1.2.3"), Some("=1.3.0".to_string()));
}

#[test]
fn requirement_that_names_the_new_version_stays() {
    assert_eq!(upgraded((1, 2, 7), "1.2"), None);
    assert_eq!(upgraded((1, 3, 0), "=1.3.0"), None);
    assert_eq!(upgraded((1, 3, 0), "~1.3"), None);
}

#[test]
fn malformed_requirement_is_an_error() {
    let version = Version::release(1, 3, 0);
    match upgrade_requirement("not a requirement", &version) {
        Err(UpgradeError::Malformed { requirement }) => assert_eq!(requirement, "not a requirement"),
        other => panic!("unexpected outcome: {:?}", other),
    }
    assert!(matches!(upgrade_requirement("", &version), Err(UpgradeError::Malformed { .. })));
    assert!(matches!(upgrade_requirement("1.2 1.3", &version), Err(UpgradeError::Malformed { .. })));
    assert!(matches!(upgrade_requirement("*.*", &version), Err(UpgradeError::Malformed { .. })));
}

#[test]
fn comparison_requirement_is_refused() {
    let version = Version::release(1, 3, 0);
    match upgrade_requirement(">=1.2.0", &version) {
        Err(UpgradeError::Unsupported { message }) => {
            assert_eq!(message, "Support for modifying >=1.2.0 is currently unsupported");
        }
        other => panic!("unexpected outcome: {:?}", other),
    }
}

#[test]
fn requirement_is_judged_by_its_text() {
    assert_eq!(upgraded((1, 3, 0), "1.2"), Some("1.3".to_string()));
    assert_eq!(upgraded((1, 2, 0), " 1.2"), Some("1.2".to_string()));
}

#[test]
fn other_wildcards_go_through_the_upgrade() {
    assert_eq!(upgraded((2, 0, 0), "1.*"), Some("2.*".to_string()));
    assert_eq!(upgraded((1, 1, 0), "1.0.*"), Some("1.1.*".to_string()));
    assert_eq!(upgraded((1, 1, 0), "1.*"), None);
    assert_eq!(upgraded((1, 1, 0), " * "), None);
    assert_eq!(upgraded((1, 1, 0), "x"), None);
}

#[test]
fn tilde_requirement_keeps_its_operator() {
    assert_eq!(upgraded((1, 1, 0), "~1.0"), Some("~1.1".to_string()));
    assert_eq!(upgraded((2, 0, 0), "~1.0.0"), Some("~2.0.0".to_string()));
}

#[test]
fn prerelease_is_carried_into_a_full_requirement() {
    let version = Version::new(1, 3, 0, "alpha.1", "").expect("valid");
    assert_eq!(upgrade_requirement("1.2.0", &version).unwrap(), Some("1.3.0-alpha.1".to_string()));
    assert_eq!(upgrade_requirement("1.2", &version).unwrap(), Some("1.3".to_string()));
}

#[test]
fn build_metadata_plays_no_part() {
    let version = Version::new(1, 2, 3, "", "build.7").expect("valid");
    assert_eq!(upgrade_requirement("1.2.3", &version).unwrap(), None);
    assert_eq!(upgrade_requirement("=1.2.0", &version).unwrap(), Some("=1.2.3".to_string()));
}

#[test]
fn wildcard_is_one_star() {
    assert!(is_wildcard("*"));
    assert!(!is_wildcard(""));
    assert!(!is_wildcard("**"));
    assert!(!is_wildcard(" *"));
    assert!(!is_wildcard("x"));
}

#[test]
fn settle_takes_over_changes_and_names_refusals() {
    assert_eq!(settle(Ok(None)).unwrap(), None);
    assert_eq!(settle(Ok(Some("1.3".to_string()))).unwrap(), Some("1.3".to_string()));
    match settle(Err("no".to_string())) {
        Err(UpgradeError::Unsupported { message }) => assert_eq!(message, "no"),
        other => panic!("unexpected outcome: {:?}", other),
    }
}
