use cargo_debian::helpers::matches_block;
use cargo_debian::helpers::Branch;
use cargo_debian::helpers::HelperError;
use cargo_debian::helpers::Matcher;

#[test]
fn test_matches() {
    let r0 = matches_block("ba[rR]", "bar", "yes", Some("no")).expect("r0 render");
    assert_eq!(r0, "yes");

    let r1 = matches_block(r"^a", "bar", "yes", Some("no")).expect("r1 render");
    assert_eq!(r1, "no");

    let r2 = matches_block(r"a", "bar", "yes", None).expect("r2 render");
    assert_eq!(r2, "yes");
}

#[test]
fn matches_selects_primary_branch() {
    assert_eq!(cargo_debian::helpers::matches(Some("ba[rR]"), Some("bar")).unwrap(), Branch::Primary);
    assert_eq!(cargo_debian::helpers::matches(Some("ba[rR]"), Some("baR")).unwrap(), Branch::Primary);
}

#[test]
fn matches_selects_alternate_branch() {
    assert_eq!(cargo_debian::helpers::matches(Some("^a"), Some("bar")).unwrap(), Branch::Alternate);
}

#[test]
fn matches_without_alternate_renders_nothing() {
    assert_eq!(matches_block("^a", "bar", "yes", None).unwrap(), "");
}

#[test]
fn matches_missing_regex() {
    assert!(matches!(cargo_debian::helpers::matches(None, Some("bar")), Err(HelperError::MissingRegex)));
    assert!(matches!(cargo_debian::helpers::matches(None, None), Err(HelperError::MissingRegex)));
}

#[test]
fn matches_missing_value() {
    assert!(matches!(cargo_debian::helpers::matches(Some("a"), None), Err(HelperError::MissingValue)));
}

#[test]
fn matches_invalid_regex() {
    assert!(matches!(cargo_debian::helpers::matches(Some("ba[r"), Some("bar")), Err(HelperError::InvalidRegex(_))));
    assert!(matches!(matches_block("(", "bar", "yes", Some("no")), Err(HelperError::InvalidRegex(_))));
}

#[test]
fn matcher_reports_matches() {
    let m = Matcher::new("^lib").unwrap();
    assert!(m.is_match("librust"));
    assert!(!m.is_match("rustlib"));
    assert!(Matcher::new("[").is_err());
}
