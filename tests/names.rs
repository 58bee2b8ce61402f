use cargo_debian::names::deb_pkgname;

#[test]
fn normalize_folds_and_replaces() {
    assert_eq!(deb_pkgname("MyCrate_2", false), "mycrate-2");
}

#[test]
fn normalize_keeps_allowed_characters() {
    assert_eq!(deb_pkgname("a.b+c-d09", false), "a.b+c-d09");
}

#[test]
fn normalize_replaces_non_ascii() {
    assert_eq!(deb_pkgname("caf\u{e9} x", false), "caf--x");
}

#[test]
fn normalize_is_idempotent() {
    let once = deb_pkgname("Some_Weird Name!", false);
    assert_eq!(once, "some-weird-name-");
    assert_eq!(deb_pkgname(&once, false), once);
}

#[test]
fn binary_name_wraps_once() {
    assert_eq!(deb_pkgname("foo", true), "librust-foo-dev");
    assert_eq!(deb_pkgname("Foo_Bar", true), "librust-foo-bar-dev");
    let src = deb_pkgname("Foo_Bar", false);
    assert_eq!(deb_pkgname(&src, true), "librust-foo-bar-dev");
}

#[test]
fn empty_name() {
    assert_eq!(deb_pkgname("", false), "");
    assert_eq!(deb_pkgname("", true), "librust--dev");
}
