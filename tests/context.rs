use cargo_debian::context::kind_text;
use cargo_debian::context::maintainer_email;
use cargo_debian::context::maintainer_name;
use cargo_debian::context::rfc822_date;
use cargo_debian::context::template_context;
use cargo_debian::context::trim_text;
use cargo_debian::context::ContextError;
use cargo_debian::context::DepKind;
use cargo_debian::context::Dependency;
use cargo_debian::context::Manifest;
use cargo_debian::context::Timestamp;
use cargo_debian::templates::templates;

fn sample_time() -> Timestamp {
    Timestamp {
        sec: 5,
        min: 4,
        hour: 15,
        mday: 2,
        mon: 0,
        year: 106,
        wday: 1,
        yday: 1,
        isdst: 0,
        utcoff: -25200,
        nsec: 0,
    }
}

fn foo_bar() -> Manifest {
    Manifest {
        name: "Foo-Bar".to_string(),
        version: "1.2.3".to_string(),
        authors: vec!["A <a@example.org>".to_string(), "B".to_string()],
        license: Some("MIT".to_string()),
        description: Some("  A thing.\n".to_string()),
        homepage: None,
        repository: Some("https://example.org/foo".to_string()),
        documentation: None,
        license_file: None,
        readme: None,
        dependencies: vec![Dependency {
            name: "baz".to_string(),
            version_req: "^1".to_string(),
            kind: DepKind::Normal,
            optional: false,
            only_for_platform: None,
        }],
    }
}

#[test]
fn date_in_rfc822_form() {
    assert_eq!(rfc822_date(&sample_time()), "Mon, 02 Jan 2006 15:04:05 -0700");
}

#[test]
fn date_with_positive_offset() {
    let mut t = sample_time();
    t.utcoff = 3600 + 1800;
    t.wday = 6;
    t.mon = 11;
    t.mday = 31;
    assert_eq!(rfc822_date(&t), "Sat, 31 Dec 2006 15:04:05 +0130");
}

#[test]
fn maintainer_name_first_field() {
    assert_eq!(maintainer_name("Jane Doe,Room 1,555,"), "Jane Doe");
    assert_eq!(maintainer_name("Jane Doe"), "Jane Doe");
    assert_eq!(maintainer_name(",x"), "");
    assert_eq!(maintainer_name(""), "");
}

#[test]
fn maintainer_email_preference() {
    assert_eq!(
        maintainer_email(Some("d@x.org".to_string()), Some("e@x.org".to_string())),
        "d@x.org"
    );
    assert_eq!(maintainer_email(None, Some("e@x.org".to_string())), "e@x.org");
    assert_eq!(maintainer_email(None, None), "<you>@debian.org");
}

#[test]
fn trim_both_ends() {
    assert_eq!(trim_text(" \t a b \n"), "a b");
    assert_eq!(trim_text("   "), "");
}

#[test]
fn dependency_kinds() {
    assert_eq!(kind_text(DepKind::Normal), "normal");
    assert_eq!(kind_text(DepKind::Build), "build");
    assert_eq!(kind_text(DepKind::Development), "development");
}

#[test]
fn context_end_to_end() {
    let c = template_context(&foo_bar(), &sample_time(), None, Some("Jane Doe,,,"), None, None)
        .unwrap();
    assert_eq!(c.rust_name, "Foo-Bar");
    assert_eq!(c.version, "1.2.3");
    assert_eq!(c.deb_srcpkg, "foo-bar");
    assert_eq!(c.deb_binpkg, "librust-foo-bar-dev");
    assert_eq!(c.deb_version, "1.2.3-1");
    assert_eq!(c.depends.len(), 1);
    assert_eq!(c.depends[0].name, "baz");
    assert_eq!(c.depends[0].version_req, "^1");
    assert_eq!(c.depends[0].kind, "normal");
    assert!(!c.depends[0].optional);
    assert_eq!(c.depends[0].only_for_platform, "");
    assert_eq!(c.depends[0].debpkg, "librust-baz-dev");
    assert_eq!(format!("{} ({})", c.depends[0].debpkg, c.depends[0].version_req), "librust-baz-dev (^1)");
    assert_eq!(c.description, Some("A thing.".to_string()));
    assert_eq!(c.authors, vec!["A <a@example.org>".to_string(), "B".to_string()]);
    assert_eq!(c.license, Some("MIT".to_string()));
    assert_eq!(c.homepage, None);
    assert_eq!(c.rfc822date, "Mon, 02 Jan 2006 15:04:05 -0700");
    assert_eq!(c.deb_maint, "Jane Doe");
    assert_eq!(c.deb_email, "<you>@debian.org");
    assert_eq!(c.license_contents, None);
}

#[test]
fn context_license_contents_needs_license_file() {
    let text = Some("MIT License".to_string());
    let c = template_context(&foo_bar(), &sample_time(), text.clone(), Some("J"), None, None).unwrap();
    assert_eq!(c.license_contents, None);
    let mut m = foo_bar();
    m.license_file = Some("LICENSE".to_string());
    let c = template_context(&m, &sample_time(), text, Some("J"), None, None).unwrap();
    assert_eq!(c.license_contents, Some("MIT License".to_string()));
    assert_eq!(c.license_file, Some("LICENSE".to_string()));
}

#[test]
fn context_unknown_user() {
    let r = template_context(&foo_bar(), &sample_time(), None, None, None, None);
    assert!(matches!(r, Err(ContextError::UnknownUser)));
}

#[test]
fn context_repeatable() {
    let a = template_context(&foo_bar(), &sample_time(), None, Some("J"), Some("x@y".to_string()), None)
        .unwrap();
    let b = template_context(&foo_bar(), &sample_time(), None, Some("J"), Some("x@y".to_string()), None)
        .unwrap();
    assert_eq!(format!("{:?}", a), format!("{:?}", b));
}

#[test]
fn template_table() {
    let t = templates();
    let got: Vec<(String, String, u32)> =
        t.iter().map(|t| (t.name.clone(), t.path.clone(), t.mode)).collect();
    assert_eq!(
        got,
        vec![
            ("changelog".to_string(), "debian/changelog".to_string(), 0o666),
            ("compat".to_string(), "debian/compat".to_string(), 0o666),
            ("control".to_string(), "debian/control".to_string(), 0o666),
            ("copyright".to_string(), "debian/copyright".to_string(), 0o666),
            ("rules".to_string(), "debian/rules".to_string(), 0o777),
            ("watch".to_string(), "debian/watch".to_string(), 0o666),
        ]
    );
}
