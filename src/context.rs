//! The values that the packaging templates are rendered against.
use vstd::prelude::*;
use vstd::string::StrSliceExecFns;

use crate::filters::is_white;
use crate::filters::is_white_exec;
use crate::filters::trim_end;
use crate::filters::trimmed_len;
use crate::names::deb_pkgname;
use crate::names::deb_pkgname_spec;

verus! {

#[verifier::external_type_specification]
#[verifier::external_body]
pub struct ExParseError(time::ParseError);

/// A broken-down time, with the fields of `time::Tm`.
#[derive(Clone, Copy, Debug, PartialEq, Eq, Structural)]
pub struct Timestamp {
    /// Seconds after the minute.
    pub sec: i32,
    /// Minutes after the hour, 0 to 59.
    pub min: i32,
    /// Hours after midnight, 0 to 23.
    pub hour: i32,
    /// Day of the month, 1 to 31.
    pub mday: i32,
    /// Months since January, 0 to 11.
    pub mon: i32,
    /// Years since 1900.
    pub year: i32,
    /// Days since Sunday, 0 to 6.
    pub wday: i32,
    /// Days since January 1, 0 to 365.
    pub yday: i32,
    /// Daylight saving time flag.
    pub isdst: i32,
    /// Offset from UTC in seconds.
    pub utcoff: i32,
    /// Nanoseconds after the second.
    pub nsec: i32,
}

impl Timestamp {
    /// The fields that formatting reads are in range.
    pub open spec fn wf(&self) -> bool {
        &&& 0 <= self.wday <= 6
        &&& 0 <= self.mon <= 11
        &&& self.year <= i32::MAX - 1900
        &&& self.utcoff > i32::MIN
    }
}

/// What `time::strftime("%a, %d %b %Y %T %z", tm)` returns for a time with
/// these fields.
pub uninterp spec fn rfc822_text(
    wday: int,
    mday: int,
    mon: int,
    year: int,
    hour: int,
    min: int,
    sec: int,
    utcoff: int,
) -> Seq<char>;

/// The RFC 822 form of a timestamp.
pub open spec fn rfc822_spec(t: Timestamp) -> Seq<char> {
    rfc822_text(
        t.wday as int,
        t.mday as int,
        t.mon as int,
        t.year as int,
        t.hour as int,
        t.min as int,
        t.sec as int,
        t.utcoff as int,
    )
}

/// Relies on `time::strftime`: the format is valid, so the result is `Ok`,
/// and the conversions in it read only weekday, day, month, year, hour,
/// minute, second and UTC offset.
#[verifier::external_body]
fn strftime_rfc822(t: &Timestamp) -> (r: Result<String, time::ParseError>)
    requires
        t.wf(),
    ensures
        r is Ok,
        r->Ok_0@ == rfc822_text(
            t.wday as int,
            t.mday as int,
            t.mon as int,
            t.year as int,
            t.hour as int,
            t.min as int,
            t.sec as int,
            t.utcoff as int,
        ),
{
    let tm = time::Tm {
        tm_sec: t.sec,
        tm_min: t.min,
        tm_hour: t.hour,
        tm_mday: t.mday,
        tm_mon: t.mon,
        tm_year: t.year,
        tm_wday: t.wday,
        tm_yday: t.yday,
        tm_isdst: t.isdst,
        tm_utcoff: t.utcoff,
        tm_nsec: t.nsec,
    };
    time::strftime("%a, %d %b %Y %T %z", &tm)
}

/// The date of a timestamp as a Debian changelog writes it, such as
/// `Mon, 02 Jan 2006 15:04:05 -0700`.
pub fn rfc822_date(t: &Timestamp) -> (r: String)
    requires
        t.wf(),
    ensures
        r@ == rfc822_spec(*t),
{
    match strftime_rfc822(t) {
        Ok(s) => s,
        Err(_) => {
            assert(false);
            String::new()
        },
    }
}

/// Whether `i` is the position of the first comma in `s`.
pub open spec fn is_first_comma(s: Seq<char>, i: int) -> bool {
    &&& 0 <= i < s.len()
    &&& s[i] == ','
    &&& forall|j: int| 0 <= j < i ==> s[j] != ','
}

/// The part of `s` before its first comma; all of `s` where it has none.
pub open spec fn first_field(s: Seq<char>) -> Seq<char> {
    if exists|i: int| is_first_comma(s, i) {
        s.take(choose|i: int| is_first_comma(s, i))
    } else {
        s
    }
}

/// The maintainer's name from a user's GECOS field: its first
/// comma-separated field.
pub fn maintainer_name(gecos: &str) -> (r: String)
    ensures
        r@ == first_field(gecos@),
{
    let n = gecos.unicode_len();
    let mut r = String::new();
    let mut i: usize = 0;
    while i < n
        invariant
            n == gecos@.len(),
            i <= n,
            r@ == gecos@.take(i as int),
            forall|j: int| 0 <= j < i ==> gecos@[j] != ',',
        decreases n - i,
    {
        let c = gecos.get_char(i);
        if c == ',' {
            proof {
                assert(is_first_comma(gecos@, i as int));
                let k = choose|k: int| is_first_comma(gecos@, k);
                assert(k == i) by {
                    if k < i {
                        assert(gecos@[k] != ',');
                    } else if k > i {
                        assert(gecos@[i as int] != ',');
                    }
                }
            }
            return r;
        }
        r.push(c);
        i = i + 1;
        assert(r@ =~= gecos@.take(i as int));
    }
    assert(gecos@.take(n as int) =~= gecos@);
    r
}

/// The fallback maintainer address.
pub open spec fn default_email() -> Seq<char> {
    seq!['<', 'y', 'o', 'u', '>', '@', 'd', 'e', 'b', 'i', 'a', 'n', '.', 'o', 'r', 'g']
}

/// The maintainer's address: `DEBEMAIL` where it is set, else `EMAIL`, else
/// a placeholder.
pub open spec fn maintainer_email_spec(debemail: Option<Seq<char>>, email: Option<Seq<char>>) -> Seq<
    char,
> {
    match debemail {
        Some(e) => e,
        None => match email {
            Some(e) => e,
            None => default_email(),
        },
    }
}

/// The view of an optional string.
pub open spec fn opt_view(s: Option<String>) -> Option<Seq<char>> {
    match s {
        Some(x) => Some(x@),
        None => None,
    }
}

/// The maintainer's address from the values of `DEBEMAIL` and `EMAIL`.
pub fn maintainer_email(debemail: Option<String>, email: Option<String>) -> (r: String)
    ensures
        r@ == maintainer_email_spec(opt_view(debemail), opt_view(email)),
{
    match debemail {
        Some(e) => e,
        None => match email {
            Some(e) => e,
            None => {
                let s = "<you>@debian.org".to_string();
                proof {
                    reveal_strlit("<you>@debian.org");
                }
                assert(s@ =~= default_email());
                s
            },
        },
    }
}

/// `s` without its leading white space.
pub open spec fn trim_start(s: Seq<char>) -> Seq<char>
    decreases s.len(),
{
    if s.len() > 0 && is_white(s[0]) {
        trim_start(s.drop_first())
    } else {
        s
    }
}

/// `s` without its leading and trailing white space.
pub open spec fn trim(s: Seq<char>) -> Seq<char> {
    trim_start(trim_end(s))
}

/// `s` without its leading and trailing white space.
pub fn trim_text(s: &str) -> (r: String)
    ensures
        r@ == trim(s@),
{
    let n = s.unicode_len();
    let mut v: Vec<char> = Vec::new();
    let mut i: usize = 0;
    while i < n
        invariant
            n == s@.len(),
            i <= n,
            v@ == s@.take(i as int),
        decreases n - i,
    {
        v.push(s.get_char(i));
        i = i + 1;
        assert(v@ =~= s@.take(i as int));
    }
    assert(v@ =~= s@);
    let k = trimmed_len(&v);
    let mut j: usize = 0;
    assert(v@.subrange(0, k as int) =~= v@.subrange(j as int, k as int));
    while j < k && is_white_exec(v[j])
        invariant
            k <= v@.len(),
            j <= k,
            trim(s@) == trim_start(v@.subrange(j as int, k as int)),
        decreases k - j,
    {
        assert(v@.subrange(j as int, k as int).drop_first() =~= v@.subrange(j + 1, k as int));
        j = j + 1;
    }
    let mut r = String::new();
    let mut m: usize = j;
    while m < k
        invariant
            k <= v@.len(),
            j <= m <= k,
            r@ == v@.subrange(j as int, m as int),
        decreases k - m,
    {
        r.push(v[m]);
        m = m + 1;
        assert(r@ =~= v@.subrange(j as int, m as int));
    }
    r
}

/// The kind of a dependency.
#[derive(Clone, Copy, Debug, PartialEq, Eq, Structural)]
pub enum DepKind {
    /// Needed to build and run the crate.
    Normal,
    /// Needed by the crate's build script.
    Build,
    /// Needed by its tests, examples and benchmarks.
    Development,
}

/// The lower-case name of a dependency kind.
pub open spec fn kind_name(k: DepKind) -> Seq<char> {
    match k {
        DepKind::Normal => seq!['n', 'o', 'r', 'm', 'a', 'l'],
        DepKind::Build => seq!['b', 'u', 'i', 'l', 'd'],
        DepKind::Development => seq!['d', 'e', 'v', 'e', 'l', 'o', 'p', 'm', 'e', 'n', 't'],
    }
}

/// The lower-case name of a dependency kind.
pub fn kind_text(k: DepKind) -> (r: String)
    ensures
        r@ == kind_name(k),
{
    match k {
        DepKind::Normal => {
            let s = "normal".to_string();
            proof {
                reveal_strlit("normal");
            }
            assert(s@ =~= kind_name(k));
            s
        },
        DepKind::Build => {
            let s = "build".to_string();
            proof {
                reveal_strlit("build");
            }
            assert(s@ =~= kind_name(k));
            s
        },
        DepKind::Development => {
            let s = "development".to_string();
            proof {
                reveal_strlit("development");
            }
            assert(s@ =~= kind_name(k));
            s
        },
    }
}

/// A dependency as the manifest declares it.
#[derive(Debug)]
pub struct Dependency {
    pub name: String,
    pub version_req: String,
    pub kind: DepKind,
    pub optional: bool,
    /// The target platform it is limited to, if any.
    pub only_for_platform: Option<String>,
}

/// The metadata of a package, as its manifest gives it.
#[derive(Debug)]
pub struct Manifest {
    pub name: String,
    pub version: String,
    pub authors: Vec<String>,
    pub license: Option<String>,
    pub description: Option<String>,
    pub homepage: Option<String>,
    pub repository: Option<String>,
    pub documentation: Option<String>,
    pub license_file: Option<String>,
    pub readme: Option<String>,
    /// In the order of declaration.
    pub dependencies: Vec<Dependency>,
}

/// A dependency as the templates see it.
#[derive(Debug)]
pub struct DependencyRecord {
    pub name: String,
    pub version_req: String,
    pub kind: String,
    pub optional: bool,
    /// Empty where the dependency is not limited to a platform.
    pub only_for_platform: String,
    /// The binary package of the dependency's library.
    pub debpkg: String,
}

/// Whether `r` is the record of dependency `d`.
pub open spec fn is_record_of(r: DependencyRecord, d: Dependency) -> bool {
    &&& r.name@ == d.name@
    &&& r.version_req@ == d.version_req@
    &&& r.kind@ == kind_name(d.kind)
    &&& r.optional == d.optional
    &&& r.only_for_platform@ == match d.only_for_platform {
        Some(p) => p@,
        None => Seq::empty(),
    }
    &&& r.debpkg@ == deb_pkgname_spec(d.name@, true)
}

/// The record of one dependency.
pub fn dependency_record(d: &Dependency) -> (r: DependencyRecord)
    ensures
        is_record_of(r, *d),
{
    let platform = match &d.only_for_platform {
        Some(p) => p.clone(),
        None => String::new(),
    };
    DependencyRecord {
        name: d.name.clone(),
        version_req: d.version_req.clone(),
        kind: kind_text(d.kind),
        optional: d.optional,
        only_for_platform: platform,
        debpkg: deb_pkgname(d.name.as_str(), true),
    }
}

/// The values that the packaging templates are rendered against; each field
/// is named as the templates name it.
#[derive(Debug)]
pub struct DebContext {
    pub rust_name: String,
    pub version: String,
    pub authors: Vec<String>,
    pub license: Option<String>,
    /// Without leading and trailing white space.
    pub description: Option<String>,
    pub homepage: Option<String>,
    pub repository: Option<String>,
    pub documentation: Option<String>,
    pub license_file: Option<String>,
    pub readme: Option<String>,
    pub depends: Vec<DependencyRecord>,
    /// The text of the license file, where it could be read.
    pub license_contents: Option<String>,
    pub rfc822date: String,
    pub deb_srcpkg: String,
    pub deb_binpkg: String,
    pub deb_version: String,
    pub deb_maint: String,
    pub deb_email: String,
}

/// Why no context could be built.
#[derive(Clone, Copy, Debug, PartialEq, Eq, Structural)]
pub enum ContextError {
    /// The invoking user has no entry in the user database, so no
    /// maintainer name is known.
    UnknownUser,
}

/// The views of a list of strings.
pub open spec fn views(v: Seq<String>) -> Seq<Seq<char>> {
    v.map_values(|s: String| s@)
}

/// A copy of a list of strings.
fn copy_strings(v: &Vec<String>) -> (r: Vec<String>)
    ensures
        views(r@) == views(v@),
{
    let mut r: Vec<String> = Vec::new();
    let mut i: usize = 0;
    while i < v.len()
        invariant
            i <= v@.len(),
            r@.len() == i,
            views(r@) == views(v@.take(i as int)),
        decreases v@.len() - i,
    {
        let s = v[i].clone();
        assert(s@ == v@[i as int]@);
        let ghost before = r@;
        r.push(s);
        i = i + 1;
        assert forall|j: int| 0 <= j < i implies #[trigger] views(r@)[j] == views(
            v@.take(i as int),
        )[j] by {
            if j < i - 1 {
                assert(r@[j] == before[j]);
                assert(views(before)[j] == views(v@.take(i - 1 as int))[j]);
            }
        }
        assert(views(r@) =~= views(v@.take(i as int)));
    }
    assert(v@.take(v@.len() as int) =~= v@);
    r
}

/// A copy of an optional string.
fn copy_opt(s: &Option<String>) -> (r: Option<String>)
    ensures
        opt_view(r) == opt_view(*s),
{
    match s {
        Some(x) => Some(x.clone()),
        None => None,
    }
}

/// `version` with the Debian revision `-1` appended.
pub open spec fn deb_version_spec(version: Seq<char>) -> Seq<char> {
    version + seq!['-', '1']
}

/// Whether `c` is the context for these inputs (see `template_context`).
pub open spec fn context_matches(
    c: DebContext,
    m: Manifest,
    timestamp: Timestamp,
    license_contents: Option<String>,
    user: Seq<char>,
    debemail: Option<String>,
    email: Option<String>,
) -> bool {
    &&& c.rust_name@ == m.name@
    &&& c.version@ == m.version@
    &&& views(c.authors@) == views(m.authors@)
    &&& opt_view(c.license) == opt_view(m.license)
    &&& opt_view(c.description) == match m.description {
        Some(d) => Some(trim(d@)),
        None => None,
    }
    &&& opt_view(c.homepage) == opt_view(m.homepage)
    &&& opt_view(c.repository) == opt_view(m.repository)
    &&& opt_view(c.documentation) == opt_view(m.documentation)
    &&& opt_view(c.license_file) == opt_view(m.license_file)
    &&& opt_view(c.readme) == opt_view(m.readme)
    &&& c.depends@.len() == m.dependencies@.len()
    &&& forall|i: int|
        0 <= i < m.dependencies@.len() ==> is_record_of(
            #[trigger] c.depends@[i],
            m.dependencies@[i],
        )
    &&& opt_view(c.license_contents) == if m.license_file is Some {
        opt_view(license_contents)
    } else {
        None
    }
    &&& c.rfc822date@ == rfc822_spec(timestamp)
    &&& c.deb_srcpkg@ == deb_pkgname_spec(m.name@, false)
    &&& c.deb_binpkg@ == deb_pkgname_spec(m.name@, true)
    &&& c.deb_version@ == deb_version_spec(m.version@)
    &&& c.deb_maint@ == first_field(user)
    &&& c.deb_email@ == maintainer_email_spec(opt_view(debemail), opt_view(email))
}

/// Builds the template context for a package.
///
/// `user` is the invoking user's GECOS field, `None` where the user is not
/// in the user database; `license_contents` is the text of the license file,
/// where it could be read; `debemail` and `email` are the values of the
/// `DEBEMAIL` and `EMAIL` variables.
pub fn template_context(
    m: &Manifest,
    timestamp: &Timestamp,
    license_contents: Option<String>,
    user: Option<&str>,
    debemail: Option<String>,
    email: Option<String>,
) -> (r: Result<DebContext, ContextError>)
    requires
        timestamp.wf(),
    ensures
        r is Err <==> user is None,
        r is Err ==> r == Err::<DebContext, ContextError>(ContextError::UnknownUser),
        r matches Ok(c) ==> context_matches(
            c,
            *m,
            *timestamp,
            license_contents,
            user->0@,
            debemail,
            email,
        ),
{
    let gecos = match user {
        Some(g) => g,
        None => {
            return Err(ContextError::UnknownUser);
        },
    };
    let description = match &m.description {
        Some(d) => Some(trim_text(d.as_str())),
        None => None,
    };
    let mut depends: Vec<DependencyRecord> = Vec::new();
    let mut i: usize = 0;
    while i < m.dependencies.len()
        invariant
            i <= m.dependencies@.len(),
            depends@.len() == i,
            forall|j: int| 0 <= j < i ==> is_record_of(#[trigger] depends@[j], m.dependencies@[j]),
        decreases m.dependencies@.len() - i,
    {
        depends.push(dependency_record(&m.dependencies[i]));
        i = i + 1;
    }
    let contents = if m.license_file.is_some() {
        license_contents
    } else {
        None
    };
    let mut deb_version = m.version.clone();
    deb_version.push('-');
    deb_version.push('1');
    assert(deb_version@ =~= deb_version_spec(m.version@));
    let c = DebContext {
        rust_name: m.name.clone(),
        version: m.version.clone(),
        authors: copy_strings(&m.authors),
        license: copy_opt(&m.license),
        description,
        homepage: copy_opt(&m.homepage),
        repository: copy_opt(&m.repository),
        documentation: copy_opt(&m.documentation),
        license_file: copy_opt(&m.license_file),
        readme: copy_opt(&m.readme),
        depends,
        license_contents: contents,
        rfc822date: rfc822_date(timestamp),
        deb_srcpkg: deb_pkgname(m.name.as_str(), false),
        deb_binpkg: deb_pkgname(m.name.as_str(), true),
        deb_version,
        deb_maint: maintainer_name(gecos),
        deb_email: maintainer_email(debemail, email),
    };
    assert(context_matches(c, *m, *timestamp, license_contents, gecos@, debemail, email));
    Ok(c)
}

/// Building the context twice from the same manifest and environment gives
/// the same values, whatever the two timestamps; the date is the same where
/// the timestamps are.
pub proof fn lemma_context_repeatable(
    c1: DebContext,
    c2: DebContext,
    m: Manifest,
    t1: Timestamp,
    t2: Timestamp,
    license_contents: Option<String>,
    user: Seq<char>,
    debemail: Option<String>,
    email: Option<String>,
)
    requires
        context_matches(c1, m, t1, license_contents, user, debemail, email),
        context_matches(c2, m, t2, license_contents, user, debemail, email),
    ensures
        c1.rust_name@ == c2.rust_name@,
        c1.version@ == c2.version@,
        views(c1.authors@) == views(c2.authors@),
        opt_view(c1.license) == opt_view(c2.license),
        opt_view(c1.description) == opt_view(c2.description),
        opt_view(c1.homepage) == opt_view(c2.homepage),
        opt_view(c1.repository) == opt_view(c2.repository),
        opt_view(c1.documentation) == opt_view(c2.documentation),
        opt_view(c1.license_file) == opt_view(c2.license_file),
        opt_view(c1.readme) == opt_view(c2.readme),
        c1.depends@.len() == c2.depends@.len(),
        forall|i: int|
            0 <= i < c1.depends@.len() ==> same_record(#[trigger] c1.depends@[i], c2.depends@[i]),
        opt_view(c1.license_contents) == opt_view(c2.license_contents),
        c1.deb_srcpkg@ == c2.deb_srcpkg@,
        c1.deb_binpkg@ == c2.deb_binpkg@,
        c1.deb_version@ == c2.deb_version@,
        c1.deb_maint@ == c2.deb_maint@,
        c1.deb_email@ == c2.deb_email@,
        t1 == t2 ==> c1.rfc822date@ == c2.rfc822date@,
{
    assert forall|i: int| 0 <= i < c1.depends@.len() implies same_record(
        #[trigger] c1.depends@[i],
        c2.depends@[i],
    ) by {
        assert(is_record_of(c1.depends@[i], m.dependencies@[i]));
        assert(is_record_of(c2.depends@[i], m.dependencies@[i]));
    }
}

/// Whether two dependency records hold the same values.
pub open spec fn same_record(a: DependencyRecord, b: DependencyRecord) -> bool {
    &&& a.name@ == b.name@
    &&& a.version_req@ == b.version_req@
    &&& a.kind@ == b.kind@
    &&& a.optional == b.optional
    &&& a.only_for_platform@ == b.only_for_platform@
    &&& a.debpkg@ == b.debpkg@
}

} // verus!
