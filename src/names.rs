//! Debian package names and maintainer identity.
use vstd::prelude::*;
use vstd::string::StrSliceExecFns;

verus! {

/// Characters that may stand in a Debian package name.
pub open spec fn is_pkg_char(c: char) -> bool {
    ('a' <= c && c <= 'z') || ('0' <= c && c <= '9') || c == '.' || c == '+' || c == '-'
}

/// The package-name character that stands for `c`.
pub open spec fn pkg_char(c: char) -> char {
    if is_pkg_char(c) {
        c
    } else if 'A' <= c && c <= 'Z' {
        ((c as u32) + 32) as char
    } else {
        '-'
    }
}

/// The source package name for a crate name: allowed characters kept,
/// ASCII capitals folded to lower case, anything else replaced by `-`.
pub open spec fn normalize(s: Seq<char>) -> Seq<char> {
    s.map_values(|c: char| pkg_char(c))
}

/// The binary package name of a library crate whose source name is `n`.
pub open spec fn binary_name(n: Seq<char>) -> Seq<char> {
    seq!['l', 'i', 'b', 'r', 'u', 's', 't', '-'] + n + seq!['-', 'd', 'e', 'v']
}

/// The Debian name of a crate: the binary package name where `is_lib`.
pub open spec fn deb_pkgname_spec(rust_name: Seq<char>, is_lib: bool) -> Seq<char> {
    if is_lib {
        binary_name(normalize(rust_name))
    } else {
        normalize(rust_name)
    }
}

/// The character for `c` is allowed, and stands for itself.
proof fn lemma_pkg_char_allowed(c: char)
    ensures
        is_pkg_char(pkg_char(c)),
        pkg_char(pkg_char(c)) == pkg_char(c),
{
}

/// A normalized name holds only package-name characters, and normalizing
/// it again leaves it as it is.
pub proof fn lemma_normalize_idempotent(s: Seq<char>)
    ensures
        forall|i: int| 0 <= i < normalize(s).len() ==> #[trigger] is_pkg_char(normalize(s)[i]),
        normalize(normalize(s)) == normalize(s),
{
    assert forall|i: int| 0 <= i < normalize(s).len() implies #[trigger] is_pkg_char(
        normalize(s)[i],
    ) by {
        lemma_pkg_char_allowed(s[i]);
    }
    assert forall|i: int| 0 <= i < s.len() implies #[trigger] normalize(normalize(s))[i]
        == normalize(s)[i] by {
        lemma_pkg_char_allowed(s[i]);
    }
    assert(normalize(normalize(s)) =~= normalize(s));
}

/// The binary package name wraps the source package name once in the
/// `librust-` / `-dev` pair.
pub proof fn lemma_binary_wraps_source(rust_name: Seq<char>)
    ensures
        deb_pkgname_spec(rust_name, true) == seq!['l', 'i', 'b', 'r', 'u', 's', 't', '-']
            + deb_pkgname_spec(rust_name, false) + seq!['-', 'd', 'e', 'v'],
        deb_pkgname_spec(rust_name, true).len() == deb_pkgname_spec(rust_name, false).len() + 12,
{
}

/// The package-name character for `c`.
fn pkg_char_exec(c: char) -> (r: char)
    ensures
        r == pkg_char(c),
{
    if ('a' <= c && c <= 'z') || ('0' <= c && c <= '9') || c == '.' || c == '+' || c == '-' {
        c
    } else if 'A' <= c && c <= 'Z' {
        let b = c as u8;
        assert(b as u32 == c as u32);
        (b + 32) as char
    } else {
        '-'
    }
}

/// Appends `src` to `dst`, one character at a time.
fn append_chars(dst: &mut String, src: &str)
    ensures
        final(dst)@ == old(dst)@ + src@,
{
    let n = src.unicode_len();
    let mut i: usize = 0;
    while i < n
        invariant
            n == src@.len(),
            i <= n,
            dst@ == old(dst)@ + src@.subrange(0, i as int),
        decreases n - i,
    {
        dst.push(src.get_char(i));
        i = i + 1;
        assert(src@.subrange(0, i as int) =~= src@.subrange(0, i - 1 as int).push(src@[i - 1]));
    }
    assert(src@.subrange(0, n as int) =~= src@);
}

/// The Debian package name for a crate name; with `is_lib`, the name of the
/// library's binary package.
pub fn deb_pkgname(rust_name: &str, is_lib: bool) -> (r: String)
    ensures
        r@ == deb_pkgname_spec(rust_name@, is_lib),
{
    let mut name = String::new();
    let n = rust_name.unicode_len();
    let mut i: usize = 0;
    while i < n
        invariant
            n == rust_name@.len(),
            i <= n,
            name@ == normalize(rust_name@.subrange(0, i as int)),
        decreases n - i,
    {
        let c = rust_name.get_char(i);
        name.push(pkg_char_exec(c));
        i = i + 1;
        assert(normalize(rust_name@.subrange(0, i as int)) =~= normalize(
            rust_name@.subrange(0, i - 1 as int),
        ).push(pkg_char(c)));
    }
    assert(rust_name@.subrange(0, n as int) =~= rust_name@);
    if is_lib {
        let mut r = String::new();
        append_chars(&mut r, "librust-");
        append_chars(&mut r, name.as_str());
        append_chars(&mut r, "-dev");
        proof {
            reveal_strlit("librust-");
            reveal_strlit("-dev");
        }
        assert(r@ =~= deb_pkgname_spec(rust_name@, is_lib));
        r
    } else {
        name
    }
}

} // verus!
