//! Text filters for the packaging templates.
use vstd::prelude::*;
use vstd::string::StrSliceExecFns;

verus! {

/// Whether `c` has the Unicode `White_Space` property.
pub open spec fn is_white(c: char) -> bool {
    ('\u{9}' <= c && c <= '\u{d}') || c == ' ' || c == '\u{85}' || c == '\u{a0}' || c
        == '\u{1680}' || ('\u{2000}' <= c && c <= '\u{200a}') || c == '\u{2028}' || c
        == '\u{2029}' || c == '\u{202f}' || c == '\u{205f}' || c == '\u{3000}'
}

/// `s` without its trailing white space.
pub open spec fn trim_end(s: Seq<char>) -> Seq<char>
    decreases s.len(),
{
    if s.len() > 0 && is_white(s.last()) {
        trim_end(s.drop_last())
    } else {
        s
    }
}

/// `s` without its trailing newlines.
pub open spec fn trim_newlines(s: Seq<char>) -> Seq<char>
    decreases s.len(),
{
    if s.len() > 0 && s.last() == '\n' {
        trim_newlines(s.drop_last())
    } else {
        s
    }
}

/// The continuation line " .\n" that stands for a blank line.
pub open spec fn blank_marker() -> Seq<char> {
    seq![' ', '.', '\n']
}

/// One line of a Debian description: blank lines become " .", others are
/// indented by one space and lose their trailing white space.
pub open spec fn desc_line(line: Seq<char>) -> Seq<char> {
    if trim_end(line).len() == 0 {
        blank_marker()
    } else {
        seq![' '] + trim_end(line) + seq!['\n']
    }
}

/// Reads `s` line by line: the reformatted text of the lines ended by a
/// newline, and the last, unfinished line.
pub open spec fn desc_scan(s: Seq<char>) -> (Seq<char>, Seq<char>)
    decreases s.len(),
{
    if s.len() == 0 {
        (Seq::empty(), Seq::empty())
    } else {
        let (done, cur) = desc_scan(s.drop_last());
        if s.last() == '\n' {
            (done + desc_line(cur), Seq::empty())
        } else {
            (done, cur.push(s.last()))
        }
    }
}

/// The Debian description format of `s`: each line of `s` reformatted by
/// `desc_line` (an empty last line does not count), trailing newlines removed.
pub open spec fn deb_description_spec(s: Seq<char>) -> Seq<char> {
    let (done, cur) = desc_scan(s);
    trim_newlines(
        if cur.len() == 0 {
            done
        } else {
            done + desc_line(cur)
        },
    )
}

/// `s` with each newline replaced by a space.
pub open spec fn strip_newlines_spec(s: Seq<char>) -> Seq<char> {
    s.map_values(|c: char| if c == '\n' { ' ' } else { c })
}

/// Whether `c` has the Unicode `White_Space` property.
pub(crate) fn is_white_exec(c: char) -> (r: bool)
    ensures
        r == is_white(c),
{
    ('\u{9}' <= c && c <= '\u{d}') || c == ' ' || c == '\u{85}' || c == '\u{a0}' || c
        == '\u{1680}' || ('\u{2000}' <= c && c <= '\u{200a}') || c == '\u{2028}' || c
        == '\u{2029}' || c == '\u{202f}' || c == '\u{205f}' || c == '\u{3000}'
}

/// The length of `s` without its trailing white space.
pub(crate) fn trimmed_len(s: &Vec<char>) -> (r: usize)
    ensures
        r <= s@.len(),
        trim_end(s@) == s@.subrange(0, r as int),
{
    let mut k: usize = s.len();
    assert(s@.subrange(0, k as int) =~= s@);
    while k > 0 && is_white_exec(s[k - 1])
        invariant
            k <= s@.len(),
            trim_end(s@) == trim_end(s@.subrange(0, k as int)),
        decreases k,
    {
        assert(s@.subrange(0, k as int).drop_last() =~= s@.subrange(0, k - 1 as int));
        k = k - 1;
    }
    k
}

/// Appends the reformatted `line` to `out`.
fn push_desc_line(out: &mut String, line: &Vec<char>)
    ensures
        final(out)@ == old(out)@ + desc_line(line@),
{
    let k = trimmed_len(line);
    if k == 0 {
        out.push(' ');
        out.push('.');
        out.push('\n');
        assert(final(out)@ =~= old(out)@ + desc_line(line@));
    } else {
        out.push(' ');
        let mut i: usize = 0;
        while i < k
            invariant
                k <= line@.len(),
                i <= k,
                out@ == old(out)@ + seq![' '] + line@.subrange(0, i as int),
            decreases k - i,
        {
            out.push(line[i]);
            i = i + 1;
            assert(line@.subrange(0, i as int) =~= line@.subrange(0, i - 1 as int).push(
                line@[i - 1],
            ));
        }
        out.push('\n');
        assert(final(out)@ =~= old(out)@ + desc_line(line@));
    }
}

/// Removes the trailing newlines of `s`.
fn pop_newlines(s: &mut String)
    ensures
        final(s)@ == trim_newlines(old(s)@),
{
    let mut text: Vec<char> = Vec::new();
    let n = s.as_str().unicode_len();
    let mut i: usize = 0;
    while i < n
        invariant
            n == s@.len(),
            i <= n,
            text@ == s@.subrange(0, i as int),
        decreases n - i,
    {
        text.push(s.as_str().get_char(i));
        i = i + 1;
        assert(text@ =~= s@.subrange(0, i as int));
    }
    let mut k: usize = n;
    assert(s@.subrange(0, k as int) =~= s@);
    while k > 0 && text[k - 1] == '\n'
        invariant
            k <= n,
            n == s@.len(),
            text@ == s@,
            trim_newlines(s@) == trim_newlines(s@.subrange(0, k as int)),
        decreases k,
    {
        assert(s@.subrange(0, k as int).drop_last() =~= s@.subrange(0, k - 1 as int));
        k = k - 1;
    }
    assert(trim_newlines(s@.subrange(0, k as int)) == s@.subrange(0, k as int));
    let mut r = String::new();
    let mut j: usize = 0;
    while j < k
        invariant
            k <= n,
            j <= k,
            n == old(s)@.len(),
            text@ == old(s)@,
            trim_newlines(old(s)@) == old(s)@.subrange(0, k as int),
            r@ == old(s)@.subrange(0, j as int),
        decreases k - j,
    {
        r.push(text[j]);
        j = j + 1;
        assert(r@ =~= old(s)@.subrange(0, j as int));
    }
    assert(r@ == trim_newlines(old(s)@));
    *s = r;
}

/// Reformats `input` as the text of a Debian package description.
pub fn deb_description(input: &str) -> (r: String)
    ensures
        r@ == deb_description_spec(input@),
{
    let mut out = String::new();
    let mut cur: Vec<char> = Vec::new();
    let n = input.unicode_len();
    let mut i: usize = 0;
    while i < n
        invariant
            n == input@.len(),
            i <= n,
            (out@, cur@) == desc_scan(input@.subrange(0, i as int)),
        decreases n - i,
    {
        let c = input.get_char(i);
        assert(input@.subrange(0, i + 1 as int).drop_last() =~= input@.subrange(0, i as int));
        if c == '\n' {
            push_desc_line(&mut out, &cur);
            cur = Vec::new();
            assert(cur@ =~= Seq::<char>::empty());
        } else {
            cur.push(c);
        }
        i = i + 1;
    }
    assert(input@.subrange(0, n as int) =~= input@);
    if cur.len() > 0 {
        push_desc_line(&mut out, &cur);
    }
    pop_newlines(&mut out);
    out
}

/// Joins the lines of `input` with single spaces.
pub fn strip_newlines(input: &str) -> (r: String)
    ensures
        r@ == strip_newlines_spec(input@),
{
    let mut out = String::new();
    let n = input.unicode_len();
    let mut i: usize = 0;
    while i < n
        invariant
            n == input@.len(),
            i <= n,
            out@ == strip_newlines_spec(input@.subrange(0, i as int)),
        decreases n - i,
    {
        let c = input.get_char(i);
        if c == '\n' {
            out.push(' ');
        } else {
            out.push(c);
        }
        i = i + 1;
        assert(out@ =~= strip_newlines_spec(input@.subrange(0, i as int)));
    }
    assert(input@.subrange(0, n as int) =~= input@);
    out
}

/// A text without newlines is its own one-line form.
pub proof fn lemma_single_line_unchanged(s: Seq<char>)
    requires
        forall|i: int| 0 <= i < s.len() ==> s[i] != '\n',
    ensures
        strip_newlines_spec(s) == s,
{
    assert(strip_newlines_spec(s) =~= s);
}

/// `k` blank-line markers in a row.
pub open spec fn markers(k: nat) -> Seq<char>
    decreases k,
{
    if k == 0 {
        Seq::empty()
    } else {
        markers((k - 1) as nat) + blank_marker()
    }
}

/// `k` newlines.
pub open spec fn newlines(k: nat) -> Seq<char> {
    Seq::new(k, |i: int| '\n')
}

proof fn lemma_scan_newlines(k: nat)
    ensures
        desc_scan(newlines(k)) == (markers(k), Seq::<char>::empty()),
    decreases k,
{
    if k > 0 {
        assert(newlines(k).drop_last() =~= newlines((k - 1) as nat));
        lemma_scan_newlines((k - 1) as nat);
        assert(trim_end(Seq::<char>::empty()) == Seq::<char>::empty());
    }
}

/// A text of `k > 0` blank lines becomes `k` blank-line markers, without
/// the last newline.
pub proof fn lemma_blank_lines(k: nat)
    requires
        k > 0,
    ensures
        deb_description_spec(newlines(k)) == markers(k).drop_last(),
{
    lemma_scan_newlines(k);
    let m = markers(k);
    assert(m == markers((k - 1) as nat) + blank_marker());
    assert(m.last() == '\n');
    assert(m.drop_last().last() == '.');
    assert(trim_newlines(m.drop_last()) == m.drop_last());
}

} // verus!
