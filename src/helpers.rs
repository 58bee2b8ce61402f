//! The `matches` block helper: a regular expression chooses between a
//! block and its alternate.
use vstd::prelude::*;

verus! {

#[verifier::external_type_specification]
#[verifier::external_body]
pub struct ExRegex(regex::Regex);

#[verifier::external_type_specification]
#[verifier::external_body]
pub struct ExRegexError(regex::Error);

/// Whether `pattern` is a regular expression that the `regex` crate accepts.
pub uninterp spec fn regex_compiles(pattern: Seq<char>) -> bool;

/// Whether the regular expression `pattern` matches somewhere in `text`.
pub uninterp spec fn regex_matches(pattern: Seq<char>, text: Seq<char>) -> bool;

/// Relies on `regex::Regex::new`: whether it succeeds depends on the pattern alone.
#[verifier::external_body]
fn compile_regex(pattern: &str) -> (r: Result<regex::Regex, regex::Error>)
    ensures
        r.is_ok() == regex_compiles(pattern@),
{
    regex::Regex::new(pattern)
}

/// A compiled regular expression together with the pattern it was built from.
pub struct Matcher {
    re: regex::Regex,
    pattern: String,
}

impl View for Matcher {
    type V = Seq<char>;

    closed spec fn view(&self) -> Seq<char> {
        self.pattern@
    }
}

/// Relies on `regex::Regex::is_match`: whether the expression compiled from
/// the matcher's pattern matches anywhere in `text`.
#[verifier::external_body]
fn regex_is_match(m: &Matcher, text: &str) -> (r: bool)
    ensures
        r == regex_matches(m@, text@),
{
    m.re.is_match(text)
}

impl Matcher {
    /// Compiles `pattern`.
    pub fn new(pattern: &str) -> (r: Result<Matcher, regex::Error>)
        ensures
            r.is_ok() == regex_compiles(pattern@),
            r matches Ok(m) ==> m@ == pattern@,
    {
        match compile_regex(pattern) {
            Ok(re) => Ok(Matcher { re, pattern: pattern.to_string() }),
            Err(e) => Err(e),
        }
    }

    /// Whether the expression matches somewhere in `text`.
    pub fn is_match(&self, text: &str) -> (r: bool)
        ensures
            r == regex_matches(self@, text@),
    {
        regex_is_match(self, text)
    }
}

/// The block that a helper renders.
#[derive(Clone, Copy, Debug, PartialEq, Eq, Structural)]
pub enum Branch {
    /// The helper's own block.
    Primary,
    /// The `{{else}}` block, or nothing where there is none.
    Alternate,
}

/// Why the `matches` helper could not be applied.
#[derive(Debug)]
pub enum HelperError {
    /// The helper was given no regular expression.
    MissingRegex,
    /// The helper was given no value to test.
    MissingValue,
    /// The regular expression does not compile.
    InvalidRegex(regex::Error),
}

/// The branch chosen for the outcome of a match.
pub open spec fn branch_spec(is_match: bool) -> Branch {
    if is_match {
        Branch::Primary
    } else {
        Branch::Alternate
    }
}

/// The branch chosen for the outcome of a match.
pub fn branch_for(is_match: bool) -> (r: Branch)
    ensures
        r == branch_spec(is_match),
{
    if is_match {
        Branch::Primary
    } else {
        Branch::Alternate
    }
}

/// The `matches` helper: with a regular expression and the rendered value to
/// test, the primary block where the expression matches the value, the
/// alternate one where it does not.
pub fn matches(regex_param: Option<&str>, value_param: Option<&str>) -> (r: Result<
    Branch,
    HelperError,
>)
    ensures
        regex_param is None ==> r matches Err(HelperError::MissingRegex),
        regex_param is Some && value_param is None ==> r matches Err(HelperError::MissingValue),
        regex_param is Some && value_param is Some ==> (r is Ok <==> regex_compiles(
            regex_param->0@,
        )) && (!regex_compiles(regex_param->0@) ==> r matches Err(HelperError::InvalidRegex(_))),
        regex_param is Some && value_param is Some && r is Ok ==> r->Ok_0 == branch_spec(
            regex_matches(regex_param->0@, value_param->0@),
        ),
{
    let p = match regex_param {
        Some(p) => p,
        None => {
            return Err(HelperError::MissingRegex);
        },
    };
    let v = match value_param {
        Some(v) => v,
        None => {
            return Err(HelperError::MissingValue);
        },
    };
    match Matcher::new(p) {
        Ok(m) => Ok(branch_for(m.is_match(v))),
        Err(e) => Err(HelperError::InvalidRegex(e)),
    }
}

/// The block selected by `branch`: the primary block, or the alternate one
/// (empty where there is none).
pub open spec fn block_spec(branch: Branch, primary: Seq<char>, alternate: Option<Seq<char>>) -> Seq<
    char,
> {
    match branch {
        Branch::Primary => primary,
        Branch::Alternate => match alternate {
            Some(a) => a,
            None => Seq::empty(),
        },
    }
}

/// The text that `{{#matches pattern value}}primary{{else}}alternate{{/matches}}`
/// renders to, for literal blocks.
pub fn matches_block(pattern: &str, value: &str, primary: &str, alternate: Option<&str>) -> (r:
    Result<String, HelperError>)
    ensures
        r is Ok <==> regex_compiles(pattern@),
        !regex_compiles(pattern@) ==> r matches Err(HelperError::InvalidRegex(_)),
        r matches Ok(s) ==> s@ == block_spec(
            branch_spec(regex_matches(pattern@, value@)),
            primary@,
            match alternate {
                Some(a) => Some(a@),
                None => None,
            },
        ),
{
    match matches(Some(pattern), Some(value)) {
        Ok(Branch::Primary) => Ok(primary.to_string()),
        Ok(Branch::Alternate) => match alternate {
            Some(a) => Ok(a.to_string()),
            None => Ok(String::new()),
        },
        Err(e) => Err(e),
    }
}

} // verus!
