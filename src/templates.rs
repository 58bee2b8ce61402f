//! The packaging files that are generated, and the error of rendering one.
use vstd::prelude::*;
use vstd::string::StringExecFns;

verus! {

#[verifier::external_type_specification]
#[verifier::external_body]
pub struct ExRenderError(handlebars::RenderError);

/// A file of the `debian/` directory: which template renders it, where it
/// goes below the package root, and its permission bits.
#[derive(Debug)]
pub struct Template {
    pub name: String,
    pub path: String,
    pub mode: u32,
}

/// The names of the generated files, in the order they are written.
pub open spec fn template_names() -> Seq<Seq<char>> {
    seq![
        seq!['c', 'h', 'a', 'n', 'g', 'e', 'l', 'o', 'g'],
        seq!['c', 'o', 'm', 'p', 'a', 't'],
        seq!['c', 'o', 'n', 't', 'r', 'o', 'l'],
        seq!['c', 'o', 'p', 'y', 'r', 'i', 'g', 'h', 't'],
        seq!['r', 'u', 'l', 'e', 's'],
        seq!['w', 'a', 't', 'c', 'h'],
    ]
}

/// The directory the files are written to.
pub open spec fn debian_dir() -> Seq<char> {
    seq!['d', 'e', 'b', 'i', 'a', 'n', '/']
}

/// Permission bits of a generated file: only `rules` is executable.
pub open spec fn mode_of(name: Seq<char>) -> u32 {
    if name == seq!['r', 'u', 'l', 'e', 's'] {
        0o777
    } else {
        0o666
    }
}

/// Whether `t` is the entry for the file called `name`.
pub open spec fn is_template_for(t: Template, name: Seq<char>) -> bool {
    &&& t.name@ == name
    &&& t.path@ == debian_dir() + name
    &&& t.mode == mode_of(name)
}

fn template(name: &str, mode: u32) -> (r: Template)
    requires
        mode == mode_of(name@),
    ensures
        is_template_for(r, name@),
{
    let mut path = "debian/".to_string();
    path.append(name);
    proof {
        reveal_strlit("debian/");
    }
    assert(path@ =~= debian_dir() + name@);
    let mut own = String::new();
    own.append(name);
    assert(own@ =~= name@);
    Template { name: own, path, mode }
}

/// The files to generate, in order.
pub fn templates() -> (r: Vec<Template>)
    ensures
        r@.len() == template_names().len(),
        forall|i: int| 0 <= i < r@.len() ==> is_template_for(#[trigger] r@[i], template_names()[i]),
{
    proof {
        reveal_strlit("changelog");
        reveal_strlit("compat");
        reveal_strlit("control");
        reveal_strlit("copyright");
        reveal_strlit("rules");
        reveal_strlit("watch");
    }
    assert("changelog"@ =~= template_names()[0]);
    assert("compat"@ =~= template_names()[1]);
    assert("control"@ =~= template_names()[2]);
    assert("copyright"@ =~= template_names()[3]);
    assert("rules"@ =~= template_names()[4]);
    assert("watch"@ =~= template_names()[5]);
    assert(template_names()[5][0] != template_names()[4][0]);
    let mut r: Vec<Template> = Vec::new();
    r.push(template("changelog", 0o666));
    r.push(template("compat", 0o666));
    r.push(template("control", 0o666));
    r.push(template("copyright", 0o666));
    r.push(template("rules", 0o777));
    r.push(template("watch", 0o666));
    assert(r@.len() == 6);
    assert(forall|i: int| 0 <= i < 6 ==> is_template_for(#[trigger] r@[i], template_names()[i]));
    r
}

/// A template that failed to render, with the engine's error.
#[derive(Debug)]
pub struct TemplateError {
    pub template: String,
    pub error: handlebars::RenderError,
}

impl TemplateError {
    pub fn new(template: &str, error: handlebars::RenderError) -> (r: TemplateError)
        ensures
            r.template@ == template@,
            r.error == error,
    {
        TemplateError { template: template.to_string(), error }
    }
}

} // verus!
