//! Debian packaging boilerplate for a Cargo package: the values that the
//! packaging templates are rendered against, and the text filters they use.
use vstd::prelude::*;

pub mod context;
pub mod filters;
pub mod helpers;
pub mod names;
pub mod templates;

verus! {

/// Relies on std's `String::push`, which appends the character at the end.
pub assume_specification[ String::push ](s: &mut String, ch: char)
    ensures
        final(s)@ == old(s)@.push(ch),
;

} // verus!
