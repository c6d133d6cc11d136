//! Fully-qualified ref names and their display short form.

use vstd::prelude::*;
use crate::text::{chars_of, has_prefix, starts_with, substring};

verus! {

/// The display short form of a full ref name: `refs/heads/`, `refs/tags/` or
/// `refs/remotes/` stripped (the first that applies), anything else verbatim.
pub open spec fn short_name(full: Seq<char>) -> Seq<char> {
    if has_prefix(full, "refs/heads/"@) {
        full.skip("refs/heads/"@.len() as int)
    } else if has_prefix(full, "refs/tags/"@) {
        full.skip("refs/tags/"@.len() as int)
    } else if has_prefix(full, "refs/remotes/"@) {
        full.skip("refs/remotes/"@.len() as int)
    } else {
        full
    }
}

/// A fully-qualified ref name (e.g. `refs/heads/main`).
#[derive(Debug, Clone, PartialEq, Eq)]
pub struct RefName {
    full: String,
}

impl View for RefName {
    type V = Seq<char>;

    closed spec fn view(&self) -> Seq<char> {
        self.full@
    }
}

/// Strips `prefix` from `s` when it begins `s`.
fn strip(s: &Vec<char>, prefix: &str) -> (r: Option<String>)
    ensures
        r is Some <==> has_prefix(s@, prefix@),
        r matches Some(t) ==> t@ == s@.skip(prefix@.len() as int),
{
    let p: Vec<char> = chars_of(prefix);
    if starts_with(s, &p) {
        Some(substring(s, p.len(), s.len()))
    } else {
        None
    }
}

impl RefName {
    /// Wraps a fully-qualified ref name.
    pub fn new(full: String) -> (r: Self)
        ensures
            r@ == full@,
    {
        RefName { full }
    }

    /// The fully-qualified name.
    pub fn full(&self) -> (r: &str)
        ensures
            r@ == self@,
    {
        self.full.as_str()
    }

    /// The display short name (see [`short_name`]).
    pub fn short(&self) -> (r: String)
        ensures
            r@ == short_name(self@),
    {
        let s: Vec<char> = chars_of(self.full.as_str());
        if let Some(t) = strip(&s, "refs/heads/") {
            return t;
        }
        if let Some(t) = strip(&s, "refs/tags/") {
            return t;
        }
        if let Some(t) = strip(&s, "refs/remotes/") {
            return t;
        }
        self.full.clone()
    }
}

} // verus!
