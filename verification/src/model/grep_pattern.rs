//! The file-content search pattern (gitweb's `git grep` facet): a literal,
//! matched case-sensitively (`-F`), or an extended regular expression matched
//! case-insensitively (`-E -i`). git does the matching; the pattern is
//! validated here, so a malformed expression is gitweb's 400.

use vstd::prelude::*;

use crate::error::{DomainError, ErrorView};
use crate::model::search_pattern::{invalid_message, invalid_pattern, regex_compiles, regexp_accepted};

verus! {

/// A validated grep pattern.
#[derive(Debug, Clone, PartialEq, Eq)]
pub struct GrepPattern {
    raw: String,
    use_regexp: bool,
}

impl GrepPattern {
    /// The pattern text.
    pub closed spec fn spec_raw(&self) -> Seq<char> {
        self.raw@
    }

    /// Whether it is a regular expression.
    pub closed spec fn spec_use_regexp(&self) -> bool {
        self.use_regexp
    }

    /// Validates `text` as a literal or, with `use_regexp`, an expression:
    /// invalid exactly when an expression is not accepted.
    pub fn new(text: &str, use_regexp: bool) -> (r: Result<GrepPattern, DomainError>)
        ensures
            r is Ok <==> (!use_regexp || regex_compiles(text@)),
            r matches Ok(p) ==> p.spec_raw() == text@ && p.spec_use_regexp() == use_regexp,
            r matches Err(e) ==> e@ == ErrorView::Invalid(invalid_message(text@)),
    {
        if use_regexp && !regexp_accepted(text) {
            return Err(invalid_pattern(text));
        }
        Ok(GrepPattern { raw: text.to_owned(), use_regexp })
    }

    /// The pattern as typed.
    pub fn raw(&self) -> (r: &str)
        ensures
            r@ == self.spec_raw(),
    {
        self.raw.as_str()
    }

    /// Whether the pattern is a regular expression (`-E -i`) rather than a
    /// literal (`-F`).
    pub fn use_regexp(&self) -> (r: bool)
        ensures
            r == self.spec_use_regexp(),
    {
        self.use_regexp
    }
}

} // verus!
