//! The commit-search pattern: gitweb's `search_use_regexp` toggle.
//!
//! gitweb's `commit` / `author` / `committer` search hands git either
//! `--fixed-strings` (the default) or `--extended-regexp`, always together with
//! `--regexp-ignore-case`. A fixed pattern is therefore compiled as its escaped
//! form, so metacharacters match literally, and a regexp pattern as written;
//! both case-insensitively, with the `regex` crate. An ill-formed expression is
//! gitweb's 400 "Invalid search regexp".

use vstd::prelude::*;
use vstd::string::StringSliceAdditionalSpecFns;
use vstd::utf8::is_char_boundary;

use crate::error::{DomainError, ErrorView};
use crate::text::{chars_of, push_str, string_of};

verus! {

/// The `regex` crate's compiled expression, opaque here.
#[verifier::external_type_specification]
#[verifier::external_body]
pub struct ExRegex(regex::Regex);

/// The `regex` crate's compile error, opaque here.
#[verifier::external_type_specification]
#[verifier::external_body]
pub struct ExRegexError(regex::Error);

/// A character that has a meaning in the `regex` syntax and must be escaped
/// to stand for itself.
pub open spec fn is_meta(c: char) -> bool {
    ||| c == '\\' || c == '.' || c == '+' || c == '*' || c == '?'
    ||| c == '(' || c == ')' || c == '|' || c == '[' || c == ']'
    ||| c == '{' || c == '}' || c == '^' || c == '$' || c == '#'
    ||| c == '&' || c == '-' || c == '~'
}

/// `s` with a backslash before every metacharacter.
pub open spec fn escaped(s: Seq<char>) -> Seq<char>
    decreases s.len(),
{
    if s.len() == 0 {
        seq![]
    } else if is_meta(s.last()) {
        escaped(s.drop_last()) + seq!['\\', s.last()]
    } else {
        escaped(s.drop_last()).push(s.last())
    }
}

/// The expression a search compiles: the pattern itself in regexp mode, its
/// escaped form otherwise.
pub open spec fn search_source(pattern: Seq<char>, use_regexp: bool) -> Seq<char> {
    if use_regexp {
        pattern
    } else {
        escaped(pattern)
    }
}

/// Whether the `regex` crate accepts `source` as a case-insensitive
/// expression (a well-formed expression within the crate's default size
/// limits).
pub uninterp spec fn regex_compiles(source: Seq<char>) -> bool;

/// The message of the error for an ill-formed search expression.
pub open spec fn invalid_message(pattern: Seq<char>) -> Seq<char> {
    "search regexp '"@ + pattern + "'"@
}

/// Whether `c` is a metacharacter (see [`is_meta`]).
fn meta_char(c: char) -> (r: bool)
    ensures
        r == is_meta(c),
{
    c == '\\' || c == '.' || c == '+' || c == '*' || c == '?' || c == '(' || c == ')' || c == '|'
        || c == '[' || c == ']' || c == '{' || c == '}' || c == '^' || c == '$' || c == '#'
        || c == '&' || c == '-' || c == '~'
}

/// `text` with a backslash before every metacharacter, so that it matches
/// itself literally — what `regex::escape` does.
pub fn escape_text(text: &str) -> (r: String)
    ensures
        r@ == escaped(text@),
{
    let chars: Vec<char> = chars_of(text);
    let mut out: Vec<char> = Vec::new();
    let mut i: usize = 0;
    while i < chars.len()
        invariant
            0 <= i <= chars.len(),
            out@ == escaped(chars@.take(i as int)),
        decreases chars.len() - i,
    {
        assert(chars@.take(i + 1).drop_last() =~= chars@.take(i as int));
        assert(chars@.take(i + 1).last() == chars@[i as int]);
        let c: char = chars[i];
        if meta_char(c) {
            out.push('\\');
            out.push(c);
            assert(out@ =~= escaped(chars@.take(i as int)) + seq!['\\', c]);
        } else {
            out.push(c);
        }
        i += 1;
    }
    assert(chars@.take(chars.len() as int) =~= chars@);
    string_of(out.as_slice())
}

/// `regex::RegexBuilder::new(source).case_insensitive(true).build()`: claimed
/// only that it succeeds exactly on the expressions the crate accepts, a
/// function of `source` alone. What the compiled expression matches is left
/// unstated.
#[verifier::external_body]
fn compile_insensitive(source: &str) -> (r: Result<regex::Regex, regex::Error>)
    ensures
        r is Ok <==> regex_compiles(source@),
{
    regex::RegexBuilder::new(source).case_insensitive(true).build()
}

/// The byte range of the leftmost-first match of the case-insensitive
/// expression `source` in `haystack`, as the `regex` crate's `Regex::find`
/// reports it, or `None` when there is no match.
pub uninterp spec fn regex_first_match(source: Seq<char>, haystack: Seq<char>) -> Option<(int, int)>;

/// Whether `source` is an expression the `regex` crate accepts (see
/// [`regex_compiles`]).
pub fn regexp_accepted(source: &str) -> (r: bool)
    ensures
        r == regex_compiles(source@),
{
    match compile_insensitive(source) {
        Ok(_) => true,
        Err(_) => false,
    }
}

/// The error for an ill-formed search expression `pattern`.
pub fn invalid_pattern(pattern: &str) -> (r: DomainError)
    ensures
        r@ == ErrorView::Invalid(invalid_message(pattern@)),
{
    let mut msg: Vec<char> = chars_of("search regexp '");
    push_str(&mut msg, pattern);
    push_str(&mut msg, "'");
    DomainError::Invalid(string_of(msg.as_slice()))
}

/// A validated, case-insensitive commit-search pattern.
///
/// The fields are private and [`SearchPattern::new`] is the only constructor,
/// so `matcher` is always `source` compiled case-insensitively: the contracts
/// of the matching wrappers below rest on that.
pub struct SearchPattern {
    raw: String,
    source: String,
    matcher: regex::Regex,
}

/// `Regex::is_match` on the pattern's matcher, compiled case-insensitively
/// from its source: claimed, as the crate documents, to answer whether there
/// is a match anywhere, that is whether `Regex::find` finds one.
#[verifier::external_body]
fn regex_is_match(pattern: &SearchPattern, haystack: &str) -> (r: bool)
    ensures
        r == regex_first_match(pattern.spec_source(), haystack@) is Some,
{
    pattern.matcher.is_match(haystack)
}

/// `Regex::find` on the pattern's matcher, compiled case-insensitively from
/// its source, as the match's byte offsets: claimed to be the named result
/// [`regex_first_match`] of the source and the haystack, and, as the crate
/// documents, a match that starts no later than it ends, both offsets on
/// character boundaries.
#[verifier::external_body]
fn regex_find(pattern: &SearchPattern, haystack: &str) -> (r: Option<(usize, usize)>)
    ensures
        match regex_first_match(pattern.spec_source(), haystack@) {
            Some((s, e)) => r matches Some((a, b)) && a == s && b == e,
            None => r is None,
        },
        r matches Some((start, end)) ==> {
            &&& start <= end
            &&& is_char_boundary(haystack.spec_bytes(), start as int)
            &&& is_char_boundary(haystack.spec_bytes(), end as int)
        },
{
    match pattern.matcher.find(haystack) {
        Some(m) => Some((m.start(), m.end())),
        None => None,
    }
}

impl SearchPattern {
    /// The pattern as the user typed it.
    pub closed spec fn raw_text(&self) -> Seq<char> {
        self.raw@
    }

    /// The expression the pattern was compiled from (see [`search_source`]).
    pub closed spec fn spec_source(&self) -> Seq<char> {
        self.source@
    }

    /// Builds the matcher for `pattern`: a regular expression with
    /// `use_regexp`, a literal otherwise, matching without regard to case.
    /// Fails with `Invalid("search regexp '<pattern>'")` exactly when the
    /// compiled source is not accepted.
    pub fn new(pattern: &str, use_regexp: bool) -> (r: Result<SearchPattern, DomainError>)
        ensures
            r is Ok <==> regex_compiles(search_source(pattern@, use_regexp)),
            r matches Ok(p) ==> p.raw_text() == pattern@ && p.spec_source() == search_source(pattern@, use_regexp),
            r matches Err(e) ==> e@ == ErrorView::Invalid(invalid_message(pattern@)),
    {
        let source: String = if use_regexp {
            pattern.to_owned()
        } else {
            escape_text(pattern)
        };
        match compile_insensitive(source.as_str()) {
            Ok(matcher) => Ok(SearchPattern { raw: pattern.to_owned(), source, matcher }),
            Err(_) => Err(invalid_pattern(pattern)),
        }
    }

    /// Whether `haystack` contains a match, the way `git log --grep` keeps a
    /// commit whose message matches.
    pub fn is_match(&self, haystack: &str) -> (r: bool)
        ensures
            r == regex_first_match(self.spec_source(), haystack@) is Some,
    {
        regex_is_match(self, haystack)
    }

    /// The byte range of the first match in `line`, or `None`; both offsets
    /// fall on character boundaries.
    pub fn first_match(&self, line: &str) -> (r: Option<(usize, usize)>)
        ensures
            match regex_first_match(self.spec_source(), line@) {
                Some((s, e)) => r matches Some((a, b)) && a == s && b == e,
                None => r is None,
            },
            r matches Some((start, end)) ==> {
                &&& start <= end
                &&& is_char_boundary(line.spec_bytes(), start as int)
                &&& is_char_boundary(line.spec_bytes(), end as int)
            },
    {
        regex_find(self, line)
    }

    /// The pattern text as the user typed it.
    pub fn raw(&self) -> (r: &str)
        ensures
            r@ == self.raw_text(),
    {
        self.raw.as_str()
    }
}

} // verus!
