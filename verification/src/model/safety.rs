//! Validation of untrusted request parameters before any filesystem or
//! repository access — gitweb's `is_valid_pathname`, `is_valid_ref_format`
//! and `is_valid_refname`.
//!
//! A [`SafePath`] or [`SafeRef`] exists only when its text passed the check,
//! so a path or ref can reach the rest of the system only validated.

use vstd::prelude::*;
use crate::model::object_id::{is_object_id, ObjectId};
use crate::text::{chars_of, contains_char, split_chars, split_on, views};

verus! {

/// A path element that makes a path unsafe: empty (a leading, trailing or
/// doubled slash), `.` or `..`.
pub open spec fn bad_element(e: Seq<char>) -> bool {
    e.len() == 0 || e == seq!['.'] || e == seq!['.', '.']
}

/// gitweb's `is_valid_pathname`: no NUL, and no `/`-separated element that is
/// empty, `.` or `..`.
pub open spec fn valid_pathname(s: Seq<char>) -> bool {
    &&& !s.contains('\0')
    &&& forall|j: int| 0 <= j < split_on(s, '/').len() ==> !bad_element(#[trigger] split_on(s, '/')[j])
}

/// The two characters `a`, `b` occur side by side somewhere in `s`.
pub open spec fn has_pair(s: Seq<char>, a: char, b: char) -> bool {
    exists|i: int| 0 <= i < s.len() - 1 && s[i] == a && #[trigger] s[i + 1] == b
}

/// A character git-check-ref-format refuses: control characters, space, DEL,
/// and `~ ^ : ? * [`.
pub open spec fn ref_forbidden(c: char) -> bool {
    c <= ' ' || c == '\x7f' || c == '~' || c == '^' || c == ':' || c == '?' || c == '*' || c
        == '['
}

/// gitweb's `is_valid_ref_format`: no `/.`, no `..`, no trailing `/`, and no
/// forbidden character.
pub open spec fn valid_ref_format(s: Seq<char>) -> bool {
    &&& !has_pair(s, '/', '.')
    &&& !has_pair(s, '.', '.')
    &&& !(s.len() > 0 && s.last() == '/')
    &&& forall|i: int| 0 <= i < s.len() ==> !ref_forbidden(#[trigger] s[i])
}

/// gitweb's `is_valid_refname`: a full object id, or a valid pathname that is
/// also a valid ref format.
pub open spec fn valid_refname(s: Seq<char>) -> bool {
    is_object_id(s) || (valid_pathname(s) && valid_ref_format(s))
}

fn element_is_bad(e: &Vec<char>) -> (r: bool)
    ensures
        r == bad_element(e@),
{
    if e.len() == 0 {
        return true;
    }
    if e.len() == 1 {
        let r = e[0] == '.';
        assert(r ==> e@ =~= seq!['.']);
        return r;
    }
    if e.len() == 2 {
        let r = e[0] == '.' && e[1] == '.';
        assert(r ==> e@ =~= seq!['.', '.']);
        return r;
    }
    false
}

/// Whether `s` is a safe pathname (see [`valid_pathname`]).
pub fn is_valid_pathname(s: &Vec<char>) -> (r: bool)
    ensures
        r == valid_pathname(s@),
{
    if contains_char(s, '\0') {
        return false;
    }
    let parts: Vec<Vec<char>> = split_chars(s, '/');
    let mut i: usize = 0;
    while i < parts.len()
        invariant
            0 <= i <= parts.len(),
            views(parts@) == split_on(s@, '/'),
            forall|j: int| 0 <= j < i ==> !bad_element(#[trigger] split_on(s@, '/')[j]),
        decreases parts.len() - i,
    {
        assert(views(parts@)[i as int] == parts@[i as int]@);
        if element_is_bad(&parts[i]) {
            return false;
        }
        i += 1;
    }
    true
}

fn forbidden(c: char) -> (r: bool)
    ensures
        r == ref_forbidden(c),
{
    c <= ' ' || c == '\x7f' || c == '~' || c == '^' || c == ':' || c == '?' || c == '*' || c
        == '['
}

/// Whether `s` satisfies git-check-ref-format (see [`valid_ref_format`]).
pub fn is_valid_ref_format(s: &Vec<char>) -> (r: bool)
    ensures
        r == valid_ref_format(s@),
{
    if s.len() > 0 && s[s.len() - 1] == '/' {
        return false;
    }
    let mut i: usize = 0;
    while i < s.len()
        invariant
            0 <= i <= s.len(),
            forall|j: int| 0 <= j < i ==> !ref_forbidden(#[trigger] s@[j]),
            forall|j: int| 0 <= j < i - 1 ==> !(s@[j] == '/' && #[trigger] s@[j + 1] == '.'),
            forall|j: int| 0 <= j < i - 1 ==> !(s@[j] == '.' && #[trigger] s@[j + 1] == '.'),
        decreases s.len() - i,
    {
        if forbidden(s[i]) {
            return false;
        }
        if i > 0 && s[i] == '.' && (s[i - 1] == '/' || s[i - 1] == '.') {
            let ghost k: int = i - 1;
            assert(s@[k + 1] == '.');
            assert(s@[k] == '/' ==> has_pair(s@, '/', '.'));
            assert(s@[k] == '.' ==> has_pair(s@, '.', '.'));
            return false;
        }
        i += 1;
    }
    true
}

/// Whether `s` names a ref safely (see [`valid_refname`]).
pub fn is_valid_refname(input: &str) -> (r: bool)
    ensures
        r == valid_refname(input@),
{
    if ObjectId::parse(input).is_some() {
        return true;
    }
    let s: Vec<char> = chars_of(input);
    is_valid_pathname(&s) && is_valid_ref_format(&s)
}

/// A request path that is safe to resolve against a tree or the filesystem:
/// it has no empty, `.` or `..` element and no NUL.
#[derive(Debug, Clone, PartialEq, Eq)]
pub struct SafePath {
    value: String,
}

impl View for SafePath {
    type V = Seq<char>;

    closed spec fn view(&self) -> Seq<char> {
        self.value@
    }
}

impl SafePath {
    /// Validates an untrusted path, returning `None` if it is unsafe.
    pub fn parse(input: &str) -> (r: Option<Self>)
        ensures
            r is Some <==> valid_pathname(input@),
            r matches Some(p) ==> p@ == input@,
    {
        let chars: Vec<char> = chars_of(input);
        if is_valid_pathname(&chars) {
            Some(SafePath { value: input.to_owned() })
        } else {
            None
        }
    }

    /// The validated path text.
    pub fn as_str(&self) -> (r: &str)
        ensures
            r@ == self@,
    {
        self.value.as_str()
    }
}

/// A revision selector that is safe to resolve: a full object id, or a ref
/// name that is a safe path and satisfies git-check-ref-format.
#[derive(Debug, Clone, PartialEq, Eq)]
pub struct SafeRef {
    value: String,
}

impl View for SafeRef {
    type V = Seq<char>;

    closed spec fn view(&self) -> Seq<char> {
        self.value@
    }
}

impl SafeRef {
    /// Validates an untrusted ref or hash, returning `None` if it is unsafe.
    pub fn parse(input: &str) -> (r: Option<Self>)
        ensures
            r is Some <==> valid_refname(input@),
            r matches Some(p) ==> p@ == input@,
    {
        if is_valid_refname(input) {
            Some(SafeRef { value: input.to_owned() })
        } else {
            None
        }
    }

    /// The validated ref text.
    pub fn as_str(&self) -> (r: &str)
        ensures
            r@ == self@,
    {
        self.value.as_str()
    }
}

} // verus!
