//! The parsed, validated request: gitweb's `%input_params` as a domain entity.
//!
//! gitweb reads short CGI names into long-named parameters
//! (`evaluate_query_params`) and validates each before any repository access
//! (`evaluate_and_validate_params`). [`Request::from_query`] is that rule: it
//! maps the short names, validates every field in gitweb's order, and yields
//! either a `Request` or the [`DomainError`] whose status matches gitweb's
//! `die_error` for the first failure (bad action/hash/file/page/searchtype →
//! 400, bad project or filter → 404, too-short search → 403).

use vstd::prelude::*;
use crate::error::{forbidden, invalid, not_found, opt_str_view, opt_view, DomainError, ErrorView};
use crate::model::action::{action_named, Action};
use crate::model::safety::{valid_pathname, valid_refname, SafePath, SafeRef};
use crate::text::{chars_of, digit, is_digit, is_lower, lower, str_eq};

verus! {

/// A fully validated request, ready to dispatch. Every field is in gitweb's
/// long-named, validated form.
#[derive(Debug, Clone, PartialEq, Eq, Default)]
pub struct Request {
    /// `p` — the project path under the root (pathname-safe).
    pub project: Option<String>,
    /// `a` — the requested action.
    pub action: Option<Action>,
    /// `h` — the primary object id or ref.
    pub hash: Option<SafeRef>,
    /// `hp` — the parent object id or ref for a diff.
    pub hash_parent: Option<SafeRef>,
    /// `hb` — the base ref a file path is resolved against.
    pub hash_base: Option<SafeRef>,
    /// `hpb` — the parent base ref for a diff.
    pub hash_parent_base: Option<SafeRef>,
    /// `f` — the file path within the tree.
    pub file_name: Option<SafePath>,
    /// `fp` — the parent-side file path for a rename diff.
    pub file_parent: Option<SafePath>,
    /// `pg` — the zero-based page of a paginated list.
    pub page: Option<u32>,
    /// `o` — a list's sort order.
    pub order: Option<String>,
    /// `s` — the search term (at least two characters).
    pub search_text: Option<String>,
    /// `st` — the search kind (lowercase letters only).
    pub search_type: Option<String>,
    /// `sr` — whether the search term is a regular expression.
    pub search_use_regexp: bool,
    /// `sf` — the snapshot archive format.
    pub snapshot_format: Option<String>,
    /// `pf` — the project-list filter (pathname-safe).
    pub project_filter: Option<String>,
    /// `opt` — extra git options, validated against the per-action allow-list.
    pub extra_options: Vec<String>,
}

/// A [`Request`] seen through the texts of its fields.
pub struct RequestView {
    pub project: Option<Seq<char>>,
    pub action: Option<Action>,
    pub hash: Option<Seq<char>>,
    pub hash_parent: Option<Seq<char>>,
    pub hash_base: Option<Seq<char>>,
    pub hash_parent_base: Option<Seq<char>>,
    pub file_name: Option<Seq<char>>,
    pub file_parent: Option<Seq<char>>,
    pub page: Option<u32>,
    pub order: Option<Seq<char>>,
    pub search_text: Option<Seq<char>>,
    pub search_type: Option<Seq<char>>,
    pub search_use_regexp: bool,
    pub snapshot_format: Option<Seq<char>>,
    pub project_filter: Option<Seq<char>>,
    pub extra_options: Seq<Seq<char>>,
}

/// The text of an optional validated ref.
pub open spec fn ref_view(o: Option<SafeRef>) -> Option<Seq<char>> {
    match o {
        Some(r) => Some(r@),
        None => None,
    }
}

/// The text of an optional validated path.
pub open spec fn path_view(o: Option<SafePath>) -> Option<Seq<char>> {
    match o {
        Some(p) => Some(p@),
        None => None,
    }
}

/// The texts of a list of strings.
pub open spec fn strings_view(v: Seq<String>) -> Seq<Seq<char>> {
    v.map_values(|s: String| s@)
}

impl View for Request {
    type V = RequestView;

    open spec fn view(&self) -> RequestView {
        RequestView {
            project: opt_view(self.project),
            action: self.action,
            hash: ref_view(self.hash),
            hash_parent: ref_view(self.hash_parent),
            hash_base: ref_view(self.hash_base),
            hash_parent_base: ref_view(self.hash_parent_base),
            file_name: path_view(self.file_name),
            file_parent: path_view(self.file_parent),
            page: self.page,
            order: opt_view(self.order),
            search_text: opt_view(self.search_text),
            search_type: opt_view(self.search_type),
            search_use_regexp: self.search_use_regexp,
            snapshot_format: opt_view(self.snapshot_format),
            project_filter: opt_view(self.project_filter),
            extra_options: strings_view(self.extra_options@),
        }
    }
}

/// The value of the first parameter named `key` — CGI's `param()`, which
/// returns the first of any repeated values.
pub open spec fn first_value(ps: Seq<(String, String)>, key: Seq<char>) -> Option<Seq<char>>
    decreases ps.len(),
{
    if ps.len() == 0 {
        None
    } else if ps[0].0@ == key {
        Some(ps[0].1@)
    } else {
        first_value(ps.drop_first(), key)
    }
}

/// The action outcome: absent, a known action, or gitweb's 400.
pub open spec fn action_outcome(v: Option<Seq<char>>) -> Result<Option<Action>, ErrorView> {
    match v {
        None => Ok(None),
        Some(name) => match action_named(name) {
            Some(a) => Ok(Some(a)),
            None => Err(ErrorView::Invalid("action parameter"@)),
        },
    }
}

/// A pathname-checked value: absent, the safe text, or `err`.
pub open spec fn path_outcome(v: Option<Seq<char>>, err: ErrorView) -> Result<Option<Seq<char>>, ErrorView> {
    match v {
        None => Ok(None),
        Some(p) => if valid_pathname(p) {
            Ok(Some(p))
        } else {
            Err(err)
        },
    }
}

/// A ref-checked value: absent, the safe text, or `err`.
pub open spec fn ref_outcome(v: Option<Seq<char>>, err: ErrorView) -> Result<Option<Seq<char>>, ErrorView> {
    match v {
        None => Ok(None),
        Some(p) => if valid_refname(p) {
            Ok(Some(p))
        } else {
            Err(err)
        },
    }
}

/// The decimal value of a run of digits.
pub open spec fn digits_value(s: Seq<char>) -> nat
    decreases s.len(),
{
    if s.len() == 0 {
        0
    } else {
        digits_value(s.drop_last()) * 10 + (s.last() as nat - '0' as nat) as nat
    }
}

/// Every character of `s` is an ASCII digit.
pub open spec fn all_digits(s: Seq<char>) -> bool {
    forall|i: int| 0 <= i < s.len() ==> is_digit(#[trigger] s[i])
}

/// Every character of `s` is an ASCII lowercase letter.
pub open spec fn all_lower(s: Seq<char>) -> bool {
    forall|i: int| 0 <= i < s.len() ==> is_lower(#[trigger] s[i])
}

/// The page outcome: absent or empty is no page; digits that fit a `u32` are
/// the page; anything else is gitweb's 400.
pub open spec fn page_outcome(v: Option<Seq<char>>) -> Result<Option<u32>, ErrorView> {
    match v {
        None => Ok(None),
        Some(t) => if t.len() == 0 {
            Ok(None)
        } else if all_digits(t) && digits_value(t) <= u32::MAX {
            Ok(Some(digits_value(t) as u32))
        } else {
            Err(ErrorView::Invalid("page parameter"@))
        },
    }
}

/// The search-text outcome: fewer than two characters is gitweb's 403.
pub open spec fn search_text_outcome(v: Option<Seq<char>>) -> Result<Option<Seq<char>>, ErrorView> {
    match v {
        None => Ok(None),
        Some(t) => if t.len() < 2 {
            Err(ErrorView::Forbidden("At least two characters are required for search parameter"@))
        } else {
            Ok(Some(t))
        },
    }
}

/// The search-type outcome: empty is no type, lowercase letters are the type,
/// anything else is gitweb's 400.
pub open spec fn search_type_outcome(v: Option<Seq<char>>) -> Result<Option<Seq<char>>, ErrorView> {
    match v {
        None => Ok(None),
        Some(t) => if t.len() == 0 {
            Ok(None)
        } else if all_lower(t) {
            Ok(Some(t))
        } else {
            Err(ErrorView::Invalid("searchtype parameter"@))
        },
    }
}

/// CGI truthiness: present, non-empty and not `"0"`.
pub open spec fn truthy(v: Option<Seq<char>>) -> bool {
    v matches Some(t) && t.len() != 0 && t != "0"@
}

/// Whether `--no-merges` may combine with `action` (gitweb's
/// `%allowed_options`: rss, atom, log, shortlog, history).
pub open spec fn no_merges_allowed(action: Option<Action>) -> bool {
    action matches Some(a) && (a is Rss || a is Atom || a is Log || a is Shortlog || a is History)
}

/// The `opt` outcome over the parameters in order: every `opt` value must be
/// `--no-merges` (else "option parameter") and allowed for the action (else
/// "option parameter for this action").
pub open spec fn options_outcome(ps: Seq<(String, String)>, action: Option<Action>) -> Result<Seq<Seq<char>>, ErrorView>
    decreases ps.len(),
{
    if ps.len() == 0 {
        Ok(seq![])
    } else {
        match options_outcome(ps.drop_last(), action) {
            Err(e) => Err(e),
            Ok(opts) => {
                let (k, v) = ps.last();
                if k@ != "opt"@ {
                    Ok(opts)
                } else if v@ != "--no-merges"@ {
                    Err(ErrorView::Invalid("option parameter"@))
                } else if !no_merges_allowed(action) {
                    Err(ErrorView::Invalid("option parameter for this action"@))
                } else {
                    Ok(opts.push(v@))
                }
            },
        }
    }
}

/// The whole validation of a query, field by field in gitweb's order; the first
/// failing field decides the error.
pub open spec fn query_outcome(ps: Seq<(String, String)>) -> Result<RequestView, ErrorView> {
    match action_outcome(first_value(ps, "a"@)) {
        Err(e) => Err(e),
        Ok(action) => match path_outcome(first_value(ps, "p"@), ErrorView::NotFound("No such project"@)) {
            Err(e) => Err(e),
            Ok(project) => match ref_outcome(first_value(ps, "h"@), ErrorView::Invalid("Invalid hash parameter"@)) {
                Err(e) => Err(e),
                Ok(hash) => match ref_outcome(first_value(ps, "hp"@), ErrorView::Invalid("Invalid hash parent parameter"@)) {
                    Err(e) => Err(e),
                    Ok(hash_parent) => match ref_outcome(first_value(ps, "hb"@), ErrorView::Invalid("Invalid hash base parameter"@)) {
                        Err(e) => Err(e),
                        Ok(hash_base) => match ref_outcome(first_value(ps, "hpb"@), ErrorView::Invalid("Invalid hash parent base parameter"@)) {
                            Err(e) => Err(e),
                            Ok(hash_parent_base) => match path_outcome(first_value(ps, "f"@), ErrorView::Invalid("Invalid file parameter"@)) {
                                Err(e) => Err(e),
                                Ok(file_name) => match path_outcome(first_value(ps, "fp"@), ErrorView::Invalid("Invalid file parent parameter"@)) {
                                    Err(e) => Err(e),
                                    Ok(file_parent) => match page_outcome(first_value(ps, "pg"@)) {
                                        Err(e) => Err(e),
                                        Ok(page) => match search_text_outcome(first_value(ps, "s"@)) {
                                            Err(e) => Err(e),
                                            Ok(search_text) => match search_type_outcome(first_value(ps, "st"@)) {
                                                Err(e) => Err(e),
                                                Ok(search_type) => match path_outcome(first_value(ps, "pf"@), ErrorView::NotFound("Invalid project_filter parameter"@)) {
                                                    Err(e) => Err(e),
                                                    Ok(project_filter) => match options_outcome(ps, action) {
                                                        Err(e) => Err(e),
                                                        Ok(extra_options) => Ok(RequestView {
                                                            project,
                                                            action,
                                                            hash,
                                                            hash_parent,
                                                            hash_base,
                                                            hash_parent_base,
                                                            file_name,
                                                            file_parent,
                                                            page,
                                                            order: first_value(ps, "o"@),
                                                            search_text,
                                                            search_type,
                                                            search_use_regexp: truthy(first_value(ps, "sr"@)),
                                                            snapshot_format: first_value(ps, "sf"@),
                                                            project_filter,
                                                            extra_options,
                                                        }),
                                                    },
                                                },
                                            },
                                        },
                                    },
                                },
                            },
                        },
                    },
                },
            },
        },
    }
}

/// The first value supplied for the short CGI name `key`.
fn first<'a>(params: &'a [(String, String)], key: &str) -> (r: Option<&'a str>)
    ensures
        opt_str_view(r) == first_value(params@, key@),
{
    let mut i: usize = 0;
    assert(params@.skip(0) =~= params@);
    while i < params.len()
        invariant
            0 <= i <= params@.len(),
            first_value(params@, key@) == first_value(params@.skip(i as int), key@),
        decreases params.len() - i,
    {
        assert(params@.skip(i as int).drop_first() =~= params@.skip(i + 1));
        if str_eq(params[i].0.as_str(), key) {
            return Some(params[i].1.as_str());
        }
        i += 1;
    }
    None
}

fn owned(v: Option<&str>) -> (r: Option<String>)
    ensures
        opt_view(r) == opt_str_view(v),
{
    match v {
        Some(s) => Some(s.to_owned()),
        None => None,
    }
}

fn parse_action(value: Option<&str>) -> (r: Result<Option<Action>, DomainError>)
    ensures
        match action_outcome(opt_str_view(value)) {
            Ok(a) => r == Ok::<Option<Action>, DomainError>(a),
            Err(e) => r matches Err(x) && x@ == e,
        },
{
    match value {
        None => Ok(None),
        Some(name) => match Action::parse(name) {
            Some(a) => Ok(Some(a)),
            None => Err(invalid("action parameter")),
        },
    }
}

fn parse_safe_text(value: Option<&str>, err: DomainError) -> (r: Result<Option<String>, DomainError>)
    ensures
        match path_outcome(opt_str_view(value), err@) {
            Ok(p) => r matches Ok(x) && opt_view(x) == p,
            Err(e) => r matches Err(x) && x@ == e,
        },
{
    match value {
        None => Ok(None),
        Some(path) => match SafePath::parse(path) {
            Some(safe) => Ok(Some(safe.as_str().to_owned())),
            None => Err(err),
        },
    }
}

fn parse_path(value: Option<&str>, err: DomainError) -> (r: Result<Option<SafePath>, DomainError>)
    ensures
        match path_outcome(opt_str_view(value), err@) {
            Ok(p) => r matches Ok(x) && path_view(x) == p,
            Err(e) => r matches Err(x) && x@ == e,
        },
{
    match value {
        None => Ok(None),
        Some(path) => match SafePath::parse(path) {
            Some(safe) => Ok(Some(safe)),
            None => Err(err),
        },
    }
}

fn parse_ref(value: Option<&str>, err: DomainError) -> (r: Result<Option<SafeRef>, DomainError>)
    ensures
        match ref_outcome(opt_str_view(value), err@) {
            Ok(p) => r matches Ok(x) && ref_view(x) == p,
            Err(e) => r matches Err(x) && x@ == e,
        },
{
    match value {
        None => Ok(None),
        Some(text) => match SafeRef::parse(text) {
            Some(safe) => Ok(Some(safe)),
            None => Err(err),
        },
    }
}

/// A digit run is worth at least any of its prefixes.
pub proof fn lemma_digits_prefix(s: Seq<char>, i: int)
    requires
        0 <= i <= s.len(),
    ensures
        digits_value(s.take(i)) <= digits_value(s),
    decreases s.len(),
{
    if i < s.len() {
        assert(s.drop_last().take(i) == s.take(i));
        lemma_digits_prefix(s.drop_last(), i);
    } else {
        assert(s.take(i) == s);
    }
}

/// The value of the digit run `d`, when it is at most `limit`.
pub fn digits_to_value(d: &Vec<char>, limit: u64) -> (r: Option<u64>)
    requires
        all_digits(d@),
    ensures
        r matches Some(v) ==> v == digits_value(d@) && v <= limit,
        r is None ==> digits_value(d@) > limit,
{
    let mut acc: u64 = 0;
    let mut i: usize = 0;
    while i < d.len()
        invariant
            0 <= i <= d.len(),
            all_digits(d@),
            acc == digits_value(d@.take(i as int)),
            acc <= limit,
        decreases d.len() - i,
    {
        let c: char = d[i];
        assert(is_digit(d@[i as int]));
        assert(d@.take(i + 1).drop_last() == d@.take(i as int));
        assert(d@.take(i + 1).last() == c);
        let v: u32 = c as u32 - '0' as u32;
        if v as u64 > limit || acc > (limit - v as u64) / 10 {
            assert(acc * 10 + v > limit) by (nonlinear_arith)
                requires
                    v as u64 > limit || acc > (limit - v as u64) / 10,
                    v <= 9,
            ;
            proof {
                lemma_digits_prefix(d@, i + 1);
            }
            return None;
        }
        assert(acc * 10 + v <= limit) by (nonlinear_arith)
            requires
                v <= limit,
                acc <= (limit - v) / 10,
        ;
        acc = acc * 10 + v as u64;
        i += 1;
    }
    assert(d@.take(d.len() as int) == d@);
    Some(acc)
}

fn parse_page(value: Option<&str>) -> (r: Result<Option<u32>, DomainError>)
    ensures
        match page_outcome(opt_str_view(value)) {
            Ok(p) => r == Ok::<Option<u32>, DomainError>(p),
            Err(e) => r matches Err(x) && x@ == e,
        },
{
    match value {
        None => Ok(None),
        Some(text) => {
            let chars: Vec<char> = chars_of(text);
            if chars.len() == 0 {
                return Ok(None);
            }
            let mut acc: u64 = 0;
            let mut i: usize = 0;
            while i < chars.len()
                invariant
                    0 <= i <= chars.len(),
                    chars@ == text@,
                    value == Some(text),
                    all_digits(chars@.take(i as int)),
                    acc == digits_value(chars@.take(i as int)),
                    acc <= u32::MAX,
                decreases chars.len() - i,
            {
                let c: char = chars[i];
                assert(chars@.take(i + 1).drop_last() == chars@.take(i as int));
                if !digit(c) {
                    assert(!is_digit(chars@[i as int]));
                    assert(!all_digits(chars@));
                    return Err(invalid("page parameter"));
                }
                let d: u64 = (c as u32 - '0' as u32) as u64;
                assert(chars@.take(i + 1).last() == c);
                assert(digits_value(chars@.take(i + 1)) == digits_value(chars@.take(i as int)) * 10
                    + d);
                acc = acc * 10 + d;
                i += 1;
                if acc > u32::MAX as u64 {
                    proof {
                        lemma_digits_prefix(chars@, i as int);
                    }
                    return Err(invalid("page parameter"));
                }
            }
            assert(chars@.take(chars.len() as int) == chars@);
            Ok(Some(acc as u32))
        },
    }
}

fn parse_search_text(value: Option<&str>) -> (r: Result<Option<String>, DomainError>)
    ensures
        match search_text_outcome(opt_str_view(value)) {
            Ok(p) => r matches Ok(x) && opt_view(x) == p,
            Err(e) => r matches Err(x) && x@ == e,
        },
{
    match value {
        None => Ok(None),
        Some(text) => {
            let chars: Vec<char> = chars_of(text);
            if chars.len() < 2 {
                Err(forbidden("At least two characters are required for search parameter"))
            } else {
                Ok(Some(text.to_owned()))
            }
        },
    }
}

fn parse_search_type(value: Option<&str>) -> (r: Result<Option<String>, DomainError>)
    ensures
        match search_type_outcome(opt_str_view(value)) {
            Ok(p) => r matches Ok(x) && opt_view(x) == p,
            Err(e) => r matches Err(x) && x@ == e,
        },
{
    match value {
        None => Ok(None),
        Some(text) => {
            let chars: Vec<char> = chars_of(text);
            if chars.len() == 0 {
                return Ok(None);
            }
            let mut i: usize = 0;
            while i < chars.len()
                invariant
                    0 <= i <= chars.len(),
                    chars@ == text@,
                    value == Some(text),
                    forall|j: int| 0 <= j < i ==> is_lower(#[trigger] chars@[j]),
                decreases chars.len() - i,
            {
                if !lower(chars[i]) {
                    assert(!is_lower(chars@[i as int]));
                    return Err(invalid("searchtype parameter"));
                }
                i += 1;
            }
            Ok(Some(text.to_owned()))
        },
    }
}

fn is_truthy(value: Option<&str>) -> (r: bool)
    ensures
        r == truthy(opt_str_view(value)),
{
    match value {
        Some(text) => {
            let chars: Vec<char> = chars_of(text);
            chars.len() != 0 && !str_eq(text, "0")
        },
        None => false,
    }
}

proof fn lemma_options_err_sticks(ps: Seq<(String, String)>, i: int, action: Option<Action>)
    requires
        0 <= i <= ps.len(),
        options_outcome(ps.take(i), action) is Err,
    ensures
        options_outcome(ps, action) == options_outcome(ps.take(i), action),
    decreases ps.len() - i,
{
    if i < ps.len() {
        assert(ps.take(i + 1).drop_last() == ps.take(i));
        lemma_options_err_sticks(ps, i + 1, action);
    } else {
        assert(ps.take(i) == ps);
    }
}

fn parse_extra_options(params: &[(String, String)], action: Option<Action>) -> (r: Result<Vec<String>, DomainError>)
    ensures
        match options_outcome(params@, action) {
            Ok(o) => r matches Ok(x) && strings_view(x@) == o,
            Err(e) => r matches Err(x) && x@ == e,
        },
{
    let allowed: bool = match action {
        Some(a) => matches!(a, Action::Rss | Action::Atom | Action::Log | Action::Shortlog | Action::History),
        None => false,
    };
    let mut options: Vec<String> = Vec::new();
    let mut i: usize = 0;
    assert(params@.take(0) =~= Seq::<(String, String)>::empty());
    assert(strings_view(options@) =~= Seq::<Seq<char>>::empty());
    while i < params.len()
        invariant
            0 <= i <= params@.len(),
            allowed == no_merges_allowed(action),
            options_outcome(params@.take(i as int), action) == Ok::<Seq<Seq<char>>, ErrorView>(strings_view(options@)),
        decreases params.len() - i,
    {
        assert(params@.take(i + 1).drop_last() == params@.take(i as int));
        assert(params@.take(i + 1).last() == params@[i as int]);
        let ghost before = strings_view(options@);
        let (key, value) = (&params[i].0, &params[i].1);
        assert(key@ == params@[i as int].0@ && value@ == params@[i as int].1@);
        if str_eq(key.as_str(), "opt") {
            if !str_eq(value.as_str(), "--no-merges") {
                let e = invalid("option parameter");
                proof {
                    lemma_options_err_sticks(params@, i + 1, action);
                }
                return Err(e);
            }
            if !allowed {
                let e = invalid("option parameter for this action");
                proof {
                    lemma_options_err_sticks(params@, i + 1, action);
                }
                return Err(e);
            }
            options.push(value.clone());
            assert(strings_view(options@) =~= before.push(value@));
        }
        assert(options_outcome(params@.take(i + 1), action) == Ok::<Seq<Seq<char>>, ErrorView>(strings_view(options@)));
        i += 1;
    }
    assert(params@.take(params.len() as int) == params@);
    Ok(options)
}

impl Request {
    /// Validates a request from its decoded query parameters, keyed by gitweb's
    /// short CGI names (see [`query_outcome`]).
    pub fn from_query(params: &[(String, String)]) -> (r: Result<Self, DomainError>)
        ensures
            match query_outcome(params@) {
                Ok(v) => r matches Ok(q) && q@ == v,
                Err(e) => r matches Err(x) && x@ == e,
            },
    {
        let action: Option<Action> = match parse_action(first(params, "a")) {
            Ok(a) => a,
            Err(e) => return Err(e),
        };
        let project = match parse_safe_text(first(params, "p"), not_found("No such project")) {
            Ok(v) => v,
            Err(e) => return Err(e),
        };
        let hash = match parse_ref(first(params, "h"), invalid("Invalid hash parameter")) {
            Ok(v) => v,
            Err(e) => return Err(e),
        };
        let hash_parent = match parse_ref(first(params, "hp"), invalid("Invalid hash parent parameter")) {
            Ok(v) => v,
            Err(e) => return Err(e),
        };
        let hash_base = match parse_ref(first(params, "hb"), invalid("Invalid hash base parameter")) {
            Ok(v) => v,
            Err(e) => return Err(e),
        };
        let hash_parent_base = match parse_ref(
            first(params, "hpb"),
            invalid("Invalid hash parent base parameter"),
        ) {
            Ok(v) => v,
            Err(e) => return Err(e),
        };
        let file_name = match parse_path(first(params, "f"), invalid("Invalid file parameter")) {
            Ok(v) => v,
            Err(e) => return Err(e),
        };
        let file_parent = match parse_path(first(params, "fp"), invalid("Invalid file parent parameter")) {
            Ok(v) => v,
            Err(e) => return Err(e),
        };
        let page = match parse_page(first(params, "pg")) {
            Ok(v) => v,
            Err(e) => return Err(e),
        };
        let order = owned(first(params, "o"));
        let search_text = match parse_search_text(first(params, "s")) {
            Ok(v) => v,
            Err(e) => return Err(e),
        };
        let search_type = match parse_search_type(first(params, "st")) {
            Ok(v) => v,
            Err(e) => return Err(e),
        };
        let search_use_regexp = is_truthy(first(params, "sr"));
        let snapshot_format = owned(first(params, "sf"));
        let project_filter = match parse_safe_text(
            first(params, "pf"),
            not_found("Invalid project_filter parameter"),
        ) {
            Ok(v) => v,
            Err(e) => return Err(e),
        };
        let extra_options = match parse_extra_options(params, action) {
            Ok(v) => v,
            Err(e) => return Err(e),
        };
        Ok(Request {
            project,
            action,
            hash,
            hash_parent,
            hash_base,
            hash_parent_base,
            file_name,
            file_parent,
            page,
            order,
            search_text,
            search_type,
            search_use_regexp,
            snapshot_format,
            project_filter,
            extra_options,
        })
    }
}

} // verus!
