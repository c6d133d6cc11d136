//! gitweb's `git_object` decisions: which lookup a request calls for, and
//! which action shows an object of a given kind.
//!
//! An object is named by a hash (or a base alone), or by a base and a file
//! path under it; with neither, the request is gitweb's 400 "Not enough
//! information to find object". Hashes are read with Perl truth (empty and
//! `0` are false); a path loses its trailing slashes.

use vstd::prelude::*;

use crate::error::{DomainError, ErrorView};
use crate::model::action::Action;
use crate::model::object_kind::ObjectKind;
use crate::model::settings::{perl_truthy, perl_truthy_str};
use crate::model::snapshot::trailing_slashes;
use crate::text::{chars_of, substring};

verus! {

/// The lookup a `git_object` request calls for.
#[derive(Debug, Clone, PartialEq, Eq)]
pub enum Resolution {
    /// Read the kind of the object `id` names.
    ById { id: String },
    /// Look `file_name` up in the tree of `base`.
    ByBasePath { base: String, file_name: String },
}

/// A [`Resolution`] seen through its texts.
pub enum ResolutionView {
    ById { id: Seq<char> },
    ByBasePath { base: Seq<char>, file_name: Seq<char> },
}

impl View for Resolution {
    type V = ResolutionView;

    open spec fn view(&self) -> ResolutionView {
        match self {
            Resolution::ById { id } => ResolutionView::ById { id: id@ },
            Resolution::ByBasePath { base, file_name } => ResolutionView::ByBasePath {
                base: base@,
                file_name: file_name@,
            },
        }
    }
}

/// Whether an optional parameter is Perl-true.
pub open spec fn given(o: Option<Seq<char>>) -> bool {
    o matches Some(v) && perl_truthy(v)
}

/// `p` without its trailing slashes.
pub open spec fn without_trailing_slashes(p: Seq<char>) -> Seq<char> {
    p.take(p.len() - trailing_slashes(p))
}

/// gitweb's `git_object` choice of lookup, or the 400 message.
pub open spec fn resolution_of(
    hash: Option<Seq<char>>,
    hash_base: Option<Seq<char>>,
    file_name: Option<Seq<char>>,
) -> Result<ResolutionView, ErrorView> {
    if given(hash) || (given(hash_base) && file_name is None) {
        let id = if given(hash) {
            hash->0
        } else {
            hash_base->0
        };
        Ok(ResolutionView::ById { id })
    } else if given(hash_base) && file_name is Some {
        Ok(ResolutionView::ByBasePath {
            base: hash_base->0,
            file_name: without_trailing_slashes(file_name->0),
        })
    } else {
        Err(ErrorView::Invalid("Not enough information to find object"@))
    }
}

/// The optional borrowed text seen as optional characters.
pub open spec fn opt_chars(o: Option<&str>) -> Option<Seq<char>> {
    match o {
        Some(s) => Some(s@),
        None => None,
    }
}

fn is_given(o: Option<&str>) -> (r: bool)
    ensures
        r == given(opt_chars(o)),
{
    match o {
        Some(v) => perl_truthy_str(v),
        None => false,
    }
}

fn strip_trailing_slashes(p: &str) -> (r: String)
    ensures
        r@ == without_trailing_slashes(p@),
{
    let v: Vec<char> = chars_of(p);
    let mut end: usize = v.len();
    assert(v@.take(end as int) =~= v@);
    while end > 0 && v[end - 1] == '/'
        invariant
            end <= v.len(),
            trailing_slashes(v@) == (v.len() - end) + trailing_slashes(v@.take(end as int)),
        decreases end,
    {
        assert(v@.take(end as int).drop_last() =~= v@.take(end - 1));
        assert(v@.take(end as int).last() == v@[end - 1]);
        end -= 1;
    }
    proof {
        if end > 0 {
            assert(v@.take(end as int).last() == v@[end - 1]);
        }
    }
    substring(&v, 0, end)
}

/// Classifies a `git_object` request (see [`resolution_of`]).
pub fn resolution(hash: Option<&str>, hash_base: Option<&str>, file_name: Option<&str>) -> (r: Result<Resolution, DomainError>)
    ensures
        match resolution_of(opt_chars(hash), opt_chars(hash_base), opt_chars(file_name)) {
            Ok(v) => r matches Ok(x) && x@ == v,
            Err(v) => r matches Err(e) && e@ == v,
        },
{
    let has_hash: bool = is_given(hash);
    let has_base: bool = is_given(hash_base);
    if has_hash || (has_base && file_name.is_none()) {
        let id: &str = match hash {
            Some(h) => if has_hash {
                h
            } else {
                hash_base.unwrap()
            },
            None => hash_base.unwrap(),
        };
        return Ok(Resolution::ById { id: id.to_owned() });
    }
    if has_base {
        if let Some(f) = file_name {
            return Ok(Resolution::ByBasePath {
                base: hash_base.unwrap().to_owned(),
                file_name: strip_trailing_slashes(f),
            });
        }
    }
    Err(crate::error::invalid("Not enough information to find object"))
}

/// The action whose view shows an object of `kind`.
pub open spec fn action_for(kind: ObjectKind) -> Action {
    match kind {
        ObjectKind::Blob => Action::Blob,
        ObjectKind::Tree => Action::Tree,
        ObjectKind::Commit => Action::Commit,
        ObjectKind::Tag => Action::Tag,
    }
}

/// The action whose view shows an object of `kind` (see [`action_for`]).
pub fn target_action(kind: ObjectKind) -> (r: Action)
    ensures
        r == action_for(kind),
{
    match kind {
        ObjectKind::Blob => Action::Blob,
        ObjectKind::Tree => Action::Tree,
        ObjectKind::Commit => Action::Commit,
        ObjectKind::Tag => Action::Tag,
    }
}

} // verus!
