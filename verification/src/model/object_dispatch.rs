//! gitweb's no-action dispatch: a request without an action that names an
//! object by hash, or by a base and a file, is served by the view of that
//! object's kind.

use vstd::prelude::*;

use crate::model::object_redirect::opt_chars;

verus! {

/// The lookup a no-action request calls for.
#[derive(Debug, Clone, PartialEq, Eq)]
pub enum DispatchLookup {
    /// The kind of the object `hash` names.
    ByHash { hash: String },
    /// The kind of the object at `file_name` under `base`.
    ByBasePath { base: String, file_name: String },
}

/// A [`DispatchLookup`] seen through its texts.
pub enum DispatchLookupView {
    ByHash { hash: Seq<char> },
    ByBasePath { base: Seq<char>, file_name: Seq<char> },
}

impl View for DispatchLookup {
    type V = DispatchLookupView;

    open spec fn view(&self) -> DispatchLookupView {
        match self {
            DispatchLookup::ByHash { hash } => DispatchLookupView::ByHash { hash: hash@ },
            DispatchLookup::ByBasePath { base, file_name } => DispatchLookupView::ByBasePath {
                base: base@,
                file_name: file_name@,
            },
        }
    }
}

/// gitweb's `dispatch` choice: a hash wins, then a base with a file; with
/// neither no object is named.
pub open spec fn dispatch_lookup_of(
    hash: Option<Seq<char>>,
    hash_base: Option<Seq<char>>,
    file_name: Option<Seq<char>>,
) -> Option<DispatchLookupView> {
    match (hash, hash_base, file_name) {
        (Some(h), _, _) => Some(DispatchLookupView::ByHash { hash: h }),
        (None, Some(b), Some(f)) => Some(DispatchLookupView::ByBasePath { base: b, file_name: f }),
        _ => None,
    }
}

/// The lookup a no-action request calls for (see [`dispatch_lookup_of`]).
pub fn dispatch_lookup(hash: Option<&str>, hash_base: Option<&str>, file_name: Option<&str>) -> (r: Option<DispatchLookup>)
    ensures
        match dispatch_lookup_of(opt_chars(hash), opt_chars(hash_base), opt_chars(file_name)) {
            Some(v) => r matches Some(x) && x@ == v,
            None => r is None,
        },
{
    match (hash, hash_base, file_name) {
        (Some(h), _, _) => Some(DispatchLookup::ByHash { hash: h.to_owned() }),
        (None, Some(b), Some(f)) => Some(DispatchLookup::ByBasePath { base: b.to_owned(), file_name: f.to_owned() }),
        _ => None,
    }
}

} // verus!
