//! Change-search results: each commit `git log -S` finds, with the files
//! whose count of the pattern it changed.

use vstd::prelude::*;

use crate::model::commit::{Commit, CommitView};
use crate::model::object_id::ObjectId;

verus! {

/// One file a matching commit changed: its path and the id of its blob after
/// the change, `None` when the commit deleted it.
#[derive(Debug, Clone, PartialEq, Eq)]
pub struct PickaxeChange {
    path: String,
    to_blob: Option<ObjectId>,
}

/// A changed file seen through its path and post-change blob id.
pub struct PickaxeChangeView {
    pub path: Seq<char>,
    pub to_blob: Option<Seq<char>>,
}

impl View for PickaxeChange {
    type V = PickaxeChangeView;

    closed spec fn view(&self) -> PickaxeChangeView {
        PickaxeChangeView {
            path: self.path@,
            to_blob: match self.to_blob {
                Some(b) => Some(b@),
                None => None,
            },
        }
    }
}

impl PickaxeChange {
    /// A change to `path`, leaving blob `to_blob` (`None` for a deletion).
    pub fn new(path: String, to_blob: Option<ObjectId>) -> (r: PickaxeChange)
        ensures
            r@.path == path@,
            r@.to_blob == (match to_blob {
                Some(b) => Some(b@),
                None => None::<Seq<char>>,
            }),
    {
        PickaxeChange { path, to_blob }
    }

    /// The file's path, relative to the repository root.
    pub fn path(&self) -> (r: &str)
        ensures
            r@ == self@.path,
    {
        self.path.as_str()
    }

    /// The post-change blob; `None` when the commit deleted the file.
    pub fn to_blob(&self) -> (r: Option<&ObjectId>)
        ensures
            r matches Some(b) ==> self@.to_blob == Some(b@),
            r is None ==> self@.to_blob is None,
    {
        match &self.to_blob {
            Some(b) => Some(b),
            None => None,
        }
    }
}

/// One matching commit and the files whose count of the pattern it changed.
#[derive(Debug)]
pub struct PickaxeMatch {
    commit: Commit,
    changes: Vec<PickaxeChange>,
}

/// The changes of `v`, each seen through its parts.
pub open spec fn change_views(v: Seq<PickaxeChange>) -> Seq<PickaxeChangeView> {
    v.map_values(|c: PickaxeChange| c@)
}

impl PickaxeMatch {
    /// The matching commit.
    pub closed spec fn spec_commit(&self) -> CommitView {
        self.commit@
    }

    /// The changed files, in the diff's path order.
    pub closed spec fn spec_changes(&self) -> Seq<PickaxeChangeView> {
        change_views(self.changes@)
    }

    /// A match of `commit` changing `changes`.
    pub fn new(commit: Commit, changes: Vec<PickaxeChange>) -> (r: PickaxeMatch)
        ensures
            r.spec_commit() == commit@,
            r.spec_changes() == change_views(changes@),
    {
        PickaxeMatch { commit, changes }
    }

    /// The matching commit.
    pub fn commit(&self) -> (r: &Commit)
        ensures
            r@ == self.spec_commit(),
    {
        &self.commit
    }

    /// The changed files, in the diff's path order.
    pub fn changes(&self) -> (r: &[PickaxeChange])
        ensures
            change_views(r@) == self.spec_changes(),
    {
        self.changes.as_slice()
    }
}

} // verus!
