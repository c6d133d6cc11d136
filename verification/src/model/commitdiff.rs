//! Which base a commit's changes are shown against (gitweb's `git_commit` /
//! `git_commitdiff` `$hash_parent` rule): an explicit parent when given,
//! else the combined diff of a merge, else the first parent, or the empty tree
//! for a root commit.

use vstd::prelude::*;

use crate::model::commit::id_views;
use crate::model::object_id::ObjectId;

verus! {

/// The base of a commit's changed-files table.
#[derive(Debug, Clone, PartialEq, Eq)]
pub enum ChangedFilesBase {
    /// A merge without an explicit parent: the combined diff (`-c`).
    Combined,
    /// An ordinary diff against `base` (the empty tree when `None`).
    Ordinary { base: Option<ObjectId> },
}

/// The base of a commit's changes: `Err(())` for the combined diff, else the
/// id of the ordinary base (`None` for the empty tree).
pub open spec fn changes_base(parents: Seq<Seq<char>>, explicit: Option<Seq<char>>) -> Result<Option<Seq<char>>, ()> {
    match explicit {
        Some(p) => Ok(Some(p)),
        None => if parents.len() > 1 {
            Err(())
        } else if parents.len() == 1 {
            Ok(Some(parents[0]))
        } else {
            Ok(None)
        },
    }
}

/// The base of a commit's changed-files table (see [`changes_base`]).
pub fn changed_files_base(parents: &[ObjectId], explicit: Option<&ObjectId>) -> (r: ChangedFilesBase)
    ensures
        match changes_base(
            id_views(parents@),
            match explicit {
                Some(p) => Some(p@),
                None => None,
            },
        ) {
            Err(_) => r is Combined,
            Ok(Some(b)) => r matches ChangedFilesBase::Ordinary { base: Some(x) } && x@ == b,
            Ok(None) => r matches ChangedFilesBase::Ordinary { base: None },
        },
{
    match explicit {
        Some(p) => ChangedFilesBase::Ordinary { base: Some(p.clone()) },
        None => if parents.len() > 1 {
            ChangedFilesBase::Combined
        } else if parents.len() == 1 {
            ChangedFilesBase::Ordinary { base: Some(parents[0].clone()) }
        } else {
            ChangedFilesBase::Ordinary { base: None }
        },
    }
}

/// The base a commit's patch is taken against: an explicit parent, else the
/// first parent, else the empty tree (a root commit).
#[derive(Debug, Clone, PartialEq, Eq)]
pub enum DiffBase {
    /// The empty tree: the commit is a root and nothing was named.
    EmptyTree,
    /// The named or first parent.
    Commit(ObjectId),
}

/// The id of a commit's patch base (see [`DiffBase`]); `None` for the empty
/// tree.
pub open spec fn diff_base_of(parents: Seq<Seq<char>>, explicit: Option<Seq<char>>) -> Option<Seq<char>> {
    match explicit {
        Some(p) => Some(p),
        None => if parents.len() > 0 {
            Some(parents[0])
        } else {
            None
        },
    }
}

/// The base a commit's patch is taken against (see [`diff_base_of`]).
pub fn diff_base(parents: &[ObjectId], explicit: Option<&ObjectId>) -> (r: DiffBase)
    ensures
        match diff_base_of(
            id_views(parents@),
            match explicit {
                Some(p) => Some(p@),
                None => None,
            },
        ) {
            Some(b) => r matches DiffBase::Commit(x) && x@ == b,
            None => r is EmptyTree,
        },
{
    match explicit {
        Some(p) => DiffBase::Commit(p.clone()),
        None => if parents.len() > 0 {
            DiffBase::Commit(parents[0].clone())
        } else {
            DiffBase::EmptyTree
        },
    }
}

} // verus!
