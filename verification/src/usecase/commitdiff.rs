//! The clean-diff use case: a commit's diff as the unified patch `git
//! diff-tree -p` writes, starting at `diff --git` (no mailbox header), for the
//! client-side diff viewer. The commit-ish defaults to HEAD; a non-commit is
//! gitweb's 404 "Unknown commit object"; the base is an explicit parent, else
//! the first parent, else the empty tree (see [`diff_base`]).

use vstd::prelude::*;

use crate::error::{DomainError, ErrorView};
use crate::model::commitdiff::{diff_base, DiffBase};
use crate::model::object_id::ObjectId;
use crate::model::object_kind::ObjectKind;
use crate::model::patch::{patch_text, FilePatchView, Patch};
use crate::port::repository::{RenameDetection, Repository};

verus! {

/// The revision a commit view names: the given one, HEAD when `None`.
pub fn revision_or_head(revision: Option<&str>) -> (r: &str)
    ensures
        match revision {
            Some(rev) => r@ == rev@,
            None => r@ == "HEAD"@,
        },
{
    match revision {
        Some(rev) => rev,
        None => "HEAD",
    }
}

/// The resolved object `oid` of kind `kind` as a commit id: a non-commit is
/// 404 "Unknown commit object".
pub fn commit_of_kind(oid: ObjectId, kind: ObjectKind) -> (r: Result<ObjectId, DomainError>)
    ensures
        kind == ObjectKind::Commit ==> r == Ok::<ObjectId, DomainError>(oid),
        kind != ObjectKind::Commit ==> (r matches Err(e) && e@ == ErrorView::NotFound("Unknown commit object"@)),
{
    match kind {
        ObjectKind::Commit => Ok(oid),
        _ => Err(crate::error::not_found("Unknown commit object")),
    }
}

/// Resolves `revision` (HEAD when `None`) to a commit id: the object the
/// revision names, checked by [`commit_of_kind`] against the kind the
/// repository reports; repository failures pass through.
pub fn resolve_commit<R: Repository>(repo: &R, revision: Option<&str>) -> (r: Result<ObjectId, DomainError>) {
    let oid: ObjectId = match repo.resolve(revision_or_head(revision)) {
        Ok(o) => o,
        Err(e) => return Err(e),
    };
    match repo.object_kind(&oid) {
        Ok(kind) => commit_of_kind(oid, kind),
        Err(e) => Err(e),
    }
}

/// Resolves an explicit parent revision, when one is given.
pub fn resolve_explicit<R: Repository>(repo: &R, explicit_parent: Option<&str>) -> (r: Result<
    Option<ObjectId>,
    DomainError,
>)
    ensures
        explicit_parent is None ==> r matches Ok(None),
        explicit_parent is Some ==> !(r matches Ok(None)),
{
    match explicit_parent {
        Some(rev) => match repo.resolve(rev) {
            Ok(oid) => Ok(Some(oid)),
            Err(e) => Err(e),
        },
        None => Ok(None),
    }
}

/// The tree a patch is taken from for base `base`: `None` for the empty tree.
pub fn base_tree(base: &DiffBase) -> (r: Option<&ObjectId>)
    ensures
        match base {
            DiffBase::EmptyTree => r is None,
            DiffBase::Commit(b) => r == Some(b),
        },
{
    match base {
        DiffBase::EmptyTree => None,
        DiffBase::Commit(b) => Some(b),
    }
}

/// Resolves `revision` (HEAD when `None`) to a commit and renders its patch
/// with full ids, against `explicit_parent` when given, else its first
/// parent, else the empty tree.
pub fn assemble_commit_diff<R: Repository>(repo: &R, revision: Option<&str>, explicit_parent: Option<&str>) -> (r:
    Result<String, DomainError>)
    ensures
        r matches Ok(text) ==> exists|files: Seq<FilePatchView>| text@ == #[trigger] patch_text(files, None),
{
    let oid: ObjectId = match resolve_commit(repo, revision) {
        Ok(o) => o,
        Err(e) => return Err(e),
    };
    let commit = match repo.find_commit(&oid) {
        Ok(c) => c,
        Err(e) => return Err(e),
    };
    let explicit: Option<ObjectId> = match resolve_explicit(repo, explicit_parent) {
        Ok(x) => x,
        Err(e) => return Err(e),
    };
    let explicit_ref: Option<&ObjectId> = match &explicit {
        Some(x) => Some(x),
        None => None,
    };
    let base: DiffBase = diff_base(commit.parents(), explicit_ref);
    let patch: Patch = match repo.patch(base_tree(&base), commit.id(), RenameDetection::RenamesOnly) {
        Ok(p) => p,
        Err(e) => return Err(e),
    };
    let text: String = patch.render();
    assert(text@ == patch_text(patch.spec_files(), None));
    Ok(text)
}

} // verus!
