//! The `commitdiff_plain` use case: a commit's diff as a `git am`-able patch.
//!
//! Resolves the commit-ish (HEAD by default; a non-commit is gitweb's 404
//! "Unknown commit object"), reads the tag naming it, takes the patch against
//! an explicit parent, else the first parent, else the empty tree, with ids
//! abbreviated to the repository's default length, and frames it in the
//! mailbox header. `git diff-tree` leads the patch with the commit id only for
//! a root commit's `--root` form, that is exactly when the base is the empty
//! tree. The request's own URL is added when the body is rendered.

use vstd::prelude::*;

use crate::error::{DomainError, ErrorView};
use crate::model::commit::{title_of, Commit, CommitView, TITLE_LEN};
use crate::model::commitdiff::{diff_base, DiffBase};
use crate::model::commitdiff_plain::{CommitdiffPlain, CommitdiffPlainView};
use crate::model::feed::{comment_lines, comment_lines_of, opt_view};
use crate::model::object_id::ObjectId;
use crate::model::patch::{patch_text, Patch};
use crate::model::signature::full_ident_of;
use crate::model::timestamp::{timestamp_of, zone_fits, zone_fits_exec, Timestamp};
use crate::port::repository::{RenameDetection, Repository};
use crate::usecase::commitdiff::{base_tree, resolve_commit, resolve_explicit};

verus! {

/// The parts of a `commitdiff_plain` body that come from commit `c`, its tag
/// `tag`, whether its base is the empty tree, and its patch text `patch`.
pub open spec fn plain_matches(
    v: CommitdiffPlainView,
    c: CommitView,
    tag: Option<Seq<char>>,
    root_form: bool,
    patch: Seq<char>,
) -> bool {
    &&& v.from == full_ident_of(c.author)
    &&& v.date == timestamp_of(c.author.epoch, c.author.timezone)
    &&& v.subject == title_of(c.message, TITLE_LEN as nat)
    &&& v.tag == tag
    &&& v.comment == comment_lines_of(c.message)
    &&& v.commit_id == (if root_form {
        Some(c.id)
    } else {
        None
    })
    &&& v.patch == patch
}

/// [`plain_matches`] for a body whose base was picked by [`diff_base`]: the
/// commit id leads the patch exactly when no parent was named and the commit
/// is a root.
#[verifier::opaque]
pub open spec fn plain_body_of(
    v: CommitdiffPlainView,
    c: CommitView,
    tag: Option<Seq<char>>,
    explicit_given: bool,
    patch: Seq<char>,
) -> bool {
    &&& zone_fits(c.author.epoch as int, c.author.timezone)
    &&& plain_matches(v, c, tag, !explicit_given && c.parents.len() == 0, patch)
}

/// `v` is the body of some commit, tag and patch, its base picked by
/// [`diff_base`] with or without a named parent.
pub open spec fn is_plain_body(v: CommitdiffPlainView, explicit_given: bool) -> bool {
    exists|c: CommitView, tag: Option<Seq<char>>, patch: Seq<char>| #[trigger]
        plain_body_of(v, c, tag, explicit_given, patch)
}

/// A body laid out for the base [`diff_base`] picks is a [`plain_body_of`].
proof fn lemma_plain_body(
    v: CommitdiffPlainView,
    c: CommitView,
    tag: Option<Seq<char>>,
    explicit_given: bool,
    root_form: bool,
    patch: Seq<char>,
)
    requires
        root_form == (!explicit_given && c.parents.len() == 0),
        zone_fits(c.author.epoch as int, c.author.timezone),
        plain_matches(v, c, tag, root_form, patch),
    ensures
        is_plain_body(v, explicit_given),
{
    assert(plain_body_of(v, c, tag, explicit_given, patch)) by {
        reveal(plain_body_of);
    }
}

/// The body of `commit` named by `tag`, patched against `base` by `patch`
/// with ids abbreviated to `abbrev` digits.
pub fn commitdiff_plain_of(commit: &Commit, tag: Option<String>, base: &DiffBase, patch: &Patch, abbrev: usize) -> (r:
    CommitdiffPlain)
    requires
        zone_fits(commit@.author.epoch as int, commit@.author.timezone),
    ensures
        plain_matches(
            r@,
            commit@,
            opt_view(tag),
            base is EmptyTree,
            patch_text(patch.spec_files(), Some(abbrev)),
        ),
{
    let commit_id: Option<String> = match base {
        DiffBase::EmptyTree => Some(commit.id().as_str().to_owned()),
        DiffBase::Commit(_) => None,
    };
    CommitdiffPlain::new(
        commit.author().full_ident(),
        Timestamp::from_signature(commit.author()),
        commit.title(),
        tag,
        comment_lines(commit.message()),
        commit_id,
        patch.render_abbreviated(abbrev),
    )
}

/// The body of `commit` (see [`commitdiff_plain_of`]), or a backend error
/// when its author time does not fit its zone.
pub fn plain_body(commit: &Commit, tag: Option<String>, base: &DiffBase, patch: &Patch, abbrev: usize) -> (r: Result<
    CommitdiffPlain,
    DomainError,
>)
    ensures
        r is Ok <==> zone_fits(commit@.author.epoch as int, commit@.author.timezone),
        r matches Err(e) ==> e@ == ErrorView::Backend("commit time out of range"@),
        r matches Ok(v) ==> plain_matches(
            v@,
            commit@,
            opt_view(tag),
            base is EmptyTree,
            patch_text(patch.spec_files(), Some(abbrev)),
        ),
{
    if !zone_fits_exec(commit.author().epoch(), commit.author().timezone()) {
        return Err(crate::error::backend("commit time out of range"));
    }
    Ok(commitdiff_plain_of(commit, tag, base, patch, abbrev))
}

/// Resolves `revision` (HEAD when `None`) to a commit and assembles its
/// `commitdiff_plain` body (see [`commitdiff_plain_of`]), against
/// `explicit_parent` when given. Without one, the commit id leads the patch
/// exactly for a root commit. An author time that does not fit its zone is a
/// backend error (see [`plain_body`]): every body returned is of a commit
/// whose time fits.
pub fn assemble_commitdiff_plain<R: Repository>(
    repo: &R,
    revision: Option<&str>,
    explicit_parent: Option<&str>,
) -> (r: Result<CommitdiffPlain, DomainError>)
    ensures
        r matches Ok(v) ==> is_plain_body(v@, explicit_parent is Some),
{
    let oid: ObjectId = match resolve_commit(repo, revision) {
        Ok(o) => o,
        Err(e) => return Err(e),
    };
    let commit: Commit = match repo.find_commit(&oid) {
        Ok(c) => c,
        Err(e) => return Err(e),
    };
    let tag: Option<String> = match repo.rev_name_tag(&oid) {
        Ok(t) => t,
        Err(e) => return Err(e),
    };
    let explicit: Option<ObjectId> = match resolve_explicit(repo, explicit_parent) {
        Ok(x) => x,
        Err(e) => return Err(e),
    };
    let explicit_ref: Option<&ObjectId> = match &explicit {
        Some(x) => Some(x),
        None => None,
    };
    let base: DiffBase = diff_base(commit.parents(), explicit_ref);
    let patch: Patch = match repo.patch(base_tree(&base), commit.id(), RenameDetection::RenamesOnly) {
        Ok(p) => p,
        Err(e) => return Err(e),
    };
    let abbrev: usize = match repo.abbrev_length() {
        Ok(n) => n,
        Err(e) => return Err(e),
    };
    let ghost tag_view = opt_view(tag);
    assert((explicit_ref is Some) == (explicit_parent is Some));
    assert((base is EmptyTree) == (explicit_parent is None && commit@.parents.len() == 0));
    let body: CommitdiffPlain = match plain_body(&commit, tag, &base, &patch, abbrev) {
        Ok(b) => b,
        Err(e) => return Err(e),
    };
    proof {
        lemma_plain_body(
            body@,
            commit@,
            tag_view,
            explicit_parent is Some,
            base is EmptyTree,
            patch_text(patch.spec_files(), Some(abbrev)),
        );
    }
    Ok(body)
}

} // verus!
