//! The shared history walk behind the log-shaped actions: gitweb's
//! `git_log_generic`, which resolves the base revision (HEAD by default) and
//! asks for one commit more than the page holds, so the surplus tells whether
//! a further page exists.

use vstd::prelude::*;

use crate::error::DomainError;
use crate::model::commit::{Commit, CommitView};
use crate::model::object_id::ObjectId;
use crate::port::repository::{Page, Repository};

verus! {

/// One page of history: the commits to show and whether a further page exists.
pub struct CommitWindow {
    /// The commits for this page, newest first, at most the page size.
    pub commits: Vec<Commit>,
    /// Whether a further page exists (gitweb's `$#commitlist >= 100`).
    pub has_more: bool,
}

/// The commits of `v`, each seen through its fields.
pub open spec fn commit_views(v: Seq<Commit>) -> Seq<CommitView> {
    v.map_values(|c: Commit| c@)
}

/// The window of a probe that asked for `limit + 1` commits: the first
/// `limit` of them, and whether the probe returned more.
pub fn window_of(probe: Vec<Commit>, limit: usize) -> (r: CommitWindow)
    ensures
        commit_views(r.commits@) == commit_views(probe@).take(
            if probe@.len() > limit {
                limit as int
            } else {
                probe@.len() as int
            },
        ),
        r.has_more == (probe@.len() > limit),
        r.commits@.len() == if probe@.len() > limit {
            limit as int
        } else {
            probe@.len() as int
        },
{
    let mut commits: Vec<Commit> = probe;
    let ghost before = commits@;
    let has_more: bool = commits.len() > limit;
    commits.truncate(limit);
    assert(commit_views(commits@) =~= commit_views(before).take(commits@.len() as int));
    CommitWindow { commits, has_more }
}

/// Resolves the revision the walk starts from: an explicit revision through
/// the port's resolver, or HEAD's target. An unborn HEAD (the port answers
/// `NotFound`) yields `None`; any other failure propagates.
pub fn resolve_start<R: Repository>(repo: &R, rev: Option<&str>) -> (r: Result<Option<ObjectId>, DomainError>)
    ensures
        rev is Some ==> !(r matches Ok(None)),
{
    match rev {
        Some(revision) => match repo.resolve(revision) {
            Ok(oid) => Ok(Some(oid)),
            Err(e) => Err(e),
        },
        None => match repo.head() {
            Ok(reference) => Ok(Some(reference.target().clone())),
            Err(DomainError::NotFound(_)) => Ok(None),
            Err(other) => Err(other),
        },
    }
}

/// Walks one page of history from `rev` (HEAD when `None`), optionally
/// limited to commits touching `path`: asks the port for `page.limit + 1`
/// commits at `page.skip` and keeps `page.limit` of them. An unborn
/// repository yields an empty window.
pub fn walk_commits<R: Repository>(repo: &R, rev: Option<&str>, path: Option<&str>, page: Page) -> (r: Result<CommitWindow, DomainError>)
    requires
        page.limit < usize::MAX,
    ensures
        r matches Ok(w) ==> w.commits@.len() <= page.limit,
        r matches Ok(w) ==> (w.has_more ==> w.commits@.len() == page.limit),
{
    let start: ObjectId = match resolve_start(repo, rev) {
        Ok(Some(oid)) => oid,
        Ok(None) => {
            return Ok(CommitWindow { commits: Vec::new(), has_more: false });
        },
        Err(e) => return Err(e),
    };
    let probe: Page = Page::new(page.skip, page.limit + 1);
    match repo.history(&start, path, probe) {
        Ok(commits) => Ok(window_of(commits, page.limit)),
        Err(e) => Err(e),
    }
}

} // verus!
