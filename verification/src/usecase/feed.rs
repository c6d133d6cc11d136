//! The feed use case: gitweb's `git_feed`, minus the XML and the links.
//!
//! Reads the recent history of a branch (HEAD by default), optionally limited
//! to one path, keeps the commits [`feed_window`] allows against the request
//! time `now`, and for each diffs it against its first parent (the empty tree
//! for a root commit) with rename detection, keeping the changed files within
//! the path. An unborn repository yields an empty feed.

use vstd::prelude::*;

use crate::error::{DomainError, ErrorView};
use crate::model::commit::{title_of, Commit, CommitView, TITLE_LEN};
use crate::model::diff::{Diff, DiffEntry};
use crate::model::feed::{comment_lines, comment_lines_of, feed_file_views, feed_window, Feed, FeedEntry, FeedEntryView, FeedFile, FeedFileView, FEED_READ_LIMIT};
use crate::model::object_id::ObjectId;
use crate::model::signature::full_ident_of;
use crate::model::timestamp::{timestamp_of, zone_fits, zone_fits_exec, Timestamp};
use crate::port::repository::{Page, RenameDetection, Repository};
use crate::text::{chars_of, has_prefix, starts_with, str_eq};
use crate::usecase::log_generic::resolve_start;

verus! {

/// `candidate` is `path` itself or lies beneath it (`path/...`).
pub open spec fn is_under(candidate: Seq<char>, path: Seq<char>) -> bool {
    candidate == path || has_prefix(candidate, path.push('/'))
}

/// A diff entry is in the feed's scope: every entry without a path, else one
/// whose new or old path is under it (gitweb's `diff-tree ... -- <path>`).
pub open spec fn in_scope(entry: DiffEntry, path: Option<Seq<char>>) -> bool {
    match path {
        None => true,
        Some(p) => is_under(entry.spec_to_path(), p) || is_under(entry.spec_from_path(), p),
    }
}

/// The feed's record of a changed path.
pub open spec fn file_view_of(entry: DiffEntry) -> FeedFileView {
    FeedFileView {
        from_id: entry.spec_from_oid()@,
        to_id: entry.spec_to_oid()@,
        from_path: entry.spec_from_path(),
        to_path: entry.spec_to_path(),
    }
}

/// The feed's records of the entries in scope, in diff order.
pub open spec fn scoped_files(entries: Seq<DiffEntry>, path: Option<Seq<char>>) -> Seq<FeedFileView>
    decreases entries.len(),
{
    if entries.len() == 0 {
        seq![]
    } else {
        let before = scoped_files(entries.drop_last(), path);
        if in_scope(entries.last(), path) {
            before.push(file_view_of(entries.last()))
        } else {
            before
        }
    }
}

/// The text of an optional path.
pub open spec fn opt_str_view(path: Option<&str>) -> Option<Seq<char>> {
    match path {
        Some(p) => Some(p@),
        None => None,
    }
}

/// Whether `candidate` is `path` or beneath it (see [`is_under`]).
pub fn under(candidate: &str, path: &str) -> (r: bool)
    ensures
        r == is_under(candidate@, path@),
{
    if str_eq(candidate, path) {
        return true;
    }
    let mut prefix: Vec<char> = chars_of(path);
    prefix.push('/');
    let c: Vec<char> = chars_of(candidate);
    starts_with(&c, &prefix)
}

/// Whether `entry` is in the feed's scope (see [`in_scope`]).
pub fn matches_path(entry: &DiffEntry, path: Option<&str>) -> (r: bool)
    ensures
        r == in_scope(*entry, opt_str_view(path)),
{
    match path {
        None => true,
        Some(p) => under(entry.to_path(), p) || under(entry.from_path(), p),
    }
}

/// The feed's record of a changed path (see [`file_view_of`]).
pub fn file_of(entry: &DiffEntry) -> (r: FeedFile)
    ensures
        r@ == file_view_of(*entry),
{
    FeedFile::new(
        entry.from_oid().as_str().to_owned(),
        entry.to_oid().as_str().to_owned(),
        entry.from_path().to_owned(),
        entry.to_path().to_owned(),
    )
}

/// The records of the entries in scope (see [`scoped_files`]).
pub fn feed_files(entries: &[DiffEntry], path: Option<&str>) -> (r: Vec<FeedFile>)
    ensures
        feed_file_views(r@) == scoped_files(entries@, opt_str_view(path)),
{
    let ghost p = opt_str_view(path);
    let mut files: Vec<FeedFile> = Vec::new();
    let mut i: usize = 0;
    while i < entries.len()
        invariant
            0 <= i <= entries@.len(),
            p == opt_str_view(path),
            feed_file_views(files@) == scoped_files(entries@.take(i as int), p),
        decreases entries.len() - i,
    {
        proof {
            assert(entries@.take(i + 1).drop_last() =~= entries@.take(i as int));
            assert(entries@.take(i + 1).last() == entries@[i as int]);
        }
        if matches_path(&entries[i], path) {
            let file: FeedFile = file_of(&entries[i]);
            let ghost before = files@;
            files.push(file);
            assert(feed_file_views(files@) =~= feed_file_views(before).push(file@));
        }
        i += 1;
    }
    assert(entries@.take(entries@.len() as int) =~= entries@);
    files
}

/// The parts of a feed entry that come from its commit `c`.
pub open spec fn entry_matches_commit(e: FeedEntryView, c: CommitView) -> bool {
    &&& e.id == c.id
    &&& e.parent == (if c.parents.len() > 0 {
        Some(c.parents[0])
    } else {
        None
    })
    &&& e.title == title_of(c.message, TITLE_LEN as nat)
    &&& e.author == full_ident_of(c.author)
    &&& e.author_name == c.author.name
    &&& e.author_email == c.author.email
    &&& e.committer_name == c.committer.name
    &&& e.committer_email == c.committer.email
    &&& e.date == timestamp_of(c.committer.epoch, c.committer.timezone)
    &&& e.comment == comment_lines_of(c.message)
}

/// The entry is laid out from some commit.
pub open spec fn from_a_commit(e: FeedEntryView) -> bool {
    exists|c: CommitView| entry_matches_commit(e, c)
}

/// The feed entry of `commit`, whose diff against its first parent is
/// `diff`, limited to `path`.
pub fn feed_entry_of(commit: &Commit, diff: &Diff, path: Option<&str>) -> (r: FeedEntry)
    requires
        zone_fits(commit@.committer.epoch as int, commit@.committer.timezone),
    ensures
        entry_matches_commit(r@, commit@),
        r@.files == scoped_files(diff.spec_entries(), opt_str_view(path)),
{
    let parent: Option<String> = if commit.parents().len() > 0 {
        Some(commit.parents()[0].as_str().to_owned())
    } else {
        None
    };
    let author_email: Option<String> = match commit.author().email() {
        Some(e) => Some(e.to_owned()),
        None => None,
    };
    let committer_email: Option<String> = match commit.committer().email() {
        Some(e) => Some(e.to_owned()),
        None => None,
    };
    FeedEntry::new(
        commit.id().as_str().to_owned(),
        parent,
        commit.title(),
        commit.author().full_ident(),
        commit.author().name().to_owned(),
        author_email,
        commit.committer().name().to_owned(),
        committer_email,
        Timestamp::from_signature(commit.committer()),
        comment_lines(commit.message()),
        feed_files(diff.entries(), path),
    )
}

/// The first of `parents`, the base a commit is diffed against (`None`, the
/// empty tree, for a root commit).
pub fn first_parent(parents: &[ObjectId]) -> (r: Option<&ObjectId>)
    ensures
        match r {
            Some(p) => parents@.len() > 0 && *p == parents@[0],
            None => parents@.len() == 0,
        },
{
    if parents.len() > 0 {
        Some(&parents[0])
    } else {
        None
    }
}

/// Builds one feed entry: diffs `commit` against its first parent (the empty
/// tree for a root commit) over the port, then lays the entry out (see
/// [`feed_entry_of`]). A commit time that does not fit its zone is a backend
/// error.
pub fn entry_of<R: Repository>(repo: &R, commit: &Commit, path: Option<&str>) -> (r: Result<
    FeedEntry,
    DomainError,
>)
    ensures
        !zone_fits(commit@.committer.epoch as int, commit@.committer.timezone) ==> (r matches Err(e) && e@
            == ErrorView::Backend("commit time out of range"@)),
        r is Ok ==> zone_fits(commit@.committer.epoch as int, commit@.committer.timezone),
        r matches Ok(e) ==> entry_matches_commit(e@, commit@),
{
    if !zone_fits_exec(commit.committer().epoch(), commit.committer().timezone()) {
        return Err(crate::error::backend("commit time out of range"));
    }
    let parent: Option<&ObjectId> = first_parent(commit.parents());
    let diff: Diff = match repo.diff(parent, commit.id(), RenameDetection::RenamesOnly) {
        Ok(d) => d,
        Err(e) => return Err(e),
    };
    Ok(feed_entry_of(commit, &diff, path))
}

/// Assembles the feed over the [`Repository`] port: up to
/// [`FEED_READ_LIMIT`] commits from `rev` (HEAD when `None`) touching `path`,
/// the first [`feed_window`] of them as entries, newest first, and the newest
/// commit's date. An unborn repository yields the empty feed.
pub fn assemble_feed<R: Repository>(repo: &R, rev: Option<&str>, path: Option<&str>, now: i64) -> (r: Result<
    Feed,
    DomainError,
>)
    ensures
        r matches Ok(f) ==> forall|i: int| 0 <= i < f.spec_entries().len() ==> from_a_commit(#[trigger] f.spec_entries()[i]),
{
    let start: ObjectId = match resolve_start(repo, rev) {
        Ok(Some(oid)) => oid,
        Ok(None) => return Ok(Feed::default()),
        Err(e) => return Err(e),
    };
    let commits: Vec<Commit> = match repo.history(&start, path, Page::new(0, FEED_READ_LIMIT)) {
        Ok(c) => c,
        Err(e) => return Err(e),
    };
    let mut epochs: Vec<i64> = Vec::new();
    let mut i: usize = 0;
    while i < commits.len()
        invariant
            0 <= i <= commits@.len(),
            epochs@.len() == i,
        decreases commits.len() - i,
    {
        epochs.push(commits[i].committer().epoch());
        i += 1;
    }
    let keep: usize = feed_window(epochs.as_slice(), now);
    let latest: Option<Timestamp> = if commits.len() > 0 {
        let newest: &Commit = &commits[0];
        if !zone_fits_exec(newest.committer().epoch(), newest.committer().timezone()) {
            return Err(DomainError::Backend("commit time out of range".to_owned()));
        }
        Some(Timestamp::from_signature(newest.committer()))
    } else {
        None
    };
    let mut entries: Vec<FeedEntry> = Vec::new();
    let mut k: usize = 0;
    while k < keep
        invariant
            0 <= k <= keep,
            keep <= commits@.len(),
            forall|q: int| 0 <= q < entries@.len() ==> from_a_commit(#[trigger] entries@[q]@),
        decreases keep - k,
    {
        let entry: FeedEntry = match entry_of(repo, &commits[k], path) {
            Ok(e) => e,
            Err(e) => return Err(e),
        };
        assert(entry_matches_commit(entry@, commits@[k as int]@));
        entries.push(entry);
        k += 1;
    }
    let feed = Feed::new(entries, latest);
    assert forall|q: int| 0 <= q < feed.spec_entries().len() implies from_a_commit(#[trigger] feed.spec_entries()[q]) by {
        assert(feed.spec_entries()[q] == entries@[q]@);
    }
    Ok(feed)
}

} // verus!
