//! The change-search use case: gitweb's `git_search` dispatch to
//! `git_search_changes` (the `pickaxe` facet).
//!
//! gitweb checks the `search` feature, then the `pickaxe` feature (403 for
//! either), validates the pattern (400 on a malformed regexp), resolves the
//! base revision (HEAD by default; 404 "Unknown commit object" when it names
//! no commit) and lists every commit `git log -S` finds from there, newest
//! first and unpaged. Each row shows the commit's date cell, its author
//! chopped to 15 characters, its subject, and the files whose count of the
//! pattern it changed, a deleted file dropped (it has no blob to link).

use vstd::prelude::*;

use crate::error::{DomainError, ErrorView};
use crate::model::chop::{chop_right, chop_str, ChopMode};
use crate::model::commit::{title_of, Commit, CommitView, TITLE_LEN, TITLE_SHORT_LEN};
use crate::model::commit_date::{commit_date_of, CommitDate, CommitDateView};
use crate::model::object_id::ObjectId;
use crate::model::pickaxe::{change_views, PickaxeChange, PickaxeChangeView, PickaxeMatch};
use crate::model::pickaxe_pattern::PickaxePattern;
use crate::model::search_pattern::{invalid_message, regex_compiles};
use crate::port::repository::Repository;
use crate::usecase::search::unknown_commit;
use crate::usecase::shortlog::age_fits;

verus! {

/// gitweb's `chop_and_escape_str($author, 15, 5)` on the pickaxe row.
pub const AUTHOR_LEN: usize = 15;

/// The author chop's word slack.
pub const AUTHOR_SLACK: usize = 5;

/// One changed file under a matching commit: its path and the id of the blob
/// it links to.
pub struct PickaxeFile {
    path: String,
    blob: String,
}

/// A [`PickaxeFile`] seen through its texts.
pub struct PickaxeFileView {
    pub path: Seq<char>,
    pub blob: Seq<char>,
}

impl View for PickaxeFile {
    type V = PickaxeFileView;

    closed spec fn view(&self) -> PickaxeFileView {
        PickaxeFileView { path: self.path@, blob: self.blob@ }
    }
}

impl PickaxeFile {
    /// The file's path, relative to the repository root.
    pub fn path(&self) -> (r: &str)
        ensures
            r@ == self@.path,
    {
        self.path.as_str()
    }

    /// The id (full hex) of the file's blob after the change.
    pub fn blob(&self) -> (r: &str)
        ensures
            r@ == self@.blob,
    {
        self.blob.as_str()
    }
}

/// The files of `v`, each seen through its texts.
pub open spec fn pickaxe_file_views(v: Seq<PickaxeFile>) -> Seq<PickaxeFileView> {
    v.map_values(|f: PickaxeFile| f@)
}

/// The files a row lists for `changes`: each change that leaves a blob, in
/// order, a deletion dropped.
pub open spec fn kept_files(changes: Seq<PickaxeChangeView>) -> Seq<PickaxeFileView>
    decreases changes.len(),
{
    if changes.len() == 0 {
        seq![]
    } else {
        let before = kept_files(changes.drop_last());
        match changes.last().to_blob {
            Some(b) => before.push(PickaxeFileView { path: changes.last().path, blob: b }),
            None => before,
        }
    }
}

/// A change row lists no deleted file: every file it lists is a change that
/// leaves a blob, with that change's path and blob, and it lists at most as
/// many files as there are changes.
pub proof fn lemma_kept_files_have_blobs(changes: Seq<PickaxeChangeView>)
    ensures
        kept_files(changes).len() <= changes.len(),
        forall|i: int|
            0 <= i < kept_files(changes).len() ==> exists|j: int|
                0 <= j < changes.len() && #[trigger] changes[j].to_blob == Some(
                    (#[trigger] kept_files(changes)[i]).blob,
                ) && changes[j].path == kept_files(changes)[i].path,
    decreases changes.len(),
{
    if changes.len() > 0 {
        let before = changes.drop_last();
        lemma_kept_files_have_blobs(before);
        let kept = kept_files(changes);
        assert forall|i: int| 0 <= i < kept.len() implies exists|j: int|
            0 <= j < changes.len() && #[trigger] changes[j].to_blob == Some((#[trigger] kept[i]).blob)
                && changes[j].path == kept[i].path by {
            if i < kept_files(before).len() {
                assert(kept[i] == kept_files(before)[i]);
                let j = choose|j: int|
                    0 <= j < before.len() && #[trigger] before[j].to_blob == Some(kept_files(before)[i].blob)
                        && before[j].path == kept_files(before)[i].path;
                assert(changes[j] == before[j]);
            } else {
                let j = changes.len() - 1;
                assert(changes[j] == changes.last());
            }
        }
    }
}

/// One matching commit on the results page.
pub struct PickaxeRow {
    id: String,
    tree_id: String,
    date: CommitDate,
    author: String,
    author_short: String,
    title: String,
    title_short: String,
    files: Vec<PickaxeFile>,
}

/// A [`PickaxeRow`] seen through its texts.
pub struct PickaxeRowView {
    pub id: Seq<char>,
    pub tree_id: Seq<char>,
    pub date: CommitDateView,
    pub author: Seq<char>,
    pub author_short: Seq<char>,
    pub title: Seq<char>,
    pub title_short: Seq<char>,
    pub files: Seq<PickaxeFileView>,
}

impl View for PickaxeRow {
    type V = PickaxeRowView;

    closed spec fn view(&self) -> PickaxeRowView {
        PickaxeRowView {
            id: self.id@,
            tree_id: self.tree_id@,
            date: self.date@,
            author: self.author@,
            author_short: self.author_short@,
            title: self.title@,
            title_short: self.title_short@,
            files: pickaxe_file_views(self.files@),
        }
    }
}

impl PickaxeRow {
    /// The commit's id (full hex).
    pub fn id(&self) -> (r: &str)
        ensures
            r@ == self@.id,
    {
        self.id.as_str()
    }

    /// The commit's tree id (full hex).
    pub fn tree_id(&self) -> (r: &str)
        ensures
            r@ == self@.tree_id,
    {
        self.tree_id.as_str()
    }

    /// The date cell with the two-week age/date swap resolved.
    pub fn date(&self) -> (r: &CommitDate)
        ensures
            r@ == self@.date,
    {
        &self.date
    }

    /// The full author name.
    pub fn author(&self) -> (r: &str)
        ensures
            r@ == self@.author,
    {
        self.author.as_str()
    }

    /// The author name chopped to 15 characters.
    pub fn author_short(&self) -> (r: &str)
        ensures
            r@ == self@.author_short,
    {
        self.author_short.as_str()
    }

    /// The commit subject, chopped to 80 characters.
    pub fn title(&self) -> (r: &str)
        ensures
            r@ == self@.title,
    {
        self.title.as_str()
    }

    /// The commit subject, chopped to 50 characters.
    pub fn title_short(&self) -> (r: &str)
        ensures
            r@ == self@.title_short,
    {
        self.title_short.as_str()
    }

    /// The changed files that still have a blob, in the diff's path order.
    pub fn files(&self) -> (r: &[PickaxeFile])
        ensures
            pickaxe_file_views(r@) == self@.files,
    {
        self.files.as_slice()
    }
}

/// The row of commit `c` with changed files `changes`, seen at time `now`.
pub open spec fn pickaxe_row_of(c: CommitView, changes: Seq<PickaxeChangeView>, now: i64) -> PickaxeRowView {
    PickaxeRowView {
        id: c.id,
        tree_id: c.tree,
        date: commit_date_of(c.committer.epoch, now),
        author: c.author.name,
        author_short: chop_right(c.author.name, AUTHOR_LEN as nat, AUTHOR_SLACK as nat),
        title: title_of(c.message, TITLE_LEN as nat),
        title_short: title_of(c.message, TITLE_SHORT_LEN as nat),
        files: kept_files(changes),
    }
}

/// The files a row lists for `changes` (see [`kept_files`]).
pub fn files_of(changes: &[PickaxeChange]) -> (r: Vec<PickaxeFile>)
    ensures
        pickaxe_file_views(r@) == kept_files(change_views(changes@)),
{
    let ghost cs = change_views(changes@);
    let mut files: Vec<PickaxeFile> = Vec::new();
    let mut i: usize = 0;
    while i < changes.len()
        invariant
            0 <= i <= changes@.len(),
            cs == change_views(changes@),
            pickaxe_file_views(files@) == kept_files(cs.take(i as int)),
        decreases changes.len() - i,
    {
        proof {
            assert(cs.take(i + 1).drop_last() =~= cs.take(i as int));
            assert(cs.take(i + 1).last() == changes@[i as int]@);
        }
        let change: &PickaxeChange = &changes[i];
        match change.to_blob() {
            Some(blob) => {
                let file = PickaxeFile { path: change.path().to_owned(), blob: blob.as_str().to_owned() };
                let ghost before = files@;
                files.push(file);
                assert(pickaxe_file_views(files@) =~= pickaxe_file_views(before).push(file@));
            },
            None => {},
        }
        i += 1;
    }
    assert(cs.take(changes@.len() as int) =~= cs);
    files
}

/// The row of one match, seen at request time `now` (see [`pickaxe_row_of`]).
pub fn row_of(pickaxe_match: &PickaxeMatch, now: i64) -> (r: PickaxeRow)
    requires
        age_fits(pickaxe_match.spec_commit().committer.epoch, now),
    ensures
        r@ == pickaxe_row_of(pickaxe_match.spec_commit(), pickaxe_match.spec_changes(), now),
{
    let commit: &Commit = pickaxe_match.commit();
    let author: String = commit.author().name().to_owned();
    let author_short: String = chop_str(author.as_str(), AUTHOR_LEN, AUTHOR_SLACK, ChopMode::Right);
    let files: Vec<PickaxeFile> = files_of(pickaxe_match.changes());
    PickaxeRow {
        id: commit.id().as_str().to_owned(),
        tree_id: commit.tree().as_str().to_owned(),
        date: CommitDate::new(commit.committer().epoch(), now),
        author_short,
        author,
        title: commit.title(),
        title_short: commit.title_short(),
        files,
    }
}

/// The assembled change-search results.
pub struct PickaxeView {
    title: String,
    base_id: String,
    rows: Vec<PickaxeRow>,
}

/// The rows of `v`, each seen through its texts.
pub open spec fn pickaxe_row_views(v: Seq<PickaxeRow>) -> Seq<PickaxeRowView> {
    v.map_values(|r: PickaxeRow| r@)
}

impl PickaxeView {
    /// The base commit's subject.
    pub closed spec fn spec_title(&self) -> Seq<char> {
        self.title@
    }

    /// The id of the commit the search is rooted at.
    pub closed spec fn spec_base_id(&self) -> Seq<char> {
        self.base_id@
    }

    /// The matching rows.
    pub closed spec fn spec_rows(&self) -> Seq<PickaxeRowView> {
        pickaxe_row_views(self.rows@)
    }

    /// The base commit's subject, shown as the page title.
    pub fn title(&self) -> (r: &str)
        ensures
            r@ == self.spec_title(),
    {
        self.title.as_str()
    }

    /// The id of the commit the search is rooted at (full hex).
    pub fn base_id(&self) -> (r: &str)
        ensures
            r@ == self.spec_base_id(),
    {
        self.base_id.as_str()
    }

    /// The matching commits, newest first.
    pub fn rows(&self) -> (r: &[PickaxeRow])
        ensures
            pickaxe_row_views(r@) == self.spec_rows(),
    {
        self.rows.as_slice()
    }
}

/// `row` is the row of some commit and its changed files, seen at `now`.
pub open spec fn row_of_a_match(row: PickaxeRowView, now: i64) -> bool {
    exists|c: CommitView, changes: Seq<PickaxeChangeView>| #[trigger] pickaxe_row_of(c, changes, now) == row
}

/// Every match's commit time lies within an `i64` of `now`.
pub open spec fn all_ages_fit(matches: Seq<PickaxeMatch>, now: i64) -> bool {
    forall|i: int| 0 <= i < matches.len() ==> age_fits(#[trigger] matches[i].spec_commit().committer.epoch, now)
}

/// The results page for base commit `base_commit` (id `base`) and the
/// matches git reported, one row per match in order, seen at time `now`.
pub fn pickaxe_view_of(base_commit: &Commit, base: &ObjectId, matches: &[PickaxeMatch], now: i64) -> (r: PickaxeView)
    requires
        all_ages_fit(matches@, now),
    ensures
        r.spec_title() == title_of(base_commit@.message, TITLE_LEN as nat),
        r.spec_base_id() == base@,
        r.spec_rows().len() == matches@.len(),
        forall|i: int|
            0 <= i < matches@.len() ==> #[trigger] r.spec_rows()[i] == pickaxe_row_of(
                matches@[i].spec_commit(),
                matches@[i].spec_changes(),
                now,
            ),
{
    let mut rows: Vec<PickaxeRow> = Vec::new();
    let mut i: usize = 0;
    while i < matches.len()
        invariant
            0 <= i <= matches@.len(),
            all_ages_fit(matches@, now),
            rows@.len() == i,
            forall|k: int|
                0 <= k < i ==> (#[trigger] rows@[k])@ == pickaxe_row_of(
                    matches@[k].spec_commit(),
                    matches@[k].spec_changes(),
                    now,
                ),
        decreases matches.len() - i,
    {
        assert(age_fits(matches@[i as int].spec_commit().committer.epoch, now));
        rows.push(row_of(&matches[i], now));
        i += 1;
    }
    let view = PickaxeView { title: base_commit.title(), base_id: base.as_str().to_owned(), rows };
    assert forall|k: int| 0 <= k < matches@.len() implies #[trigger] view.spec_rows()[k] == pickaxe_row_of(
        matches@[k].spec_commit(),
        matches@[k].spec_changes(),
        now,
    ) by {
        assert(view.spec_rows()[k] == rows@[k]@);
    }
    view
}

/// Whether every match's commit time lies within an `i64` of `now` (see
/// [`all_ages_fit`]).
pub fn ages_fit(matches: &[PickaxeMatch], now: i64) -> (r: bool)
    ensures
        r == all_ages_fit(matches@, now),
{
    let mut i: usize = 0;
    while i < matches.len()
        invariant
            0 <= i <= matches@.len(),
            forall|k: int| 0 <= k < i ==> age_fits(#[trigger] matches@[k].spec_commit().committer.epoch, now),
        decreases matches.len() - i,
    {
        if now.checked_sub(matches[i].commit().committer().epoch()).is_none() {
            return false;
        }
        i += 1;
    }
    true
}

/// Assembles the change-search results over the [`Repository`] port:
/// forbidden when search or pickaxe is off (in that order), invalid when an
/// expression does not compile, and otherwise every match of `text` from
/// `base_rev` (HEAD when `None`), newest first (see [`pickaxe_view_of`]).
pub fn assemble_pickaxe<R: Repository>(
    repo: &R,
    search_enabled: bool,
    pickaxe_enabled: bool,
    base_rev: Option<&str>,
    text: &str,
    use_regexp: bool,
    now: i64,
) -> (r: Result<PickaxeView, DomainError>)
    ensures
        !search_enabled ==> (r matches Err(e) && e@ == ErrorView::Forbidden("Search is disabled"@)),
        search_enabled && !pickaxe_enabled ==> (r matches Err(e) && e@ == ErrorView::Forbidden(
            "Pickaxe search is disabled"@,
        )),
        search_enabled && pickaxe_enabled && use_regexp && !regex_compiles(text@) ==> (r matches Err(e) && e@
            == ErrorView::Invalid(invalid_message(text@))),
        r matches Ok(v) ==> forall|i: int| 0 <= i < v.spec_rows().len() ==> row_of_a_match(#[trigger] v.spec_rows()[i], now),
{
    if !search_enabled {
        return Err(crate::error::forbidden("Search is disabled"));
    }
    if !pickaxe_enabled {
        return Err(crate::error::forbidden("Pickaxe search is disabled"));
    }
    let pattern: PickaxePattern = match PickaxePattern::new(text, use_regexp) {
        Ok(p) => p,
        Err(e) => return Err(e),
    };
    let base: ObjectId = match base_rev {
        Some(rev) => match repo.resolve(rev) {
            Ok(oid) => oid,
            Err(e) => return Err(unknown_commit(e)),
        },
        None => match repo.head() {
            Ok(reference) => reference.target().clone(),
            Err(e) => return Err(unknown_commit(e)),
        },
    };
    let base_commit: Commit = match repo.find_commit(&base) {
        Ok(c) => c,
        Err(e) => return Err(unknown_commit(e)),
    };
    let matches: Vec<PickaxeMatch> = match repo.pickaxe(&base, &pattern) {
        Ok(found) => found,
        Err(e) => return Err(e),
    };
    if !ages_fit(matches.as_slice(), now) {
        return Err(DomainError::Backend("commit time out of range".to_owned()));
    }
    let view: PickaxeView = pickaxe_view_of(&base_commit, &base, matches.as_slice(), now);
    assert forall|i: int| 0 <= i < view.spec_rows().len() implies row_of_a_match(#[trigger] view.spec_rows()[i], now) by {
        let m = matches@[i];
        assert(pickaxe_row_of(m.spec_commit(), m.spec_changes(), now) == view.spec_rows()[i]);
    }
    Ok(view)
}

} // verus!
