//! The `history` use case: gitweb's `git_history` / `git_history_body`, minus
//! the HTML.
//!
//! The per-path log: the windowed walk limited to commits touching one path.
//! The path's type and its current blob are read once, from the first commit
//! of the window that still has the path (a window where none has it is
//! gitweb's 500 "Unknown type of object"). A file row whose blob differs from
//! the current one links a "diff to current".

use vstd::prelude::*;

use crate::error::{DomainError, ErrorView};
use crate::model::chop::{chop_right, chop_str, ChopMode};
use crate::model::commit::{title_of, Commit, CommitView, TITLE_LEN, TITLE_SHORT_LEN};
use crate::model::commit_date::{commit_date_of, CommitDate, CommitDateView};
use crate::model::object_id::ObjectId;
use crate::model::object_kind::ObjectKind;
use crate::port::repository::{Page, Repository};
use crate::text::str_eq;
use crate::usecase::log_generic::{commit_views, walk_commits, CommitWindow};
use crate::usecase::shortlog::age_fits;

verus! {

/// gitweb's `chop_str($author, 15, 3)` on the history row.
pub const AUTHOR_LEN: usize = 15;

/// The author chop's word slack.
pub const AUTHOR_SLACK: usize = 3;

/// One commit of a path's history.
#[derive(Debug, Clone, PartialEq, Eq)]
pub struct HistoryRow {
    id: String,
    date: CommitDate,
    author: String,
    author_short: String,
    title: String,
    title_short: String,
    diff_to_current: Option<String>,
}

/// A history row seen through its texts.
pub struct HistoryRowView {
    pub id: Seq<char>,
    pub date: CommitDateView,
    pub author: Seq<char>,
    pub author_short: Seq<char>,
    pub title: Seq<char>,
    pub title_short: Seq<char>,
    pub diff_to_current: Option<Seq<char>>,
}

impl View for HistoryRow {
    type V = HistoryRowView;

    closed spec fn view(&self) -> HistoryRowView {
        HistoryRowView {
            id: self.id@,
            date: self.date@,
            author: self.author@,
            author_short: self.author_short@,
            title: self.title@,
            title_short: self.title_short@,
            diff_to_current: match self.diff_to_current {
                Some(s) => Some(s@),
                None => None,
            },
        }
    }
}

impl HistoryRow {
    /// The commit's object id (full hex).
    pub fn id(&self) -> (r: &str)
        ensures
            r@ == self@.id,
    {
        self.id.as_str()
    }

    /// The date cell with the two-week age/date swap resolved.
    pub fn date(&self) -> (r: &CommitDate)
        ensures
            r@ == self@.date,
    {
        &self.date
    }

    /// The full author name.
    pub fn author(&self) -> (r: &str)
        ensures
            r@ == self@.author,
    {
        self.author.as_str()
    }

    /// The author name chopped to 15 characters.
    pub fn author_short(&self) -> (r: &str)
        ensures
            r@ == self@.author_short,
    {
        self.author_short.as_str()
    }

    /// The commit subject, chopped to 80 characters.
    pub fn title(&self) -> (r: &str)
        ensures
            r@ == self@.title,
    {
        self.title.as_str()
    }

    /// The commit subject, chopped to 50 characters.
    pub fn title_short(&self) -> (r: &str)
        ensures
            r@ == self@.title_short,
    {
        self.title_short.as_str()
    }

    /// The path's blob at this commit, when it is a file that differs from
    /// the current blob (gitweb's "diff to current").
    pub fn diff_to_current(&self) -> (r: Option<&str>)
        ensures
            match self@.diff_to_current {
                Some(s) => r matches Some(x) && x@ == s,
                None => r is None,
            },
    {
        match &self.diff_to_current {
            Some(s) => Some(s.as_str()),
            None => None,
        }
    }
}

/// The assembled history of one path.
#[derive(Debug, Clone, PartialEq, Eq)]
pub struct HistoryView {
    file_name: String,
    file_type: ObjectKind,
    file_hash: String,
    rows: Vec<HistoryRow>,
    has_more: bool,
}

/// The rows of `v`, each seen through its texts.
pub open spec fn history_row_views(v: Seq<HistoryRow>) -> Seq<HistoryRowView> {
    v.map_values(|r: HistoryRow| r@)
}

impl HistoryView {
    /// The path the history is of.
    pub closed spec fn spec_file_name(&self) -> Seq<char> {
        self.file_name@
    }

    /// The path's object kind.
    pub closed spec fn spec_file_type(&self) -> ObjectKind {
        self.file_type
    }

    /// The path's current object id.
    pub closed spec fn spec_file_hash(&self) -> Seq<char> {
        self.file_hash@
    }

    /// The rows of the page.
    pub closed spec fn spec_rows(&self) -> Seq<HistoryRowView> {
        history_row_views(self.rows@)
    }

    /// Whether a further page exists.
    pub closed spec fn spec_has_more(&self) -> bool {
        self.has_more
    }

    /// The path the history is of.
    pub fn file_name(&self) -> (r: &str)
        ensures
            r@ == self.spec_file_name(),
    {
        self.file_name.as_str()
    }

    /// The path's kind: a blob for a file, a tree for a directory.
    pub fn file_type(&self) -> (r: ObjectKind)
        ensures
            r == self.spec_file_type(),
    {
        self.file_type
    }

    /// The path's current object id (gitweb's `$file_hash`).
    pub fn file_hash(&self) -> (r: &str)
        ensures
            r@ == self.spec_file_hash(),
    {
        self.file_hash.as_str()
    }

    /// The rows of this page.
    pub fn rows(&self) -> (r: &[HistoryRow])
        ensures
            history_row_views(r@) == self.spec_rows(),
    {
        self.rows.as_slice()
    }

    /// Whether a further page exists.
    pub fn has_more(&self) -> (r: bool)
        ensures
            r == self.spec_has_more(),
    {
        self.has_more
    }
}

/// The "diff to current" link of a row: only for a file, whose blob at the
/// row's commit exists and differs from the current blob.
pub open spec fn diff_link(file_type: ObjectKind, at_commit: Option<Seq<char>>, current: Seq<char>) -> Option<Seq<char>> {
    if file_type != ObjectKind::Blob {
        None
    } else {
        match at_commit {
            Some(p) => if p != current {
                Some(p)
            } else {
                None
            },
            None => None,
        }
    }
}

/// The "diff to current" link (see [`diff_link`]).
pub fn diff_to_current_of(file_type: ObjectKind, at_commit: Option<ObjectId>, current: &ObjectId) -> (r: Option<String>)
    ensures
        match diff_link(
            file_type,
            match at_commit {
                Some(o) => Some(o@),
                None => None,
            },
            current@,
        ) {
            Some(s) => r matches Some(x) && x@ == s,
            None => r is None,
        },
{
    if file_type != ObjectKind::Blob {
        return None;
    }
    match at_commit {
        Some(p) => if !str_eq(p.as_str(), current.as_str()) {
            Some(p.as_str().to_owned())
        } else {
            None
        },
        None => None,
    }
}

/// The row of commit `c` seen at `now` with its diff link.
pub open spec fn history_row_of(c: CommitView, now: i64, diff: Option<Seq<char>>) -> HistoryRowView {
    HistoryRowView {
        id: c.id,
        date: commit_date_of(c.committer.epoch, now),
        author: c.author.name,
        author_short: chop_right(c.author.name, AUTHOR_LEN as nat, AUTHOR_SLACK as nat),
        title: title_of(c.message, TITLE_LEN as nat),
        title_short: title_of(c.message, TITLE_SHORT_LEN as nat),
        diff_to_current: diff,
    }
}

/// One history row (see [`history_row_of`]).
pub fn history_row(commit: &Commit, now: i64, diff_to_current: Option<String>) -> (r: HistoryRow)
    requires
        age_fits(commit@.committer.epoch, now),
    ensures
        r@ == history_row_of(
            commit@,
            now,
            match diff_to_current {
                Some(s) => Some(s@),
                None => None,
            },
        ),
{
    let author: String = commit.author().name().to_owned();
    let author_short: String = chop_str(author.as_str(), AUTHOR_LEN, AUTHOR_SLACK, ChopMode::Right);
    HistoryRow {
        id: commit.id().as_str().to_owned(),
        date: CommitDate::new(commit.committer().epoch(), now),
        author_short,
        author,
        title: commit.title(),
        title_short: commit.title_short(),
        diff_to_current,
    }
}

/// The path's current id: its id at the first commit of `commits` that has it.
pub fn current_blob<R: Repository>(repo: &R, commits: &Vec<Commit>, path: &str) -> (r: Result<Option<ObjectId>, DomainError>)
    ensures
        commits@.len() == 0 ==> r matches Ok(None),
{
    let mut i: usize = 0;
    while i < commits.len()
        invariant
            0 <= i <= commits@.len(),
        decreases commits.len() - i,
    {
        match repo.path_id(commits[i].id(), path) {
            Ok(Some(oid)) => return Ok(Some(oid)),
            Ok(None) => {},
            Err(e) => return Err(e),
        }
        i += 1;
    }
    Ok(None)
}

/// The optional id seen as its text.
pub open spec fn opt_id_view(o: Option<ObjectId>) -> Option<Seq<char>> {
    match o {
        Some(x) => Some(x@),
        None => None,
    }
}

/// `rows` are the rows of `commits` at `now`, in order, each with its diff
/// link against `current` from the path's id `at[i]` at that commit.
pub open spec fn history_rows_of(
    rows: Seq<HistoryRowView>,
    commits: Seq<CommitView>,
    now: i64,
    file_type: ObjectKind,
    current: Seq<char>,
    at: Seq<Option<Seq<char>>>,
) -> bool {
    &&& rows.len() == commits.len()
    &&& forall|i: int|
        0 <= i < rows.len() ==> #[trigger] rows[i] == history_row_of(commits[i], now, diff_link(file_type, at[i], current))
}

/// The history page of `path` from one walked page: the path's kind and
/// current id, and a row per commit at `now`, in order, its diff link taken
/// from the path's id at that commit (`at`, one per commit). A commit whose
/// age does not fit is a backend error.
pub fn history_of(
    window: CommitWindow,
    path: &str,
    file_type: ObjectKind,
    file_hash: ObjectId,
    at: Vec<Option<ObjectId>>,
    now: i64,
) -> (r: Result<HistoryView, DomainError>)
    requires
        at@.len() == window.commits@.len(),
    ensures
        r is Ok <==> forall|i: int| 0 <= i < window.commits@.len() ==> age_fits(#[trigger] window.commits@[i]@.committer.epoch, now),
        r matches Err(e) ==> e@ == ErrorView::Backend("commit time out of range"@),
        r matches Ok(v) ==> {
            &&& v.spec_file_name() == path@
            &&& v.spec_file_type() == file_type
            &&& v.spec_file_hash() == file_hash@
            &&& v.spec_has_more() == window.has_more
            &&& history_rows_of(
                v.spec_rows(),
                commit_views(window.commits@),
                now,
                file_type,
                file_hash@,
                at@.map_values(|o: Option<ObjectId>| opt_id_view(o)),
            )
        },
{
    let commits: &Vec<Commit> = &window.commits;
    let ghost atv = at@.map_values(|o: Option<ObjectId>| opt_id_view(o));
    let mut rows: Vec<HistoryRow> = Vec::new();
    let mut i: usize = 0;
    while i < commits.len()
        invariant
            0 <= i <= commits@.len(),
            commits == &window.commits,
            at@.len() == commits@.len(),
            atv == at@.map_values(|o: Option<ObjectId>| opt_id_view(o)),
            rows@.len() == i,
            forall|k: int| 0 <= k < i ==> age_fits(#[trigger] commits@[k]@.committer.epoch, now),
            forall|k: int|
                0 <= k < i ==> #[trigger] rows@[k]@ == history_row_of(commits@[k]@, now, diff_link(file_type, atv[k], file_hash@)),
        decreases commits.len() - i,
    {
        let commit: &Commit = &commits[i];
        if now.checked_sub(commit.committer().epoch()).is_none() {
            return Err(crate::error::backend("commit time out of range"));
        }
        let here: Option<ObjectId> = match &at[i] {
            Some(o) => Some(o.clone()),
            None => None,
        };
        assert(opt_id_view(here) == atv[i as int]);
        let diff: Option<String> = diff_to_current_of(file_type, here, &file_hash);
        rows.push(history_row(commit, now, diff));
        i += 1;
    }
    let view = HistoryView {
        file_name: path.to_owned(),
        file_type,
        file_hash: file_hash.as_str().to_owned(),
        rows,
        has_more: window.has_more,
    };
    proof {
        let rv = view.spec_rows();
        let cv = commit_views(window.commits@);
        assert forall|k: int| 0 <= k < rv.len() implies #[trigger] rv[k] == history_row_of(
            cv[k],
            now,
            diff_link(file_type, atv[k], file_hash@),
        ) by {
            assert(rv[k] == view.rows@[k]@);
        }
    }
    Ok(view)
}

/// `v` is a history page of `path` of at most `limit` rows: the rows of some
/// walked commits at `now`, each with its diff link against the view's
/// current id, the surplus flag set only on a full page.
pub open spec fn is_history_page(v: HistoryView, now: i64, limit: usize) -> bool {
    exists|commits: Seq<CommitView>, at: Seq<Option<Seq<char>>>| #[trigger] history_page_of(v, now, limit, commits, at)
}

/// The witness form of [`is_history_page`].
pub open spec fn history_page_of(
    v: HistoryView,
    now: i64,
    limit: usize,
    commits: Seq<CommitView>,
    at: Seq<Option<Seq<char>>>,
) -> bool {
    &&& commits.len() <= limit
    &&& (v.spec_has_more() ==> commits.len() == limit)
    &&& history_rows_of(v.spec_rows(), commits, now, v.spec_file_type(), v.spec_file_hash(), at)
}

/// Assembles the history of `path` over the [`Repository`] port: the walked
/// page from `base_rev` (HEAD when `None`), the path's type and current blob,
/// and a row per commit with its date cell at `now` (see [`history_of`]).
pub fn assemble_history<R: Repository>(
    repo: &R,
    base_rev: Option<&str>,
    path: &str,
    now: i64,
    page: Page,
) -> (r: Result<HistoryView, DomainError>)
    requires
        page.limit < usize::MAX,
    ensures
        r matches Ok(v) ==> v.spec_file_name() == path@ && v.spec_rows().len() <= page.limit,
        r matches Ok(v) ==> is_history_page(v, now, page.limit),
{
    let window: CommitWindow = match walk_commits(repo, base_rev, Some(path), page) {
        Ok(w) => w,
        Err(e) => return Err(e),
    };
    let file_hash: ObjectId = match current_blob(repo, &window.commits, path) {
        Ok(Some(oid)) => oid,
        Ok(None) => return Err(DomainError::Backend("Unknown type of object".to_owned())),
        Err(e) => return Err(e),
    };
    let file_type: ObjectKind = match repo.object_kind(&file_hash) {
        Ok(k) => k,
        Err(e) => return Err(e),
    };
    let mut at: Vec<Option<ObjectId>> = Vec::new();
    let mut i: usize = 0;
    while i < window.commits.len()
        invariant
            0 <= i <= window.commits@.len(),
            at@.len() == i,
        decreases window.commits.len() - i,
    {
        let commit: &Commit = &window.commits[i];
        if file_type == ObjectKind::Blob {
            match repo.path_id(commit.id(), path) {
                Ok(here) => at.push(here),
                Err(e) => return Err(e),
            }
        } else {
            at.push(None);
        }
        if now.checked_sub(commit.committer().epoch()).is_none() {
            return Err(DomainError::Backend("commit time out of range".to_owned()));
        }
        i += 1;
    }
    let ghost cv = commit_views(window.commits@);
    let ghost atv = at@.map_values(|o: Option<ObjectId>| opt_id_view(o));
    let r = history_of(window, path, file_type, file_hash, at, now);
    proof {
        if r is Ok {
            assert(history_page_of(r->Ok_0, now, page.limit, cv, atv));
        }
    }
    r
}

} // verus!
