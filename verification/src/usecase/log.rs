//! The `log` use case: gitweb's `git_log` / `git_log_body`, minus the HTML.
//!
//! The verbose counterpart of the shortlog: the same windowed walk, each
//! commit a block with its relative age (always an age here), its author and
//! the author's absolute date, its subject, its displayed message body, and
//! the badges of the refs at it.

use vstd::prelude::*;

use crate::error::{DomainError, ErrorView};
use crate::model::reference::DereferencedRef;
use crate::model::age::{age_text, Age};
use crate::model::commit::{title_of, Commit, CommitView, TITLE_LEN};
use crate::model::message_body::{log_line_views, log_lines, log_lines_of, LogLine, LogLineView};
use crate::model::ref_marker::{marker_views, markers_among, MarkerView, RefMarker, RefMarkerView};
use crate::model::timestamp::{timestamp_of, zone_fits, zone_fits_exec, Timestamp, TimestampView};
use crate::port::repository::{Page, Repository};
use crate::usecase::log_generic::{commit_views, walk_commits, CommitWindow};
use crate::usecase::ref_markers::{assemble_ref_markers, RefMarkerIndex};
use crate::usecase::shortlog::age_fits;

verus! {

/// One commit as the verbose log shows it.
#[derive(Debug, Clone)]
pub struct LogRow {
    id: String,
    age: String,
    author: String,
    timestamp: Timestamp,
    title: String,
    comment: Vec<LogLine>,
    markers: Vec<RefMarker>,
}

/// A log row seen through its texts.
pub struct LogRowView {
    pub id: Seq<char>,
    pub age: Seq<char>,
    pub author: Seq<char>,
    pub timestamp: TimestampView,
    pub title: Seq<char>,
    pub comment: Seq<LogLineView>,
    pub markers: Seq<RefMarkerView>,
}

impl View for LogRow {
    type V = LogRowView;

    closed spec fn view(&self) -> LogRowView {
        LogRowView {
            id: self.id@,
            age: self.age@,
            author: self.author@,
            timestamp: self.timestamp@,
            title: self.title@,
            comment: log_line_views(self.comment@),
            markers: marker_views(self.markers@),
        }
    }
}

impl LogRow {
    /// The commit's object id (full hex).
    pub fn id(&self) -> (r: &str)
        ensures
            r@ == self@.id,
    {
        self.id.as_str()
    }

    /// The relative age shown in the block header (from the committer time).
    pub fn age(&self) -> (r: &str)
        ensures
            r@ == self@.age,
    {
        self.age.as_str()
    }

    /// The author's name.
    pub fn author(&self) -> (r: &str)
        ensures
            r@ == self@.author,
    {
        self.author.as_str()
    }

    /// The author's absolute date.
    pub fn timestamp(&self) -> (r: &Timestamp)
        ensures
            r@ == self@.timestamp,
    {
        &self.timestamp
    }

    /// The commit subject.
    pub fn title(&self) -> (r: &str)
        ensures
            r@ == self@.title,
    {
        self.title.as_str()
    }

    /// The displayed message body.
    pub fn comment(&self) -> (r: &[LogLine])
        ensures
            log_line_views(r@) == self@.comment,
    {
        self.comment.as_slice()
    }

    /// The badges of the refs at this commit.
    pub fn markers(&self) -> (r: &[RefMarker])
        ensures
            marker_views(r@) == self@.markers,
    {
        self.markers.as_slice()
    }
}

/// The assembled verbose log.
#[derive(Debug, Clone)]
pub struct LogView {
    rows: Vec<LogRow>,
    has_more: bool,
}

/// The rows of `v`, each seen through its texts.
pub open spec fn log_row_views(v: Seq<LogRow>) -> Seq<LogRowView> {
    v.map_values(|r: LogRow| r@)
}

impl LogView {
    /// The rows.
    pub closed spec fn spec_rows(&self) -> Seq<LogRowView> {
        log_row_views(self.rows@)
    }

    /// Whether a further page exists.
    pub closed spec fn spec_has_more(&self) -> bool {
        self.has_more
    }

    /// The commit rows for this page.
    pub fn rows(&self) -> (r: &[LogRow])
        ensures
            log_row_views(r@) == self.spec_rows(),
    {
        self.rows.as_slice()
    }

    /// Whether a further page exists.
    pub fn has_more(&self) -> (r: bool)
        ensures
            r == self.spec_has_more(),
    {
        self.has_more
    }
}

/// The block of commit `c` seen at `now`, with the badges of the indexed refs.
pub open spec fn log_row_of(c: CommitView, now: i64, markers: Seq<RefMarkerView>) -> LogRowView {
    LogRowView {
        id: c.id,
        age: age_text(now - c.committer.epoch),
        author: c.author.name,
        timestamp: timestamp_of(c.author.epoch, c.author.timezone),
        title: title_of(c.message, TITLE_LEN as nat),
        comment: log_lines_of(c.message),
        markers,
    }
}

/// One block of the verbose log (see [`log_row_of`]).
pub fn row_of(commit: &Commit, now: i64, markers: &RefMarkerIndex) -> (r: LogRow)
    requires
        age_fits(commit@.committer.epoch, now),
        zone_fits(commit@.author.epoch as int, commit@.author.timezone),
    ensures
        r@ == log_row_of(
            commit@,
            now,
            markers_among(markers.spec_refs(), commit@.id, markers.spec_view(), markers.spec_refs().len() as int),
        ),
{
    let age: Age = Age::from_seconds(now - commit.committer().epoch());
    LogRow {
        id: commit.id().as_str().to_owned(),
        age: age.humanized(),
        author: commit.author().name().to_owned(),
        timestamp: Timestamp::from_signature(commit.author()),
        title: commit.title(),
        comment: log_lines(commit.message()),
        markers: markers.for_commit(commit.id()),
    }
}

/// The badges of the refs among `refs` that decorate commit `id`, in the
/// listing `view`.
pub open spec fn badges_of(refs: Seq<DereferencedRef>, id: Seq<char>, view: MarkerView) -> Seq<RefMarkerView> {
    markers_among(refs, id, view, refs.len() as int)
}

/// Whether commit `c` can be shown at `now`: its age fits the clock's integer
/// and its author time fits its zone.
pub open spec fn log_time_fits(c: CommitView, now: i64) -> bool {
    age_fits(c.committer.epoch, now) && zone_fits(c.author.epoch as int, c.author.timezone)
}

/// `rows` are the blocks of `commits` at `now`, in order, each with the log
/// badges of the refs `refs` at it.
pub open spec fn log_rows_of(rows: Seq<LogRowView>, commits: Seq<CommitView>, now: i64, refs: Seq<DereferencedRef>) -> bool {
    &&& rows.len() == commits.len()
    &&& forall|i: int|
        0 <= i < rows.len() ==> #[trigger] rows[i] == log_row_of(commits[i], now, badges_of(refs, commits[i].id, MarkerView::Log))
}

/// The log of one walked page: a block per commit, in order, each with its
/// badges from `markers`, and the page's surplus flag. A commit whose age or
/// author time does not fit is a backend error.
pub fn log_of(window: CommitWindow, now: i64, markers: &RefMarkerIndex) -> (r: Result<LogView, DomainError>)
    requires
        markers.spec_view() == MarkerView::Log,
    ensures
        r is Ok <==> forall|i: int| 0 <= i < window.commits@.len() ==> log_time_fits(#[trigger] window.commits@[i]@, now),
        r matches Err(e) ==> e@ == ErrorView::Backend("commit time out of range"@),
        r matches Ok(v) ==> log_rows_of(v.spec_rows(), commit_views(window.commits@), now, markers.spec_refs()),
        r matches Ok(v) ==> v.spec_has_more() == window.has_more,
{
    let commits: &Vec<Commit> = &window.commits;
    let mut rows: Vec<LogRow> = Vec::new();
    let mut i: usize = 0;
    while i < commits.len()
        invariant
            0 <= i <= commits@.len(),
            commits == &window.commits,
            markers.spec_view() == MarkerView::Log,
            rows@.len() == i,
            forall|k: int| 0 <= k < i ==> log_time_fits(#[trigger] commits@[k]@, now),
            forall|k: int|
                0 <= k < i ==> #[trigger] rows@[k]@ == log_row_of(
                    commits@[k]@,
                    now,
                    badges_of(markers.spec_refs(), commits@[k]@.id, MarkerView::Log),
                ),
        decreases commits.len() - i,
    {
        let c: &Commit = &commits[i];
        if now.checked_sub(c.committer().epoch()).is_none() || !zone_fits_exec(c.author().epoch(), c.author().timezone()) {
            return Err(crate::error::backend("commit time out of range"));
        }
        rows.push(row_of(c, now, markers));
        i += 1;
    }
    let view = LogView { rows, has_more: window.has_more };
    proof {
        let rv = view.spec_rows();
        let cv = commit_views(window.commits@);
        assert forall|k: int| 0 <= k < rv.len() implies #[trigger] rv[k] == log_row_of(
            cv[k],
            now,
            badges_of(markers.spec_refs(), cv[k].id, MarkerView::Log),
        ) by {
            assert(rv[k] == view.rows@[k]@);
        }
    }
    Ok(view)
}

/// `rows` and `has_more` are a log page of at most `limit` blocks: the blocks
/// of some walked commits at `now`, badged by some refs, the surplus flag set
/// only on a full page.
pub open spec fn is_log_page(rows: Seq<LogRowView>, has_more: bool, now: i64, limit: usize) -> bool {
    exists|commits: Seq<CommitView>, refs: Seq<DereferencedRef>| #[trigger] log_page_of(rows, has_more, now, limit, commits, refs)
}

/// The witness form of [`is_log_page`].
pub open spec fn log_page_of(
    rows: Seq<LogRowView>,
    has_more: bool,
    now: i64,
    limit: usize,
    commits: Seq<CommitView>,
    refs: Seq<DereferencedRef>,
) -> bool {
    &&& commits.len() <= limit
    &&& (has_more ==> commits.len() == limit)
    &&& log_rows_of(rows, commits, now, refs)
}

/// Assembles the verbose log over the [`Repository`] port: the page walked
/// from `rev` (HEAD when `None`), the refs read once for the badges, and a
/// block per commit at `now` (see [`log_of`]).
pub fn assemble_log<R: Repository>(repo: &R, rev: Option<&str>, now: i64, page: Page) -> (r: Result<LogView, DomainError>)
    requires
        page.limit < usize::MAX,
    ensures
        r matches Ok(v) ==> v.spec_rows().len() <= page.limit,
        r matches Ok(v) ==> is_log_page(v.spec_rows(), v.spec_has_more(), now, page.limit),
{
    let window: CommitWindow = match walk_commits(repo, rev, None, page) {
        Ok(w) => w,
        Err(e) => return Err(e),
    };
    let markers: RefMarkerIndex = match assemble_ref_markers(repo, MarkerView::Log) {
        Ok(m) => m,
        Err(e) => return Err(e),
    };
    let ghost cv = commit_views(window.commits@);
    let ghost has_more = window.has_more;
    let r = log_of(window, now, &markers);
    proof {
        if r is Ok {
            assert(log_page_of(r->Ok_0.spec_rows(), r->Ok_0.spec_has_more(), now, page.limit, cv, markers.spec_refs()));
        }
    }
    r
}

} // verus!
