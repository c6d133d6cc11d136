//! The `shortlog` use case: gitweb's `git_shortlog` / `git_shortlog_body`,
//! minus the HTML. Each commit of the walked page becomes a row with its date
//! cell (the two-week age/date swap), the author name (also chopped to 10
//! characters), and the subject.

use vstd::prelude::*;

use crate::error::DomainError;
use crate::model::chop::{chop_right, chop_str, ChopMode};
use crate::model::commit::{title_of, Commit, CommitView, TITLE_LEN, TITLE_SHORT_LEN};
use crate::model::commit_date::{commit_date_of, CommitDate, CommitDateView};
use crate::port::repository::{Page, Repository};
use crate::usecase::log_generic::{walk_commits, CommitWindow};

verus! {

/// gitweb's `chop_str($author_name, 10)`: the row author bound.
pub const AUTHOR_LEN: usize = 10;

/// gitweb's default `chop_str` slack (`$add_len ||= 10`).
pub const AUTHOR_SLACK: usize = 10;

/// One commit as the shortlog shows it.
#[derive(Debug, Clone, PartialEq, Eq)]
pub struct ShortlogRow {
    id: String,
    date: CommitDate,
    author: String,
    author_short: String,
    title: String,
    title_short: String,
}

/// A shortlog row seen through its texts.
pub struct ShortlogRowView {
    pub id: Seq<char>,
    pub date: CommitDateView,
    pub author: Seq<char>,
    pub author_short: Seq<char>,
    pub title: Seq<char>,
    pub title_short: Seq<char>,
}

impl View for ShortlogRow {
    type V = ShortlogRowView;

    closed spec fn view(&self) -> ShortlogRowView {
        ShortlogRowView {
            id: self.id@,
            date: self.date@,
            author: self.author@,
            author_short: self.author_short@,
            title: self.title@,
            title_short: self.title_short@,
        }
    }
}

/// The row of commit `c` seen at `now`.
pub open spec fn shortlog_row_of(c: CommitView, now: i64) -> ShortlogRowView {
    ShortlogRowView {
        id: c.id,
        date: commit_date_of(c.committer.epoch, now),
        author: c.author.name,
        author_short: chop_right(c.author.name, AUTHOR_LEN as nat, AUTHOR_SLACK as nat),
        title: title_of(c.message, TITLE_LEN as nat),
        title_short: title_of(c.message, TITLE_SHORT_LEN as nat),
    }
}

/// Whether `now - epoch` fits the clock's integer.
pub open spec fn age_fits(epoch: i64, now: i64) -> bool {
    i64::MIN <= now - epoch <= i64::MAX
}

impl ShortlogRow {
    /// The commit's object id (full hex).
    pub fn id(&self) -> (r: &str)
        ensures
            r@ == self@.id,
    {
        self.id.as_str()
    }

    /// The date cell with the two-week age/date swap resolved.
    pub fn date(&self) -> (r: &CommitDate)
        ensures
            r@ == self@.date,
    {
        &self.date
    }

    /// The full author name.
    pub fn author(&self) -> (r: &str)
        ensures
            r@ == self@.author,
    {
        self.author.as_str()
    }

    /// The author name chopped for the row.
    pub fn author_short(&self) -> (r: &str)
        ensures
            r@ == self@.author_short,
    {
        self.author_short.as_str()
    }

    /// The commit subject, chopped to 80 characters.
    pub fn title(&self) -> (r: &str)
        ensures
            r@ == self@.title,
    {
        self.title.as_str()
    }

    /// The commit subject, chopped to 50 characters.
    pub fn title_short(&self) -> (r: &str)
        ensures
            r@ == self@.title_short,
    {
        self.title_short.as_str()
    }
}

/// The assembled shortlog: the rows of this page and whether one more exists.
#[derive(Debug, Clone, PartialEq, Eq)]
pub struct ShortlogView {
    rows: Vec<ShortlogRow>,
    has_more: bool,
}

/// The rows of `v`, each seen through its texts.
pub open spec fn shortlog_row_views(v: Seq<ShortlogRow>) -> Seq<ShortlogRowView> {
    v.map_values(|r: ShortlogRow| r@)
}

impl ShortlogView {
    /// The rows of this page, in walk order.
    pub closed spec fn spec_rows(&self) -> Seq<ShortlogRowView> {
        shortlog_row_views(self.rows@)
    }

    /// Whether a further page exists.
    pub closed spec fn spec_has_more(&self) -> bool {
        self.has_more
    }

    /// The commit rows for this page.
    pub fn rows(&self) -> (r: &[ShortlogRow])
        ensures
            shortlog_row_views(r@) == self.spec_rows(),
    {
        self.rows.as_slice()
    }

    /// Whether a further page exists (gitweb's "..." / "next" affordance).
    pub fn has_more(&self) -> (r: bool)
        ensures
            r == self.spec_has_more(),
    {
        self.has_more
    }
}

/// Turns one commit into a shortlog row (see [`shortlog_row_of`]).
pub fn row_of(commit: &Commit, now: i64) -> (r: ShortlogRow)
    requires
        age_fits(commit@.committer.epoch, now),
    ensures
        r@ == shortlog_row_of(commit@, now),
{
    let author: String = commit.author().name().to_owned();
    let author_short: String = chop_str(author.as_str(), AUTHOR_LEN, AUTHOR_SLACK, ChopMode::Right);
    ShortlogRow {
        id: commit.id().as_str().to_owned(),
        date: CommitDate::new(commit.committer().epoch(), now),
        author_short,
        author,
        title: commit.title(),
        title_short: commit.title_short(),
    }
}

/// The shortlog of one walked page: a row per commit, in order, and the
/// page's surplus flag. Fails with `Backend` when a commit time is so far
/// from `now` that the age does not fit the clock's integer.
pub fn shortlog_of(window: CommitWindow, now: i64) -> (r: Result<ShortlogView, DomainError>)
    ensures
        r is Ok <==> forall|i: int|
            0 <= i < window.commits@.len() ==> age_fits(#[trigger] window.commits@[i]@.committer.epoch, now),
        r matches Ok(v) ==> v.spec_rows().len() == window.commits@.len(),
        r matches Ok(v) ==> forall|i: int|
            0 <= i < window.commits@.len() ==> #[trigger] v.spec_rows()[i] == shortlog_row_of(
                window.commits@[i]@,
                now,
            ),
        r matches Ok(v) ==> v.spec_has_more() == window.has_more,
{
    let commits: &Vec<Commit> = &window.commits;
    let mut rows: Vec<ShortlogRow> = Vec::new();
    let mut i: usize = 0;
    while i < commits.len()
        invariant
            0 <= i <= commits@.len(),
            commits == &window.commits,
            rows@.len() == i,
            forall|k: int| 0 <= k < i ==> age_fits(#[trigger] commits@[k]@.committer.epoch, now),
            forall|k: int| 0 <= k < i ==> #[trigger] rows@[k]@ == shortlog_row_of(commits@[k]@, now),
        decreases commits.len() - i,
    {
        let epoch: i64 = commits[i].committer().epoch();
        if now.checked_sub(epoch).is_none() {
            return Err(DomainError::Backend("commit time out of range".to_owned()));
        }
        rows.push(row_of(&commits[i], now));
        i += 1;
    }
    let view = ShortlogView { rows, has_more: window.has_more };
    assert(view.spec_rows().len() == window.commits@.len());
    Ok(view)
}

/// `rows` and `has_more` are a shortlog page of at most `limit` rows: the
/// rows of some walked commits at `now`, in order, the surplus flag set only
/// on a full page.
pub open spec fn is_shortlog_page(rows: Seq<ShortlogRowView>, has_more: bool, now: i64, limit: usize) -> bool {
    exists|commits: Seq<CommitView>| #[trigger] shortlog_page_of(rows, has_more, now, limit, commits)
}

/// The witness form of [`is_shortlog_page`].
pub open spec fn shortlog_page_of(
    rows: Seq<ShortlogRowView>,
    has_more: bool,
    now: i64,
    limit: usize,
    commits: Seq<CommitView>,
) -> bool {
    &&& commits.len() <= limit
    &&& (has_more ==> commits.len() == limit)
    &&& rows.len() == commits.len()
    &&& forall|i: int| 0 <= i < rows.len() ==> #[trigger] rows[i] == shortlog_row_of(commits[i], now)
}

/// Assembles the shortlog over the [`Repository`] port: walks the page from
/// `rev` (HEAD when `None`) and lays out its rows against `now` (see
/// [`shortlog_of`]).
pub fn assemble_shortlog<R: Repository>(repo: &R, rev: Option<&str>, now: i64, page: Page) -> (r: Result<ShortlogView, DomainError>)
    requires
        page.limit < usize::MAX,
    ensures
        r matches Ok(v) ==> v.spec_rows().len() <= page.limit,
        r matches Ok(v) ==> is_shortlog_page(v.spec_rows(), v.spec_has_more(), now, page.limit),
{
    let window: CommitWindow = match walk_commits(repo, rev, None, page) {
        Ok(w) => w,
        Err(e) => return Err(e),
    };
    let ghost cv = window.commits@.map_values(|c: Commit| c@);
    let r = shortlog_of(window, now);
    proof {
        if r is Ok {
            let v = r->Ok_0;
            assert forall|i: int| 0 <= i < v.spec_rows().len() implies #[trigger] v.spec_rows()[i] == shortlog_row_of(cv[i], now) by {}
            assert(shortlog_page_of(v.spec_rows(), v.spec_has_more(), now, page.limit, cv));
        }
    }
    r
}

} // verus!
