//! The commit-search use case: gitweb's `git_search` dispatch to
//! `git_search_message` (the `commit` / `author` / `committer` facets).
//!
//! gitweb checks the `search` feature (403 when off), validates the pattern
//! (400 on a malformed regexp), resolves the base revision (`$hash`, HEAD by
//! default; 404 "Unknown commit object" when it names no commit), and lists
//! one page of matching commits, fetched one over the page size so a further
//! page shows. Each row carries the date cell, the author chopped to 15
//! characters, the subject, and the highlighted matching message lines.

use vstd::prelude::*;

use crate::error::{DomainError, ErrorView};
use crate::model::chop::{chop_right, chop_str, ChopMode};
use crate::model::commit::{title_of, Commit, CommitView, TITLE_LEN, TITLE_SHORT_LEN};
use crate::model::commit_date::{commit_date_of, CommitDate, CommitDateView};
use crate::model::object_id::ObjectId;
use crate::model::search_pattern::{invalid_message, regex_compiles, search_source, SearchPattern};
use crate::model::search_snippet::{highlight_line, highlight_of, MatchSnippet, SnippetView};
use crate::port::repository::{Page, Repository, SearchKind, SearchQuery};
use crate::text::{std_lines, std_lines_of, string_views};
use crate::usecase::log_generic::{commit_views, window_of};
use crate::usecase::shortlog::age_fits;

verus! {

/// gitweb's `chop_str($author, 15, 5)` on the search row.
pub const AUTHOR_LEN: usize = 15;

/// The author chop's word slack.
pub const AUTHOR_SLACK: usize = 5;

/// What the user asked to search for: the facet, the text, and whether the
/// text is a regular expression (gitweb's `searchtype`, `s`, `sr`).
#[derive(Debug, Clone)]
pub struct SearchCriteria {
    /// Which facet of history to search.
    pub kind: SearchKind,
    /// The pattern text as typed.
    pub text: String,
    /// Whether `text` is a regular expression rather than a literal.
    pub use_regexp: bool,
}

/// One matching commit as the search results show it.
pub struct SearchRow {
    id: String,
    date: CommitDate,
    author: String,
    author_short: String,
    title: String,
    title_short: String,
    snippets: Vec<MatchSnippet>,
}

/// The snippets of `v`, each seen through its parts.
pub open spec fn snippet_views(v: Seq<MatchSnippet>) -> Seq<SnippetView> {
    v.map_values(|s: MatchSnippet| s@)
}

/// A search row seen through its texts.
pub struct SearchRowView {
    pub id: Seq<char>,
    pub date: CommitDateView,
    pub author: Seq<char>,
    pub author_short: Seq<char>,
    pub title: Seq<char>,
    pub title_short: Seq<char>,
    pub snippets: Seq<SnippetView>,
}

impl View for SearchRow {
    type V = SearchRowView;

    closed spec fn view(&self) -> SearchRowView {
        SearchRowView {
            id: self.id@,
            date: self.date@,
            author: self.author@,
            author_short: self.author_short@,
            title: self.title@,
            title_short: self.title_short@,
            snippets: snippet_views(self.snippets@),
        }
    }
}

impl SearchRow {
    /// The commit's object id (full hex).
    pub fn id(&self) -> (r: &str)
        ensures
            r@ == self@.id,
    {
        self.id.as_str()
    }

    /// The date cell with the two-week age/date swap resolved.
    pub fn date(&self) -> (r: &CommitDate)
        ensures
            r@ == self@.date,
    {
        &self.date
    }

    /// The full author name.
    pub fn author(&self) -> (r: &str)
        ensures
            r@ == self@.author,
    {
        self.author.as_str()
    }

    /// The author name chopped to 15 characters.
    pub fn author_short(&self) -> (r: &str)
        ensures
            r@ == self@.author_short,
    {
        self.author_short.as_str()
    }

    /// The commit subject, chopped to 80 characters.
    pub fn title(&self) -> (r: &str)
        ensures
            r@ == self@.title,
    {
        self.title.as_str()
    }

    /// The commit subject, chopped to 50 characters.
    pub fn title_short(&self) -> (r: &str)
        ensures
            r@ == self@.title_short,
    {
        self.title_short.as_str()
    }

    /// The highlighted message lines that match, in message order.
    pub fn snippets(&self) -> (r: &[MatchSnippet])
        ensures
            snippet_views(r@) == self@.snippets,
    {
        self.snippets.as_slice()
    }
}

/// The assembled search results.
pub struct SearchView {
    title: String,
    base_id: String,
    rows: Vec<SearchRow>,
    has_more: bool,
}

/// The rows of `v`, each seen through its texts.
pub open spec fn search_row_views(v: Seq<SearchRow>) -> Seq<SearchRowView> {
    v.map_values(|r: SearchRow| r@)
}

impl SearchView {
    /// The base commit's subject.
    pub closed spec fn spec_title(&self) -> Seq<char> {
        self.title@
    }

    /// The base commit's id.
    pub closed spec fn spec_base_id(&self) -> Seq<char> {
        self.base_id@
    }

    /// The rows of the page.
    pub closed spec fn spec_rows(&self) -> Seq<SearchRowView> {
        search_row_views(self.rows@)
    }

    /// Whether a further page exists.
    pub closed spec fn spec_has_more(&self) -> bool {
        self.has_more
    }

    /// The base commit's subject, shown as the page title.
    pub fn title(&self) -> (r: &str)
        ensures
            r@ == self.spec_title(),
    {
        self.title.as_str()
    }

    /// The id of the commit the search is rooted at.
    pub fn base_id(&self) -> (r: &str)
        ensures
            r@ == self.spec_base_id(),
    {
        self.base_id.as_str()
    }

    /// The matching commits of this page.
    pub fn rows(&self) -> (r: &[SearchRow])
        ensures
            search_row_views(r@) == self.spec_rows(),
    {
        self.rows.as_slice()
    }

    /// Whether a further page exists.
    pub fn has_more(&self) -> (r: bool)
        ensures
            r == self.spec_has_more(),
    {
        self.has_more
    }
}

/// The parts of a row that do not depend on the pattern.
pub open spec fn search_row_fields(c: CommitView, now: i64, row: SearchRowView) -> bool {
    &&& row.id == c.id
    &&& row.date == commit_date_of(c.committer.epoch, now)
    &&& row.author == c.author.name
    &&& row.author_short == chop_right(c.author.name, AUTHOR_LEN as nat, AUTHOR_SLACK as nat)
    &&& row.title == title_of(c.message, TITLE_LEN as nat)
    &&& row.title_short == title_of(c.message, TITLE_SHORT_LEN as nat)
}

/// The highlights of the lines of `lines` that the expression `source`
/// matches, in order (see [`highlight_of`]).
pub open spec fn line_snippets(lines: Seq<Seq<char>>, source: Seq<char>) -> Seq<SnippetView>
    decreases lines.len(),
{
    if lines.len() == 0 {
        seq![]
    } else {
        let before = line_snippets(lines.drop_last(), source);
        match highlight_of(source, lines.last()) {
            Some(v) => before.push(v),
            None => before,
        }
    }
}

/// The row of commit `c` seen at `now` for the expression `source`: its
/// fields, and the highlight of each message line the expression matches.
pub open spec fn search_row_shows(c: CommitView, now: i64, source: Seq<char>, row: SearchRowView) -> bool {
    &&& search_row_fields(c, now, row)
    &&& row.snippets == line_snippets(std_lines(c.message), source)
}

/// `row` shows some commit, seen at `now`.
pub open spec fn row_of_a_commit(row: SearchRowView, now: i64) -> bool {
    exists|c: CommitView| #[trigger] search_row_fields(c, now, row)
}

/// The row of one matching commit: its fields, and the highlight of every
/// message line the pattern matches, in order.
pub fn row_of(commit: &Commit, pattern: &SearchPattern, now: i64) -> (r: SearchRow)
    requires
        age_fits(commit@.committer.epoch, now),
    ensures
        search_row_fields(commit@, now, r@),
        search_row_shows(commit@, now, pattern.spec_source(), r@),
{
    let author: String = commit.author().name().to_owned();
    let author_short: String = chop_str(author.as_str(), AUTHOR_LEN, AUTHOR_SLACK, ChopMode::Right);
    let lines: Vec<String> = std_lines_of(commit.message());
    let ghost all = string_views(lines@);
    let mut snippets: Vec<MatchSnippet> = Vec::new();
    let mut i: usize = 0;
    while i < lines.len()
        invariant
            0 <= i <= lines@.len(),
            all == string_views(lines@),
            snippet_views(snippets@) == line_snippets(all.take(i as int), pattern.spec_source()),
        decreases lines.len() - i,
    {
        proof {
            assert(all.take(i + 1).drop_last() =~= all.take(i as int));
            assert(all.take(i + 1).last() == lines@[i as int]@);
        }
        match highlight_line(lines[i].as_str(), pattern) {
            Some(s) => {
                let ghost before = snippets@;
                snippets.push(s);
                assert(snippet_views(snippets@) =~= snippet_views(before).push(s@));
            },
            None => {},
        }
        i += 1;
    }
    assert(all.take(lines@.len() as int) =~= all);
    SearchRow {
        id: commit.id().as_str().to_owned(),
        date: CommitDate::new(commit.committer().epoch(), now),
        author_short,
        author,
        title: commit.title(),
        title_short: commit.title_short(),
        snippets,
    }
}

/// gitweb's reading of a base that names no commit: a missing or malformed
/// revision is 404 "Unknown commit object"; other failures pass through.
pub open spec fn unknown_commit_of(e: ErrorView) -> ErrorView {
    match e {
        ErrorView::NotFound(_) => ErrorView::NotFound("Unknown commit object"@),
        ErrorView::Invalid(_) => ErrorView::NotFound("Unknown commit object"@),
        other => other,
    }
}

/// Maps a base-resolution failure (see [`unknown_commit_of`]).
pub fn unknown_commit(error: DomainError) -> (r: DomainError)
    ensures
        r@ == unknown_commit_of(error@),
{
    match error {
        DomainError::NotFound(_) => crate::error::not_found("Unknown commit object"),
        DomainError::Invalid(_) => crate::error::not_found("Unknown commit object"),
        other => other,
    }
}

/// Assembles one page of search results over the [`Repository`] port:
/// forbidden when the feature is off, invalid when the pattern does not
/// compile, and otherwise rooted at `base_rev` (HEAD when `None`).
pub fn assemble_search<R: Repository>(
    repo: &R,
    enabled: bool,
    base_rev: Option<&str>,
    criteria: &SearchCriteria,
    now: i64,
    page: Page,
) -> (r: Result<SearchView, DomainError>)
    requires
        page.limit < usize::MAX,
    ensures
        !enabled ==> (r matches Err(e) && e@ == ErrorView::Forbidden("Search is disabled"@)),
        enabled && !regex_compiles(search_source(criteria.text@, criteria.use_regexp)) ==> (r matches Err(e)
            && e@ == ErrorView::Invalid(invalid_message(criteria.text@))),
        r matches Ok(v) ==> v.spec_rows().len() <= page.limit,
        r matches Ok(v) ==> forall|i: int| 0 <= i < v.spec_rows().len() ==> row_of_a_commit(#[trigger] v.spec_rows()[i], now),
        r matches Ok(v) ==> is_search_page(
            v.spec_rows(),
            v.spec_has_more(),
            now,
            search_source(criteria.text@, criteria.use_regexp),
            page.limit,
        ),
{
    if !enabled {
        return Err(crate::error::forbidden("Search is disabled"));
    }
    let pattern: SearchPattern = match SearchPattern::new(criteria.text.as_str(), criteria.use_regexp) {
        Ok(p) => p,
        Err(e) => return Err(e),
    };
    let base: ObjectId = match base_rev {
        Some(rev) => match repo.resolve(rev) {
            Ok(oid) => oid,
            Err(e) => return Err(unknown_commit(e)),
        },
        None => match repo.head() {
            Ok(reference) => reference.target().clone(),
            Err(e) => return Err(unknown_commit(e)),
        },
    };
    let base_commit: Commit = match repo.find_commit(&base) {
        Ok(c) => c,
        Err(e) => return Err(unknown_commit(e)),
    };
    let query: SearchQuery = SearchQuery { kind: criteria.kind, pattern };
    let probe: Page = Page::new(page.skip, page.limit + 1);
    let found: Vec<Commit> = match repo.search(&base, &query, probe) {
        Ok(c) => c,
        Err(e) => return Err(e),
    };
    let ghost found_views = commit_views(found@);
    let window = window_of(found, page.limit);
    let rows: Vec<SearchRow> = match search_rows(&window.commits, &query.pattern, now) {
        Ok(r) => r,
        Err(e) => return Err(e),
    };
    let view = SearchView {
        title: base_commit.title(),
        base_id: base.as_str().to_owned(),
        rows,
        has_more: window.has_more,
    };
    proof {
        let source = search_source(criteria.text@, criteria.use_regexp);
        assert(view.spec_rows().len() == rows@.len());
        assert forall|k: int| 0 <= k < view.spec_rows().len() implies search_row_shows(
            found_views[k],
            now,
            source,
            #[trigger] view.spec_rows()[k],
        ) by {
            assert(view.spec_rows()[k] == rows@[k]@);
            assert(commit_views(window.commits@)[k] == window.commits@[k]@);
        }
        assert forall|k: int| 0 <= k < view.spec_rows().len() implies row_of_a_commit(#[trigger] view.spec_rows()[k], now) by {
            assert(search_row_shows(found_views[k], now, source, view.spec_rows()[k]));
        }
        lemma_search_page(view.spec_rows(), view.spec_has_more(), found_views, now, source, page.limit);
    }
    Ok(view)
}

/// The rows of `commits` at `now` for `pattern` (see [`search_row_shows`]);
/// a commit time that does not fit an `i64` of `now` is a backend error.
pub fn search_rows(commits: &Vec<Commit>, pattern: &SearchPattern, now: i64) -> (r: Result<Vec<SearchRow>, DomainError>)
    ensures
        r is Ok <==> forall|i: int| 0 <= i < commits@.len() ==> age_fits(#[trigger] commits@[i]@.committer.epoch, now),
        r matches Err(e) ==> e@ == ErrorView::Backend("commit time out of range"@),
        r matches Ok(rows) ==> rows@.len() == commits@.len() && forall|i: int|
            0 <= i < commits@.len() ==> search_row_shows(commits@[i]@, now, pattern.spec_source(), #[trigger] rows@[i]@),
{
    let mut rows: Vec<SearchRow> = Vec::new();
    let mut i: usize = 0;
    while i < commits.len()
        invariant
            0 <= i <= commits@.len(),
            rows@.len() == i,
            forall|k: int| 0 <= k < i ==> age_fits(#[trigger] commits@[k]@.committer.epoch, now),
            forall|k: int| 0 <= k < i ==> search_row_shows(commits@[k]@, now, pattern.spec_source(), #[trigger] rows@[k]@),
        decreases commits.len() - i,
    {
        if now.checked_sub(commits[i].committer().epoch()).is_none() {
            return Err(crate::error::backend("commit time out of range"));
        }
        let row: SearchRow = row_of(&commits[i], pattern, now);
        rows.push(row);
        i += 1;
    }
    Ok(rows)
}

/// `rows` and `has_more` are the page of the commits `found` (the probe of up
/// to `limit + 1`): the rows of the first `limit` of them, in order, and
/// whether there were more.
pub open spec fn search_page(
    rows: Seq<SearchRowView>,
    has_more: bool,
    found: Seq<CommitView>,
    now: i64,
    source: Seq<char>,
    limit: usize,
) -> bool {
    &&& has_more == (found.len() > limit)
    &&& rows.len() == (if found.len() > limit {
        limit as int
    } else {
        found.len() as int
    })
    &&& forall|k: int| 0 <= k < rows.len() ==> search_row_shows(found[k], now, source, #[trigger] rows[k])
}

/// `rows` and `has_more` are the page of some probe (see [`search_page`]).
pub open spec fn is_search_page(rows: Seq<SearchRowView>, has_more: bool, now: i64, source: Seq<char>, limit: usize) -> bool {
    exists|found: Seq<CommitView>| #[trigger] search_page(rows, has_more, found, now, source, limit)
}

proof fn lemma_search_page(
    rows: Seq<SearchRowView>,
    has_more: bool,
    found: Seq<CommitView>,
    now: i64,
    source: Seq<char>,
    limit: usize,
)
    requires
        search_page(rows, has_more, found, now, source, limit),
    ensures
        is_search_page(rows, has_more, now, source, limit),
{
}

} // verus!
