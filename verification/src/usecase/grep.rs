//! The file-content search use case: gitweb's `git_search` dispatch to
//! `git_search_files` (the `grep` facet).
//!
//! gitweb checks the `search` feature, then the `grep` feature (403 for
//! either), validates the pattern (400 on a malformed regexp), resolves the
//! base revision (HEAD by default; 404 "Unknown commit object" when it names
//! no commit) and lists the matches of `git grep` over that revision's tree,
//! one block per file in tree order. Each matching line is untabified and
//! split around its (case-insensitive) match, or shown whole when the
//! highlight does not match; a binary file shows only that it matched. Two
//! matchers are in play, as in gitweb: the [`GrepPattern`] git greps with and
//! the [`SearchPattern`] that draws the highlight.

use vstd::prelude::*;

use crate::error::{DomainError, ErrorView};
use crate::model::commit::{title_of, Commit, TITLE_LEN};
use crate::model::grep::{grep_match_views, GrepMatch, GrepMatchView, GrepResults};
use crate::model::grep_pattern::GrepPattern;
use crate::model::object_id::ObjectId;
use crate::model::search_pattern::{invalid_message, regex_compiles, search_source, SearchPattern};
use crate::model::search_snippet::{highlight_full, match_split, MatchSnippet, SnippetView};
use crate::model::untabify::{untabified, untabify};
use crate::port::repository::Repository;
use crate::text::string_views;
use crate::usecase::blame::{key_runs, lemma_runs_commit, lemma_runs_maximal, lemma_runs_shape, runs_match, runs_of, BlameRun};
use crate::usecase::search::unknown_commit;

verus! {

/// One matching line's display text: split around the highlighted match, or
/// whole when the highlight does not match. Both are untabified.
pub enum GrepLine {
    /// The line split into text before, match and text after.
    Highlighted(MatchSnippet),
    /// The whole line, with nothing marked.
    Plain(String),
}

/// A [`GrepLine`] seen through its texts.
pub enum GrepLineView {
    Highlighted(SnippetView),
    Plain(Seq<char>),
}

impl View for GrepLine {
    type V = GrepLineView;

    closed spec fn view(&self) -> GrepLineView {
        match self {
            GrepLine::Highlighted(s) => GrepLineView::Highlighted(s@),
            GrepLine::Plain(t) => GrepLineView::Plain(t@),
        }
    }
}

/// One row under a file: a matching line with its 1-based number, or the
/// marker of a binary file that matched.
pub enum GrepRow {
    /// A binary file whose bytes matched.
    Binary,
    /// A matching text line.
    Line {
        /// The 1-based line number.
        line_no: usize,
        /// The untabified, possibly highlighted, line.
        line: GrepLine,
    },
}

/// A [`GrepRow`] seen through its texts.
pub enum GrepRowView {
    Binary,
    Line { line_no: usize, line: GrepLineView },
}

impl View for GrepRow {
    type V = GrepRowView;

    closed spec fn view(&self) -> GrepRowView {
        match self {
            GrepRow::Binary => GrepRowView::Binary,
            GrepRow::Line { line_no, line } => GrepRowView::Line { line_no: *line_no, line: line@ },
        }
    }
}

/// The rows of `v`, each seen through its texts.
pub open spec fn grep_row_views(v: Seq<GrepRow>) -> Seq<GrepRowView> {
    v.map_values(|r: GrepRow| r@)
}

/// The matches of one file: its path and its rows in line order.
pub struct GrepFileView {
    path: String,
    rows: Vec<GrepRow>,
}

/// A [`GrepFileView`] seen through its path and rows.
pub struct GrepFileModel {
    pub path: Seq<char>,
    pub rows: Seq<GrepRowView>,
}

impl View for GrepFileView {
    type V = GrepFileModel;

    closed spec fn view(&self) -> GrepFileModel {
        GrepFileModel { path: self.path@, rows: grep_row_views(self.rows@) }
    }
}

impl GrepFileView {
    /// The file's path, relative to the searched tree.
    pub fn path(&self) -> (r: &str)
        ensures
            r@ == self@.path,
    {
        self.path.as_str()
    }

    /// The matching rows of this file, in line order.
    pub fn rows(&self) -> (r: &[GrepRow])
        ensures
            grep_row_views(r@) == self@.rows,
    {
        self.rows.as_slice()
    }
}

/// The files of `v`, each seen through its path and rows.
pub open spec fn grep_file_views(v: Seq<GrepFileView>) -> Seq<GrepFileModel> {
    v.map_values(|f: GrepFileView| f@)
}

/// `line` shows `text` for the highlight expression `source`: split at the
/// expression's first match, or whole when it does not match.
pub open spec fn shows_line(text: Seq<char>, line: GrepLineView, source: Seq<char>) -> bool {
    match match_split(source, text) {
        Some(v) => line == GrepLineView::Highlighted(v),
        None => line == GrepLineView::Plain(text),
    }
}

/// `row` shows match `m`: its number and untabified line for a text line, the
/// binary marker otherwise.
pub open spec fn row_shows(m: GrepMatchView, row: GrepRowView, source: Seq<char>) -> bool {
    match (m.line_no, m.text) {
        (Some(n), Some(t)) => match row {
            GrepRowView::Line { line_no, line } => line_no == n && shows_line(untabified(t), line, source),
            GrepRowView::Binary => false,
        },
        _ => row is Binary,
    }
}

/// The paths of `ms`, in order.
pub open spec fn match_paths(ms: Seq<GrepMatchView>) -> Seq<Seq<char>> {
    ms.map_values(|m: GrepMatchView| m.path)
}

/// `files` are the matches `ms` grouped into their maximal runs of one path:
/// one file per run, with the run's path and one row per match of the run.
pub open spec fn files_group(files: Seq<GrepFileModel>, ms: Seq<GrepMatchView>, source: Seq<char>) -> bool {
    let runs = runs_of(match_paths(ms));
    &&& files.len() == runs.len()
    &&& forall|k: int|
        0 <= k < files.len() ==> (#[trigger] files[k]).path == runs[k].commit && files[k].rows.len()
            == runs[k].count
    &&& forall|k: int, j: int|
        0 <= k < files.len() && 0 <= j < files[k].rows.len() ==> row_shows(
            ms[runs[k].start + j],
            #[trigger] files[k].rows[j],
            source,
        )
}

/// `files` group some list of matches (see [`files_group`]).
pub open spec fn groups_some_matches(files: Seq<GrepFileModel>, source: Seq<char>) -> bool {
    exists|ms: Seq<GrepMatchView>| #[trigger] files_group(files, ms, source)
}

/// Files that group `ms` group some list of matches.
proof fn lemma_groups_some(files: Seq<GrepFileModel>, ms: Seq<GrepMatchView>, source: Seq<char>)
    requires
        files_group(files, ms, source),
    ensures
        groups_some_matches(files, source),
{
}

/// The assembled file-content search results.
pub struct GrepView {
    title: String,
    base_id: String,
    files: Vec<GrepFileView>,
    trimmed: bool,
}

impl GrepView {
    /// The base commit's subject.
    pub closed spec fn spec_title(&self) -> Seq<char> {
        self.title@
    }

    /// The id of the commit the search is rooted at.
    pub closed spec fn spec_base_id(&self) -> Seq<char> {
        self.base_id@
    }

    /// The matching files.
    pub closed spec fn spec_files(&self) -> Seq<GrepFileModel> {
        grep_file_views(self.files@)
    }

    /// Whether the match cap dropped further matches.
    pub closed spec fn spec_trimmed(&self) -> bool {
        self.trimmed
    }

    /// The base commit's subject, shown as the results header.
    pub fn title(&self) -> (r: &str)
        ensures
            r@ == self.spec_title(),
    {
        self.title.as_str()
    }

    /// The id of the commit the search is rooted at (full hex).
    pub fn base_id(&self) -> (r: &str)
        ensures
            r@ == self.spec_base_id(),
    {
        self.base_id.as_str()
    }

    /// The matching files, in tree order.
    pub fn files(&self) -> (r: &[GrepFileView])
        ensures
            grep_file_views(r@) == self.spec_files(),
    {
        self.files.as_slice()
    }

    /// Whether the match cap dropped further matches ("listing trimmed").
    pub fn trimmed(&self) -> (r: bool)
        ensures
            r == self.spec_trimmed(),
    {
        self.trimmed
    }
}

/// The row of one match: the binary marker, or the untabified line split
/// around its highlighted match (whole when the highlight does not match).
pub fn row_of(grep_match: &GrepMatch, highlighter: &SearchPattern) -> (r: GrepRow)
    ensures
        row_shows(grep_match@, r@, highlighter.spec_source()),
{
    match (grep_match.line_no(), grep_match.text()) {
        (Some(line_no), Some(text)) => {
            let expanded: String = untabify(text);
            let line: GrepLine = match highlight_full(expanded.as_str(), highlighter) {
                Some(snippet) => GrepLine::Highlighted(snippet),
                None => GrepLine::Plain(expanded),
            };
            GrepRow::Line { line_no, line }
        },
        _ => GrepRow::Binary,
    }
}

/// The paths of the matches, in order.
fn paths_of(matches: &[GrepMatch]) -> (r: Vec<String>)
    ensures
        string_views(r@) == match_paths(grep_match_views(matches@)),
{
    let ghost ms = grep_match_views(matches@);
    let mut paths: Vec<String> = Vec::new();
    let mut i: usize = 0;
    while i < matches.len()
        invariant
            0 <= i <= matches@.len(),
            ms == grep_match_views(matches@),
            string_views(paths@) =~= match_paths(ms).take(i as int),
        decreases matches.len() - i,
    {
        let path: String = matches[i].path().to_owned();
        let ghost before = paths@;
        paths.push(path);
        assert(string_views(paths@) =~= string_views(before).push(path@));
        assert(match_paths(ms).take(i + 1) =~= match_paths(ms).take(i as int).push(ms[i as int].path));
        i += 1;
    }
    assert(match_paths(ms).take(matches@.len() as int) =~= match_paths(ms));
    paths
}

/// Groups the matches, which come grouped by file, into one block per file
/// (see [`files_group`]), each row drawn by [`row_of`].
pub fn group_files(matches: &[GrepMatch], highlighter: &SearchPattern) -> (r: Vec<GrepFileView>)
    ensures
        files_group(grep_file_views(r@), grep_match_views(matches@), highlighter.spec_source()),
{
    let ghost ms = grep_match_views(matches@);
    let paths: Vec<String> = paths_of(matches);
    let ghost c = string_views(paths@);
    let runs: Vec<BlameRun> = key_runs(paths.as_slice());
    let ghost s = runs_of(c);
    proof {
        lemma_runs_shape(c);
        assert(runs_match(runs@, s, c));
    }
    let mut files: Vec<GrepFileView> = Vec::new();
    let mut k: usize = 0;
    while k < runs.len()
        invariant
            0 <= k <= runs@.len(),
            ms == grep_match_views(matches@),
            c == match_paths(ms),
            c == string_views(paths@),
            c.len() == matches@.len(),
            s == runs_of(c),
            runs@.len() == s.len(),
            forall|q: int|
                0 <= q < runs@.len() ==> (#[trigger] runs@[q]).start == s[q].start && runs@[q].count == s[q].count
                    && s[q].commit == c[s[q].start],
            forall|q: int|
                0 <= q < s.len() ==> (#[trigger] s[q]).count >= 1 && 0 <= s[q].start && s[q].start + s[q].count
                    <= c.len(),
            files@.len() == k,
            forall|q: int|
                0 <= q < k ==> (#[trigger] files@[q])@.path == s[q].commit && files@[q]@.rows.len() == s[q].count,
            forall|q: int, j: int|
                0 <= q < k && 0 <= j < files@[q]@.rows.len() ==> row_shows(
                    ms[s[q].start + j],
                    #[trigger] files@[q]@.rows[j],
                    highlighter.spec_source(),
                ),
        decreases runs.len() - k,
    {
        let total: usize = matches.len();
        let start: usize = runs[k].start;
        let count: usize = runs[k].count;
        assert(runs@[k as int].start == s[k as int].start);
        assert(start + count <= matches@.len());
        assert(c[start as int] == paths@[start as int]@);
        let mut rows: Vec<GrepRow> = Vec::new();
        let mut j: usize = 0;
        while j < count
            invariant
                0 <= j <= count,
                start + count <= total,
                total == matches@.len(),
                ms == grep_match_views(matches@),
                rows@.len() == j,
                forall|jj: int| 0 <= jj < j ==> row_shows(ms[start + jj], (#[trigger] rows@[jj])@, highlighter.spec_source()),
            decreases count - j,
        {
            rows.push(row_of(&matches[start + j], highlighter));
            j += 1;
        }
        let file = GrepFileView { path: paths[start].as_str().to_owned(), rows };
        assert(file@.rows.len() == count);
        assert forall|jj: int| 0 <= jj < file@.rows.len() implies row_shows(
            ms[s[k as int].start + jj],
            #[trigger] file@.rows[jj],
            highlighter.spec_source(),
        ) by {
            assert(file@.rows[jj] == file.rows@[jj]@);
        }
        files.push(file);
        k += 1;
    }
    assert(grep_file_views(files@).len() == files@.len());
    assert forall|q: int| 0 <= q < grep_file_views(files@).len() implies (#[trigger] grep_file_views(
        files@,
    )[q]).path == s[q].commit && grep_file_views(files@)[q].rows.len() == s[q].count by {
        assert(grep_file_views(files@)[q] == files@[q]@);
    }
    assert forall|q: int, j: int|
        0 <= q < grep_file_views(files@).len() && 0 <= j < grep_file_views(files@)[q].rows.len() implies row_shows(
        ms[s[q].start + j],
        #[trigger] grep_file_views(files@)[q].rows[j],
        highlighter.spec_source(),
    ) by {
        assert(grep_file_views(files@)[q] == files@[q]@);
    }
    files
}

/// Where the `k`-th file block of a listing of `ms` starts among the matches.
pub open spec fn block_start(ms: Seq<GrepMatchView>, k: int) -> int {
    runs_of(match_paths(ms))[k].start
}

/// The file blocks of a grep listing partition its matches: the first block
/// starts at the first match, each next block where the previous one ends,
/// and the last ends at the last match; no block is empty; every row of a
/// block stands for a match of the block's path; and neighbouring blocks have
/// different paths (a path whose matches another path's interrupt gets two
/// blocks).
pub proof fn lemma_grep_blocks(files: Seq<GrepFileModel>, ms: Seq<GrepMatchView>, source: Seq<char>)
    requires
        files_group(files, ms, source),
    ensures
        files.len() == 0 <==> ms.len() == 0,
        files.len() > 0 ==> block_start(ms, 0) == 0,
        files.len() > 0 ==> block_start(ms, files.len() - 1) + files.last().rows.len() == ms.len(),
        forall|k: int|
            0 <= k < files.len() - 1 ==> #[trigger] block_start(ms, k + 1) == block_start(ms, k)
                + files[k].rows.len(),
        forall|k: int| 0 <= k < files.len() ==> (#[trigger] files[k]).rows.len() >= 1,
        forall|k: int, i: int|
            0 <= k < files.len() && block_start(ms, k) <= i < block_start(ms, k) + files[k].rows.len() ==> (
            #[trigger] ms[i]).path == (#[trigger] files[k]).path,
        forall|k: int| 0 <= k < files.len() - 1 ==> (#[trigger] files[k]).path != files[k + 1].path,
{
    let c = match_paths(ms);
    let runs = runs_of(c);
    lemma_runs_shape(c);
    lemma_runs_commit(c);
    lemma_runs_maximal(c);
    assert forall|k: int, i: int|
        0 <= k < files.len() && block_start(ms, k) <= i < block_start(ms, k) + files[k].rows.len() implies (
        #[trigger] ms[i]).path == (#[trigger] files[k]).path by {
        assert(files[k].path == runs[k].commit && files[k].rows.len() == runs[k].count);
        assert(c[i] == runs[k].commit);
        assert(c[i] == ms[i].path);
    }
    assert forall|k: int| 0 <= k < files.len() - 1 implies (#[trigger] files[k]).path != files[k + 1].path by {
        assert(runs[k].commit != runs[k + 1].commit);
    }
}

/// The results page for base commit `base_commit` (id `base`) and the
/// matches `results` git reported.
pub fn grep_view_of(base_commit: &Commit, base: &ObjectId, results: &GrepResults, highlighter: &SearchPattern) -> (r:
    GrepView)
    ensures
        r.spec_title() == title_of(base_commit@.message, TITLE_LEN as nat),
        r.spec_base_id() == base@,
        files_group(r.spec_files(), results.spec_matches(), highlighter.spec_source()),
        r.spec_trimmed() == results.spec_trimmed(),
{
    GrepView {
        title: base_commit.title(),
        base_id: base.as_str().to_owned(),
        files: group_files(results.matches(), highlighter),
        trimmed: results.trimmed(),
    }
}

/// Assembles the file-content search results over the [`Repository`] port:
/// forbidden when search or grep is off (in that order), invalid when the
/// pattern does not compile, and otherwise the matches of `text` in the tree
/// of `base_rev` (HEAD when `None`), grouped by file (see [`grep_view_of`]).
pub fn assemble_grep<R: Repository>(
    repo: &R,
    search_enabled: bool,
    grep_enabled: bool,
    base_rev: Option<&str>,
    text: &str,
    use_regexp: bool,
) -> (r: Result<GrepView, DomainError>)
    ensures
        !search_enabled ==> (r matches Err(e) && e@ == ErrorView::Forbidden("Search is disabled"@)),
        search_enabled && !grep_enabled ==> (r matches Err(e) && e@ == ErrorView::Forbidden(
            "Grep search is disabled"@,
        )),
        search_enabled && grep_enabled && !regex_compiles(search_source(text@, use_regexp)) ==> (r matches Err(e)
            && e@ == ErrorView::Invalid(invalid_message(text@))),
        r matches Ok(v) ==> groups_some_matches(v.spec_files(), search_source(text@, use_regexp)),
{
    if !search_enabled {
        return Err(crate::error::forbidden("Search is disabled"));
    }
    if !grep_enabled {
        return Err(crate::error::forbidden("Grep search is disabled"));
    }
    let matcher: GrepPattern = match GrepPattern::new(text, use_regexp) {
        Ok(p) => p,
        Err(e) => return Err(e),
    };
    let highlighter: SearchPattern = match SearchPattern::new(text, use_regexp) {
        Ok(p) => p,
        Err(e) => return Err(e),
    };
    let base: ObjectId = match base_rev {
        Some(rev) => match repo.resolve(rev) {
            Ok(oid) => oid,
            Err(e) => return Err(unknown_commit(e)),
        },
        None => match repo.head() {
            Ok(reference) => reference.target().clone(),
            Err(e) => return Err(unknown_commit(e)),
        },
    };
    let base_commit: Commit = match repo.find_commit(&base) {
        Ok(c) => c,
        Err(e) => return Err(unknown_commit(e)),
    };
    let results: GrepResults = match repo.grep(&base, &matcher) {
        Ok(found) => found,
        Err(e) => return Err(e),
    };
    let view: GrepView = grep_view_of(&base_commit, &base, &results, &highlighter);
    proof {
        lemma_groups_some(view.spec_files(), results.spec_matches(), highlighter.spec_source());
    }
    Ok(view)
}

} // verus!
