//! The `blame` use case: gitweb's `git_blame_common` over `git blame -p`,
//! minus the HTML and the streaming.
//!
//! The base revision (HEAD by default) is resolved and its commit read for
//! the page subject; the port blames the path. The lines are then folded into
//! groups: maximal runs of consecutive lines sharing one commit (gitweb's
//! `rowspan` cell and one `git blame --incremental` record). Each group shows
//! its commit's author and date, read once per distinct commit.

use vstd::prelude::*;

use crate::error::DomainError;
use crate::model::blame::{blame_line_views, Blame, BlameLine, BlameLineView};
use crate::model::object_id::ObjectId;
use crate::model::timestamp::{iso_tz_form, timestamp_of, zone_fits, zone_fits_exec, Timestamp};
use crate::port::repository::Repository;
use crate::text::{chars_of, str_eq, string_views, substring};

verus! {

/// The abbreviated id length of a group's commit.
pub const SHORT_ID_LEN: usize = 8;

/// One line of the blame table.
#[derive(Debug, Clone, PartialEq, Eq)]
pub struct BlameRow {
    commit: String,
    orig_lineno: usize,
    final_lineno: usize,
    content: String,
}

impl View for BlameRow {
    type V = BlameLineView;

    closed spec fn view(&self) -> BlameLineView {
        BlameLineView {
            commit: self.commit@,
            orig_lineno: self.orig_lineno,
            final_lineno: self.final_lineno,
            content: self.content@,
        }
    }
}

impl BlameRow {
    /// The commit that last touched the line.
    pub fn commit(&self) -> (r: &str)
        ensures
            r@ == self@.commit,
    {
        self.commit.as_str()
    }

    /// The line's number in that commit.
    pub fn orig_lineno(&self) -> (r: usize)
        ensures
            r == self@.orig_lineno,
    {
        self.orig_lineno
    }

    /// The line's number in the blamed file.
    pub fn final_lineno(&self) -> (r: usize)
        ensures
            r == self@.final_lineno,
    {
        self.final_lineno
    }

    /// The line's text.
    pub fn content(&self) -> (r: &str)
        ensures
            r@ == self@.content,
    {
        self.content.as_str()
    }
}

/// One run of consecutive lines blamed on one commit.
#[derive(Debug, Clone, PartialEq, Eq)]
pub struct BlameGroup {
    commit: String,
    short_commit: String,
    author: String,
    author_time: i64,
    author_tz: String,
    date: String,
    orig_lineno: usize,
    final_lineno: usize,
    numlines: usize,
}

/// A blame group seen through its texts.
pub struct BlameGroupView {
    pub commit: Seq<char>,
    pub short_commit: Seq<char>,
    pub author: Seq<char>,
    pub author_time: i64,
    pub author_tz: Seq<char>,
    pub date: Seq<char>,
    pub orig_lineno: usize,
    pub final_lineno: usize,
    pub numlines: usize,
}

impl View for BlameGroup {
    type V = BlameGroupView;

    closed spec fn view(&self) -> BlameGroupView {
        BlameGroupView {
            commit: self.commit@,
            short_commit: self.short_commit@,
            author: self.author@,
            author_time: self.author_time,
            author_tz: self.author_tz@,
            date: self.date@,
            orig_lineno: self.orig_lineno,
            final_lineno: self.final_lineno,
            numlines: self.numlines,
        }
    }
}

impl BlameGroup {
    /// The group's commit (full hex).
    pub fn commit(&self) -> (r: &str)
        ensures
            r@ == self@.commit,
    {
        self.commit.as_str()
    }

    /// The commit abbreviated to eight characters.
    pub fn short_commit(&self) -> (r: &str)
        ensures
            r@ == self@.short_commit,
    {
        self.short_commit.as_str()
    }

    /// The commit's author name.
    pub fn author(&self) -> (r: &str)
        ensures
            r@ == self@.author,
    {
        self.author.as_str()
    }

    /// The commit's author epoch.
    pub fn author_time(&self) -> (r: i64)
        ensures
            r == self@.author_time,
    {
        self.author_time
    }

    /// The commit's author zone.
    pub fn author_tz(&self) -> (r: &str)
        ensures
            r@ == self@.author_tz,
    {
        self.author_tz.as_str()
    }

    /// The author date in the author's zone (`YYYY-MM-DD HH:MM:SS +zone`).
    pub fn date(&self) -> (r: &str)
        ensures
            r@ == self@.date,
    {
        self.date.as_str()
    }

    /// The first line's number in the commit.
    pub fn orig_lineno(&self) -> (r: usize)
        ensures
            r == self@.orig_lineno,
    {
        self.orig_lineno
    }

    /// The first line's number in the blamed file.
    pub fn final_lineno(&self) -> (r: usize)
        ensures
            r == self@.final_lineno,
    {
        self.final_lineno
    }

    /// How many consecutive lines the group spans.
    pub fn numlines(&self) -> (r: usize)
        ensures
            r == self@.numlines,
    {
        self.numlines
    }
}

/// The assembled blame page.
#[derive(Debug, Clone, PartialEq, Eq)]
pub struct BlameView {
    file_name: String,
    commit_title: String,
    groups: Vec<BlameGroup>,
    rows: Vec<BlameRow>,
}

/// The groups of `v`, each seen through its texts.
pub open spec fn group_views(v: Seq<BlameGroup>) -> Seq<BlameGroupView> {
    v.map_values(|g: BlameGroup| g@)
}

/// The rows of `v`, each seen through its texts.
pub open spec fn row_views(v: Seq<BlameRow>) -> Seq<BlameLineView> {
    v.map_values(|r: BlameRow| r@)
}

impl BlameView {
    /// The blamed path.
    pub closed spec fn spec_file_name(&self) -> Seq<char> {
        self.file_name@
    }

    /// The base commit's subject.
    pub closed spec fn spec_commit_title(&self) -> Seq<char> {
        self.commit_title@
    }

    /// The groups.
    pub closed spec fn spec_groups(&self) -> Seq<BlameGroupView> {
        group_views(self.groups@)
    }

    /// The rows.
    pub closed spec fn spec_rows(&self) -> Seq<BlameLineView> {
        row_views(self.rows@)
    }

    /// The blamed path.
    pub fn file_name(&self) -> (r: &str)
        ensures
            r@ == self.spec_file_name(),
    {
        self.file_name.as_str()
    }

    /// The base commit's subject.
    pub fn commit_title(&self) -> (r: &str)
        ensures
            r@ == self.spec_commit_title(),
    {
        self.commit_title.as_str()
    }

    /// The runs of lines, in file order.
    pub fn groups(&self) -> (r: &[BlameGroup])
        ensures
            group_views(r@) == self.spec_groups(),
    {
        self.groups.as_slice()
    }

    /// The lines, in file order.
    pub fn rows(&self) -> (r: &[BlameRow])
        ensures
            row_views(r@) == self.spec_rows(),
    {
        self.rows.as_slice()
    }
}

/// A run of lines: its commit, the index of its first line, its length.
pub struct Run {
    pub commit: Seq<char>,
    pub start: int,
    pub count: nat,
}

/// The maximal runs of equal commits in `c`, in order.
pub open spec fn runs_of(c: Seq<Seq<char>>) -> Seq<Run>
    decreases c.len(),
{
    if c.len() == 0 {
        seq![]
    } else {
        let prev = runs_of(c.drop_last());
        let x = c.last();
        if prev.len() > 0 && prev.last().commit == x {
            prev.update(prev.len() - 1, Run { commit: x, start: prev.last().start, count: prev.last().count + 1 })
        } else {
            prev.push(Run { commit: x, start: c.len() - 1, count: 1 })
        }
    }
}

/// The commits of blamed lines, in order.
pub open spec fn line_commits(lines: Seq<BlameLineView>) -> Seq<Seq<char>> {
    lines.map_values(|l: BlameLineView| l.commit)
}

/// `runs` split `c` into consecutive, non-empty, maximal runs of one commit.
pub open spec fn partitions(runs: Seq<Run>, c: Seq<Seq<char>>) -> bool {
    &&& (runs.len() == 0 <==> c.len() == 0)
    &&& (runs.len() > 0 ==> runs[0].start == 0)
    &&& (runs.len() > 0 ==> runs.last().start + runs.last().count == c.len())
    &&& forall|k: int| 0 <= k < runs.len() ==> (#[trigger] runs[k]).count >= 1
    &&& forall|k: int| 0 <= k < runs.len() - 1 ==> #[trigger] runs[k + 1].start == runs[k].start + runs[k].count
    &&& forall|k: int, i: int|
        0 <= k < runs.len() && runs[k].start <= i < runs[k].start + runs[k].count ==> #[trigger] c[i] == (#[trigger] runs[k]).commit
    &&& forall|k: int| 0 <= k < runs.len() - 1 ==> (#[trigger] runs[k]).commit != runs[k + 1].commit
}

/// The shape of the runs: one per non-empty stretch, each non-empty, the
/// first at line 0, each starting where the previous ends, the last ending at
/// the last line.
pub proof fn lemma_runs_shape(c: Seq<Seq<char>>)
    ensures
        runs_of(c).len() == 0 <==> c.len() == 0,
        runs_of(c).len() > 0 ==> runs_of(c)[0].start == 0,
        runs_of(c).len() > 0 ==> runs_of(c).last().start + runs_of(c).last().count == c.len(),
        forall|k: int|
            0 <= k < runs_of(c).len() ==> (#[trigger] runs_of(c)[k]).count >= 1 && 0 <= runs_of(c)[k].start
                && runs_of(c)[k].start + runs_of(c)[k].count <= c.len(),
        forall|k: int|
            0 <= k < runs_of(c).len() - 1 ==> #[trigger] runs_of(c)[k + 1].start == runs_of(c)[k].start + runs_of(
                c,
            )[k].count,
    decreases c.len(),
{
    if c.len() > 0 {
        let p = c.drop_last();
        lemma_runs_shape(p);
        let prev = runs_of(p);
        let r = runs_of(c);
        let x = c.last();
        if prev.len() > 0 && prev.last().commit == x {
            assert forall|k: int| 0 <= k < r.len() - 1 implies #[trigger] r[k + 1].start == r[k].start + r[k].count by {
                assert(r[k] == prev[k]);
            }
        } else {
            assert forall|k: int| 0 <= k < r.len() - 1 implies #[trigger] r[k + 1].start == r[k].start + r[k].count by {
                assert(r[k] == prev[k]);
                if k + 1 < prev.len() {
                    assert(r[k + 1] == prev[k + 1]);
                }
            }
        }
    }
}

/// Every line of a run has the run's commit.
pub proof fn lemma_runs_commit(c: Seq<Seq<char>>)
    ensures
        forall|k: int, i: int|
            0 <= k < runs_of(c).len() && runs_of(c)[k].start <= i < runs_of(c)[k].start + runs_of(c)[k].count
                ==> #[trigger] c[i] == (#[trigger] runs_of(c)[k]).commit,
    decreases c.len(),
{
    if c.len() > 0 {
        let p = c.drop_last();
        lemma_runs_commit(p);
        lemma_runs_shape(p);
        let prev = runs_of(p);
        let r = runs_of(c);
        let x = c.last();
        assert forall|k: int, i: int|
            0 <= k < r.len() && r[k].start <= i < r[k].start + r[k].count implies #[trigger] c[i] == (#[trigger] r[k]).commit by {
            if i < c.len() - 1 {
                assert(c[i] == p[i]);
                if k < prev.len() {
                    if !(k == prev.len() - 1 && prev.last().commit == x) {
                        assert(r[k] == prev[k]);
                    }
                }
            }
        }
    }
}

/// Neighbouring runs have different commits.
pub proof fn lemma_runs_maximal(c: Seq<Seq<char>>)
    ensures
        forall|k: int| 0 <= k < runs_of(c).len() - 1 ==> (#[trigger] runs_of(c)[k]).commit != runs_of(c)[k + 1].commit,
    decreases c.len(),
{
    if c.len() > 0 {
        let p = c.drop_last();
        lemma_runs_maximal(p);
        let prev = runs_of(p);
        let r = runs_of(c);
        assert forall|k: int| 0 <= k < r.len() - 1 implies (#[trigger] r[k]).commit != r[k + 1].commit by {
            assert(r[k] == prev[k]);
            if k + 1 < prev.len() {
                assert(r[k + 1].commit == prev[k + 1].commit);
            }
        }
    }
}

/// The blame groups are the maximal runs of consecutive lines sharing one
/// commit: every line falls in exactly one group, in order, each group's lines
/// share its commit, and neighbouring groups have different commits.
pub proof fn lemma_runs_partition(c: Seq<Seq<char>>)
    ensures
        partitions(runs_of(c), c),
{
    lemma_runs_shape(c);
    lemma_runs_commit(c);
    lemma_runs_maximal(c);
}

/// A run of lines as an exec value: its first line's index and its length.
pub struct BlameRun {
    pub start: usize,
    pub count: usize,
}

/// Whether exec runs `v` are the runs `s`.
pub open spec fn runs_match(v: Seq<BlameRun>, s: Seq<Run>, c: Seq<Seq<char>>) -> bool {
    &&& v.len() == s.len()
    &&& forall|k: int|
        0 <= k < v.len() ==> (#[trigger] v[k]).start == s[k].start && v[k].count == s[k].count && s[k].commit
            == c[s[k].start]
}

/// Folds `keys` into their maximal runs of equal keys (see [`runs_of`]).
pub fn key_runs(keys: &[String]) -> (r: Vec<BlameRun>)
    ensures
        runs_match(r@, runs_of(string_views(keys@)), string_views(keys@)),
{
    let ghost c = string_views(keys@);
    let mut runs: Vec<BlameRun> = Vec::new();
    let mut i: usize = 0;
    while i < keys.len()
        invariant
            0 <= i <= keys@.len(),
            c == string_views(keys@),
            c.len() == keys@.len(),
            runs_match(runs@, runs_of(c.take(i as int)), c),
            forall|k: int| 0 <= k < runs@.len() ==> (#[trigger] runs@[k]).start + runs@[k].count <= i,
        decreases keys.len() - i,
    {
        proof {
            lemma_runs_partition(c.take(i as int));
            assert(c.take(i + 1).drop_last() =~= c.take(i as int));
            assert(c[i as int] == keys@[i as int]@);
        }
        let ghost prev = runs_of(c.take(i as int));
        let same: bool = if runs.len() > 0 {
            let last_start: usize = runs[runs.len() - 1].start;
            proof {
                assert(prev.last().start + prev.last().count == i);
                assert(c.take(i as int)[prev.last().start] == prev.last().commit);
            }
            str_eq(keys[last_start].as_str(), keys[i].as_str())
        } else {
            false
        };
        if same {
            let last: BlameRun = runs.pop().unwrap();
            runs.push(BlameRun { start: last.start, count: last.count + 1 });
        } else {
            runs.push(BlameRun { start: i, count: 1 });
        }
        proof {
            let next = runs_of(c.take(i + 1));
            assert(c.take(i + 1).last() == c[i as int]);
            assert forall|k: int| 0 <= k < runs@.len() implies (#[trigger] runs@[k]).start == next[k].start
                && runs@[k].count == next[k].count && next[k].commit == c[next[k].start] by {
                if k < prev.len() && !(same && k == prev.len() - 1) {
                    assert(next[k] == prev[k]);
                }
            }
        }
        i += 1;
    }
    assert(c.take(keys@.len() as int) =~= c);
    runs
}

/// Folds the lines into their maximal runs of one commit (see [`runs_of`]).
pub fn blame_runs(lines: &[BlameLine]) -> (r: Vec<BlameRun>)
    ensures
        runs_match(r@, runs_of(line_commits(blame_line_views(lines@))), line_commits(blame_line_views(lines@))),
{
    let ghost c = line_commits(blame_line_views(lines@));
    let mut commits: Vec<String> = Vec::new();
    let mut i: usize = 0;
    while i < lines.len()
        invariant
            0 <= i <= lines@.len(),
            c == line_commits(blame_line_views(lines@)),
            string_views(commits@) =~= c.take(i as int),
        decreases lines.len() - i,
    {
        let key: String = lines[i].commit().as_str().to_owned();
        proof {
            assert(c[i as int] == lines@[i as int]@.commit);
            assert(key@ == c[i as int]);
        }
        let ghost before = commits@;
        commits.push(key);
        assert(string_views(commits@) =~= string_views(before).push(key@));
        assert(c.take(i + 1) =~= c.take(i as int).push(c[i as int]));
        i += 1;
    }
    assert(c.take(lines@.len() as int) =~= c);
    key_runs(commits.as_slice())
}

/// The first eight characters of an id.
pub open spec fn short_id_of(commit: Seq<char>) -> Seq<char> {
    commit.take(if commit.len() < SHORT_ID_LEN {
        commit.len() as int
    } else {
        SHORT_ID_LEN as int
    })
}

/// The abbreviated id (see [`short_id_of`]).
pub fn short_id(commit: &str) -> (r: String)
    ensures
        r@ == short_id_of(commit@),
{
    let v: Vec<char> = chars_of(commit);
    let n: usize = if v.len() < SHORT_ID_LEN {
        v.len()
    } else {
        SHORT_ID_LEN
    };
    substring(&v, 0, n)
}

/// What a group shows of its commit: the author's name, epoch, zone and date.
pub struct CommitMeta {
    pub author: String,
    pub author_time: i64,
    pub author_tz: String,
    pub date: String,
}

/// Reads the author metadata of `commit`.
pub fn commit_meta<R: Repository>(repo: &R, commit: &ObjectId) -> (r: Result<CommitMeta, DomainError>)
    ensures
        r matches Ok(m) ==> zone_fits(m.author_time as int, m.author_tz@) && m.date@ == iso_tz_form(
            timestamp_of(m.author_time, m.author_tz@).local,
            timestamp_of(m.author_time, m.author_tz@).timezone,
        ),
{
    let found = match repo.find_commit(commit) {
        Ok(c) => c,
        Err(e) => return Err(e),
    };
    let signature = found.author();
    if !zone_fits_exec(signature.epoch(), signature.timezone()) {
        return Err(DomainError::Backend("commit time out of range".to_owned()));
    }
    let timestamp: Timestamp = Timestamp::from_signature(signature);
    Ok(CommitMeta {
        author: signature.name().to_owned(),
        author_time: signature.epoch(),
        author_tz: signature.timezone().to_owned(),
        date: timestamp.iso_tz(),
    })
}

/// The group of a run starting at `line`, with its commit's metadata.
pub fn group_of(line: &BlameLine, count: usize, meta: &CommitMeta) -> (r: BlameGroup)
    ensures
        r@.commit == line@.commit,
        r@.short_commit == short_id_of(line@.commit),
        r@.author == meta.author@,
        r@.author_time == meta.author_time,
        r@.author_tz == meta.author_tz@,
        r@.date == meta.date@,
        r@.orig_lineno == line@.orig_lineno,
        r@.final_lineno == line@.final_lineno,
        r@.numlines == count,
{
    BlameGroup {
        commit: line.commit().as_str().to_owned(),
        short_commit: short_id(line.commit().as_str()),
        author: meta.author.clone(),
        author_time: meta.author_time,
        author_tz: meta.author_tz.clone(),
        date: meta.date.clone(),
        orig_lineno: line.orig_lineno(),
        final_lineno: line.final_lineno(),
        numlines: count,
    }
}

/// The index in `cache` of the metadata of `commit`, if it was read.
fn cached(cache: &Vec<(String, CommitMeta)>, commit: &str) -> (r: Option<usize>)
    ensures
        r matches Some(k) ==> k < cache@.len() && cache@[k as int].0@ == commit@ && forall|j: int|
            0 <= j < k ==> (#[trigger] cache@[j]).0@ != commit@,
        r is None ==> forall|j: int| 0 <= j < cache@.len() ==> (#[trigger] cache@[j]).0@ != commit@,
{
    let mut k: usize = 0;
    while k < cache.len()
        invariant
            0 <= k <= cache@.len(),
            forall|j: int| 0 <= j < k ==> (#[trigger] cache@[j]).0@ != commit@,
        decreases cache.len() - k,
    {
        if str_eq(cache[k].0.as_str(), commit) {
            return Some(k);
        }
        k += 1;
    }
    None
}

/// The groups of the blamed lines: one per run, each with its commit's
/// metadata, read once per distinct commit (the cache of read metadata holds
/// each commit at most once, as a map would).
pub fn assemble_groups<R: Repository>(repo: &R, lines: &[BlameLine]) -> (r: Result<Vec<BlameGroup>, DomainError>)
    ensures
        lines@.len() == 0 ==> (r matches Ok(groups) && groups@.len() == 0),
        r matches Ok(groups) ==> {
            let c = line_commits(blame_line_views(lines@));
            let runs = runs_of(c);
            &&& groups@.len() == runs.len()
            &&& forall|k: int|
                0 <= k < groups@.len() ==> {
                    &&& (#[trigger] groups@[k])@.commit == runs[k].commit
                    &&& groups@[k]@.numlines == runs[k].count
                    &&& groups@[k]@.orig_lineno == lines@[runs[k].start]@.orig_lineno
                    &&& groups@[k]@.final_lineno == lines@[runs[k].start]@.final_lineno
                }
        },
{
    let runs: Vec<BlameRun> = blame_runs(lines);
    let ghost c = line_commits(blame_line_views(lines@));
    proof {
        lemma_runs_shape(c);
    }
    let mut cache: Vec<(String, CommitMeta)> = Vec::new();
    let mut groups: Vec<BlameGroup> = Vec::new();
    let mut k: usize = 0;
    while k < runs.len()
        invariant
            0 <= k <= runs@.len(),
            c == line_commits(blame_line_views(lines@)),
            c.len() == lines@.len(),
            lines@.len() == 0 ==> runs@.len() == 0,
            runs_match(runs@, runs_of(c), c),
            forall|i: int, j: int| 0 <= i < j < cache@.len() ==> (#[trigger] cache@[i]).0@ != (#[trigger] cache@[j]).0@,
            groups@.len() == k,
            forall|j: int|
                0 <= j < k ==> {
                    &&& (#[trigger] groups@[j])@.commit == runs_of(c)[j].commit
                    &&& groups@[j]@.numlines == runs_of(c)[j].count
                    &&& groups@[j]@.orig_lineno == lines@[runs_of(c)[j].start]@.orig_lineno
                    &&& groups@[j]@.final_lineno == lines@[runs_of(c)[j].start]@.final_lineno
                },
        decreases runs.len() - k,
    {
        let start: usize = runs[k].start;
        let count: usize = runs[k].count;
        proof {
            lemma_runs_shape(c);
            let s = runs_of(c)[k as int];
            assert(s.start + s.count <= c.len());
        }
        let line: &BlameLine = &lines[start];
        let found: Option<usize> = cached(&cache, line.commit().as_str());
        let slot: usize = match found {
            Some(j) => j,
            None => {
                let meta: CommitMeta = match commit_meta(repo, line.commit()) {
                    Ok(m) => m,
                    Err(e) => return Err(e),
                };
                cache.push((line.commit().as_str().to_owned(), meta));
                cache.len() - 1
            },
        };
        let group: BlameGroup = group_of(line, count, &cache[slot].1);
        groups.push(group);
        k += 1;
    }
    Ok(groups)
}

/// The table row of a blamed line.
pub fn row_of(line: &BlameLine) -> (r: BlameRow)
    ensures
        r@ == line@,
{
    BlameRow {
        commit: line.commit().as_str().to_owned(),
        orig_lineno: line.orig_lineno(),
        final_lineno: line.final_lineno(),
        content: line.content().to_owned(),
    }
}

/// The table rows of the blamed lines, in order.
pub fn rows_of(lines: &[BlameLine]) -> (r: Vec<BlameRow>)
    ensures
        row_views(r@) == blame_line_views(lines@),
{
    let mut rows: Vec<BlameRow> = Vec::new();
    let mut i: usize = 0;
    while i < lines.len()
        invariant
            0 <= i <= lines@.len(),
            row_views(rows@) =~= blame_line_views(lines@).take(i as int),
        decreases lines.len() - i,
    {
        let ghost before = row_views(rows@);
        let row = row_of(&lines[i]);
        rows.push(row);
        assert(row_views(rows@) =~= before.push(row@));
        i += 1;
    }
    rows
}

/// `groups` are the groups of the table rows `rows`: one per maximal run of
/// consecutive rows of one commit, in order, each with that commit, the run's
/// length, and the line numbers of its first row.
pub open spec fn groups_of_rows(groups: Seq<BlameGroupView>, rows: Seq<BlameLineView>) -> bool {
    let runs = runs_of(line_commits(rows));
    &&& groups.len() == runs.len()
    &&& forall|k: int|
        0 <= k < groups.len() ==> {
            &&& (#[trigger] groups[k]).commit == runs[k].commit
            &&& groups[k].numlines == runs[k].count
            &&& groups[k].orig_lineno == rows[runs[k].start].orig_lineno
            &&& groups[k].final_lineno == rows[runs[k].start].final_lineno
        }
}

/// The lines the first `k` groups span.
pub open spec fn lines_spanned(groups: Seq<BlameGroupView>, k: int) -> int
    decreases k,
{
    if k <= 0 {
        0
    } else {
        lines_spanned(groups, k - 1) + groups[k - 1].numlines
    }
}

/// The groups of a blame cover its rows exactly: their line counts add up to
/// the number of rows, each group starting where the previous one ends.
pub proof fn lemma_groups_cover_rows(groups: Seq<BlameGroupView>, rows: Seq<BlameLineView>)
    requires
        groups_of_rows(groups, rows),
    ensures
        lines_spanned(groups, groups.len() as int) == rows.len(),
{
    let c = line_commits(rows);
    let runs = runs_of(c);
    lemma_runs_shape(c);
    assert forall|k: int| 0 <= k <= groups.len() implies #[trigger] lines_spanned(groups, k) == (if k
        < runs.len() {
        runs[k].start
    } else {
        c.len() as int
    }) by {
        lemma_spanned_prefix(groups, rows, k);
    }
    assert(lines_spanned(groups, groups.len() as int) == c.len() as int);
}

proof fn lemma_spanned_prefix(groups: Seq<BlameGroupView>, rows: Seq<BlameLineView>, k: int)
    requires
        groups_of_rows(groups, rows),
        0 <= k <= groups.len(),
    ensures
        lines_spanned(groups, k) == (if k < runs_of(line_commits(rows)).len() {
            runs_of(line_commits(rows))[k].start
        } else {
            line_commits(rows).len() as int
        }),
    decreases k,
{
    let c = line_commits(rows);
    let runs = runs_of(c);
    lemma_runs_shape(c);
    if k > 0 {
        lemma_spanned_prefix(groups, rows, k - 1);
        assert(groups[k - 1].numlines == runs[k - 1].count);
        if k < runs.len() {
            assert(runs[(k - 1) + 1].start == runs[k - 1].start + runs[k - 1].count);
        } else {
            assert(runs.last() == runs[k - 1]);
        }
    } else {
        if runs.len() == 0 {
            assert(c.len() == 0);
        }
    }
}

/// Assembles the blame of `path` at `base_rev` (HEAD when `None`) over the
/// [`Repository`] port: one table row per blamed line, and the rows grouped
/// into runs of one commit (see [`groups_of_rows`]).
pub fn assemble_blame<R: Repository>(repo: &R, base_rev: Option<&str>, path: &str) -> (r: Result<BlameView, DomainError>)
    ensures
        r matches Ok(v) ==> v.spec_file_name() == path@,
        r matches Ok(v) ==> groups_of_rows(v.spec_groups(), v.spec_rows()),
{
    let rev: &str = match base_rev {
        Some(r) => r,
        None => "HEAD",
    };
    let base: ObjectId = match repo.resolve(rev) {
        Ok(b) => b,
        Err(e) => return Err(e),
    };
    let commit_title: String = match repo.find_commit(&base) {
        Ok(c) => c.title(),
        Err(e) => return Err(e),
    };
    let blame: Blame = match repo.blame(&base, path) {
        Ok(b) => b,
        Err(e) => return Err(e),
    };
    let lines: &[BlameLine] = blame.lines();
    let groups: Vec<BlameGroup> = match assemble_groups(repo, lines) {
        Ok(g) => g,
        Err(e) => return Err(e),
    };
    let rows: Vec<BlameRow> = rows_of(lines);
    let view = BlameView { file_name: path.to_owned(), commit_title, groups, rows };
    proof {
        let gv = view.spec_groups();
        let rv = view.spec_rows();
        assert(rv == blame_line_views(lines@));
        let runs = runs_of(line_commits(rv));
        lemma_runs_shape(line_commits(rv));
        assert(gv.len() == runs.len());
        assert forall|k: int| 0 <= k < gv.len() implies {
            &&& (#[trigger] gv[k]).commit == runs[k].commit
            &&& gv[k].numlines == runs[k].count
            &&& gv[k].orig_lineno == rv[runs[k].start].orig_lineno
            &&& gv[k].final_lineno == rv[runs[k].start].final_lineno
        } by {
            assert(gv[k] == view.groups@[k]@);
            assert(rv[runs[k].start] == lines@[runs[k].start]@);
        }
    }
    Ok(view)
}

} // verus!
