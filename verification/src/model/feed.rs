//! The RSS/Atom feed model (gitweb's `git_feed`): how many recent commits a
//! feed keeps, the comment lines of a commit message, and the structured feed
//! the serializers render.

use vstd::prelude::*;

use crate::model::timestamp::{Timestamp, TimestampView};
use crate::text::{split_chars, split_on, string_of, views, chars_of, string_views};

verus! {

/// How many commits a feed reads (gitweb's `parse_commits($head, 150, ...)`).
pub const FEED_READ_LIMIT: usize = 150;

/// How many commits a feed always keeps, however old.
pub const FEED_MIN_ENTRIES: usize = 20;

/// The age, in seconds, within which a commit past the first twenty is still
/// kept (48 hours).
pub const FEED_RECENT_SECONDS: i64 = 172800;

/// gitweb stops the feed at commit `i`: it is past the first twenty and older
/// than 48 hours at `now`.
pub open spec fn stops_at(epochs: Seq<i64>, now: i64, i: int) -> bool {
    i >= FEED_MIN_ENTRIES && now - epochs[i] > FEED_RECENT_SECONDS
}

/// How many of the newest-first commits with committer times `epochs` the
/// feed keeps: all of them up to the first where [`stops_at`] holds.
pub fn feed_window(epochs: &[i64], now: i64) -> (r: usize)
    ensures
        r <= epochs@.len(),
        forall|i: int| 0 <= i < r ==> !stops_at(epochs@, now, i),
        r < epochs@.len() ==> stops_at(epochs@, now, r as int),
{
    let mut i: usize = 0;
    while i < epochs.len()
        invariant
            0 <= i <= epochs@.len(),
            forall|k: int| 0 <= k < i ==> !stops_at(epochs@, now, k),
        decreases epochs.len() - i,
    {
        let age: i128 = now as i128 - epochs[i] as i128;
        if i >= FEED_MIN_ENTRIES && age > FEED_RECENT_SECONDS as i128 {
            return i;
        }
        i += 1;
    }
    i
}

/// `lines` without its trailing empty lines.
pub open spec fn drop_trailing_empty(lines: Seq<Seq<char>>) -> Seq<Seq<char>>
    decreases lines.len(),
{
    if lines.len() > 0 && lines.last().len() == 0 {
        drop_trailing_empty(lines.drop_last())
    } else {
        lines
    }
}

/// The comment lines of a commit message (gitweb's `$co{'comment'}`): the
/// message split at each newline, trailing empty lines dropped, the way
/// Perl's `split '\n'` leaves them.
pub open spec fn comment_lines_of(message: Seq<char>) -> Seq<Seq<char>> {
    drop_trailing_empty(split_on(message, '\n'))
}

/// The comment lines of `message` (see [`comment_lines_of`]).
pub fn comment_lines(message: &str) -> (r: Vec<String>)
    ensures
        string_views(r@) == comment_lines_of(message@),
{
    let chars: Vec<char> = chars_of(message);
    let mut pieces: Vec<Vec<char>> = split_chars(&chars, '\n');
    while pieces.len() > 0 && pieces[pieces.len() - 1].len() == 0
        invariant
            drop_trailing_empty(views(pieces@)) == comment_lines_of(message@),
        decreases pieces.len(),
    {
        let ghost before = views(pieces@);
        pieces.pop();
        assert(views(pieces@) =~= before.drop_last());
    }
    let mut out: Vec<String> = Vec::new();
    let mut i: usize = 0;
    while i < pieces.len()
        invariant
            0 <= i <= pieces@.len(),
            string_views(out@) =~= views(pieces@).take(i as int),
        decreases pieces.len() - i,
    {
        let line: String = string_of(pieces[i].as_slice());
        let ghost before = out@;
        out.push(line);
        assert(string_views(out@) =~= string_views(before).push(line@));
        i += 1;
    }
    assert(views(pieces@).take(pieces@.len() as int) =~= views(pieces@));
    out
}

/// One changed path of a feed entry: its old and new blob ids and paths.
#[derive(Debug, Clone, PartialEq, Eq)]
pub struct FeedFile {
    from_id: String,
    to_id: String,
    from_path: String,
    to_path: String,
}

/// A [`FeedFile`] seen through its texts.
pub struct FeedFileView {
    pub from_id: Seq<char>,
    pub to_id: Seq<char>,
    pub from_path: Seq<char>,
    pub to_path: Seq<char>,
}

impl View for FeedFile {
    type V = FeedFileView;

    closed spec fn view(&self) -> FeedFileView {
        FeedFileView {
            from_id: self.from_id@,
            to_id: self.to_id@,
            from_path: self.from_path@,
            to_path: self.to_path@,
        }
    }
}

impl FeedFile {
    /// A changed path from `from_path` (blob `from_id`) to `to_path` (blob
    /// `to_id`).
    pub fn new(from_id: String, to_id: String, from_path: String, to_path: String) -> (r: FeedFile)
        ensures
            r@ == (FeedFileView { from_id: from_id@, to_id: to_id@, from_path: from_path@, to_path: to_path@ }),
    {
        FeedFile { from_id, to_id, from_path, to_path }
    }

    /// The old blob id.
    pub fn from_id(&self) -> (r: &str)
        ensures
            r@ == self@.from_id,
    {
        self.from_id.as_str()
    }

    /// The new blob id.
    pub fn to_id(&self) -> (r: &str)
        ensures
            r@ == self@.to_id,
    {
        self.to_id.as_str()
    }

    /// The old path.
    pub fn from_path(&self) -> (r: &str)
        ensures
            r@ == self@.from_path,
    {
        self.from_path.as_str()
    }

    /// The new path.
    pub fn to_path(&self) -> (r: &str)
        ensures
            r@ == self@.to_path,
    {
        self.to_path.as_str()
    }
}

/// The files of `v`, each seen through its texts.
pub open spec fn feed_file_views(v: Seq<FeedFile>) -> Seq<FeedFileView> {
    v.map_values(|f: FeedFile| f@)
}

/// The texts of an optional string.
pub open spec fn opt_view(o: Option<String>) -> Option<Seq<char>> {
    match o {
        Some(s) => Some(s@),
        None => None,
    }
}

/// One feed entry: a commit's id, first parent, subject, identities, date,
/// message lines and changed files.
#[derive(Debug, Clone, PartialEq, Eq)]
pub struct FeedEntry {
    id: String,
    parent: Option<String>,
    title: String,
    author: String,
    author_name: String,
    author_email: Option<String>,
    committer_name: String,
    committer_email: Option<String>,
    date: Timestamp,
    comment: Vec<String>,
    files: Vec<FeedFile>,
}

/// The parts of a [`FeedEntry`] that are text, seen through their characters.
pub struct FeedEntryView {
    pub id: Seq<char>,
    pub parent: Option<Seq<char>>,
    pub title: Seq<char>,
    pub author: Seq<char>,
    pub author_name: Seq<char>,
    pub author_email: Option<Seq<char>>,
    pub committer_name: Seq<char>,
    pub committer_email: Option<Seq<char>>,
    pub date: TimestampView,
    pub comment: Seq<Seq<char>>,
    pub files: Seq<FeedFileView>,
}

impl View for FeedEntry {
    type V = FeedEntryView;

    closed spec fn view(&self) -> FeedEntryView {
        FeedEntryView {
            id: self.id@,
            parent: opt_view(self.parent),
            title: self.title@,
            author: self.author@,
            author_name: self.author_name@,
            author_email: opt_view(self.author_email),
            committer_name: self.committer_name@,
            committer_email: opt_view(self.committer_email),
            date: self.date@,
            comment: string_views(self.comment@),
            files: feed_file_views(self.files@),
        }
    }
}

impl FeedEntry {
    /// An entry from its parts.
    pub fn new(
        id: String,
        parent: Option<String>,
        title: String,
        author: String,
        author_name: String,
        author_email: Option<String>,
        committer_name: String,
        committer_email: Option<String>,
        date: Timestamp,
        comment: Vec<String>,
        files: Vec<FeedFile>,
    ) -> (r: FeedEntry)
        ensures
            r@ == (FeedEntryView {
                id: id@,
                parent: opt_view(parent),
                title: title@,
                author: author@,
                author_name: author_name@,
                author_email: opt_view(author_email),
                committer_name: committer_name@,
                committer_email: opt_view(committer_email),
                date: date@,
                comment: string_views(comment@),
                files: feed_file_views(files@),
            }),
    {
        FeedEntry {
            id,
            parent,
            title,
            author,
            author_name,
            author_email,
            committer_name,
            committer_email,
            date,
            comment,
            files,
        }
    }

    /// The commit id (full hex).
    pub fn id(&self) -> (r: &str)
        ensures
            r@ == self@.id,
    {
        self.id.as_str()
    }

    /// The first parent's id, `None` for a root commit.
    pub fn parent(&self) -> (r: Option<&str>)
        ensures
            r matches Some(p) ==> self@.parent == Some(p@),
            r is None ==> self@.parent is None,
    {
        match &self.parent {
            Some(p) => Some(p.as_str()),
            None => None,
        }
    }

    /// The commit subject.
    pub fn title(&self) -> (r: &str)
        ensures
            r@ == self@.title,
    {
        self.title.as_str()
    }

    /// The author's full identity, `Name <email>`.
    pub fn author(&self) -> (r: &str)
        ensures
            r@ == self@.author,
    {
        self.author.as_str()
    }

    /// The author's name.
    pub fn author_name(&self) -> (r: &str)
        ensures
            r@ == self@.author_name,
    {
        self.author_name.as_str()
    }

    /// The author's email, when the identity has one.
    pub fn author_email(&self) -> (r: Option<&str>)
        ensures
            r matches Some(e) ==> self@.author_email == Some(e@),
            r is None ==> self@.author_email is None,
    {
        match &self.author_email {
            Some(e) => Some(e.as_str()),
            None => None,
        }
    }

    /// The committer's name.
    pub fn committer_name(&self) -> (r: &str)
        ensures
            r@ == self@.committer_name,
    {
        self.committer_name.as_str()
    }

    /// The committer's email, when the identity has one.
    pub fn committer_email(&self) -> (r: Option<&str>)
        ensures
            r matches Some(e) ==> self@.committer_email == Some(e@),
            r is None ==> self@.committer_email is None,
    {
        match &self.committer_email {
            Some(e) => Some(e.as_str()),
            None => None,
        }
    }

    /// The commit date (the committer's).
    pub fn date(&self) -> (r: &Timestamp)
        ensures
            r@ == self@.date,
    {
        &self.date
    }

    /// The message lines (see [`comment_lines_of`]).
    pub fn comment(&self) -> (r: &[String])
        ensures
            string_views(r@) == self@.comment,
    {
        self.comment.as_slice()
    }

    /// The changed files.
    pub fn files(&self) -> (r: &[FeedFile])
        ensures
            feed_file_views(r@) == self@.files,
    {
        self.files.as_slice()
    }
}

/// A feed: its entries, newest first, and the date of the newest commit read
/// (the feed's last-modified time; `None` for an empty history).
#[derive(Debug, Clone, PartialEq, Eq)]
pub struct Feed {
    entries: Vec<FeedEntry>,
    latest: Option<Timestamp>,
}

/// The entries of `v`, each seen through its texts.
pub open spec fn feed_entry_views(v: Seq<FeedEntry>) -> Seq<FeedEntryView> {
    v.map_values(|e: FeedEntry| e@)
}

impl Feed {
    /// The entries, newest first.
    pub closed spec fn spec_entries(&self) -> Seq<FeedEntryView> {
        feed_entry_views(self.entries@)
    }

    /// The newest commit's date.
    pub closed spec fn spec_latest(&self) -> Option<TimestampView> {
        match self.latest {
            Some(t) => Some(t@),
            None => None,
        }
    }

    /// A feed of `entries` last modified at `latest`.
    pub fn new(entries: Vec<FeedEntry>, latest: Option<Timestamp>) -> (r: Feed)
        ensures
            r.spec_entries() == feed_entry_views(entries@),
            r.spec_latest() == (match latest {
                Some(t) => Some(t@),
                None => None::<TimestampView>,
            }),
    {
        Feed { entries, latest }
    }

    /// The entries, newest first.
    pub fn entries(&self) -> (r: &[FeedEntry])
        ensures
            feed_entry_views(r@) == self.spec_entries(),
    {
        self.entries.as_slice()
    }

    /// The newest commit's date, `None` for an empty feed.
    pub fn latest(&self) -> (r: Option<&Timestamp>)
        ensures
            r matches Some(t) ==> self.spec_latest() == Some(t@),
            r is None ==> self.spec_latest() is None,
    {
        match &self.latest {
            Some(t) => Some(t),
            None => None,
        }
    }
}

impl Default for Feed {
    /// The empty feed.
    fn default() -> (r: Feed)
        ensures
            r.spec_entries().len() == 0,
            r.spec_latest() is None,
    {
        Feed { entries: Vec::new(), latest: None }
    }
}

} // verus!
