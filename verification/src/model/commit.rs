//! A commit as gitweb's `parse_commit` sees it: its id, tree, parents, the two
//! identities, and the message, with the subject lines gitweb derives from it.

use vstd::prelude::*;

use crate::model::chop::{chop_right, chop_str, ChopMode};
use crate::model::object_id::ObjectId;
use crate::model::signature::{Signature, SignatureView};
use crate::text::{chars_of, split_chars, split_on, string_of, views};

verus! {

/// The subject length of `title` (gitweb's `chop_str($title, 80, 5)`).
pub const TITLE_LEN: usize = 80;

/// The subject length of `title_short` (gitweb's `chop_str($title, 50, 5)`).
pub const TITLE_SHORT_LEN: usize = 50;

/// The word slack of both subject chops.
pub const TITLE_SLACK: usize = 5;

/// A commit seen through its fields.
pub struct CommitView {
    pub id: Seq<char>,
    pub tree: Seq<char>,
    pub parents: Seq<Seq<char>>,
    pub author: SignatureView,
    pub committer: SignatureView,
    pub message: Seq<char>,
}

/// One parsed commit.
#[derive(Debug)]
pub struct Commit {
    id: ObjectId,
    tree: ObjectId,
    parents: Vec<ObjectId>,
    author: Signature,
    committer: Signature,
    message: String,
}

/// The ids of `v`, each as its text.
pub open spec fn id_views(v: Seq<ObjectId>) -> Seq<Seq<char>> {
    v.map_values(|o: ObjectId| o@)
}

impl View for Commit {
    type V = CommitView;

    closed spec fn view(&self) -> CommitView {
        CommitView {
            id: self.id@,
            tree: self.tree@,
            parents: id_views(self.parents@),
            author: self.author@,
            committer: self.committer@,
            message: self.message@,
        }
    }
}

/// The first non-empty line among `lines`.
pub open spec fn first_nonempty(lines: Seq<Seq<char>>) -> Option<Seq<char>>
    decreases lines.len(),
{
    if lines.len() == 0 {
        None
    } else if lines[0].len() > 0 {
        Some(lines[0])
    } else {
        first_nonempty(lines.drop_first())
    }
}

/// The subject of a message: its first non-empty line.
pub open spec fn subject_of(message: Seq<char>) -> Option<Seq<char>> {
    first_nonempty(split_on(message, '\n'))
}

/// gitweb's `$co{'title'}`: the subject chopped to 80 characters, or
/// `(no commit message)`.
pub open spec fn title_of(message: Seq<char>, len: nat) -> Seq<char> {
    match subject_of(message) {
        Some(line) => chop_right(line, len, TITLE_SLACK as nat),
        None => "(no commit message)"@,
    }
}

fn subject_line(message: &str) -> (r: Option<Vec<char>>)
    ensures
        match subject_of(message@) {
            Some(l) => r matches Some(v) && v@ == l,
            None => r is None,
        },
{
    let text: Vec<char> = chars_of(message);
    let lines: Vec<Vec<char>> = split_chars(&text, '\n');
    let ghost all = views(lines@);
    let mut i: usize = 0;
    assert(all.skip(0) =~= all);
    while i < lines.len()
        invariant
            0 <= i <= lines.len(),
            all == views(lines@),
            all.len() == lines@.len(),
            first_nonempty(all) == first_nonempty(all.skip(i as int)),
            all == split_on(message@, '\n'),
        decreases lines.len() - i,
    {
        let ghost rest = all.skip(i as int);
        assert(rest[0] == lines@[i as int]@);
        if lines[i].len() > 0 {
            let line: Vec<char> = crate::text::slice(&lines[i], 0, lines[i].len());
            return Some(line);
        }
        assert(rest.drop_first() =~= all.skip(i + 1));
        i += 1;
    }
    assert(all.skip(i as int) =~= Seq::<Seq<char>>::empty());
    None
}

fn title_with(message: &str, len: usize) -> (r: String)
    ensures
        r@ == title_of(message@, len as nat),
{
    match subject_line(message) {
        Some(line) => {
            let s: String = string_of(line.as_slice());
            chop_str(s.as_str(), len, TITLE_SLACK, ChopMode::Right)
        },
        None => "(no commit message)".to_owned(),
    }
}

impl Commit {
    /// A commit from its parts.
    pub fn new(
        id: ObjectId,
        tree: ObjectId,
        parents: Vec<ObjectId>,
        author: Signature,
        committer: Signature,
        message: String,
    ) -> (r: Commit)
        ensures
            r@ == (CommitView {
                id: id@,
                tree: tree@,
                parents: id_views(parents@),
                author: author@,
                committer: committer@,
                message: message@,
            }),
    {
        Commit { id, tree, parents, author, committer, message }
    }

    /// The commit's id.
    pub fn id(&self) -> (r: &ObjectId)
        ensures
            r@ == self@.id,
    {
        &self.id
    }

    /// The commit's root tree.
    pub fn tree(&self) -> (r: &ObjectId)
        ensures
            r@ == self@.tree,
    {
        &self.tree
    }

    /// The parent ids, in order.
    pub fn parents(&self) -> (r: &[ObjectId])
        ensures
            id_views(r@) == self@.parents,
    {
        self.parents.as_slice()
    }

    /// The author identity.
    pub fn author(&self) -> (r: &Signature)
        ensures
            r@ == self@.author,
    {
        &self.author
    }

    /// The committer identity.
    pub fn committer(&self) -> (r: &Signature)
        ensures
            r@ == self@.committer,
    {
        &self.committer
    }

    /// The full message.
    pub fn message(&self) -> (r: &str)
        ensures
            r@ == self@.message,
    {
        self.message.as_str()
    }

    /// The subject chopped to 80 characters (gitweb's `$co{'title'}`).
    pub fn title(&self) -> (r: String)
        ensures
            r@ == title_of(self@.message, TITLE_LEN as nat),
    {
        title_with(self.message.as_str(), TITLE_LEN)
    }

    /// The subject chopped to 50 characters (gitweb's `$co{'title_short'}`).
    pub fn title_short(&self) -> (r: String)
        ensures
            r@ == title_of(self@.message, TITLE_SHORT_LEN as nat),
    {
        title_with(self.message.as_str(), TITLE_SHORT_LEN)
    }
}

} // verus!
