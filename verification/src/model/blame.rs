//! A file's blame: each line of the file as of a commit, with the commit
//! that last touched it and its line numbers there and here (`git blame -p`).

use vstd::prelude::*;

use crate::model::object_id::ObjectId;

verus! {

/// One blamed line.
#[derive(Debug, Clone, PartialEq, Eq)]
pub struct BlameLine {
    commit: ObjectId,
    orig_lineno: usize,
    final_lineno: usize,
    content: String,
}

/// A blamed line seen through its texts.
pub struct BlameLineView {
    pub commit: Seq<char>,
    pub orig_lineno: usize,
    pub final_lineno: usize,
    pub content: Seq<char>,
}

impl View for BlameLine {
    type V = BlameLineView;

    closed spec fn view(&self) -> BlameLineView {
        BlameLineView {
            commit: self.commit@,
            orig_lineno: self.orig_lineno,
            final_lineno: self.final_lineno,
            content: self.content@,
        }
    }
}

impl BlameLine {
    /// A line last touched by `commit`, at `orig_lineno` there and
    /// `final_lineno` in the blamed file.
    pub fn new(commit: ObjectId, orig_lineno: usize, final_lineno: usize, content: String) -> (r: BlameLine)
        ensures
            r@ == (BlameLineView { commit: commit@, orig_lineno, final_lineno, content: content@ }),
    {
        BlameLine { commit, orig_lineno, final_lineno, content }
    }

    /// The commit that last touched the line.
    pub fn commit(&self) -> (r: &ObjectId)
        ensures
            r@ == self@.commit,
    {
        &self.commit
    }

    /// The line's number in that commit's version of the file.
    pub fn orig_lineno(&self) -> (r: usize)
        ensures
            r == self@.orig_lineno,
    {
        self.orig_lineno
    }

    /// The line's number in the blamed file.
    pub fn final_lineno(&self) -> (r: usize)
        ensures
            r == self@.final_lineno,
    {
        self.final_lineno
    }

    /// The line's text.
    pub fn content(&self) -> (r: &str)
        ensures
            r@ == self@.content,
    {
        self.content.as_str()
    }
}

/// The blame of a file: its lines in file order.
#[derive(Debug, Clone, PartialEq, Eq)]
pub struct Blame {
    lines: Vec<BlameLine>,
}

/// The lines of `v`, each seen through its texts.
pub open spec fn blame_line_views(v: Seq<BlameLine>) -> Seq<BlameLineView> {
    v.map_values(|l: BlameLine| l@)
}

impl Blame {
    /// The lines, in file order.
    pub closed spec fn spec_lines(&self) -> Seq<BlameLineView> {
        blame_line_views(self.lines@)
    }

    /// The blame of the given lines.
    pub fn new(lines: Vec<BlameLine>) -> (r: Blame)
        ensures
            r.spec_lines() == blame_line_views(lines@),
    {
        Blame { lines }
    }

    /// The blamed lines, in file order.
    pub fn lines(&self) -> (r: &[BlameLine])
        ensures
            blame_line_views(r@) == self.spec_lines(),
    {
        self.lines.as_slice()
    }
}

} // verus!
