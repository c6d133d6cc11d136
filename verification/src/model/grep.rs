//! File-content search results: the matches `git grep -n -z` reports at one
//! revision, grouped by file in tree order, and whether the match cap cut the
//! listing short.

use vstd::prelude::*;

verus! {

/// The most matches one file-content search lists (gitweb's 1000-match cap).
pub const GREP_MATCH_LIMIT: usize = 1000;

/// One match: the file's path and, for a text file, the 1-based number and
/// text of the matching line. A binary file that matches has neither.
#[derive(Debug, Clone, PartialEq, Eq)]
pub struct GrepMatch {
    path: String,
    line_no: Option<usize>,
    text: Option<String>,
}

/// A match seen through its path, line number and line text.
pub struct GrepMatchView {
    pub path: Seq<char>,
    pub line_no: Option<usize>,
    pub text: Option<Seq<char>>,
}

impl View for GrepMatch {
    type V = GrepMatchView;

    closed spec fn view(&self) -> GrepMatchView {
        GrepMatchView {
            path: self.path@,
            line_no: self.line_no,
            text: match self.text {
                Some(t) => Some(t@),
                None => None,
            },
        }
    }
}

impl GrepMatch {
    /// A match in `path`, at line `line_no` with text `text` (both `None` for a
    /// binary file).
    pub fn new(path: String, line_no: Option<usize>, text: Option<String>) -> (r: GrepMatch)
        ensures
            r@.path == path@,
            r@.line_no == line_no,
            r@.text == (match text {
                Some(t) => Some(t@),
                None => None::<Seq<char>>,
            }),
    {
        GrepMatch { path, line_no, text }
    }

    /// The matching file's path, relative to the searched tree.
    pub fn path(&self) -> (r: &str)
        ensures
            r@ == self@.path,
    {
        self.path.as_str()
    }

    /// The 1-based number of the matching line; `None` for a binary file.
    pub fn line_no(&self) -> (r: Option<usize>)
        ensures
            r == self@.line_no,
    {
        self.line_no
    }

    /// The matching line's text; `None` for a binary file.
    pub fn text(&self) -> (r: Option<&str>)
        ensures
            r matches Some(t) ==> self@.text == Some(t@),
            r is None ==> self@.text is None,
    {
        match &self.text {
            Some(t) => Some(t.as_str()),
            None => None,
        }
    }
}

/// The matches of one search, in tree order, and whether the cap dropped
/// further matches.
#[derive(Debug, Clone, PartialEq, Eq)]
pub struct GrepResults {
    matches: Vec<GrepMatch>,
    trimmed: bool,
}

/// The matches of `v`, each seen through its parts.
pub open spec fn grep_match_views(v: Seq<GrepMatch>) -> Seq<GrepMatchView> {
    v.map_values(|m: GrepMatch| m@)
}

impl GrepResults {
    /// The matches, in tree order.
    pub closed spec fn spec_matches(&self) -> Seq<GrepMatchView> {
        grep_match_views(self.matches@)
    }

    /// Whether the cap dropped further matches.
    pub closed spec fn spec_trimmed(&self) -> bool {
        self.trimmed
    }

    /// Results holding `matches`, trimmed or not.
    pub fn new(matches: Vec<GrepMatch>, trimmed: bool) -> (r: GrepResults)
        ensures
            r.spec_matches() == grep_match_views(matches@),
            r.spec_trimmed() == trimmed,
    {
        GrepResults { matches, trimmed }
    }

    /// The matches, grouped by file in tree order.
    pub fn matches(&self) -> (r: &[GrepMatch])
        ensures
            grep_match_views(r@) == self.spec_matches(),
    {
        self.matches.as_slice()
    }

    /// Whether the match cap dropped further matches.
    pub fn trimmed(&self) -> (r: bool)
        ensures
            r == self.spec_trimmed(),
    {
        self.trimmed
    }
}

} // verus!
