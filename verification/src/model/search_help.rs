//! The search-help topic list (gitweb's `git_search_help`).
//!
//! Three search types — `commit`, `author`, `committer` — are always
//! documented; `grep` and `pickaxe` only when their feature is on. The order is
//! fixed (`commit`, `grep`, `author`, `committer`, `pickaxe`), so a gate only
//! ever inserts a topic at its slot.

use vstd::prelude::*;

verus! {

/// One search type documented on the search-help page.
#[derive(Debug, Clone, Copy, PartialEq, Eq, Structural)]
pub enum SearchHelpTopic {
    /// Search commit messages (`commit`) — always documented.
    Commit,
    /// Search file content over a tree (`grep`) — only with the grep feature.
    Grep,
    /// Search the author identity (`author`) — always documented.
    Author,
    /// Search the committer identity (`committer`) — always documented.
    Committer,
    /// Search commits changing a string's occurrence count (`pickaxe`) — only
    /// with the pickaxe feature.
    Pickaxe,
}

/// The `st` name of a topic.
pub open spec fn topic_name(t: SearchHelpTopic) -> Seq<char> {
    match t {
        SearchHelpTopic::Commit => "commit"@,
        SearchHelpTopic::Grep => "grep"@,
        SearchHelpTopic::Author => "author"@,
        SearchHelpTopic::Committer => "committer"@,
        SearchHelpTopic::Pickaxe => "pickaxe"@,
    }
}

impl SearchHelpTopic {
    /// The search type's name, as gitweb labels it and as the `st` value.
    pub fn name(self) -> (r: &'static str)
        ensures
            r@ == topic_name(self),
    {
        match self {
            SearchHelpTopic::Commit => "commit",
            SearchHelpTopic::Grep => "grep",
            SearchHelpTopic::Author => "author",
            SearchHelpTopic::Committer => "committer",
            SearchHelpTopic::Pickaxe => "pickaxe",
        }
    }
}

/// The documented topics for a feature configuration, in gitweb's order.
pub open spec fn topics_for(grep_enabled: bool, pickaxe_enabled: bool) -> Seq<SearchHelpTopic> {
    let a = seq![SearchHelpTopic::Commit];
    let b = if grep_enabled { a.push(SearchHelpTopic::Grep) } else { a };
    let c = b.push(SearchHelpTopic::Author).push(SearchHelpTopic::Committer);
    if pickaxe_enabled { c.push(SearchHelpTopic::Pickaxe) } else { c }
}

/// The search-help topics for the given feature configuration (see
/// [`topics_for`]).
pub fn help_topics(grep_enabled: bool, pickaxe_enabled: bool) -> (r: Vec<SearchHelpTopic>)
    ensures
        r@ == topics_for(grep_enabled, pickaxe_enabled),
{
    let mut topics: Vec<SearchHelpTopic> = vec![SearchHelpTopic::Commit];
    if grep_enabled {
        topics.push(SearchHelpTopic::Grep);
    }
    topics.push(SearchHelpTopic::Author);
    topics.push(SearchHelpTopic::Committer);
    if pickaxe_enabled {
        topics.push(SearchHelpTopic::Pickaxe);
    }
    topics
}

} // verus!
