//! gitweb's actions: the `a=` values its `%actions` table dispatches on.

use vstd::prelude::*;
use crate::text::str_eq;

verus! {

/// One of gitweb's actions (a key of its `%actions` table).
#[derive(Debug, Clone, Copy, PartialEq, Eq, Structural)]
pub enum Action {
    Blame,
    BlameIncremental,
    BlameData,
    Blobdiff,
    BlobdiffPlain,
    Blob,
    BlobPlain,
    Commitdiff,
    CommitdiffPlain,
    Commit,
    Forks,
    Heads,
    History,
    Log,
    Patch,
    Patches,
    Remotes,
    Rss,
    Atom,
    Search,
    SearchHelp,
    Shortlog,
    Summary,
    Tag,
    Tags,
    Tree,
    Snapshot,
    Object,
    Opml,
    ProjectList,
    ProjectIndex,
}

/// The `a=` name of `action`.
pub open spec fn action_name(action: Action) -> Seq<char> {
    match action {
        Action::Blame => "blame"@,
        Action::BlameIncremental => "blame_incremental"@,
        Action::BlameData => "blame_data"@,
        Action::Blobdiff => "blobdiff"@,
        Action::BlobdiffPlain => "blobdiff_plain"@,
        Action::Blob => "blob"@,
        Action::BlobPlain => "blob_plain"@,
        Action::Commitdiff => "commitdiff"@,
        Action::CommitdiffPlain => "commitdiff_plain"@,
        Action::Commit => "commit"@,
        Action::Forks => "forks"@,
        Action::Heads => "heads"@,
        Action::History => "history"@,
        Action::Log => "log"@,
        Action::Patch => "patch"@,
        Action::Patches => "patches"@,
        Action::Remotes => "remotes"@,
        Action::Rss => "rss"@,
        Action::Atom => "atom"@,
        Action::Search => "search"@,
        Action::SearchHelp => "search_help"@,
        Action::Shortlog => "shortlog"@,
        Action::Summary => "summary"@,
        Action::Tag => "tag"@,
        Action::Tags => "tags"@,
        Action::Tree => "tree"@,
        Action::Snapshot => "snapshot"@,
        Action::Object => "object"@,
        Action::Opml => "opml"@,
        Action::ProjectList => "project_list"@,
        Action::ProjectIndex => "project_index"@,
    }
}

/// Whether `action` needs a project: every action but gitweb's
/// `%actions_without_project` (`opml`, `project_list`, `project_index`).
pub open spec fn action_needs_project(action: Action) -> bool {
    !(action is Opml || action is ProjectList || action is ProjectIndex)
}

/// Every action, in gitweb's `%actions` order.
pub open spec fn all_actions() -> Seq<Action> {
    seq![
        Action::Blame, Action::BlameIncremental, Action::BlameData, Action::Blobdiff,
        Action::BlobdiffPlain, Action::Blob, Action::BlobPlain, Action::Commitdiff,
        Action::CommitdiffPlain, Action::Commit, Action::Forks, Action::Heads,
        Action::History, Action::Log, Action::Patch, Action::Patches, Action::Remotes,
        Action::Rss, Action::Atom, Action::Search, Action::SearchHelp, Action::Shortlog,
        Action::Summary, Action::Tag, Action::Tags, Action::Tree, Action::Snapshot,
        Action::Object, Action::Opml, Action::ProjectList, Action::ProjectIndex,
    ]
}

/// The first action of `s` named `name`.
pub open spec fn find_action(s: Seq<Action>, name: Seq<char>) -> Option<Action>
    decreases s.len(),
{
    if s.len() == 0 {
        None
    } else if action_name(s[0]) == name {
        Some(s[0])
    } else {
        find_action(s.drop_first(), name)
    }
}

/// The action gitweb dispatches for the name `name`, if any.
pub open spec fn action_named(name: Seq<char>) -> Option<Action> {
    find_action(all_actions(), name)
}

proof fn lemma_find_action(s: Seq<Action>, name: Seq<char>)
    ensures
        find_action(s, name) matches Some(a) ==> action_name(a) == name && s.contains(a),
        find_action(s, name) is None ==> forall|i: int| 0 <= i < s.len() ==> action_name(#[trigger] s[i]) != name,
    decreases s.len(),
{
    if s.len() > 0 {
        lemma_find_action(s.drop_first(), name);
        if find_action(s, name) is None {
            assert forall|i: int| 0 <= i < s.len() implies action_name(#[trigger] s[i]) != name by {
                if i > 0 {
                    assert(s[i] == s.drop_first()[i - 1]);
                }
            }
        }
        if action_name(s[0]) != name {
            if let Some(a) = find_action(s, name) {
                let k = choose|k: int| 0 <= k < s.drop_first().len() && s.drop_first()[k] == a;
                assert(s[k + 1] == a);
            }
        }
    }
}

/// What [`action_named`] answers: a name names an action exactly when some
/// action carries it.
pub proof fn lemma_action_named(name: Seq<char>)
    ensures
        action_named(name) matches Some(a) ==> action_name(a) == name,
        action_named(name) is None ==> forall|a: Action| action_name(a) != name,
{
    lemma_find_action(all_actions(), name);
    if action_named(name) is None {
        assert forall|a: Action| action_name(a) != name by {
            match a {
                Action::Blame => assert(all_actions()[0] == a),
                Action::BlameIncremental => assert(all_actions()[1] == a),
                Action::BlameData => assert(all_actions()[2] == a),
                Action::Blobdiff => assert(all_actions()[3] == a),
                Action::BlobdiffPlain => assert(all_actions()[4] == a),
                Action::Blob => assert(all_actions()[5] == a),
                Action::BlobPlain => assert(all_actions()[6] == a),
                Action::Commitdiff => assert(all_actions()[7] == a),
                Action::CommitdiffPlain => assert(all_actions()[8] == a),
                Action::Commit => assert(all_actions()[9] == a),
                Action::Forks => assert(all_actions()[10] == a),
                Action::Heads => assert(all_actions()[11] == a),
                Action::History => assert(all_actions()[12] == a),
                Action::Log => assert(all_actions()[13] == a),
                Action::Patch => assert(all_actions()[14] == a),
                Action::Patches => assert(all_actions()[15] == a),
                Action::Remotes => assert(all_actions()[16] == a),
                Action::Rss => assert(all_actions()[17] == a),
                Action::Atom => assert(all_actions()[18] == a),
                Action::Search => assert(all_actions()[19] == a),
                Action::SearchHelp => assert(all_actions()[20] == a),
                Action::Shortlog => assert(all_actions()[21] == a),
                Action::Summary => assert(all_actions()[22] == a),
                Action::Tag => assert(all_actions()[23] == a),
                Action::Tags => assert(all_actions()[24] == a),
                Action::Tree => assert(all_actions()[25] == a),
                Action::Snapshot => assert(all_actions()[26] == a),
                Action::Object => assert(all_actions()[27] == a),
                Action::Opml => assert(all_actions()[28] == a),
                Action::ProjectList => assert(all_actions()[29] == a),
                Action::ProjectIndex => assert(all_actions()[30] == a),
            }
        }
    }
}

impl Action {
    /// Every action, in gitweb's `%actions` order.
    pub fn all() -> (r: Vec<Action>)
        ensures
            r@ == all_actions(),
    {
        let r = vec![
            Action::Blame, Action::BlameIncremental, Action::BlameData, Action::Blobdiff,
            Action::BlobdiffPlain, Action::Blob, Action::BlobPlain, Action::Commitdiff,
            Action::CommitdiffPlain, Action::Commit, Action::Forks, Action::Heads,
            Action::History, Action::Log, Action::Patch, Action::Patches, Action::Remotes,
            Action::Rss, Action::Atom, Action::Search, Action::SearchHelp, Action::Shortlog,
            Action::Summary, Action::Tag, Action::Tags, Action::Tree, Action::Snapshot,
            Action::Object, Action::Opml, Action::ProjectList, Action::ProjectIndex,
        ];
        assert(r@ =~= all_actions());
        r
    }

    /// The action's `a=` name.
    pub fn as_str(self) -> (r: &'static str)
        ensures
            r@ == action_name(self),
    {
        match self {
            Action::Blame => "blame",
            Action::BlameIncremental => "blame_incremental",
            Action::BlameData => "blame_data",
            Action::Blobdiff => "blobdiff",
            Action::BlobdiffPlain => "blobdiff_plain",
            Action::Blob => "blob",
            Action::BlobPlain => "blob_plain",
            Action::Commitdiff => "commitdiff",
            Action::CommitdiffPlain => "commitdiff_plain",
            Action::Commit => "commit",
            Action::Forks => "forks",
            Action::Heads => "heads",
            Action::History => "history",
            Action::Log => "log",
            Action::Patch => "patch",
            Action::Patches => "patches",
            Action::Remotes => "remotes",
            Action::Rss => "rss",
            Action::Atom => "atom",
            Action::Search => "search",
            Action::SearchHelp => "search_help",
            Action::Shortlog => "shortlog",
            Action::Summary => "summary",
            Action::Tag => "tag",
            Action::Tags => "tags",
            Action::Tree => "tree",
            Action::Snapshot => "snapshot",
            Action::Object => "object",
            Action::Opml => "opml",
            Action::ProjectList => "project_list",
            Action::ProjectIndex => "project_index",
        }
    }

    /// The action named `name`, or `None` for a name gitweb does not know
    /// (gitweb's `is_valid_action`).
    pub fn parse(name: &str) -> (r: Option<Action>)
        ensures
            r == action_named(name@),
            r matches Some(a) ==> action_name(a) == name@,
            r is None ==> forall|a: Action| action_name(a) != name@,
    {
        proof {
            lemma_action_named(name@);
        }
        let all: Vec<Action> = Action::all();
        let mut i: usize = 0;
        assert(all@.skip(0) =~= all@);
        while i < all.len()
            invariant
                0 <= i <= all.len(),
                all@ == all_actions(),
                find_action(all@, name@) == find_action(all@.skip(i as int), name@),
            decreases all.len() - i,
        {
            let a: Action = all[i];
            assert(all@.skip(i as int)[0] == a);
            assert(all@.skip(i as int).drop_first() =~= all@.skip(i + 1));
            if str_eq(a.as_str(), name) {
                return Some(a);
            }
            i += 1;
        }
        None
    }

    /// Whether the action needs a project (see [`action_needs_project`]).
    pub fn needs_project(self) -> (r: bool)
        ensures
            r == action_needs_project(self),
    {
        !matches!(self, Action::Opml | Action::ProjectList | Action::ProjectIndex)
    }
}

} // verus!
