//! The `Repository` port: read access to one git repository, and the value
//! types it speaks in (the history window, the facet a commit search matches,
//! and the rename-detection level of a diff).
//!
//! The trait is the seam the use cases depend on; an adapter implements it
//! over a real repository. Nothing is assumed of what its methods return: the
//! use cases are verified for every answer.

use vstd::prelude::*;

use crate::error::DomainError;
use crate::model::blame::Blame;
use crate::model::blob::Blob;
use crate::model::commit::Commit;
use crate::model::diff::{CombinedDiff, Diff};
use crate::model::grep::GrepResults;
use crate::model::grep_pattern::GrepPattern;
use crate::model::object_id::ObjectId;
use crate::model::object_kind::ObjectKind;
use crate::model::patch::Patch;
use crate::model::pickaxe::PickaxeMatch;
use crate::model::pickaxe_pattern::PickaxePattern;
use crate::model::reference::{DereferencedRef, Reference};
use crate::model::remote::Remote;
use crate::model::search_pattern::SearchPattern;
use crate::model::snapshot::{ArchiveFormat, ArchiveOptions};
use crate::model::tag::Tag;
use crate::model::tree::{Tree, TreeEntry};

verus! {

/// A half-open window into a list: skip `skip`, then take at most `limit`
/// (gitweb's `--skip=$page*100 --max-count=100`).
#[derive(Debug, Clone, Copy, PartialEq, Eq, Structural)]
pub struct Page {
    /// Number of entries to skip from the start.
    pub skip: usize,
    /// Maximum number of entries to return.
    pub limit: usize,
}

impl Page {
    /// A window with an explicit skip and limit.
    pub fn new(skip: usize, limit: usize) -> (r: Page)
        ensures
            r.skip == skip,
            r.limit == limit,
    {
        Page { skip, limit }
    }

    /// The window for the zero-based `page`, each holding `per_page` entries.
    pub fn from_page(page: usize, per_page: usize) -> (r: Page)
        requires
            page * per_page <= usize::MAX,
        ensures
            r.skip == page * per_page,
            r.limit == per_page,
    {
        Page { skip: page * per_page, limit: per_page }
    }
}

/// Which facet a commit search matches, as gitweb's `searchtype`.
#[derive(Debug, Clone, Copy, PartialEq, Eq, Structural)]
pub enum SearchKind {
    /// Match the commit message (`commit`).
    Commit,
    /// Match the author identity (`author`).
    Author,
    /// Match the committer identity (`committer`).
    Committer,
}

/// How aggressively a diff detects moved and copied content (gitweb's
/// `@diff_opts`): renames only (`-M`, the default), copies from files the same
/// diff changes (`-C`), or copies from any file (`-C --find-copies-harder`).
#[derive(Debug, Clone, Copy, PartialEq, Eq, Structural)]
pub enum RenameDetection {
    /// Renames only (`-M`), gitweb's default.
    RenamesOnly,
    /// Renames plus copies whose source was modified in the same diff (`-C`).
    Copies,
    /// Renames plus copies from any source-tree file (`-C --find-copies-harder`).
    CopiesHarder,
}

impl Default for RenameDetection {
    /// Renames only, gitweb's default.
    fn default() -> (r: RenameDetection)
        ensures
            r == RenameDetection::RenamesOnly,
    {
        RenameDetection::RenamesOnly
    }
}

impl RenameDetection {
    /// Whether this level looks for copies at all (`-C` or harder).
    pub fn detects_copies(self) -> (r: bool)
        ensures
            r <==> (self == RenameDetection::Copies || self == RenameDetection::CopiesHarder),
    {
        match self {
            RenameDetection::RenamesOnly => false,
            RenameDetection::Copies => true,
            RenameDetection::CopiesHarder => true,
        }
    }

    /// Whether copies may come from files the diff leaves unchanged.
    pub fn finds_copies_harder(self) -> (r: bool)
        ensures
            r <==> self == RenameDetection::CopiesHarder,
    {
        match self {
            RenameDetection::CopiesHarder => true,
            _ => false,
        }
    }
}

/// A commit-message search request: which facet to search and the pattern to
/// match it with.
pub struct SearchQuery {
    /// Which facet of history to search.
    pub kind: SearchKind,
    /// The pattern to match.
    pub pattern: SearchPattern,
}

/// Read access to a single git repository.
pub trait Repository {
    /// The repository's `HEAD`.
    fn head(&self) -> Result<Reference, DomainError>;

    /// All references whose full name starts with `prefix` (e.g. `refs/heads/`).
    fn references(&self, prefix: &str) -> Result<Vec<Reference>, DomainError>;

    /// Every reference resolved to the object it ultimately points at, in name
    /// order (`git show-ref --dereference`).
    fn dereferenced_references(&self) -> Result<Vec<DereferencedRef>, DomainError>;

    /// The configured remotes with their fetch and push URLs, in name order.
    fn remotes(&self) -> Result<Vec<Remote>, DomainError>;

    /// Resolves a revision (ref name, full or abbreviated id) to an id.
    fn resolve(&self, rev: &str) -> Result<ObjectId, DomainError>;

    /// The kind of the object named by `oid`.
    fn object_kind(&self, oid: &ObjectId) -> Result<ObjectKind, DomainError>;

    /// Reads the commit named by `oid`.
    fn find_commit(&self, oid: &ObjectId) -> Result<Commit, DomainError>;

    /// Reads the tree named by `oid`.
    fn find_tree(&self, oid: &ObjectId) -> Result<Tree, DomainError>;

    /// Reads the blob named by `oid`.
    fn find_blob(&self, oid: &ObjectId) -> Result<Blob, DomainError>;

    /// The byte size of the object named by `oid` (`git ls-tree -l`).
    fn object_size(&self, oid: &ObjectId) -> Result<u64, DomainError>;

    /// The `git name-rev --tags` name of `oid`, or `None` when no tag reaches it.
    fn rev_name_tag(&self, oid: &ObjectId) -> Result<Option<String>, DomainError>;

    /// Reads the annotated tag named by `oid`.
    fn find_tag(&self, oid: &ObjectId) -> Result<Tag, DomainError>;

    /// The id recorded at `path` within the tree of the tree-ish `at`, or `None`.
    fn path_id(&self, at: &ObjectId, path: &str) -> Result<Option<ObjectId>, DomainError>;

    /// The tree entry recorded at `path` within the tree of the tree-ish `at`,
    /// or `None`.
    fn path_entry(&self, at: &ObjectId, path: &str) -> Result<Option<TreeEntry>, DomainError>;

    /// History reachable from `start`, optionally limited to commits touching
    /// `path`, windowed by `page` (`git rev-list --skip --max-count`).
    fn history(&self, start: &ObjectId, path: Option<&str>, page: Page) -> Result<Vec<Commit>, DomainError>;

    /// The diff between two trees with rename/copy detection at `detection`;
    /// `from` is `None` for the empty tree.
    fn diff(&self, from: Option<&ObjectId>, to: &ObjectId, detection: RenameDetection) -> Result<Diff, DomainError>;

    /// The patch between two trees with rename/copy detection at `detection`,
    /// the change set of [`Repository::diff`] with its hunks (`git diff-tree
    /// -p`); `from` is `None` for the empty tree.
    fn patch(&self, from: Option<&ObjectId>, to: &ObjectId, detection: RenameDetection) -> Result<Patch, DomainError>;

    /// The combined diff of a merge against all its parents (`git diff-tree -c`).
    fn combined_diff(&self, commit: &ObjectId) -> Result<CombinedDiff, DomainError>;

    /// The repository's default id abbreviation length (`core.abbrev`).
    fn abbrev_length(&self) -> Result<usize, DomainError>;

    /// Line-by-line blame of `path` as of commit `at`.
    fn blame(&self, at: &ObjectId, path: &str) -> Result<Blame, DomainError>;

    /// A snapshot archive of the tree-ish `tree` in `format`.
    fn archive(&self, tree: &ObjectId, format: ArchiveFormat, options: &ArchiveOptions) -> Result<Vec<u8>, DomainError>;

    /// Commits matching `query`, reachable from `base`, windowed by `page`.
    fn search(&self, base: &ObjectId, query: &SearchQuery, page: Page) -> Result<Vec<Commit>, DomainError>;

    /// Every commit reachable from `base` that changes how often `pattern`
    /// occurs in some file, newest first, each with the files whose count it
    /// changed, deletions included (`git log -S<text> --raw`, plus
    /// `--pickaxe-regex` for an expression).
    fn pickaxe(&self, base: &ObjectId, pattern: &PickaxePattern) -> Result<Vec<PickaxeMatch>, DomainError>;

    /// The lines of the regular files of the tree-ish `revision` that match
    /// `pattern`, and each binary file that matches, grouped by file in tree
    /// order and capped at [`GREP_MATCH_LIMIT`](crate::model::grep::GREP_MATCH_LIMIT)
    /// (`git grep -n -z`, `-F` or `-E -i`).
    fn grep(&self, revision: &ObjectId, pattern: &GrepPattern) -> Result<GrepResults, DomainError>;
}

} // verus!
