//! The `tree` use case: gitweb's `git_tree` / `git_print_tree_entry`, minus
//! the HTML.
//!
//! gitweb lists one directory of a revision: the base (`$hash_base`, HEAD by
//! default) is peeled to a commit for the header and to its tree, and an
//! optional path descends into a subtree. Each entry becomes a row with its
//! mode, name and object, its `git ls-tree -l` size when `show-sizes` is on,
//! and for a symlink the path it points to. The header carries the commit
//! subject (none when the base is a raw tree) and, inside a directory, the
//! parent the `..` row links to.

use vstd::prelude::*;

use crate::error::{DomainError, ErrorView};
use crate::model::blob::Blob;
use crate::model::file_mode::{kind_object, mode_kind, FileKind, FileMode};
use crate::model::object_id::ObjectId;
use crate::model::object_kind::{kind_name, ObjectKind};
use crate::model::snapshot::trailing_slashes;
use crate::model::tree::TreeEntry;
use crate::model::url::{lossy_utf8, utf8_lossy};
use crate::port::repository::Repository;
use crate::text::{chars_of, push_str, string_of, substring};

verus! {

/// One entry of the listed directory.
#[derive(Debug, Clone, PartialEq, Eq)]
pub struct TreeRow {
    mode: FileMode,
    name: String,
    oid: String,
    size: Option<u64>,
    symlink_target: Option<String>,
}

/// A tree row seen through its texts.
pub struct TreeRowView {
    pub mode: u32,
    pub name: Seq<char>,
    pub oid: Seq<char>,
    pub size: Option<u64>,
    pub symlink_target: Option<Seq<char>>,
}

/// The optional text seen as optional characters.
pub open spec fn opt_chars(o: Option<String>) -> Option<Seq<char>> {
    match o {
        Some(s) => Some(s@),
        None => None,
    }
}

impl View for TreeRow {
    type V = TreeRowView;

    closed spec fn view(&self) -> TreeRowView {
        TreeRowView {
            mode: self.mode.spec_bits(),
            name: self.name@,
            oid: self.oid@,
            size: self.size,
            symlink_target: opt_chars(self.symlink_target),
        }
    }
}

impl TreeRow {
    /// The entry's mode.
    pub fn mode(&self) -> (r: FileMode)
        ensures
            r.spec_bits() == self@.mode,
    {
        self.mode
    }

    /// The kind of object the entry names, as its mode says.
    pub fn object_kind(&self) -> (r: ObjectKind)
        ensures
            r == kind_object(mode_kind(self@.mode)),
    {
        self.mode.object_kind()
    }

    /// The entry's name.
    pub fn name(&self) -> (r: &str)
        ensures
            r@ == self@.name,
    {
        self.name.as_str()
    }

    /// The id of the object the entry names.
    pub fn oid(&self) -> (r: &str)
        ensures
            r@ == self@.oid,
    {
        self.oid.as_str()
    }

    /// The blob's byte size, when sizes are shown and the entry is a file.
    pub fn size(&self) -> (r: Option<u64>)
        ensures
            r == self@.size,
    {
        self.size
    }

    /// The path a symlink points to.
    pub fn symlink_target(&self) -> (r: Option<&str>)
        ensures
            match self@.symlink_target {
                Some(s) => r matches Some(x) && x@ == s,
                None => r is None,
            },
    {
        match &self.symlink_target {
            Some(s) => Some(s.as_str()),
            None => None,
        }
    }
}

/// The `..` row: the parent directory, `None` when it is the root.
#[derive(Debug, Clone, PartialEq, Eq)]
pub struct TreeParent {
    path: Option<String>,
}

impl TreeParent {
    /// The parent directory, seen as its text.
    pub closed spec fn spec_path(&self) -> Option<Seq<char>> {
        opt_chars(self.path)
    }

    /// The parent directory, or `None` for the root.
    pub fn path(&self) -> (r: Option<&str>)
        ensures
            match self.spec_path() {
                Some(s) => r matches Some(x) && x@ == s,
                None => r is None,
            },
    {
        match &self.path {
            Some(s) => Some(s.as_str()),
            None => None,
        }
    }
}

/// The assembled directory listing.
#[derive(Debug, Clone, PartialEq, Eq)]
pub struct TreeView {
    base: String,
    commit_title: Option<String>,
    path: Option<String>,
    parent: Option<TreeParent>,
    show_sizes: bool,
    rows: Vec<TreeRow>,
}

/// The rows of `v`, each seen through its texts.
pub open spec fn tree_row_views(v: Seq<TreeRow>) -> Seq<TreeRowView> {
    v.map_values(|r: TreeRow| r@)
}

impl TreeView {
    /// The base revision's id.
    pub closed spec fn spec_base(&self) -> Seq<char> {
        self.base@
    }

    /// The header subject.
    pub closed spec fn spec_commit_title(&self) -> Option<Seq<char>> {
        opt_chars(self.commit_title)
    }

    /// The listed path.
    pub closed spec fn spec_path(&self) -> Option<Seq<char>> {
        opt_chars(self.path)
    }

    /// The `..` row, seen as its parent path.
    pub closed spec fn spec_parent(&self) -> Option<Option<Seq<char>>> {
        match self.parent {
            Some(p) => Some(p.spec_path()),
            None => None,
        }
    }

    /// Whether sizes are shown.
    pub closed spec fn spec_show_sizes(&self) -> bool {
        self.show_sizes
    }

    /// The rows.
    pub closed spec fn spec_rows(&self) -> Seq<TreeRowView> {
        tree_row_views(self.rows@)
    }

    /// The id of the base revision.
    pub fn base(&self) -> (r: &str)
        ensures
            r@ == self.spec_base(),
    {
        self.base.as_str()
    }

    /// The base commit's subject, absent when the base is a raw tree.
    pub fn commit_title(&self) -> (r: Option<&str>)
        ensures
            match self.spec_commit_title() {
                Some(s) => r matches Some(x) && x@ == s,
                None => r is None,
            },
    {
        match &self.commit_title {
            Some(s) => Some(s.as_str()),
            None => None,
        }
    }

    /// The listed directory, absent at the root.
    pub fn path(&self) -> (r: Option<&str>)
        ensures
            match self.spec_path() {
                Some(s) => r matches Some(x) && x@ == s,
                None => r is None,
            },
    {
        match &self.path {
            Some(s) => Some(s.as_str()),
            None => None,
        }
    }

    /// The `..` row, present only inside a directory.
    pub fn parent(&self) -> (r: Option<&TreeParent>)
        ensures
            match self.spec_parent() {
                Some(p) => r matches Some(x) && x.spec_path() == p,
                None => r is None,
            },
    {
        match &self.parent {
            Some(p) => Some(p),
            None => None,
        }
    }

    /// Whether the size column is shown.
    pub fn show_sizes(&self) -> (r: bool)
        ensures
            r == self.spec_show_sizes(),
    {
        self.show_sizes
    }

    /// The entries of the listed directory, in tree order.
    pub fn rows(&self) -> (r: &[TreeRow])
        ensures
            tree_row_views(r@) == self.spec_rows(),
    {
        self.rows.as_slice()
    }
}

/// The index of the last `c` in `s`.
pub open spec fn last_index(s: Seq<char>, c: char) -> Option<int>
    decreases s.len(),
{
    if s.len() == 0 {
        None
    } else if s.last() == c {
        Some(s.len() - 1)
    } else {
        last_index(s.drop_last(), c)
    }
}

/// gitweb's parent of a path: trailing slashes dropped, then everything
/// before the last `/`; a path without `/` has no parent directory.
pub open spec fn parent_dir_of(path: Seq<char>) -> Option<Seq<char>> {
    let trimmed = path.take(path.len() - trailing_slashes(path));
    match last_index(trimmed, '/') {
        Some(i) => Some(trimmed.take(i)),
        None => None,
    }
}

/// The parent directory of `path` (see [`parent_dir_of`]).
pub fn parent_dir(path: &str) -> (r: Option<String>)
    ensures
        opt_chars(r) == parent_dir_of(path@),
{
    let p: Vec<char> = chars_of(path);
    let mut end: usize = p.len();
    assert(p@.take(end as int) =~= p@);
    while end > 0 && p[end - 1] == '/'
        invariant
            end <= p.len(),
            trailing_slashes(p@) == (p.len() - end) + trailing_slashes(p@.take(end as int)),
        decreases end,
    {
        assert(p@.take(end as int).drop_last() =~= p@.take(end - 1));
        assert(p@.take(end as int).last() == p@[end - 1]);
        end -= 1;
    }
    proof {
        if end > 0 {
            assert(p@.take(end as int).last() == p@[end - 1]);
        }
    }
    let ghost trimmed = p@.take(end as int);
    assert(trimmed =~= p@.take(p@.len() - trailing_slashes(p@)));
    let mut k: usize = end;
    assert(trimmed.take(k as int) =~= trimmed);
    while k > 0 && p[k - 1] != '/'
        invariant
            k <= end <= p.len(),
            trimmed == p@.take(end as int),
            last_index(trimmed, '/') == last_index(trimmed.take(k as int), '/'),
        decreases k,
    {
        assert(trimmed.take(k as int).drop_last() =~= trimmed.take(k - 1));
        assert(trimmed.take(k as int).last() == p@[k - 1]);
        k -= 1;
    }
    if k == 0 {
        assert(trimmed.take(0) =~= Seq::<char>::empty());
        None
    } else {
        assert(trimmed.take(k as int).last() == p@[k - 1]);
        assert(trimmed.take(k - 1) =~= p@.subrange(0, k - 1));
        Some(substring(&p, 0, k - 1))
    }
}

/// The `..` row of a listing at `path`: present only for a non-empty path.
pub open spec fn parent_row_of(path: Option<Seq<char>>) -> Option<Option<Seq<char>>> {
    match path {
        Some(p) => if p.len() > 0 {
            Some(parent_dir_of(p))
        } else {
            None
        },
        None => None,
    }
}

/// The `..` row (see [`parent_row_of`]).
pub fn parent_of(path: Option<&str>) -> (r: Option<TreeParent>)
    ensures
        match parent_row_of(
            match path {
                Some(p) => Some(p@),
                None => None,
            },
        ) {
            Some(p) => r matches Some(x) && x.spec_path() == p,
            None => r is None,
        },
{
    match path {
        Some(p) => if !p.is_empty() {
            Some(TreeParent { path: parent_dir(p) })
        } else {
            None
        },
        None => None,
    }
}

/// One listing row from its entry and the size and link target read for it.
pub fn tree_row(entry: &TreeEntry, size: Option<u64>, symlink_target: Option<String>) -> (r: TreeRow)
    ensures
        r@ == (TreeRowView {
            mode: entry.spec_mode().spec_bits(),
            name: entry.spec_name(),
            oid: entry.spec_oid()@,
            size,
            symlink_target: opt_chars(symlink_target),
        }),
{
    TreeRow {
        mode: entry.mode(),
        name: entry.name().to_owned(),
        oid: entry.oid().as_str().to_owned(),
        size,
        symlink_target,
    }
}

/// What the row shows of a symlink's blob: its size when sizes are on, and
/// its content read as (lossy) UTF-8 text.
pub fn symlink_parts(blob: &Blob, show_sizes: bool) -> (r: (Option<u64>, Option<String>))
    ensures
        r.0 == (if show_sizes {
            Some(blob@.len() as u64)
        } else {
            None
        }),
        r.1 matches Some(t) && t@ == utf8_lossy(blob@),
{
    let target: String = lossy_utf8(blob.bytes());
    let size: Option<u64> = if show_sizes {
        Some(blob.size() as u64)
    } else {
        None
    };
    (size, Some(target))
}

/// The size and link target of one entry: a symlink's blob is read for its
/// target (and size); a file's size comes from its header when sizes are on;
/// directories and gitlinks have neither.
pub fn size_and_target<R: Repository>(repo: &R, entry: &TreeEntry, show_sizes: bool) -> (r: Result<(Option<u64>, Option<String>), DomainError>)
    ensures
        r matches Ok((size, target)) ==> {
            &&& (!show_sizes ==> size is None)
            &&& (target is Some <==> mode_kind(entry.spec_mode().spec_bits()) == FileKind::Symlink)
            &&& (kind_object(mode_kind(entry.spec_mode().spec_bits())) != ObjectKind::Blob ==> size is None)
        },
        mode_kind(entry.spec_mode().spec_bits()) != FileKind::Symlink && (!show_sizes || kind_object(
            mode_kind(entry.spec_mode().spec_bits()),
        ) != ObjectKind::Blob) ==> r == Ok::<(Option<u64>, Option<String>), DomainError>((None, None)),
{
    let oid: &ObjectId = entry.oid();
    if entry.mode().kind() == FileKind::Symlink {
        let blob: Blob = match repo.find_blob(oid) {
            Ok(b) => b,
            Err(e) => return Err(e),
        };
        return Ok(symlink_parts(&blob, show_sizes));
    }
    if entry.mode().object_kind() == ObjectKind::Blob {
        let size: Option<u64> = if show_sizes {
            match repo.object_size(oid) {
                Ok(n) => Some(n),
                Err(e) => return Err(e),
            }
        } else {
            None
        };
        return Ok((size, None));
    }
    Ok((None, None))
}

/// `row` shows tree entry `e`: its mode, name and id; a size only when sizes
/// are on and the entry is a file; a link target exactly for a symlink.
pub open spec fn row_shows_entry(row: TreeRowView, e: TreeEntry, show_sizes: bool) -> bool {
    &&& row.mode == e.spec_mode().spec_bits()
    &&& row.name == e.spec_name()
    &&& row.oid == e.spec_oid()@
    &&& (!show_sizes ==> row.size is None)
    &&& (row.symlink_target is Some <==> mode_kind(e.spec_mode().spec_bits()) == FileKind::Symlink)
    &&& (kind_object(mode_kind(e.spec_mode().spec_bits())) != ObjectKind::Blob ==> row.size is None)
}

/// `rows` show `entries`, one row per entry, in order.
pub open spec fn rows_show_entries(rows: Seq<TreeRowView>, entries: Seq<TreeEntry>, show_sizes: bool) -> bool {
    &&& rows.len() == entries.len()
    &&& forall|i: int| 0 <= i < rows.len() ==> row_shows_entry(#[trigger] rows[i], entries[i], show_sizes)
}

/// `rows` show the entries of some tree (see [`rows_show_entries`]).
pub open spec fn lists_some_tree(rows: Seq<TreeRowView>, show_sizes: bool) -> bool {
    exists|entries: Seq<TreeEntry>| #[trigger] rows_show_entries(rows, entries, show_sizes)
}

proof fn lemma_lists_some_tree(rows: Seq<TreeRowView>, entries: Seq<TreeEntry>, show_sizes: bool)
    requires
        rows_show_entries(rows, entries, show_sizes),
    ensures
        lists_some_tree(rows, show_sizes),
{
}

/// The rows of a tree's entries, in order (see [`row_shows_entry`]); a
/// symlink's blob, and a file's size when sizes are on, are read over the
/// port. With no symlink and sizes off nothing is read and the rows are owed.
pub fn tree_rows<R: Repository>(repo: &R, entries: &[TreeEntry], show_sizes: bool) -> (r: Result<Vec<TreeRow>, DomainError>)
    ensures
        r matches Ok(rows) ==> rows_show_entries(tree_row_views(rows@), entries@, show_sizes),
        !show_sizes && (forall|i: int| 0 <= i < entries@.len() ==> mode_kind((#[trigger] entries@[i]).spec_mode().spec_bits()) != FileKind::Symlink)
            ==> r is Ok,
{
    let mut rows: Vec<TreeRow> = Vec::new();
    let mut i: usize = 0;
    while i < entries.len()
        invariant
            0 <= i <= entries@.len(),
            rows@.len() == i,
            forall|k: int| 0 <= k < i ==> row_shows_entry((#[trigger] rows@[k])@, entries@[k], show_sizes),
        decreases entries.len() - i,
    {
        let (size, target) = match size_and_target(repo, &entries[i], show_sizes) {
            Ok(st) => st,
            Err(e) => return Err(e),
        };
        rows.push(tree_row(&entries[i], size, target));
        i += 1;
    }
    assert(tree_row_views(rows@).len() == rows@.len());
    assert forall|k: int| 0 <= k < rows@.len() implies row_shows_entry(#[trigger] tree_row_views(rows@)[k], entries@[k], show_sizes) by {
        assert(tree_row_views(rows@)[k] == rows@[k]@);
    }
    Ok(rows)
}

/// The message for a base that names neither a commit nor a tree.
pub open spec fn not_tree_ish_message(base: Seq<char>, kind: ObjectKind) -> Seq<char> {
    "not a tree-ish: "@ + base + " is a "@ + kind_name(kind)
}

fn not_tree_ish(base: &ObjectId, kind: ObjectKind) -> (r: DomainError)
    ensures
        r@ == ErrorView::Invalid(not_tree_ish_message(base@, kind)),
{
    let mut msg: Vec<char> = chars_of("not a tree-ish: ");
    push_str(&mut msg, base.as_str());
    push_str(&mut msg, " is a ");
    push_str(&mut msg, kind.as_str());
    DomainError::Invalid(string_of(msg.as_slice()))
}

/// Whether a base of kind `kind` can be listed: a commit (its tree) or a
/// tree; anything else is 400 "not a tree-ish".
pub fn check_tree_ish(base: &ObjectId, kind: ObjectKind) -> (r: Result<(), DomainError>)
    ensures
        r is Ok <==> (kind == ObjectKind::Commit || kind == ObjectKind::Tree),
        r matches Err(e) ==> e@ == ErrorView::Invalid(not_tree_ish_message(base@, kind)),
{
    match kind {
        ObjectKind::Commit => Ok(()),
        ObjectKind::Tree => Ok(()),
        other => Err(not_tree_ish(base, other)),
    }
}

/// The subtree a path names, from the entry found at the path: a directory
/// entry's id; no entry, or an entry that is not a directory, is 404 "No such
/// tree".
pub fn subtree_of_entry(entry: Option<TreeEntry>) -> (r: Result<ObjectId, DomainError>)
    ensures
        match entry {
            Some(e) => if kind_object(mode_kind(e.spec_mode().spec_bits())) == ObjectKind::Tree {
                r == Ok::<ObjectId, DomainError>(e.spec_oid())
            } else {
                r matches Err(x) && x@ == ErrorView::NotFound("No such tree"@)
            },
            None => r matches Err(x) && x@ == ErrorView::NotFound("No such tree"@),
        },
{
    match entry {
        Some(e) => if e.mode().object_kind() == ObjectKind::Tree {
            Ok(e.oid().clone())
        } else {
            Err(crate::error::not_found("No such tree"))
        },
        None => Err(crate::error::not_found("No such tree")),
    }
}

/// The tree to list: the root tree without a path, else the subtree the
/// entry at `path` names (see [`subtree_of_entry`]).
pub fn descend<R: Repository>(repo: &R, base: &ObjectId, root_tree: ObjectId, path: Option<&str>) -> (r: Result<ObjectId, DomainError>)
    ensures
        (path is None || (path matches Some(p) && p@.len() == 0)) ==> (r matches Ok(t) && t == root_tree),
{
    let p: &str = match path {
        Some(p) => if !p.is_empty() {
            p
        } else {
            return Ok(root_tree);
        },
        None => return Ok(root_tree),
    };
    match repo.path_entry(base, p) {
        Ok(entry) => subtree_of_entry(entry),
        Err(e) => Err(e),
    }
}

/// Assembles the listing of `path` (the root without one) at `base_rev`
/// (HEAD when `None`) over the [`Repository`] port.
pub fn assemble_tree<R: Repository>(repo: &R, base_rev: Option<&str>, path: Option<&str>, show_sizes: bool) -> (r: Result<TreeView, DomainError>)
    ensures
        r matches Ok(v) ==> v.spec_show_sizes() == show_sizes,
        r matches Ok(v) ==> v.spec_path() == match path {
            Some(p) => Some(p@),
            None => None::<Seq<char>>,
        },
        r matches Ok(v) ==> lists_some_tree(v.spec_rows(), show_sizes),
        r matches Ok(v) ==> v.spec_parent() == parent_row_of(
            match path {
                Some(p) => Some(p@),
                None => None,
            },
        ),
{
    let rev: &str = match base_rev {
        Some(r) => r,
        None => "HEAD",
    };
    let base: ObjectId = match repo.resolve(rev) {
        Ok(b) => b,
        Err(e) => return Err(e),
    };
    let kind: ObjectKind = match repo.object_kind(&base) {
        Ok(k) => k,
        Err(e) => return Err(e),
    };
    match check_tree_ish(&base, kind) {
        Ok(()) => {},
        Err(e) => return Err(e),
    }
    let (commit_title, root_tree): (Option<String>, ObjectId) = match kind {
        ObjectKind::Commit => match repo.find_commit(&base) {
            Ok(commit) => (Some(commit.title()), commit.tree().clone()),
            Err(e) => return Err(e),
        },
        _ => (None, base.clone()),
    };
    let listed: ObjectId = match descend(repo, &base, root_tree, path) {
        Ok(t) => t,
        Err(e) => return Err(e),
    };
    let tree = match repo.find_tree(&listed) {
        Ok(t) => t,
        Err(e) => return Err(e),
    };
    let rows: Vec<TreeRow> = match tree_rows(repo, tree.entries(), show_sizes) {
        Ok(r) => r,
        Err(e) => return Err(e),
    };
    let owned_path: Option<String> = match path {
        Some(p) => Some(p.to_owned()),
        None => None,
    };
    let view = TreeView {
        base: base.as_str().to_owned(),
        commit_title,
        path: owned_path,
        parent: parent_of(path),
        show_sizes,
        rows,
    };
    proof {
        lemma_lists_some_tree(view.spec_rows(), tree.spec_entries(), show_sizes);
    }
    Ok(view)
}

} // verus!
