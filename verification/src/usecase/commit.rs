//! The `commit` use case: gitweb's `git_commit`, minus the HTML.
//!
//! The commit-ish (HEAD by default) is resolved and must be a commit (404
//! "Unknown commit object"); the view shows its authorship with absolute
//! dates, tree and parents, subject and displayed message, and the
//! changed-files table against the base [`changed_files_base`] picks: the
//! combined diff of a merge, else an ordinary diff (renames only) with each
//! row's mode note.

use vstd::prelude::*;

use crate::error::DomainError;
use crate::model::change::ChangeStatus;
use crate::model::commit::{id_views, title_of, Commit, CommitView as CommitFields, TITLE_LEN};
use crate::model::commitdiff::{changed_files_base, ChangedFilesBase};
use crate::model::diff::{is_null_id, CombinedDiff, CombinedDiffEntry, CombinedParent, Diff, DiffEntry};
use crate::model::file_change::{note_of, FileChangeNote};
use crate::model::file_mode::FileMode;
use crate::model::message_body::{log_line_views, log_lines, log_lines_of, LogLine, LogLineView};
use crate::model::object_id::ObjectId;
use crate::model::object_kind::ObjectKind;
use crate::model::signature::{Signature, SignatureView};
use crate::model::timestamp::{timestamp_of, zone_fits, zone_fits_exec, Timestamp, TimestampView};
use crate::port::repository::{RenameDetection, Repository};

verus! {

/// An authorship line: name, email, and the absolute date in the person's
/// zone.
#[derive(Debug, Clone, PartialEq, Eq)]
pub struct AuthorLine {
    name: String,
    email: Option<String>,
    timestamp: Timestamp,
}

/// An authorship line seen through its texts.
pub struct AuthorLineView {
    pub name: Seq<char>,
    pub email: Option<Seq<char>>,
    pub timestamp: TimestampView,
}

impl View for AuthorLine {
    type V = AuthorLineView;

    closed spec fn view(&self) -> AuthorLineView {
        AuthorLineView {
            name: self.name@,
            email: match self.email {
                Some(e) => Some(e@),
                None => None,
            },
            timestamp: self.timestamp@,
        }
    }
}

impl AuthorLine {
    /// The person's name.
    pub fn name(&self) -> (r: &str)
        ensures
            r@ == self@.name,
    {
        self.name.as_str()
    }

    /// The person's email, when the identity carries one.
    pub fn email(&self) -> (r: Option<&str>)
        ensures
            match self@.email {
                Some(e) => r matches Some(x) && x@ == e,
                None => r is None,
            },
    {
        match &self.email {
            Some(e) => Some(e.as_str()),
            None => None,
        }
    }

    /// The absolute date in the person's zone.
    pub fn timestamp(&self) -> (r: &Timestamp)
        ensures
            r@ == self@.timestamp,
    {
        &self.timestamp
    }
}

/// The authorship line of an identity.
pub open spec fn author_line_of(who: SignatureView) -> AuthorLineView {
    AuthorLineView { name: who.name, email: who.email, timestamp: timestamp_of(who.epoch, who.timezone) }
}

/// The authorship line of `who` (see [`author_line_of`]).
pub fn author_line(who: &Signature) -> (r: AuthorLine)
    requires
        zone_fits(who@.epoch as int, who@.timezone),
    ensures
        r@ == author_line_of(who@),
{
    let email: Option<String> = match who.email() {
        Some(e) => Some(e.to_owned()),
        None => None,
    };
    AuthorLine { name: who.name().to_owned(), email, timestamp: Timestamp::from_signature(who) }
}

/// One row of an ordinary changed-files table.
#[derive(Debug, Clone, PartialEq, Eq)]
pub struct OrdinaryChange {
    status: ChangeStatus,
    from_oid: ObjectId,
    to_oid: ObjectId,
    from_path: String,
    to_path: String,
    from_mode: FileMode,
    to_mode: FileMode,
    note: Option<FileChangeNote>,
}

/// An ordinary row seen through its texts and mode values.
pub struct OrdinaryChangeView {
    pub status: ChangeStatus,
    pub from_oid: Seq<char>,
    pub to_oid: Seq<char>,
    pub from_path: Seq<char>,
    pub to_path: Seq<char>,
    pub from_mode: u32,
    pub to_mode: u32,
    pub note: Option<FileChangeNote>,
}

impl View for OrdinaryChange {
    type V = OrdinaryChangeView;

    closed spec fn view(&self) -> OrdinaryChangeView {
        OrdinaryChangeView {
            status: self.status,
            from_oid: self.from_oid@,
            to_oid: self.to_oid@,
            from_path: self.from_path@,
            to_path: self.to_path@,
            from_mode: self.from_mode.spec_bits(),
            to_mode: self.to_mode.spec_bits(),
            note: self.note,
        }
    }
}

/// The row of a diff entry: its fields and its mode note.
pub open spec fn ordinary_row_of(entry: DiffEntry) -> OrdinaryChangeView {
    OrdinaryChangeView {
        status: entry.spec_status(),
        from_oid: entry.spec_from_oid()@,
        to_oid: entry.spec_to_oid()@,
        from_path: entry.spec_from_path(),
        to_path: entry.spec_to_path(),
        from_mode: entry.spec_from_mode().spec_bits(),
        to_mode: entry.spec_to_mode().spec_bits(),
        note: note_of(entry.spec_status(), entry.spec_from_mode().spec_bits(), entry.spec_to_mode().spec_bits()),
    }
}

impl OrdinaryChange {

    /// How the path changed.
    pub fn status(&self) -> (r: ChangeStatus)
        ensures
            r == self@.status,
    {
        self.status
    }

    /// The blob before.
    pub fn from_oid(&self) -> (r: &ObjectId)
        ensures
            r@ == self@.from_oid,
    {
        &self.from_oid
    }

    /// The blob after.
    pub fn to_oid(&self) -> (r: &ObjectId)
        ensures
            r@ == self@.to_oid,
    {
        &self.to_oid
    }

    /// The path before.
    pub fn from_path(&self) -> (r: &str)
        ensures
            r@ == self@.from_path,
    {
        self.from_path.as_str()
    }

    /// The path after.
    pub fn to_path(&self) -> (r: &str)
        ensures
            r@ == self@.to_path,
    {
        self.to_path.as_str()
    }

    /// The mode before.
    pub fn from_mode(&self) -> (r: FileMode)
        ensures
            r.spec_bits() == self@.from_mode,
    {
        self.from_mode
    }

    /// The mode after.
    pub fn to_mode(&self) -> (r: FileMode)
        ensures
            r.spec_bits() == self@.to_mode,
    {
        self.to_mode
    }

    /// The row's mode note, if any.
    pub fn note(&self) -> (r: Option<&FileChangeNote>)
        ensures
            match self@.note {
                Some(n) => r == Some(&n),
                None => r is None,
            },
    {
        match &self.note {
            Some(n) => Some(n),
            None => None,
        }
    }
}

/// One parent's side of a combined row.
#[derive(Debug, Clone, PartialEq, Eq)]
pub struct CombinedParentChange {
    status: ChangeStatus,
    from_oid: ObjectId,
}

/// A parent's side seen through its text.
pub struct CombinedParentView {
    pub status: ChangeStatus,
    pub from_oid: Seq<char>,
}

impl View for CombinedParentChange {
    type V = CombinedParentView;

    closed spec fn view(&self) -> CombinedParentView {
        CombinedParentView { status: self.status, from_oid: self.from_oid@ }
    }
}

impl CombinedParentChange {
    /// How the path changed against this parent.
    pub fn status(&self) -> (r: ChangeStatus)
        ensures
            r == self@.status,
    {
        self.status
    }

    /// The parent's blob.
    pub fn from_oid(&self) -> (r: &ObjectId)
        ensures
            r@ == self@.from_oid,
    {
        &self.from_oid
    }
}

/// One row of a merge's combined changed-files table.
#[derive(Debug, Clone, PartialEq, Eq)]
pub struct CombinedChange {
    parents: Vec<CombinedParentChange>,
    to_oid: ObjectId,
    to_mode: FileMode,
    to_path: String,
    is_deleted: bool,
    has_history: bool,
    not_deleted: bool,
}

/// A combined row seen through its texts and mode value.
pub struct CombinedChangeView {
    pub parents: Seq<CombinedParentView>,
    pub to_oid: Seq<char>,
    pub to_mode: u32,
    pub to_path: Seq<char>,
    pub is_deleted: bool,
    pub has_history: bool,
    pub not_deleted: bool,
}

/// The sides of `v`, each seen through its text.
pub open spec fn parent_views(v: Seq<CombinedParentChange>) -> Seq<CombinedParentView> {
    v.map_values(|p: CombinedParentChange| p@)
}

impl View for CombinedChange {
    type V = CombinedChangeView;

    closed spec fn view(&self) -> CombinedChangeView {
        CombinedChangeView {
            parents: parent_views(self.parents@),
            to_oid: self.to_oid@,
            to_mode: self.to_mode.spec_bits(),
            to_path: self.to_path@,
            is_deleted: self.is_deleted,
            has_history: self.has_history,
            not_deleted: self.not_deleted,
        }
    }
}

/// The row of a combined diff entry.
pub open spec fn combined_row_of(entry: CombinedDiffEntry) -> CombinedChangeView {
    CombinedChangeView {
        parents: entry.spec_parents().map_values(
            |p: CombinedParent| CombinedParentView { status: p.spec_status(), from_oid: p.spec_from_oid()@ },
        ),
        to_oid: entry.spec_to_oid()@,
        to_mode: entry.spec_to_mode().spec_bits(),
        to_path: entry.spec_to_path(),
        is_deleted: is_null_id(entry.spec_to_oid()@),
        has_history: exists|i: int|
            0 <= i < entry.spec_parents().len() && (#[trigger] entry.spec_parents()[i]).spec_status()
                != ChangeStatus::Added,
        not_deleted: exists|i: int|
            0 <= i < entry.spec_parents().len() && (#[trigger] entry.spec_parents()[i]).spec_status()
                != ChangeStatus::Deleted,
    }
}

impl CombinedChange {

    /// One side per parent, in parent order.
    pub fn parents(&self) -> (r: &[CombinedParentChange])
        ensures
            parent_views(r@) == self@.parents,
    {
        self.parents.as_slice()
    }

    /// The merge result's blob.
    pub fn to_oid(&self) -> (r: &ObjectId)
        ensures
            r@ == self@.to_oid,
    {
        &self.to_oid
    }

    /// The merge result's mode.
    pub fn to_mode(&self) -> (r: FileMode)
        ensures
            r.spec_bits() == self@.to_mode,
    {
        self.to_mode
    }

    /// The path.
    pub fn to_path(&self) -> (r: &str)
        ensures
            r@ == self@.to_path,
    {
        self.to_path.as_str()
    }

    /// Whether the merge deleted the path.
    pub fn is_deleted(&self) -> (r: bool)
        ensures
            r == self@.is_deleted,
    {
        self.is_deleted
    }

    /// Whether some parent had the path.
    pub fn has_history(&self) -> (r: bool)
        ensures
            r == self@.has_history,
    {
        self.has_history
    }

    /// Whether the path survives against some parent.
    pub fn not_deleted(&self) -> (r: bool)
        ensures
            r == self@.not_deleted,
    {
        self.not_deleted
    }
}

/// The changed-files table of a commit.
#[derive(Debug, Clone, PartialEq, Eq)]
pub enum ChangedFiles {
    /// Against one base (the empty tree when `base` is `None`).
    Ordinary { base: Option<ObjectId>, changes: Vec<OrdinaryChange> },
    /// A merge's combined diff.
    Combined(Vec<CombinedChange>),
}

/// The number of rows of a table.
pub open spec fn changed_len(c: ChangedFiles) -> nat {
    match c {
        ChangedFiles::Ordinary { changes, .. } => changes@.len(),
        ChangedFiles::Combined(rows) => rows@.len(),
    }
}

impl ChangedFiles {
    /// How many paths changed.
    pub fn len(&self) -> (r: usize)
        ensures
            r == changed_len(*self),
    {
        match self {
            ChangedFiles::Ordinary { changes, .. } => changes.len(),
            ChangedFiles::Combined(rows) => rows.len(),
        }
    }

    /// Whether no path changed.
    pub fn is_empty(&self) -> (r: bool)
        ensures
            r == (changed_len(*self) == 0),
    {
        self.len() == 0
    }
}

/// The assembled commit page.
#[derive(Debug, Clone, PartialEq, Eq)]
pub struct CommitView {
    id: ObjectId,
    tree: ObjectId,
    parents: Vec<ObjectId>,
    author: AuthorLine,
    committer: AuthorLine,
    title: String,
    comment: Vec<LogLine>,
    changes: ChangedFiles,
}

impl CommitView {
    /// The page shows commit `c`: its ids, authorship, subject and message.
    pub closed spec fn spec_shows(&self, c: CommitFields) -> bool {
        &&& self.id@ == c.id
        &&& self.tree@ == c.tree
        &&& id_views(self.parents@) == c.parents
        &&& self.author@ == author_line_of(c.author)
        &&& self.committer@ == author_line_of(c.committer)
        &&& self.title@ == title_of(c.message, TITLE_LEN as nat)
        &&& log_line_views(self.comment@) == log_lines_of(c.message)
    }

    /// The number of parents.
    pub closed spec fn spec_parent_count(&self) -> nat {
        self.parents@.len()
    }

    /// The commit's id.
    pub closed spec fn spec_id(&self) -> Seq<char> {
        self.id@
    }

    /// The changed-files table.
    pub closed spec fn spec_changes(&self) -> ChangedFiles {
        self.changes
    }

    /// The author line.
    pub closed spec fn spec_author(&self) -> AuthorLineView {
        self.author@
    }

    /// The committer line.
    pub closed spec fn spec_committer(&self) -> AuthorLineView {
        self.committer@
    }

    /// The subject.
    pub closed spec fn spec_title(&self) -> Seq<char> {
        self.title@
    }

    /// The tree.
    pub closed spec fn spec_tree(&self) -> Seq<char> {
        self.tree@
    }

    /// The parents.
    pub closed spec fn spec_parents(&self) -> Seq<Seq<char>> {
        id_views(self.parents@)
    }

    /// The displayed message.
    pub closed spec fn spec_comment(&self) -> Seq<LogLineView> {
        log_line_views(self.comment@)
    }

    /// The commit's id.
    pub fn id(&self) -> (r: &ObjectId)
        ensures
            r@ == self.spec_id(),
    {
        &self.id
    }

    /// The commit's tree.
    pub fn tree(&self) -> (r: &ObjectId)
        ensures
            r@ == self.spec_tree(),
    {
        &self.tree
    }

    /// The parents, in order.
    pub fn parents(&self) -> (r: &[ObjectId])
        ensures
            id_views(r@) == self.spec_parents(),
    {
        self.parents.as_slice()
    }

    /// Whether the commit is a merge (more than one parent).
    pub fn is_merge(&self) -> (r: bool)
        ensures
            r == (self.spec_parent_count() > 1),
    {
        self.parents.len() > 1
    }

    /// The author line.
    pub fn author(&self) -> (r: &AuthorLine)
        ensures
            r@ == self.spec_author(),
    {
        &self.author
    }

    /// The committer line.
    pub fn committer(&self) -> (r: &AuthorLine)
        ensures
            r@ == self.spec_committer(),
    {
        &self.committer
    }

    /// The subject.
    pub fn title(&self) -> (r: &str)
        ensures
            r@ == self.spec_title(),
    {
        self.title.as_str()
    }

    /// The displayed message.
    pub fn comment(&self) -> (r: &[LogLine])
        ensures
            log_line_views(r@) == self.spec_comment(),
    {
        self.comment.as_slice()
    }

    /// The changed-files table.
    pub fn changes(&self) -> (r: &ChangedFiles)
        ensures
            *r == self.spec_changes(),
    {
        &self.changes
    }
}

/// gitweb's `git_commit` rename detection: renames only.
pub const DETECTION: RenameDetection = RenameDetection::RenamesOnly;

/// The table row of an ordinary diff entry, with its mode note.
pub fn ordinary_change(entry: &DiffEntry) -> (r: OrdinaryChange)
    ensures
        r@ == ordinary_row_of(*entry),
{
    OrdinaryChange {
        status: entry.status(),
        from_oid: entry.from_oid().clone(),
        to_oid: entry.to_oid().clone(),
        from_path: entry.from_path().to_owned(),
        to_path: entry.to_path().to_owned(),
        from_mode: entry.from_mode(),
        to_mode: entry.to_mode(),
        note: FileChangeNote::derive(entry.status(), entry.from_mode(), entry.to_mode()),
    }
}

/// The table row of a combined diff entry.
pub fn combined_change(entry: &CombinedDiffEntry) -> (r: CombinedChange)
    ensures
        r@ == combined_row_of(*entry),
{
    let sides: &[CombinedParent] = entry.parents();
    let mut parents: Vec<CombinedParentChange> = Vec::new();
    let mut i: usize = 0;
    while i < sides.len()
        invariant
            0 <= i <= sides@.len(),
            sides@ == entry.spec_parents(),
            parent_views(parents@) =~= sides@.take(i as int).map_values(
                |p: CombinedParent| CombinedParentView { status: p.spec_status(), from_oid: p.spec_from_oid()@ },
            ),
        decreases sides.len() - i,
    {
        let ghost before = parent_views(parents@);
        let side = CombinedParentChange { status: sides[i].status(), from_oid: sides[i].from_oid().clone() };
        parents.push(side);
        assert(parent_views(parents@) =~= before.push(side@));
        assert(sides@.take(i + 1) =~= sides@.take(i as int).push(sides@[i as int]));
        i += 1;
    }
    assert(sides@.take(sides@.len() as int) =~= sides@);
    CombinedChange {
        parents,
        to_oid: entry.to_oid().clone(),
        to_mode: entry.to_mode(),
        to_path: entry.to_path().to_owned(),
        is_deleted: entry.is_deleted(),
        has_history: entry.has_history(),
        not_deleted: entry.not_deleted(),
    }
}

/// The changed-files table over the [`Repository`] port: the combined diff
/// of a merge without an explicit parent, else the ordinary diff against the
/// chosen base.
pub fn changed_files<R: Repository>(repo: &R, commit: &Commit, explicit: Option<&ObjectId>) -> (r: Result<ChangedFiles, DomainError>)
    ensures
        r matches Ok(t) ==> (t is Combined <==> (explicit is None && commit@.parents.len() > 1)),
{
    match changed_files_base(commit.parents(), explicit) {
        ChangedFilesBase::Combined => {
            let combined: CombinedDiff = match repo.combined_diff(commit.id()) {
                Ok(c) => c,
                Err(e) => return Err(e),
            };
            let entries: &[CombinedDiffEntry] = combined.entries();
            let mut rows: Vec<CombinedChange> = Vec::new();
            let mut i: usize = 0;
            while i < entries.len()
                invariant
                    0 <= i <= entries@.len(),
                    rows@.len() == i,
                    forall|k: int| 0 <= k < i ==> (#[trigger] rows@[k])@ == combined_row_of(entries@[k]),
                decreases entries.len() - i,
            {
                rows.push(combined_change(&entries[i]));
                i += 1;
            }
            Ok(ChangedFiles::Combined(rows))
        },
        ChangedFilesBase::Ordinary { base } => {
            let diff: Diff = match repo.diff(base.as_ref(), commit.id(), DETECTION) {
                Ok(d) => d,
                Err(e) => return Err(e),
            };
            let entries: &[DiffEntry] = diff.entries();
            let mut changes: Vec<OrdinaryChange> = Vec::new();
            let mut i: usize = 0;
            while i < entries.len()
                invariant
                    0 <= i <= entries@.len(),
                    changes@.len() == i,
                    forall|k: int| 0 <= k < i ==> (#[trigger] changes@[k])@ == ordinary_row_of(entries@[k]),
                decreases entries.len() - i,
            {
                changes.push(ordinary_change(&entries[i]));
                i += 1;
            }
            Ok(ChangedFiles::Ordinary { base, changes })
        },
    }
}

/// Whether both identities' dates shifted into their zones fit.
pub open spec fn dates_fit(c: CommitFields) -> bool {
    zone_fits(c.author.epoch as int, c.author.timezone) && zone_fits(c.committer.epoch as int, c.committer.timezone)
}

/// The commit page of `commit` with its changed-files table.
pub fn commit_view(commit: &Commit, changes: ChangedFiles) -> (r: CommitView)
    requires
        dates_fit(commit@),
    ensures
        r.spec_shows(commit@),
        r.spec_changes() == changes,
{
    let parents_src: &[ObjectId] = commit.parents();
    let mut parents: Vec<ObjectId> = Vec::new();
    let mut i: usize = 0;
    while i < parents_src.len()
        invariant
            0 <= i <= parents_src@.len(),
            parents@ =~= parents_src@.take(i as int),
        decreases parents_src.len() - i,
    {
        parents.push(parents_src[i].clone());
        i += 1;
    }
    assert(parents_src@.take(parents_src@.len() as int) =~= parents_src@);
    CommitView {
        id: commit.id().clone(),
        tree: commit.tree().clone(),
        parents,
        author: author_line(commit.author()),
        committer: author_line(commit.committer()),
        title: commit.title(),
        comment: log_lines(commit.message()),
        changes,
    }
}

/// Assembles the commit page over the [`Repository`] port: `revision` (HEAD
/// when `None`) must name a commit; `explicit_parent`, when given, is the
/// base of the changed-files table.
pub fn assemble_commit<R: Repository>(repo: &R, revision: Option<&str>, explicit_parent: Option<&str>) -> (r: Result<CommitView, DomainError>)
    ensures
        r matches Ok(v) ==> exists|c: CommitFields| #[trigger] v.spec_shows(c),
{
    let rev: &str = match revision {
        Some(r) => r,
        None => "HEAD",
    };
    let oid: ObjectId = match repo.resolve(rev) {
        Ok(o) => o,
        Err(e) => return Err(e),
    };
    match repo.object_kind(&oid) {
        Ok(ObjectKind::Commit) => {},
        Ok(_) => return Err(crate::error::not_found("Unknown commit object")),
        Err(e) => return Err(e),
    }
    let commit: Commit = match repo.find_commit(&oid) {
        Ok(c) => c,
        Err(e) => return Err(e),
    };
    let explicit: Option<ObjectId> = match explicit_parent {
        Some(p) => match repo.resolve(p) {
            Ok(o) => Some(o),
            Err(e) => return Err(e),
        },
        None => None,
    };
    let changes: ChangedFiles = match changed_files(repo, &commit, explicit.as_ref()) {
        Ok(c) => c,
        Err(e) => return Err(e),
    };
    if !zone_fits_exec(commit.author().epoch(), commit.author().timezone()) || !zone_fits_exec(
        commit.committer().epoch(),
        commit.committer().timezone(),
    ) {
        return Err(DomainError::Backend("commit time out of range".to_owned()));
    }
    Ok(commit_view(&commit, changes))
}

} // verus!
