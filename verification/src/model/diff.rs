//! Tree-to-tree diffs as the repository reports them: one entry per changed
//! path (`git diff-tree --raw`), and the combined diff of a merge against all
//! its parents (`git diff-tree -c`).

use vstd::prelude::*;

use crate::model::change::ChangeStatus;
use crate::model::file_mode::FileMode;
use crate::model::object_id::ObjectId;

verus! {

/// One changed path of a two-tree diff.
#[derive(Debug, Clone, PartialEq, Eq)]
pub struct DiffEntry {
    status: ChangeStatus,
    from_oid: ObjectId,
    to_oid: ObjectId,
    from_path: String,
    to_path: String,
    from_mode: FileMode,
    to_mode: FileMode,
    similarity: Option<u32>,
}

impl DiffEntry {
    /// The status (spec view).
    pub closed spec fn spec_status(&self) -> ChangeStatus {
        self.status
    }

    /// The source blob (spec view).
    pub closed spec fn spec_from_oid(&self) -> ObjectId {
        self.from_oid
    }

    /// The destination blob (spec view).
    pub closed spec fn spec_to_oid(&self) -> ObjectId {
        self.to_oid
    }

    /// The source path (spec view).
    pub closed spec fn spec_from_path(&self) -> Seq<char> {
        self.from_path@
    }

    /// The destination path (spec view).
    pub closed spec fn spec_to_path(&self) -> Seq<char> {
        self.to_path@
    }

    /// The similarity of a rename or copy (spec view).
    pub closed spec fn spec_similarity(&self) -> Option<u32> {
        self.similarity
    }

    /// The source mode (spec view).
    pub closed spec fn spec_from_mode(&self) -> FileMode {
        self.from_mode
    }

    /// The destination mode (spec view).
    pub closed spec fn spec_to_mode(&self) -> FileMode {
        self.to_mode
    }

    /// A changed path from its parts (`similarity` for a rename or copy).
    pub fn new(
        status: ChangeStatus,
        from_oid: ObjectId,
        to_oid: ObjectId,
        from_path: String,
        to_path: String,
        from_mode: FileMode,
        to_mode: FileMode,
        similarity: Option<u32>,
    ) -> (r: DiffEntry)
        ensures
            r.spec_status() == status,
            r.spec_from_oid() == from_oid,
            r.spec_to_oid() == to_oid,
            r.spec_from_path() == from_path@,
            r.spec_to_path() == to_path@,
            r.spec_from_mode() == from_mode,
            r.spec_to_mode() == to_mode,
            r.spec_similarity() == similarity,
    {
        DiffEntry { status, from_oid, to_oid, from_path, to_path, from_mode, to_mode, similarity }
    }

    /// How the path changed.
    pub fn status(&self) -> (r: ChangeStatus)
        ensures
            r == self.spec_status(),
    {
        self.status
    }

    /// The blob before the change.
    pub fn from_oid(&self) -> (r: &ObjectId)
        ensures
            *r == self.spec_from_oid(),
    {
        &self.from_oid
    }

    /// The blob after the change.
    pub fn to_oid(&self) -> (r: &ObjectId)
        ensures
            *r == self.spec_to_oid(),
    {
        &self.to_oid
    }

    /// The path before the change.
    pub fn from_path(&self) -> (r: &str)
        ensures
            r@ == self.spec_from_path(),
    {
        self.from_path.as_str()
    }

    /// The path after the change.
    pub fn to_path(&self) -> (r: &str)
        ensures
            r@ == self.spec_to_path(),
    {
        self.to_path.as_str()
    }

    /// The mode before the change.
    pub fn from_mode(&self) -> (r: FileMode)
        ensures
            r == self.spec_from_mode(),
    {
        self.from_mode
    }

    /// The mode after the change.
    pub fn to_mode(&self) -> (r: FileMode)
        ensures
            r == self.spec_to_mode(),
    {
        self.to_mode
    }

    /// The similarity percentage of a rename or copy.
    pub fn similarity(&self) -> (r: Option<u32>)
        ensures
            r == self.spec_similarity(),
    {
        self.similarity
    }
}

/// A two-tree diff: its changed paths in git's order.
#[derive(Debug, Clone, PartialEq, Eq)]
pub struct Diff {
    entries: Vec<DiffEntry>,
}

impl Diff {
    /// The changed paths (spec view).
    pub closed spec fn spec_entries(&self) -> Seq<DiffEntry> {
        self.entries@
    }

    /// A diff of the given changed paths.
    pub fn new(entries: Vec<DiffEntry>) -> (r: Diff)
        ensures
            r.spec_entries() == entries@,
    {
        Diff { entries }
    }

    /// The changed paths, in git's order.
    pub fn entries(&self) -> (r: &[DiffEntry])
        ensures
            r@ == self.spec_entries(),
    {
        self.entries.as_slice()
    }
}

/// One parent's side of a combined-diff path.
#[derive(Debug, Clone, PartialEq, Eq)]
pub struct CombinedParent {
    status: ChangeStatus,
    from_oid: ObjectId,
}

impl CombinedParent {
    /// The status (spec view).
    pub closed spec fn spec_status(&self) -> ChangeStatus {
        self.status
    }

    /// The parent's blob (spec view).
    pub closed spec fn spec_from_oid(&self) -> ObjectId {
        self.from_oid
    }

    /// One parent's side.
    pub fn new(status: ChangeStatus, from_oid: ObjectId) -> (r: CombinedParent)
        ensures
            r.spec_status() == status,
            r.spec_from_oid() == from_oid,
    {
        CombinedParent { status, from_oid }
    }

    /// How the path changed against this parent.
    pub fn status(&self) -> (r: ChangeStatus)
        ensures
            r == self.spec_status(),
    {
        self.status
    }

    /// The parent's blob.
    pub fn from_oid(&self) -> (r: &ObjectId)
        ensures
            *r == self.spec_from_oid(),
    {
        &self.from_oid
    }
}

/// One path of a merge's combined diff: a side per parent and the merge
/// result.
#[derive(Debug, Clone, PartialEq, Eq)]
pub struct CombinedDiffEntry {
    parents: Vec<CombinedParent>,
    to_oid: ObjectId,
    to_mode: FileMode,
    to_path: String,
}

/// The all-zero id git reports for a missing side.
pub open spec fn is_null_id(id: Seq<char>) -> bool {
    forall|i: int| 0 <= i < id.len() ==> #[trigger] id[i] == '0'
}

impl CombinedDiffEntry {
    /// The parents' sides (spec view).
    pub closed spec fn spec_parents(&self) -> Seq<CombinedParent> {
        self.parents@
    }

    /// The merge result's blob (spec view).
    pub closed spec fn spec_to_oid(&self) -> ObjectId {
        self.to_oid
    }

    /// The merge result's mode (spec view).
    pub closed spec fn spec_to_mode(&self) -> FileMode {
        self.to_mode
    }

    /// The path (spec view).
    pub closed spec fn spec_to_path(&self) -> Seq<char> {
        self.to_path@
    }

    /// A combined-diff path from its parts.
    pub fn new(parents: Vec<CombinedParent>, to_oid: ObjectId, to_mode: FileMode, to_path: String) -> (r: CombinedDiffEntry)
        ensures
            r.spec_parents() == parents@,
            r.spec_to_oid() == to_oid,
            r.spec_to_mode() == to_mode,
            r.spec_to_path() == to_path@,
    {
        CombinedDiffEntry { parents, to_oid, to_mode, to_path }
    }

    /// One side per parent, in parent order.
    pub fn parents(&self) -> (r: &[CombinedParent])
        ensures
            r@ == self.spec_parents(),
    {
        self.parents.as_slice()
    }

    /// The merge result's blob.
    pub fn to_oid(&self) -> (r: &ObjectId)
        ensures
            *r == self.spec_to_oid(),
    {
        &self.to_oid
    }

    /// The merge result's mode.
    pub fn to_mode(&self) -> (r: FileMode)
        ensures
            r == self.spec_to_mode(),
    {
        self.to_mode
    }

    /// The path.
    pub fn to_path(&self) -> (r: &str)
        ensures
            r@ == self.spec_to_path(),
    {
        self.to_path.as_str()
    }

    /// Whether the merge deleted the path (its result is the null id).
    pub fn is_deleted(&self) -> (r: bool)
        ensures
            r == is_null_id(self.spec_to_oid()@),
    {
        let v: Vec<char> = crate::text::chars_of(self.to_oid.as_str());
        let mut i: usize = 0;
        while i < v.len()
            invariant
                0 <= i <= v@.len(),
                v@ == self.spec_to_oid()@,
                forall|k: int| 0 <= k < i ==> #[trigger] v@[k] == '0',
            decreases v.len() - i,
        {
            if v[i] != '0' {
                return false;
            }
            i += 1;
        }
        true
    }

    /// Whether some parent had the path (not added against every parent).
    pub fn has_history(&self) -> (r: bool)
        ensures
            r == exists|i: int|
                0 <= i < self.spec_parents().len() && (#[trigger] self.spec_parents()[i]).spec_status()
                    != ChangeStatus::Added,
    {
        let mut i: usize = 0;
        while i < self.parents.len()
            invariant
                0 <= i <= self.parents@.len(),
                forall|k: int| 0 <= k < i ==> (#[trigger] self.parents@[k]).spec_status() == ChangeStatus::Added,
            decreases self.parents.len() - i,
        {
            if self.parents[i].status() != ChangeStatus::Added {
                return true;
            }
            i += 1;
        }
        false
    }

    /// Whether the path survives against some parent (not deleted against
    /// every parent).
    pub fn not_deleted(&self) -> (r: bool)
        ensures
            r == exists|i: int|
                0 <= i < self.spec_parents().len() && (#[trigger] self.spec_parents()[i]).spec_status()
                    != ChangeStatus::Deleted,
    {
        let mut i: usize = 0;
        while i < self.parents.len()
            invariant
                0 <= i <= self.parents@.len(),
                forall|k: int| 0 <= k < i ==> (#[trigger] self.parents@[k]).spec_status() == ChangeStatus::Deleted,
            decreases self.parents.len() - i,
        {
            if self.parents[i].status() != ChangeStatus::Deleted {
                return true;
            }
            i += 1;
        }
        false
    }
}

/// A merge's combined diff: its paths in git's order.
#[derive(Debug, Clone, PartialEq, Eq)]
pub struct CombinedDiff {
    entries: Vec<CombinedDiffEntry>,
}

impl CombinedDiff {
    /// The paths (spec view).
    pub closed spec fn spec_entries(&self) -> Seq<CombinedDiffEntry> {
        self.entries@
    }

    /// A combined diff of the given paths.
    pub fn new(entries: Vec<CombinedDiffEntry>) -> (r: CombinedDiff)
        ensures
            r.spec_entries() == entries@,
    {
        CombinedDiff { entries }
    }

    /// The paths, in git's order.
    pub fn entries(&self) -> (r: &[CombinedDiffEntry])
        ensures
            r@ == self.spec_entries(),
    {
        self.entries.as_slice()
    }
}

} // verus!
