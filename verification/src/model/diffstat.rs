//! The diffstat of a patch (`git format-patch --stat --summary`): per changed
//! file, how it changed, its modes and paths, and its size of change, in
//! lines for a text file and in bytes for a binary one.

use vstd::prelude::*;

use crate::model::change::ChangeStatus;
use crate::model::file_mode::FileMode;

verus! {

/// How much one file changed.
#[derive(Debug, Clone, Copy, PartialEq, Eq, Structural)]
pub enum StatChange {
    /// A text file: lines added and deleted.
    Text { added: usize, deleted: usize },
    /// A binary file: its size before and after, in bytes (zero for the side
    /// that does not exist).
    Binary { old_size: u64, new_size: u64 },
}

/// One file's row of a diffstat.
#[derive(Debug, Clone, PartialEq, Eq)]
pub struct DiffstatEntry {
    status: ChangeStatus,
    from_mode: FileMode,
    to_mode: FileMode,
    from_path: String,
    to_path: String,
    change: StatChange,
}

/// A [`DiffstatEntry`] seen through its plain values.
pub struct DiffstatEntryView {
    pub status: ChangeStatus,
    pub from_mode: u32,
    pub to_mode: u32,
    pub from_path: Seq<char>,
    pub to_path: Seq<char>,
    pub change: StatChange,
}

impl View for DiffstatEntry {
    type V = DiffstatEntryView;

    closed spec fn view(&self) -> DiffstatEntryView {
        DiffstatEntryView {
            status: self.status,
            from_mode: self.from_mode.spec_bits(),
            to_mode: self.to_mode.spec_bits(),
            from_path: self.from_path@,
            to_path: self.to_path@,
            change: self.change,
        }
    }
}

impl DiffstatEntry {
    /// A row from its parts.
    pub fn new(
        status: ChangeStatus,
        from_mode: FileMode,
        to_mode: FileMode,
        from_path: &str,
        to_path: &str,
        change: StatChange,
    ) -> (r: DiffstatEntry)
        ensures
            r@ == (DiffstatEntryView {
                status,
                from_mode: from_mode.spec_bits(),
                to_mode: to_mode.spec_bits(),
                from_path: from_path@,
                to_path: to_path@,
                change,
            }),
    {
        DiffstatEntry {
            status,
            from_mode,
            to_mode,
            from_path: from_path.to_owned(),
            to_path: to_path.to_owned(),
            change,
        }
    }

    /// How the file changed.
    pub fn status(&self) -> (r: ChangeStatus)
        ensures
            r == self@.status,
    {
        self.status
    }

    /// The old mode.
    pub fn from_mode(&self) -> (r: FileMode)
        ensures
            r.spec_bits() == self@.from_mode,
    {
        self.from_mode
    }

    /// The new mode.
    pub fn to_mode(&self) -> (r: FileMode)
        ensures
            r.spec_bits() == self@.to_mode,
    {
        self.to_mode
    }

    /// The old path.
    pub fn from_path(&self) -> (r: &str)
        ensures
            r@ == self@.from_path,
    {
        self.from_path.as_str()
    }

    /// The new path.
    pub fn to_path(&self) -> (r: &str)
        ensures
            r@ == self@.to_path,
    {
        self.to_path.as_str()
    }

    /// The size of the change.
    pub fn change(&self) -> (r: StatChange)
        ensures
            r == self@.change,
    {
        self.change
    }
}

/// The rows of `v`, each seen through its plain values.
pub open spec fn diffstat_entry_views(v: Seq<DiffstatEntry>) -> Seq<DiffstatEntryView> {
    v.map_values(|e: DiffstatEntry| e@)
}

/// A diffstat: one row per changed file, in the patch's order.
#[derive(Debug, Clone, PartialEq, Eq)]
pub struct Diffstat {
    entries: Vec<DiffstatEntry>,
}

impl Diffstat {
    /// The rows.
    pub closed spec fn spec_entries(&self) -> Seq<DiffstatEntryView> {
        diffstat_entry_views(self.entries@)
    }

    /// A diffstat of `entries`.
    pub fn new(entries: Vec<DiffstatEntry>) -> (r: Diffstat)
        ensures
            r.spec_entries() == diffstat_entry_views(entries@),
    {
        Diffstat { entries }
    }

    /// The rows, in the patch's order.
    pub fn entries(&self) -> (r: &[DiffstatEntry])
        ensures
            diffstat_entry_views(r@) == self.spec_entries(),
    {
        self.entries.as_slice()
    }
}

} // verus!
