//! The status git reports for a changed path (`git diff-tree --raw`'s letter).

use vstd::prelude::*;

verus! {

/// How a path changed between two trees.
#[derive(Debug, Clone, Copy, PartialEq, Eq, Structural)]
pub enum ChangeStatus {
    /// `A`: the path was added.
    Added,
    /// `C`: the path was copied from another.
    Copied,
    /// `D`: the path was deleted.
    Deleted,
    /// `M`: the content changed.
    Modified,
    /// `R`: the path was renamed from another.
    Renamed,
    /// `T`: the entry's type changed.
    TypeChanged,
    /// `U`: the path is unmerged.
    Unmerged,
    /// `X`: an unknown change.
    Unknown,
}

/// The letter git prints for a status.
pub open spec fn status_letter(s: ChangeStatus) -> char {
    match s {
        ChangeStatus::Added => 'A',
        ChangeStatus::Copied => 'C',
        ChangeStatus::Deleted => 'D',
        ChangeStatus::Modified => 'M',
        ChangeStatus::Renamed => 'R',
        ChangeStatus::TypeChanged => 'T',
        ChangeStatus::Unmerged => 'U',
        ChangeStatus::Unknown => 'X',
    }
}

impl ChangeStatus {
    /// The letter git prints for this status.
    pub fn letter(self) -> (r: char)
        ensures
            r == status_letter(self),
    {
        match self {
            ChangeStatus::Added => 'A',
            ChangeStatus::Copied => 'C',
            ChangeStatus::Deleted => 'D',
            ChangeStatus::Modified => 'M',
            ChangeStatus::Renamed => 'R',
            ChangeStatus::TypeChanged => 'T',
            ChangeStatus::Unmerged => 'U',
            ChangeStatus::Unknown => 'X',
        }
    }
}

} // verus!
