//! The mode note of a changed-files row: gitweb's `git_difftree_body`
//! `[new file with mode: 0644]`, `[deleted symlink]`, `[changed from file to
//! symlink mode: 0644->0755]` annotations, and the mode change of a rename or
//! copy. Permissions are shown only for regular files (the low nine mode
//! bits).

use vstd::prelude::*;

use crate::model::change::ChangeStatus;
use crate::model::file_mode::{mode_kind, FileKind, FileMode};

verus! {

/// An entry kind that changed.
#[derive(Debug, Clone, Copy, PartialEq, Eq, Structural)]
pub struct KindChange {
    pub from: FileKind,
    pub to: FileKind,
}

/// Permissions that changed (each side shown only when it is a file).
#[derive(Debug, Clone, Copy, PartialEq, Eq, Structural)]
pub struct PermChange {
    pub from: Option<u32>,
    pub to: Option<u32>,
}

/// What a changed-files row notes about the entry's kind and mode.
#[derive(Debug, Clone, Copy, PartialEq, Eq, Structural)]
pub enum FileChangeNote {
    /// A new entry of `kind`, with its permissions when it is a file.
    New { kind: FileKind, perm: Option<u32> },
    /// A deleted entry of `kind`.
    Deleted { kind: FileKind },
    /// A modified entry whose mode changed: the kinds when they differ, the
    /// permissions (each when the side is a file) when they differ.
    ModeChanged { kinds: Option<KindChange>, perms: Option<PermChange> },
    /// A renamed or copied entry whose mode changed: both sides' permissions.
    MovedMode { from_perm: u32, to_perm: u32 },
}

/// Whether a mode is a regular (possibly executable) file.
pub open spec fn is_file_mode(bits: u32) -> bool {
    mode_kind(bits) == FileKind::Regular || mode_kind(bits) == FileKind::Executable
}

/// The permissions shown for a mode: its low nine bits, for a file only.
pub open spec fn shown_perm(bits: u32) -> Option<u32> {
    if is_file_mode(bits) {
        Some(bits % 512)
    } else {
        None
    }
}

/// gitweb's note for a change of `status` between modes `from` and `to`.
pub open spec fn note_of(status: ChangeStatus, from: u32, to: u32) -> Option<FileChangeNote> {
    match status {
        ChangeStatus::Added => Some(FileChangeNote::New { kind: mode_kind(to), perm: shown_perm(to) }),
        ChangeStatus::Deleted => Some(FileChangeNote::Deleted { kind: mode_kind(from) }),
        ChangeStatus::Modified | ChangeStatus::TypeChanged => if from != to {
            Some(
                FileChangeNote::ModeChanged {
                    kinds: if mode_kind(from) != mode_kind(to) {
                        Some(KindChange { from: mode_kind(from), to: mode_kind(to) })
                    } else {
                        None
                    },
                    perms: if from % 512 != to % 512 && shown_perm(to) is Some {
                        Some(PermChange { from: shown_perm(from), to: shown_perm(to) })
                    } else {
                        None
                    },
                },
            )
        } else {
            None
        },
        ChangeStatus::Renamed | ChangeStatus::Copied => if from != to {
            Some(FileChangeNote::MovedMode { from_perm: from % 512, to_perm: to % 512 })
        } else {
            None
        },
        _ => None,
    }
}

fn perm_of(mode: FileMode) -> (r: Option<u32>)
    ensures
        r == shown_perm(mode.spec_bits()),
{
    let k: FileKind = mode.kind();
    if k == FileKind::Regular || k == FileKind::Executable {
        Some(mode.bits() % 512)
    } else {
        None
    }
}

impl FileChangeNote {
    /// The note of a change (see [`note_of`]).
    pub fn derive(status: ChangeStatus, from_mode: FileMode, to_mode: FileMode) -> (r: Option<FileChangeNote>)
        ensures
            r == note_of(status, from_mode.spec_bits(), to_mode.spec_bits()),
    {
        let from: u32 = from_mode.bits();
        let to: u32 = to_mode.bits();
        match status {
            ChangeStatus::Added => Some(FileChangeNote::New { kind: to_mode.kind(), perm: perm_of(to_mode) }),
            ChangeStatus::Deleted => Some(FileChangeNote::Deleted { kind: from_mode.kind() }),
            ChangeStatus::Modified | ChangeStatus::TypeChanged => {
                if from == to {
                    return None;
                }
                let fk: FileKind = from_mode.kind();
                let tk: FileKind = to_mode.kind();
                let kinds = if fk != tk {
                    Some(KindChange { from: fk, to: tk })
                } else {
                    None
                };
                let tp: Option<u32> = perm_of(to_mode);
                let perms = if from % 512 != to % 512 && tp.is_some() {
                    Some(PermChange { from: perm_of(from_mode), to: tp })
                } else {
                    None
                };
                Some(FileChangeNote::ModeChanged { kinds, perms })
            },
            ChangeStatus::Renamed | ChangeStatus::Copied => if from != to {
                Some(FileChangeNote::MovedMode { from_perm: from % 512, to_perm: to % 512 })
            } else {
                None
            },
            _ => None,
        }
    }
}

} // verus!
