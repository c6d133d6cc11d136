//! Tree-entry file modes and the object kind each names.

use vstd::prelude::*;
use crate::model::object_kind::ObjectKind;

verus! {

/// The kind of entry a git file mode records.
#[derive(Debug, Clone, Copy, PartialEq, Eq, Structural)]
pub enum FileKind {
    /// A subdirectory (`040000`).
    Directory,
    /// A regular file (`100644`).
    Regular,
    /// An executable file (`100755`).
    Executable,
    /// A symbolic link (`120000`).
    Symlink,
    /// A submodule commit (`160000`).
    Gitlink,
}

/// A git tree-entry mode, held as its numeric value.
#[derive(Debug, Clone, Copy, PartialEq, Eq, Structural)]
pub struct FileMode {
    bits: u32,
}

/// The entry kind of a mode value: the four special modes by value, any
/// other mode a regular file.
pub open spec fn mode_kind(bits: u32) -> FileKind {
    if bits == 0o40000 {
        FileKind::Directory
    } else if bits == 0o100755 {
        FileKind::Executable
    } else if bits == 0o120000 {
        FileKind::Symlink
    } else if bits == 0o160000 {
        FileKind::Gitlink
    } else {
        FileKind::Regular
    }
}

/// The object kind `ls-tree` prints for an entry kind: a directory is a tree,
/// a gitlink a commit, anything else a blob.
pub open spec fn kind_object(k: FileKind) -> ObjectKind {
    match k {
        FileKind::Directory => ObjectKind::Tree,
        FileKind::Gitlink => ObjectKind::Commit,
        _ => ObjectKind::Blob,
    }
}

impl FileMode {
    /// The mode's numeric value (spec view).
    pub closed spec fn spec_bits(&self) -> u32 {
        self.bits
    }

    /// A mode from its numeric value (e.g. `0o100644`).
    pub fn new(bits: u32) -> (r: Self)
        ensures
            r.spec_bits() == bits,
    {
        FileMode { bits }
    }

    /// The mode's numeric value.
    pub fn bits(&self) -> (r: u32)
        ensures
            r == self.spec_bits(),
    {
        self.bits
    }

    /// The entry kind (see [`mode_kind`]).
    pub fn kind(&self) -> (r: FileKind)
        ensures
            r == mode_kind(self.spec_bits()),
    {
        if self.bits == 0o40000 {
            FileKind::Directory
        } else if self.bits == 0o100755 {
            FileKind::Executable
        } else if self.bits == 0o120000 {
            FileKind::Symlink
        } else if self.bits == 0o160000 {
            FileKind::Gitlink
        } else {
            FileKind::Regular
        }
    }

    /// The object kind this entry names (see [`kind_object`]).
    pub fn object_kind(&self) -> (r: ObjectKind)
        ensures
            r == kind_object(mode_kind(self.spec_bits())),
    {
        match self.kind() {
            FileKind::Directory => ObjectKind::Tree,
            FileKind::Gitlink => ObjectKind::Commit,
            _ => ObjectKind::Blob,
        }
    }
}

} // verus!
