//! Tree objects: an ordered list of entries, as gitweb's
//! `parse_ls_tree_line` reads them — mode, name and object id per entry.

use vstd::prelude::*;
use crate::model::file_mode::FileMode;
use crate::model::object_id::ObjectId;

verus! {

/// One entry in a tree: a named child object with its mode.
#[derive(Debug, Clone, PartialEq, Eq)]
pub struct TreeEntry {
    mode: FileMode,
    name: String,
    oid: ObjectId,
}

impl TreeEntry {
    /// The mode (spec view).
    pub closed spec fn spec_mode(&self) -> FileMode {
        self.mode
    }

    /// The leaf name (spec view).
    pub closed spec fn spec_name(&self) -> Seq<char> {
        self.name@
    }

    /// The object id (spec view).
    pub closed spec fn spec_oid(&self) -> ObjectId {
        self.oid
    }

    /// Builds a tree entry.
    pub fn new(mode: FileMode, name: String, oid: ObjectId) -> (r: Self)
        ensures
            r.spec_mode() == mode,
            r.spec_name() == name@,
            r.spec_oid() == oid,
    {
        TreeEntry { mode, name, oid }
    }

    /// The entry's file mode (carries kind and permissions).
    pub fn mode(&self) -> (r: FileMode)
        ensures
            r == self.spec_mode(),
    {
        self.mode
    }

    /// The entry's leaf name within its tree.
    pub fn name(&self) -> (r: &str)
        ensures
            r@ == self.spec_name(),
    {
        self.name.as_str()
    }

    /// The id of the object this entry points at.
    pub fn oid(&self) -> (r: &ObjectId)
        ensures
            *r == self.spec_oid(),
    {
        &self.oid
    }
}

/// A git tree: the children of one directory.
#[derive(Debug, Clone, Default, PartialEq, Eq)]
pub struct Tree {
    entries: Vec<TreeEntry>,
}

impl Tree {
    /// The entries (spec view).
    pub closed spec fn spec_entries(&self) -> Seq<TreeEntry> {
        self.entries@
    }

    /// Builds a tree from its entries.
    pub fn new(entries: Vec<TreeEntry>) -> (r: Self)
        ensures
            r.spec_entries() == entries@,
    {
        Tree { entries }
    }

    /// The entries, in the order git returned them.
    pub fn entries(&self) -> (r: &[TreeEntry])
        ensures
            r@ == self.spec_entries(),
    {
        self.entries.as_slice()
    }
}

} // verus!
