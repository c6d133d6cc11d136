//! The four kinds of git object.

use vstd::prelude::*;

verus! {

/// A git object's kind (`git cat-file -t`).
#[derive(Debug, Clone, Copy, PartialEq, Eq, Structural)]
pub enum ObjectKind {
    /// File content.
    Blob,
    /// A directory listing.
    Tree,
    /// A commit.
    Commit,
    /// An annotated tag.
    Tag,
}

/// The type name git prints for `kind`.
pub open spec fn kind_name(kind: ObjectKind) -> Seq<char> {
    match kind {
        ObjectKind::Blob => "blob"@,
        ObjectKind::Tree => "tree"@,
        ObjectKind::Commit => "commit"@,
        ObjectKind::Tag => "tag"@,
    }
}

impl ObjectKind {
    /// The type name git prints for this kind (`blob`, `tree`, `commit`, `tag`).
    pub fn as_str(self) -> (r: &'static str)
        ensures
            r@ == kind_name(self),
    {
        match self {
            ObjectKind::Blob => "blob",
            ObjectKind::Tree => "tree",
            ObjectKind::Commit => "commit",
            ObjectKind::Tag => "tag",
        }
    }
}

} // verus!
