//! A project-list scope: the subdirectory of the project root a listing is
//! limited to (gitweb's `$project_filter`).

use vstd::prelude::*;

verus! {

/// The subdirectory a project listing is limited to.
#[derive(Debug, Clone, PartialEq, Eq)]
pub struct ProjectFilter {
    path: String,
}

impl View for ProjectFilter {
    type V = Seq<char>;

    closed spec fn view(&self) -> Seq<char> {
        self.path@
    }
}

impl ProjectFilter {
    /// The scope of subdirectory `path`.
    pub fn new(path: String) -> (r: ProjectFilter)
        ensures
            r@ == path@,
    {
        ProjectFilter { path }
    }

    /// The subdirectory.
    pub fn path(&self) -> (r: &str)
        ensures
            r@ == self@,
    {
        self.path.as_str()
    }
}

} // verus!
