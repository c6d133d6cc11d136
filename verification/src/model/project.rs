//! A discovered project: a repository's path under the project root.

use vstd::prelude::*;

verus! {

/// One repository under the project root, named by its path.
#[derive(Debug, Clone, PartialEq, Eq)]
pub struct Project {
    name: String,
}

impl View for Project {
    type V = Seq<char>;

    closed spec fn view(&self) -> Seq<char> {
        self.name@
    }
}

impl Project {
    /// The project at `name`.
    pub fn new(name: String) -> (r: Project)
        ensures
            r@ == name@,
    {
        Project { name }
    }

    /// The project's path under the root (e.g. `group/repo.git`).
    pub fn name(&self) -> (r: &str)
        ensures
            r@ == self@,
    {
        self.name.as_str()
    }
}

} // verus!
