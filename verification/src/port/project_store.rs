//! The `ProjectStore` port: discovering and opening the repositories under a
//! project root (gitweb's `git_get_projects_list` and the opening of one
//! repository to serve a request).

use vstd::prelude::*;

use crate::error::DomainError;
use crate::model::project::Project;
use crate::model::project_filter::ProjectFilter;
use crate::model::project_info::ProjectInfo;
use crate::port::repository::Repository;

verus! {

/// Discovery and opening of the repositories under a project root. Nothing is
/// assumed of what its methods return: the use cases are verified for every
/// answer.
pub trait ProjectStore {
    /// The repository type `open` yields.
    type Repo: Repository;

    /// The projects under the root, scoped to `filter`'s subdirectory when
    /// one is given, in discovery order.
    fn list(&self, filter: Option<&ProjectFilter>) -> Result<Vec<Project>, DomainError>;

    /// Opens one project by name for reading.
    fn open(&self, name: &str) -> Result<Self::Repo, DomainError>;

    /// Whether `subdir` exists as a directory under the root (gitweb's `-d`
    /// guard on a fork container); any failure answers `false`.
    fn container_exists(&self, subdir: &str) -> bool;

    /// The display metadata of one project.
    fn info(&self, name: &str) -> Result<ProjectInfo, DomainError>;

    /// The raw contents of the project's `README.html`, when it exists and is
    /// not empty.
    fn readme_html(&self, name: &str) -> Result<Option<String>, DomainError>;
}

} // verus!
