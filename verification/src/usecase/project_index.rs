//! The `project_index` use case: gitweb's `git_project_index`, the plain-text
//! list of every project path with its owner (404 "No projects found" when
//! the root holds none).

use vstd::prelude::*;

use crate::error::{DomainError, ErrorView};
use crate::model::project::Project;
use crate::model::project_info::{ProjectInfo, ProjectInfoView};
use crate::port::project_store::ProjectStore;

verus! {

/// One line of the index: a project path and its owner.
#[derive(Debug, Clone, PartialEq, Eq)]
pub struct ProjectIndexRow {
    path: String,
    owner: String,
}

impl ProjectIndexRow {
    /// The path.
    pub closed spec fn spec_path(&self) -> Seq<char> {
        self.path@
    }

    /// The owner.
    pub closed spec fn spec_owner(&self) -> Seq<char> {
        self.owner@
    }

    /// The project's path under the root.
    pub fn path(&self) -> (r: &str)
        ensures
            r@ == self.spec_path(),
    {
        self.path.as_str()
    }

    /// The project's owner, empty when unset.
    pub fn owner(&self) -> (r: &str)
        ensures
            r@ == self.spec_owner(),
    {
        self.owner.as_str()
    }
}

/// The assembled index.
#[derive(Debug, Clone, PartialEq, Eq)]
pub struct ProjectIndex {
    rows: Vec<ProjectIndexRow>,
}

impl ProjectIndex {
    /// The rows.
    pub closed spec fn spec_rows(&self) -> Seq<ProjectIndexRow> {
        self.rows@
    }

    /// The lines of the index, in discovery order.
    pub fn rows(&self) -> (r: &[ProjectIndexRow])
        ensures
            r@ == self.spec_rows(),
    {
        self.rows.as_slice()
    }
}

/// The index line of a project with its metadata: its path, and its owner or
/// the empty text.
pub fn index_row(project: &Project, info: &ProjectInfo) -> (r: ProjectIndexRow)
    ensures
        r.spec_path() == project@,
        r.spec_owner() == match info@.owner {
            Some(o) => o,
            None => Seq::<char>::empty(),
        },
{
    let owner: String = match info.owner() {
        Some(o) => o.to_owned(),
        None => String::new(),
    };
    ProjectIndexRow { path: project.name().to_owned(), owner }
}

/// The owner an index line shows: the owner, or the empty text.
pub open spec fn shown_owner(info: ProjectInfoView) -> Seq<char> {
    match info.owner {
        Some(o) => o,
        None => Seq::<char>::empty(),
    }
}

/// `rows` are the index lines of `projects` with their metadata `infos`, one
/// per project, in order.
pub open spec fn index_rows_of(rows: Seq<ProjectIndexRow>, projects: Seq<Project>, infos: Seq<ProjectInfoView>) -> bool {
    &&& rows.len() == projects.len()
    &&& rows.len() == infos.len()
    &&& forall|i: int|
        0 <= i < rows.len() ==> (#[trigger] rows[i]).spec_path() == projects[i]@ && rows[i].spec_owner() == shown_owner(
            infos[i],
        )
}

/// `rows` are the index lines of some projects with their metadata (see
/// [`index_rows_of`]).
pub open spec fn indexes_projects(rows: Seq<ProjectIndexRow>) -> bool {
    exists|projects: Seq<Project>, infos: Seq<ProjectInfoView>| #[trigger] index_rows_of(rows, projects, infos)
}

/// The discovered projects as a listing: none discovered is 404 "No
/// projects found".
pub fn check_discovered(projects: &Vec<Project>) -> (r: Result<(), DomainError>)
    ensures
        r is Err <==> projects@.len() == 0,
        r matches Err(e) ==> e@ == ErrorView::NotFound("No projects found"@),
{
    if projects.len() == 0 {
        Err(crate::error::not_found("No projects found"))
    } else {
        Ok(())
    }
}

/// The index of the discovered `projects` with their metadata `infos` (one
/// per project): an index line each, in order (see [`index_row`]).
pub fn index_of(projects: &Vec<Project>, infos: &Vec<ProjectInfo>) -> (r: ProjectIndex)
    requires
        infos@.len() == projects@.len(),
    ensures
        index_rows_of(r.spec_rows(), projects@, infos@.map_values(|i: ProjectInfo| i@)),
{
    let mut rows: Vec<ProjectIndexRow> = Vec::new();
    let mut i: usize = 0;
    while i < projects.len()
        invariant
            0 <= i <= projects@.len(),
            infos@.len() == projects@.len(),
            rows@.len() == i,
            forall|k: int|
                0 <= k < i ==> (#[trigger] rows@[k]).spec_path() == projects@[k]@ && rows@[k].spec_owner()
                    == shown_owner(infos@[k]@),
        decreases projects.len() - i,
    {
        rows.push(index_row(&projects[i], &infos[i]));
        i += 1;
    }
    ProjectIndex { rows }
}

/// Assembles the project index over the [`ProjectStore`] port: the
/// discovered projects (404 "No projects found" when none, see
/// [`check_discovered`]), each with its metadata, laid out by [`index_of`].
pub fn assemble_project_index<S: ProjectStore>(store: &S) -> (r: Result<ProjectIndex, DomainError>)
    ensures
        r matches Ok(idx) ==> idx.spec_rows().len() > 0,
        r matches Ok(idx) ==> indexes_projects(idx.spec_rows()),
{
    let projects: Vec<Project> = match store.list(None) {
        Ok(p) => p,
        Err(e) => return Err(e),
    };
    match check_discovered(&projects) {
        Ok(()) => {},
        Err(e) => return Err(e),
    }
    let mut infos: Vec<ProjectInfo> = Vec::new();
    let mut i: usize = 0;
    while i < projects.len()
        invariant
            0 <= i <= projects@.len(),
            infos@.len() == i,
        decreases projects.len() - i,
    {
        match store.info(projects[i].name()) {
            Ok(info) => infos.push(info),
            Err(e) => return Err(e),
        }
        i += 1;
    }
    let idx = index_of(&projects, &infos);
    proof {
        assert(index_rows_of(idx.spec_rows(), projects@, infos@.map_values(|i: ProjectInfo| i@)));
    }
    Ok(idx)
}

} // verus!
