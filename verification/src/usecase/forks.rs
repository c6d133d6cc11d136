//! The `forks` use case: gitweb's `git_forks` page logic, minus the HTML.
//!
//! The forks of `repo.git` live under `repo/`: the listing is scoped to that
//! subdirectory and otherwise shares the project list's core, 404 "No forks
//! found" when it holds none.

use vstd::prelude::*;

use crate::error::DomainError;
use crate::model::forks::forks_subdirectory;
use crate::model::project_filter::ProjectFilter;
use crate::model::settings::Settings;
use crate::port::project_store::ProjectStore;
use crate::usecase::project_list::{assemble_listing, lists_projects, resolved_order, ProjectListView};

verus! {

/// Assembles the forks page of `project` over the [`ProjectStore`] port.
pub fn assemble_forks<S: ProjectStore>(
    store: &S,
    settings: &Settings,
    project: &str,
    order: Option<&str>,
    now: i64,
) -> (r: Result<ProjectListView, DomainError>)
    ensures
        resolved_order(
            match order {
                Some(s) => Some(s@),
                None => None,
            },
            settings@,
        ) matches Err(v) ==> (r matches Err(e) && e@ == v),
        r matches Ok(view) ==> lists_projects(view.spec_rows(), view.spec_forks_enabled()),
{
    let filter: ProjectFilter = ProjectFilter::new(forks_subdirectory(project));
    assemble_listing(store, settings, order, Some(&filter), "No forks found", now)
}

} // verus!
