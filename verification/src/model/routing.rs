//! The dispatch routing rule: gitweb's `dispatch()` defaulting and project
//! gate.
//!
//! Once a request is validated, gitweb's `dispatch` decides which handler
//! runs: it defaults a missing action (a hash — or a base ref plus a file —
//! means "resolve the object's kind", a project alone means `summary`,
//! nothing means `project_list`), then refuses with "Project needed" any
//! action that needs a project the request lacks. Resolving an object's kind
//! needs the repository, so this rule only flags that case.

use vstd::prelude::*;
use crate::error::{invalid, DomainError, ErrorView};
use crate::model::action::{action_needs_project, Action};
use crate::model::request::Request;

verus! {

/// What gitweb's `dispatch` decides to do with a validated request.
#[derive(Debug, Clone, Copy, PartialEq, Eq, Structural)]
pub enum Dispatch {
    /// Serve this action directly.
    Action(Action),
    /// No action was named but a hash (or base ref and file) was: resolve the
    /// object's kind first and serve the matching view.
    ResolveObjectKind,
}

/// gitweb's action-defaulting ladder: an explicit action stands; otherwise a
/// hash, or a base ref together with a file, defers to kind resolution; a
/// project alone is the summary; a bare request is the project list.
pub open spec fn default_dispatch(r: Request) -> Dispatch {
    if let Some(a) = r.action {
        Dispatch::Action(a)
    } else if r.hash.is_some() || (r.hash_base.is_some() && r.file_name.is_some()) {
        Dispatch::ResolveObjectKind
    } else if r.project.is_some() {
        Dispatch::Action(Action::Summary)
    } else {
        Dispatch::Action(Action::ProjectList)
    }
}

/// Whether the routed dispatch needs a project: kind resolution always yields
/// a project-scoped view.
pub open spec fn dispatch_needs_project(d: Dispatch) -> bool {
    match d {
        Dispatch::Action(a) => action_needs_project(a),
        Dispatch::ResolveObjectKind => true,
    }
}

fn default_action(request: &Request) -> (r: Dispatch)
    ensures
        r == default_dispatch(*request),
{
    if let Some(action) = request.action {
        return Dispatch::Action(action);
    }
    if request.hash.is_some() || (request.hash_base.is_some() && request.file_name.is_some()) {
        return Dispatch::ResolveObjectKind;
    }
    if request.project.is_some() {
        return Dispatch::Action(Action::Summary);
    }
    Dispatch::Action(Action::ProjectList)
}

fn needs_project(dispatch: Dispatch) -> (r: bool)
    ensures
        r == dispatch_needs_project(dispatch),
{
    match dispatch {
        Dispatch::Action(action) => action.needs_project(),
        Dispatch::ResolveObjectKind => true,
    }
}

/// Applies gitweb's `dispatch` routing rule: default the action, then refuse
/// with "Project needed" (a 400) when the result needs a missing project.
pub fn route(request: &Request) -> (r: Result<Dispatch, DomainError>)
    ensures
        dispatch_needs_project(default_dispatch(*request)) && request.project.is_none() ==> (r matches Err(e) && e@ == ErrorView::Invalid("Project needed"@)),
        !(dispatch_needs_project(default_dispatch(*request)) && request.project.is_none()) ==> r == Ok::<Dispatch, DomainError>(default_dispatch(*request)),
{
    let dispatch: Dispatch = default_action(request);
    if needs_project(dispatch) && request.project.is_none() {
        return Err(invalid("Project needed"));
    }
    Ok(dispatch)
}

} // verus!
