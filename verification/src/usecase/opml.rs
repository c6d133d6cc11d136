//! The `opml` use case: gitweb's `git_opml`, the feed list of every project
//! whose HEAD resolves (404 "No projects found" when the root holds none);
//! projects that cannot be opened or have no HEAD are left out.

use vstd::prelude::*;

use crate::error::{DomainError, ErrorView};
use crate::model::project::Project;
use crate::port::project_store::ProjectStore;
use crate::port::repository::Repository;

verus! {

/// One listed project.
#[derive(Debug, Clone, PartialEq, Eq)]
pub struct OpmlProject {
    path: String,
}

impl OpmlProject {
    /// The path.
    pub closed spec fn spec_path(&self) -> Seq<char> {
        self.path@
    }

    /// The project's path under the root.
    pub fn path(&self) -> (r: &str)
        ensures
            r@ == self.spec_path(),
    {
        self.path.as_str()
    }
}

/// The assembled feed list.
#[derive(Debug, Clone, PartialEq, Eq)]
pub struct Opml {
    projects: Vec<OpmlProject>,
}

impl Opml {
    /// The listed projects.
    pub closed spec fn spec_projects(&self) -> Seq<OpmlProject> {
        self.projects@
    }

    /// The projects with a HEAD, in discovery order.
    pub fn projects(&self) -> (r: &[OpmlProject])
        ensures
            r@ == self.spec_projects(),
    {
        self.projects.as_slice()
    }
}

/// The entry of project `name` when it opens and its HEAD resolves.
pub fn project_with_head<S: ProjectStore>(store: &S, name: &str) -> (r: Option<OpmlProject>)
    ensures
        r matches Some(p) ==> p.spec_path() == name@,
{
    let repository = match store.open(name) {
        Ok(repo) => repo,
        Err(_) => return None,
    };
    match repository.head() {
        Ok(_) => Some(OpmlProject { path: name.to_owned() }),
        Err(_) => None,
    }
}

/// The paths of `names` whose project has a HEAD (`with_head`), in order.
pub open spec fn headed_paths(names: Seq<Seq<char>>, with_head: Seq<bool>) -> Seq<Seq<char>>
    decreases names.len(),
{
    if names.len() == 0 {
        seq![]
    } else {
        let before = headed_paths(names.drop_last(), with_head.drop_last());
        if with_head.last() {
            before.push(names.last())
        } else {
            before
        }
    }
}

/// The paths of the listed projects `v`.
pub open spec fn opml_views(v: Seq<OpmlProject>) -> Seq<Seq<char>> {
    v.map_values(|p: OpmlProject| p.spec_path())
}

/// The feed list of the discovered `projects`, `with_head[i]` telling whether
/// project `i` opens with a HEAD: those projects, in order; none discovered is
/// 404 "No projects found".
pub fn opml_of(projects: &Vec<Project>, with_head: &Vec<bool>) -> (r: Result<Opml, DomainError>)
    requires
        with_head@.len() == projects@.len(),
    ensures
        r is Err <==> projects@.len() == 0,
        r matches Err(e) ==> e@ == ErrorView::NotFound("No projects found"@),
        r matches Ok(o) ==> opml_views(o.spec_projects()) == headed_paths(
            projects@.map_values(|p: Project| p@),
            with_head@,
        ),
{
    if projects.len() == 0 {
        return Err(crate::error::not_found("No projects found"));
    }
    let ghost names = projects@.map_values(|p: Project| p@);
    let mut shown: Vec<OpmlProject> = Vec::new();
    let mut i: usize = 0;
    while i < projects.len()
        invariant
            0 <= i <= projects@.len(),
            with_head@.len() == projects@.len(),
            names == projects@.map_values(|p: Project| p@),
            opml_views(shown@) == headed_paths(names.take(i as int), with_head@.take(i as int)),
        decreases projects.len() - i,
    {
        assert(names.take(i + 1).drop_last() =~= names.take(i as int));
        assert(with_head@.take(i + 1).drop_last() =~= with_head@.take(i as int));
        assert(names.take(i + 1).last() == projects@[i as int]@);
        assert(with_head@.take(i + 1).last() == with_head@[i as int]);
        if with_head[i] {
            let ghost before = shown@;
            shown.push(OpmlProject { path: projects[i].name().to_owned() });
            assert(opml_views(shown@) =~= opml_views(before).push(projects@[i as int]@));
        }
        i += 1;
    }
    assert(names.take(projects@.len() as int) =~= names);
    assert(with_head@.take(projects@.len() as int) =~= with_head@);
    Ok(Opml { projects: shown })
}

/// Assembles the feed list over the [`ProjectStore`] port: every discovered
/// project that opens with a HEAD (see [`project_with_head`]), laid out by
/// [`opml_of`].
pub fn assemble_opml<S: ProjectStore>(store: &S) -> (r: Result<Opml, DomainError>)
    ensures
        r matches Ok(o) ==> exists|names: Seq<Seq<char>>, with_head: Seq<bool>|
            names.len() > 0 && names.len() == with_head.len() && #[trigger] headed_paths(names, with_head) == opml_views(
                o.spec_projects(),
            ),
{
    let projects: Vec<Project> = match store.list(None) {
        Ok(p) => p,
        Err(e) => return Err(e),
    };
    let mut with_head: Vec<bool> = Vec::new();
    let mut i: usize = 0;
    while i < projects.len()
        invariant
            0 <= i <= projects@.len(),
            with_head@.len() == i,
        decreases projects.len() - i,
    {
        with_head.push(project_with_head(store, projects[i].name()).is_some());
        i += 1;
    }
    let r = opml_of(&projects, &with_head);
    proof {
        let names = projects@.map_values(|p: Project| p@);
        if r is Ok {
            assert(headed_paths(names, with_head@) == opml_views(r->Ok_0.spec_projects()));
        }
    }
    r
}

} // verus!
