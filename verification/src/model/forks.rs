//! gitweb's fork convention: the forks of `repo.git` live under the sibling
//! directory `repo/`. On a listing, a project under another project's
//! container folds under it (gitweb's `filter_forks_from_projects_list`): the
//! project with the shortest container that is a directory prefix of its path
//! is its root, the first such in discovery order on ties.

use vstd::prelude::*;

use crate::text::{chars_of, ends_with, has_prefix, has_suffix, starts_with, substring};

verus! {

/// The directory holding the forks of project `path`: the path with one
/// trailing `.git` removed.
pub open spec fn container_of(path: Seq<char>) -> Seq<char> {
    if has_suffix(path, ".git"@) {
        path.take(path.len() - 4)
    } else {
        path
    }
}

/// The forks subdirectory of `project` (see [`container_of`]).
pub fn forks_subdirectory(project: &str) -> (r: String)
    ensures
        r@ == container_of(project@),
{
    proof {
        reveal_strlit(".git");
    }
    let v: Vec<char> = chars_of(project);
    let suffix: Vec<char> = chars_of(".git");
    if ends_with(&v, &suffix) {
        substring(&v, 0, v.len() - 4)
    } else {
        project.to_owned()
    }
}

/// The forks subdirectory of `project` (an alias of [`forks_subdirectory`]).
pub fn fork_container(project: &str) -> (r: String)
    ensures
        r@ == container_of(project@),
{
    forks_subdirectory(project)
}

/// Whether `q` lies under the (non-empty) container `c`.
pub open spec fn lies_under(q: Seq<char>, c: Seq<char>) -> bool {
    c.len() > 0 && has_prefix(q, c + "/"@)
}

/// The root of `q` among the first `k` of `names`: the one with the shortest
/// container `q` lies under, the earliest on ties.
pub open spec fn root_among(names: Seq<Seq<char>>, q: Seq<char>, k: int) -> Option<int>
    decreases k,
{
    if k <= 0 {
        None
    } else {
        let prev = root_among(names, q, k - 1);
        let c = container_of(names[k - 1]);
        if lies_under(q, c) && (prev is None || c.len() < container_of(names[prev->0]).len()) {
            Some(k - 1)
        } else {
            prev
        }
    }
}

/// A root is one of the names considered.
pub proof fn lemma_root_bound(names: Seq<Seq<char>>, q: Seq<char>, k: int)
    ensures
        root_among(names, q, k) matches Some(j) ==> 0 <= j < k,
    decreases k,
{
    if k > 0 {
        lemma_root_bound(names, q, k - 1);
    }
}

/// The root of `q` among all `names`.
pub open spec fn root_of(names: Seq<Seq<char>>, q: Seq<char>) -> Option<int> {
    root_among(names, q, names.len() as int)
}

/// The forks of `names[i]` among the first `k` names, in order.
pub open spec fn forks_among(names: Seq<Seq<char>>, i: int, k: int) -> Seq<Seq<char>>
    decreases k,
{
    if k <= 0 {
        seq![]
    } else if root_of(names, names[k - 1]) == Some(i) {
        forks_among(names, i, k - 1).push(names[k - 1])
    } else {
        forks_among(names, i, k - 1)
    }
}

/// A top-level project of a listing with its forks.
pub struct GroupView {
    pub name: Seq<char>,
    pub forks: Seq<Seq<char>>,
}

/// The groups of the first `k` names: one per name that is no fork, with its
/// forks.
pub open spec fn groups_among(names: Seq<Seq<char>>, k: int) -> Seq<GroupView>
    decreases k,
{
    if k <= 0 {
        seq![]
    } else if root_of(names, names[k - 1]) is None {
        groups_among(names, k - 1).push(
            GroupView { name: names[k - 1], forks: forks_among(names, k - 1, names.len() as int) },
        )
    } else {
        groups_among(names, k - 1)
    }
}

/// A top-level project of a listing with its forks, in discovery order.
#[derive(Debug, Clone, PartialEq, Eq)]
pub struct ProjectGroup {
    name: String,
    forks: Vec<String>,
}

/// The texts of `v`.
pub open spec fn name_views(v: Seq<String>) -> Seq<Seq<char>> {
    v.map_values(|s: String| s@)
}

impl View for ProjectGroup {
    type V = GroupView;

    closed spec fn view(&self) -> GroupView {
        GroupView { name: self.name@, forks: name_views(self.forks@) }
    }
}

impl ProjectGroup {
    /// The top-level project.
    pub fn name(&self) -> (r: &str)
        ensures
            r@ == self@.name,
    {
        self.name.as_str()
    }

    /// Its forks, in discovery order.
    pub fn forks(&self) -> (r: &[String])
        ensures
            name_views(r@) == self@.forks,
    {
        self.forks.as_slice()
    }
}

/// Whether `q` lies under the container of `p` (see [`lies_under`]).
fn under(q: &Vec<char>, container: &Vec<char>) -> (r: bool)
    ensures
        r == lies_under(q@, container@),
{
    if container.len() == 0 {
        return false;
    }
    let mut prefix: Vec<char> = container.clone();
    prefix.push('/');
    proof {
        reveal_strlit("/");
        assert(prefix@ =~= container@ + "/"@);
    }
    starts_with(q, &prefix)
}

/// The containers of all names, as characters.
fn containers(names: &[String]) -> (r: Vec<Vec<char>>)
    ensures
        r@.len() == names@.len(),
        forall|i: int| 0 <= i < r@.len() ==> (#[trigger] r@[i])@ == container_of(names@[i]@),
{
    let mut out: Vec<Vec<char>> = Vec::new();
    let mut i: usize = 0;
    while i < names.len()
        invariant
            0 <= i <= names@.len(),
            out@.len() == i,
            forall|k: int| 0 <= k < i ==> (#[trigger] out@[k])@ == container_of(names@[k]@),
        decreases names.len() - i,
    {
        let c: String = forks_subdirectory(names[i].as_str());
        out.push(chars_of(c.as_str()));
        i += 1;
    }
    out
}

/// The root of `q` among `names` (see [`root_of`]).
fn root_index(names: &[String], conts: &Vec<Vec<char>>, q: &Vec<char>) -> (r: Option<usize>)
    requires
        conts@.len() == names@.len(),
        forall|i: int| 0 <= i < conts@.len() ==> (#[trigger] conts@[i])@ == container_of(names@[i]@),
    ensures
        match root_of(name_views(names@), q@) {
            Some(j) => r == Some(j as usize),
            None => r is None,
        },
{
    let ghost ns = name_views(names@);
    let mut best: Option<usize> = None;
    let mut k: usize = 0;
    while k < names.len()
        invariant
            0 <= k <= names@.len(),
            ns == name_views(names@),
            conts@.len() == names@.len(),
            forall|i: int| 0 <= i < conts@.len() ==> (#[trigger] conts@[i])@ == container_of(names@[i]@),
            match root_among(ns, q@, k as int) {
                Some(j) => best == Some(j as usize) && 0 <= j < k,
                None => best is None,
            },
        decreases names.len() - k,
    {
        assert(ns[k as int] == names@[k as int]@);
        let c: &Vec<char> = &conts[k];
        if under(q, c) {
            let shorter: bool = match best {
                Some(b) => {
                    assert(ns[b as int] == names@[b as int]@);
                    c.len() < conts[b].len()
                },
                None => true,
            };
            if shorter {
                best = Some(k);
            }
        }
        k += 1;
    }
    best
}

/// Splits a listing's names into top-level projects, each with its forks,
/// in discovery order (see [`groups_among`]).
pub fn partition_forks(names: &[String]) -> (r: Vec<ProjectGroup>)
    ensures
        r@.map_values(|g: ProjectGroup| g@) == groups_among(name_views(names@), names@.len() as int),
{
    let ghost ns = name_views(names@);
    let conts: Vec<Vec<char>> = containers(names);
    let mut roots: Vec<Option<usize>> = Vec::new();
    let mut i: usize = 0;
    while i < names.len()
        invariant
            0 <= i <= names@.len(),
            ns == name_views(names@),
            conts@.len() == names@.len(),
            forall|k: int| 0 <= k < conts@.len() ==> (#[trigger] conts@[k])@ == container_of(names@[k]@),
            roots@.len() == i,
            forall|k: int|
                0 <= k < i ==> match root_of(ns, ns[k]) {
                    Some(j) => #[trigger] roots@[k] == Some(j as usize),
                    None => roots@[k] is None,
                },
        decreases names.len() - i,
    {
        let q: Vec<char> = chars_of(names[i].as_str());
        assert(ns[i as int] == q@);
        let root = root_index(names, &conts, &q);
        roots.push(root);
        i += 1;
    }
    let mut groups: Vec<ProjectGroup> = Vec::new();
    let mut g: usize = 0;
    while g < names.len()
        invariant
            0 <= g <= names@.len(),
            ns == name_views(names@),
            roots@.len() == names@.len(),
            forall|k: int|
                0 <= k < names@.len() ==> match root_of(ns, ns[k]) {
                    Some(j) => #[trigger] roots@[k] == Some(j as usize),
                    None => roots@[k] is None,
                },
            groups@.map_values(|x: ProjectGroup| x@) == groups_among(ns, g as int),
        decreases names.len() - g,
    {
        if roots[g].is_none() {
            let mut forks: Vec<String> = Vec::new();
            let mut j: usize = 0;
            while j < names.len()
                invariant
                    0 <= j <= names@.len(),
                    g < names@.len(),
                    ns == name_views(names@),
                    roots@.len() == names@.len(),
                    forall|k: int|
                        0 <= k < names@.len() ==> match root_of(ns, ns[k]) {
                            Some(m) => #[trigger] roots@[k] == Some(m as usize),
                            None => roots@[k] is None,
                        },
                    name_views(forks@) == forks_among(ns, g as int, j as int),
                decreases names.len() - j,
            {
                let hit: bool = match roots[j] {
                    Some(m) => m == g,
                    None => false,
                };
                proof {
                    lemma_root_bound(ns, ns[j as int], ns.len() as int);
                }
                if hit {
                    assert(root_of(ns, ns[j as int]) == Some(g as int));
                    let ghost before = name_views(forks@);
                    forks.push(names[j].clone());
                    assert(name_views(forks@) =~= before.push(ns[j as int]));
                } else {
                    assert(root_of(ns, ns[j as int]) != Some(g as int));
                }
                j += 1;
            }
            let ghost before = groups@.map_values(|x: ProjectGroup| x@);
            let group = ProjectGroup { name: names[g].clone(), forks };
            groups.push(group);
            assert(groups@.map_values(|x: ProjectGroup| x@) =~= before.push(group@));
        }
        g += 1;
    }
    groups
}

} // verus!
