//! The `project_list` use case: gitweb's `git_project_list` page logic,
//! minus the HTML.
//!
//! The requested order is validated first (400 "Unknown order parameter"),
//! the projects under the root are discovered (404 when there are none),
//! forks fold under their parents when the `forks` feature is on, each shown
//! project's metadata is read, the list is sorted, and each row carries the
//! project's age at request time and its fork count.

use vstd::prelude::*;

use crate::error::{DomainError, ErrorView};
use crate::model::age::Age;
use crate::model::forks::{groups_among, name_views, partition_forks, ProjectGroup};
use crate::model::project::Project;
use crate::model::project_filter::ProjectFilter;
use crate::model::project_info::{ProjectInfo, ProjectInfoView};
use crate::model::project_order::{info_views, keyed_by, order_named, sorted_infos, ProjectOrder};
use crate::model::ref_order::RefKey;
use crate::model::settings::{feature_enabled, feature_index, FeatureName, Settings, SettingsView};
use crate::port::project_store::ProjectStore;
use crate::text::str_eq;
use crate::usecase::heads::age_view;

verus! {

/// One project row of the listing.
#[derive(Debug, Clone, PartialEq, Eq)]
pub struct ProjectListRow {
    name: String,
    description: Option<String>,
    owner: Option<String>,
    age: Option<Age>,
    fork_count: usize,
}

/// A project row seen through its texts.
pub struct ProjectListRowView {
    pub name: Seq<char>,
    pub description: Option<Seq<char>>,
    pub owner: Option<Seq<char>>,
    pub age: Option<i64>,
    pub fork_count: usize,
}

impl View for ProjectListRow {
    type V = ProjectListRowView;

    closed spec fn view(&self) -> ProjectListRowView {
        ProjectListRowView {
            name: self.name@,
            description: match self.description {
                Some(s) => Some(s@),
                None => None,
            },
            owner: match self.owner {
                Some(s) => Some(s@),
                None => None,
            },
            age: age_view(self.age),
            fork_count: self.fork_count,
        }
    }
}

/// Whether the age of a project last changed at `activity` fits at `now`.
pub open spec fn activity_fits(activity: Option<i64>, now: i64) -> bool {
    activity matches Some(e) ==> i64::MIN <= now - e <= i64::MAX
}

/// The row of a project.
pub open spec fn project_row_of(info: ProjectInfoView, now: i64, fork_count: usize) -> ProjectListRowView {
    ProjectListRowView {
        name: info.name,
        description: info.description,
        owner: info.owner,
        age: match info.last_activity {
            Some(e) => Some((now - e) as i64),
            None => None,
        },
        fork_count,
    }
}

impl ProjectListRow {
    /// The row of `info` at `now` with its fork count.
    pub fn from_info(info: &ProjectInfo, now: i64, fork_count: usize) -> (r: ProjectListRow)
        requires
            activity_fits(info@.last_activity, now),
        ensures
            r@ == project_row_of(info@, now, fork_count),
    {
        let age: Option<Age> = match info.last_activity() {
            Some(epoch) => Some(Age::from_seconds(now - epoch)),
            None => None,
        };
        ProjectListRow {
            name: info.name().to_owned(),
            description: match info.description() {
                Some(s) => Some(s.to_owned()),
                None => None,
            },
            owner: match info.owner() {
                Some(s) => Some(s.to_owned()),
                None => None,
            },
            age,
            fork_count,
        }
    }

    /// The project's path.
    pub fn name(&self) -> (r: &str)
        ensures
            r@ == self@.name,
    {
        self.name.as_str()
    }

    /// The project's description, when it has one.
    pub fn description(&self) -> (r: Option<&str>)
        ensures
            match self@.description {
                Some(s) => r matches Some(x) && x@ == s,
                None => r is None,
            },
    {
        match &self.description {
            Some(s) => Some(s.as_str()),
            None => None,
        }
    }

    /// The project's owner, when it has one.
    pub fn owner(&self) -> (r: Option<&str>)
        ensures
            match self@.owner {
                Some(s) => r matches Some(x) && x@ == s,
                None => r is None,
            },
    {
        match &self.owner {
            Some(s) => Some(s.as_str()),
            None => None,
        }
    }

    /// The time since the project's last change, when it has one.
    pub fn age(&self) -> (r: Option<Age>)
        ensures
            age_view(r) == self@.age,
    {
        self.age
    }

    /// How many forks fold under the project.
    pub fn fork_count(&self) -> (r: usize)
        ensures
            r == self@.fork_count,
    {
        self.fork_count
    }
}

/// The assembled project listing.
#[derive(Debug, Clone, PartialEq, Eq)]
pub struct ProjectListView {
    rows: Vec<ProjectListRow>,
    order: ProjectOrder,
    forks_enabled: bool,
}

/// The rows of `v`, each seen through its texts.
pub open spec fn project_row_views(v: Seq<ProjectListRow>) -> Seq<ProjectListRowView> {
    v.map_values(|r: ProjectListRow| r@)
}

impl ProjectListView {
    /// The rows.
    pub closed spec fn spec_rows(&self) -> Seq<ProjectListRowView> {
        project_row_views(self.rows@)
    }

    /// The applied order.
    pub closed spec fn spec_order(&self) -> ProjectOrder {
        self.order
    }

    /// Whether forks fold.
    pub closed spec fn spec_forks_enabled(&self) -> bool {
        self.forks_enabled
    }

    /// The project rows, in the applied order.
    pub fn rows(&self) -> (r: &[ProjectListRow])
        ensures
            project_row_views(r@) == self.spec_rows(),
    {
        self.rows.as_slice()
    }

    /// The order the rows are in.
    pub fn order(&self) -> (r: ProjectOrder)
        ensures
            r == self.spec_order(),
    {
        self.order
    }

    /// Whether forks are folded under their parents (the `forks` feature).
    pub fn forks_enabled(&self) -> (r: bool)
        ensures
            r == self.spec_forks_enabled(),
    {
        self.forks_enabled
    }
}

/// The order a listing uses: the requested token, or the site's default
/// order when none was requested (unordered when that is no known order).
pub open spec fn resolved_order(order: Option<Seq<char>>, settings: SettingsView) -> Result<ProjectOrder, ErrorView> {
    match order {
        Some(token) => match order_named(token) {
            Some(o) => Ok(o),
            None => Err(ErrorView::Invalid("Unknown order parameter"@)),
        },
        None => match order_named(settings.default_projects_order) {
            Some(o) => Ok(o),
            None => Ok(ProjectOrder::Unordered),
        },
    }
}

/// The order a listing uses (see [`resolved_order`]).
pub fn resolve_order(order: Option<&str>, settings: &Settings) -> (r: Result<ProjectOrder, DomainError>)
    ensures
        match resolved_order(
            match order {
                Some(s) => Some(s@),
                None => None,
            },
            settings@,
        ) {
            Ok(o) => r == Ok::<ProjectOrder, DomainError>(o),
            Err(v) => r matches Err(e) && e@ == v,
        },
{
    match order {
        Some(token) => ProjectOrder::parse(token),
        None => match ProjectOrder::parse(settings.default_projects_order()) {
            Ok(o) => Ok(o),
            Err(_) => Ok(ProjectOrder::Unordered),
        },
    }
}

/// The names shown on a listing with their fork counts: every name with no
/// forks when forks do not fold, else each top-level project with the number
/// of its forks.
pub open spec fn folded(names: Seq<Seq<char>>, forks_enabled: bool) -> Seq<(Seq<char>, nat)> {
    if !forks_enabled {
        names.map_values(|n: Seq<char>| (n, 0nat))
    } else {
        groups_among(names, names.len() as int).map_values(|g: crate::model::forks::GroupView| (g.name, g.forks.len()))
    }
}

/// The shown names with their fork counts (see [`folded`]).
pub fn fold_forks(names: &[String], forks_enabled: bool) -> (r: Vec<(String, usize)>)
    ensures
        r@.map_values(|e: (String, usize)| (e.0@, e.1 as nat)) == folded(name_views(names@), forks_enabled),
{
    let mut out: Vec<(String, usize)> = Vec::new();
    if !forks_enabled {
        let mut i: usize = 0;
        while i < names.len()
            invariant
                0 <= i <= names@.len(),
                out@.map_values(|e: (String, usize)| (e.0@, e.1 as nat)) =~= name_views(names@).take(
                    i as int,
                ).map_values(|n: Seq<char>| (n, 0nat)),
            decreases names.len() - i,
        {
            let ghost before = out@.map_values(|e: (String, usize)| (e.0@, e.1 as nat));
            out.push((names[i].clone(), 0));
            assert(out@.map_values(|e: (String, usize)| (e.0@, e.1 as nat)) =~= before.push((names@[i as int]@, 0nat)));
            assert(name_views(names@).take(i + 1) =~= name_views(names@).take(i as int).push(names@[i as int]@));
            i += 1;
        }
        assert(name_views(names@).take(names@.len() as int) =~= name_views(names@));
        return out;
    }
    let groups: Vec<ProjectGroup> = partition_forks(names);
    let ghost gs = groups@.map_values(|g: ProjectGroup| g@);
    let mut k: usize = 0;
    while k < groups.len()
        invariant
            0 <= k <= groups@.len(),
            gs == groups@.map_values(|g: ProjectGroup| g@),
            gs == groups_among(name_views(names@), names@.len() as int),
            out@.map_values(|e: (String, usize)| (e.0@, e.1 as nat)) =~= gs.take(k as int).map_values(
                |g: crate::model::forks::GroupView| (g.name, g.forks.len()),
            ),
        decreases groups.len() - k,
    {
        let ghost before = out@.map_values(|e: (String, usize)| (e.0@, e.1 as nat));
        let fs: &[String] = groups[k].forks();
        let count: usize = fs.len();
        assert(gs[k as int] == groups@[k as int]@);
        assert(name_views(fs@).len() == fs@.len());
        out.push((groups[k].name().to_owned(), count));
        assert(out@.map_values(|e: (String, usize)| (e.0@, e.1 as nat)) =~= before.push((gs[k as int].name, gs[k as int].forks.len())));
        assert(gs.take(k + 1) =~= gs.take(k as int).push(gs[k as int]));
        k += 1;
    }
    assert(gs.take(groups@.len() as int) =~= gs);
    out
}

/// The fork counts of `v`, each as a name and a count.
pub open spec fn count_views(v: Seq<(String, usize)>) -> Seq<(Seq<char>, nat)> {
    v.map_values(|e: (String, usize)| (e.0@, e.1 as nat))
}

/// The fork count of `name` among the shown names and counts `visible`: the
/// last entry for it, as a map built from them keeps; 0 when it is absent.
pub open spec fn fork_count_in(visible: Seq<(Seq<char>, nat)>, name: Seq<char>) -> nat
    decreases visible.len(),
{
    if visible.len() == 0 {
        0
    } else if visible.last().0 == name {
        visible.last().1
    } else {
        fork_count_in(visible.drop_last(), name)
    }
}

/// A name's count is no larger than every count's bound.
proof fn lemma_counts_bounded(visible: Seq<(Seq<char>, nat)>, name: Seq<char>, bound: nat)
    requires
        forall|i: int| 0 <= i < visible.len() ==> (#[trigger] visible[i]).1 <= bound,
    ensures
        fork_count_in(visible, name) <= bound,
    decreases visible.len(),
{
    if visible.len() > 0 {
        lemma_counts_bounded(visible.drop_last(), name, bound);
    }
}

/// With every count zero, every name's count is zero.
proof fn lemma_zero_counts(visible: Seq<(Seq<char>, nat)>, name: Seq<char>)
    requires
        forall|i: int| 0 <= i < visible.len() ==> (#[trigger] visible[i]).1 == 0,
    ensures
        fork_count_in(visible, name) == 0,
    decreases visible.len(),
{
    if visible.len() > 0 {
        lemma_zero_counts(visible.drop_last(), name);
    }
}

/// The fork count of `name` among the shown names (see [`fork_count_in`]).
pub fn fork_count_of(visible: &Vec<(String, usize)>, name: &str) -> (r: usize)
    ensures
        r == fork_count_in(count_views(visible@), name@),
{
    let ghost v = count_views(visible@);
    let mut found: usize = 0;
    let mut i: usize = 0;
    while i < visible.len()
        invariant
            0 <= i <= visible@.len(),
            v == count_views(visible@),
            found == fork_count_in(v.take(i as int), name@),
        decreases visible.len() - i,
    {
        assert(v.take(i + 1).drop_last() =~= v.take(i as int));
        assert(v.take(i + 1).last() == (visible@[i as int].0@, visible@[i as int].1 as nat));
        if str_eq(visible[i].0.as_str(), name) {
            found = visible[i].1;
        }
        i += 1;
    }
    assert(v.take(visible@.len() as int) =~= v);
    found
}

/// The rows of the sorted project metadata `sorted` at `now`, each with its
/// fork count among `visible`; a last activity that does not fit an `i64` of
/// `now` is a backend error.
pub fn listing_rows(sorted: &Vec<ProjectInfo>, visible: &Vec<(String, usize)>, now: i64) -> (r: Result<
    Vec<ProjectListRow>,
    DomainError,
>)
    ensures
        r is Ok <==> forall|i: int| 0 <= i < sorted@.len() ==> activity_fits(#[trigger] sorted@[i]@.last_activity, now),
        r matches Err(e) ==> e@ == ErrorView::Backend("project time out of range"@),
        r matches Ok(rows) ==> rows@.len() == sorted@.len() && forall|i: int|
            0 <= i < rows@.len() ==> (#[trigger] rows@[i])@ == project_row_of(
                sorted@[i]@,
                now,
                fork_count_in(count_views(visible@), sorted@[i]@.name) as usize,
            ),
{
    let mut rows: Vec<ProjectListRow> = Vec::new();
    let mut j: usize = 0;
    while j < sorted.len()
        invariant
            0 <= j <= sorted@.len(),
            rows@.len() == j,
            forall|k: int| 0 <= k < j ==> activity_fits(#[trigger] sorted@[k]@.last_activity, now),
            forall|k: int|
                0 <= k < j ==> (#[trigger] rows@[k])@ == project_row_of(
                    sorted@[k]@,
                    now,
                    fork_count_in(count_views(visible@), sorted@[k]@.name) as usize,
                ),
        decreases sorted.len() - j,
    {
        let info: &ProjectInfo = &sorted[j];
        if let Some(epoch) = info.last_activity() {
            if now.checked_sub(epoch).is_none() {
                return Err(crate::error::backend("project time out of range"));
            }
        }
        let count: usize = fork_count_of(visible, info.name());
        rows.push(ProjectListRow::from_info(info, now, count));
        j += 1;
    }
    Ok(rows)
}

/// The names of discovered projects, in discovery order.
pub open spec fn project_names(v: Seq<Project>) -> Seq<Seq<char>> {
    v.map_values(|p: Project| p@)
}

/// The names of the discovered projects `projects`, in discovery order; none
/// discovered is 404 `not_found`.
pub fn listed_names(projects: &Vec<Project>, not_found: &str) -> (r: Result<Vec<String>, DomainError>)
    ensures
        r is Err <==> projects@.len() == 0,
        r matches Err(e) ==> e@ == ErrorView::NotFound(not_found@),
        r matches Ok(names) ==> name_views(names@) == project_names(projects@),
{
    if projects.len() == 0 {
        return Err(crate::error::not_found(not_found));
    }
    let mut names: Vec<String> = Vec::new();
    let mut i: usize = 0;
    while i < projects.len()
        invariant
            0 <= i <= projects@.len(),
            name_views(names@) =~= project_names(projects@).take(i as int),
        decreases projects.len() - i,
    {
        let ghost before = name_views(names@);
        names.push(projects[i].name().to_owned());
        assert(name_views(names@) =~= before.push(projects@[i as int]@));
        assert(project_names(projects@).take(i + 1) =~= project_names(projects@).take(i as int).push(
            projects@[i as int]@,
        ));
        i += 1;
    }
    assert(project_names(projects@).take(projects@.len() as int) =~= project_names(projects@));
    Ok(names)
}

/// `rows` are the rows of the projects `shown`, in that order, at `now`, each
/// with its fork count among `visible`.
pub open spec fn rows_of_projects(
    rows: Seq<ProjectListRowView>,
    shown: Seq<ProjectInfoView>,
    visible: Seq<(Seq<char>, nat)>,
    now: i64,
) -> bool {
    &&& rows.len() == shown.len()
    &&& forall|i: int|
        0 <= i < rows.len() ==> #[trigger] rows[i] == project_row_of(
            shown[i],
            now,
            fork_count_in(visible, shown[i].name) as usize,
        )
}

/// The listing of the metadata `infos` of the shown projects under `order`:
/// the projects sorted by `order` (see [`sorted_infos`]), one row each with
/// its fork count among `visible`; a last activity whose age at `now` does
/// not fit is a backend error.
pub fn listing_view(
    infos: Vec<ProjectInfo>,
    visible: &Vec<(String, usize)>,
    order: ProjectOrder,
    forks_enabled: bool,
    now: i64,
) -> (r: Result<ProjectListView, DomainError>)
    ensures
        r matches Ok(v) ==> v.spec_order() == order && v.spec_forks_enabled() == forks_enabled
            && v.spec_rows().len() == infos@.len(),
        exists|keyed: Seq<(RefKey, ProjectInfo)>| #[trigger] keyed_by(order, infos@, keyed) && {
            let shown = sorted_infos(order, keyed);
            &&& (r is Ok <==> forall|i: int| 0 <= i < shown.len() ==> activity_fits(#[trigger] shown[i].last_activity, now))
            &&& (r matches Err(e) ==> e@ == ErrorView::Backend("project time out of range"@))
            &&& (r matches Ok(v) ==> rows_of_projects(v.spec_rows(), shown, count_views(visible@), now))
        },
{
    let ghost all = infos@;
    let sorted: Vec<ProjectInfo> = order.sort(infos);
    let ghost keyed = choose|keyed: Seq<(RefKey, ProjectInfo)>|
        #[trigger] keyed_by(order, all, keyed) && info_views(sorted@) == sorted_infos(order, keyed);
    let ghost shown = sorted_infos(order, keyed);
    assert(shown.len() == sorted@.len());
    let r = match listing_rows(&sorted, visible, now) {
        Ok(rows) => Ok(ProjectListView { rows, order, forks_enabled }),
        Err(e) => Err(e),
    };
    proof {
        assert forall|i: int| 0 <= i < sorted@.len() implies #[trigger] sorted@[i]@ == shown[i] by {
            assert(info_views(sorted@)[i] == sorted@[i]@);
        }
        if r is Ok {
            assert forall|i: int| 0 <= i < shown.len() implies activity_fits(#[trigger] shown[i].last_activity, now) by {
                assert(sorted@[i]@ == shown[i]);
                assert(activity_fits(sorted@[i]@.last_activity, now));
            }
        } else {
            assert(!forall|i: int| 0 <= i < sorted@.len() ==> activity_fits(#[trigger] sorted@[i]@.last_activity, now));
            let i = choose|i: int| !(0 <= i < sorted@.len() ==> activity_fits(#[trigger] sorted@[i]@.last_activity, now));
            assert(sorted@[i]@ == shown[i]);
            assert(!activity_fits(shown[i].last_activity, now));
        }
        if r is Ok {
            let rv = r->Ok_0.spec_rows();
            assert forall|i: int| 0 <= i < rv.len() implies #[trigger] rv[i] == project_row_of(
                shown[i],
                now,
                fork_count_in(count_views(visible@), shown[i].name) as usize,
            ) by {
                assert(sorted@[i]@ == shown[i]);
            }
        }
    }
    r
}

/// `rows` list some non-empty set of discovered projects `names`: one row per
/// project shown after fork folding, each with its fork count, every count 0
/// when forks are off.
pub open spec fn listing_of(rows: Seq<ProjectListRowView>, names: Seq<Seq<char>>, forks_enabled: bool) -> bool {
    &&& names.len() > 0
    &&& rows.len() == folded(names, forks_enabled).len()
    &&& forall|i: int|
        0 <= i < rows.len() ==> (#[trigger] rows[i]).fork_count == fork_count_in(folded(names, forks_enabled), rows[i].name)
    &&& !forks_enabled ==> rows.len() == names.len() && forall|i: int| 0 <= i < rows.len() ==> (#[trigger] rows[i]).fork_count == 0
}

/// `rows` list some non-empty set of discovered projects (see [`listing_of`]).
pub open spec fn lists_projects(rows: Seq<ProjectListRowView>, forks_enabled: bool) -> bool {
    exists|names: Seq<Seq<char>>| #[trigger] listing_of(rows, names, forks_enabled)
}

proof fn lemma_lists_projects(rows: Seq<ProjectListRowView>, names: Seq<Seq<char>>, forks_enabled: bool)
    requires
        listing_of(rows, names, forks_enabled),
    ensures
        lists_projects(rows, forks_enabled),
{
}

/// The shared listing core of the project list and the forks page: order
/// checked first, then discovery (404 `not_found` when empty), fork folding,
/// metadata, sorting, and the rows at `now`.
pub fn assemble_listing<S: ProjectStore>(
    store: &S,
    settings: &Settings,
    order: Option<&str>,
    filter: Option<&ProjectFilter>,
    not_found: &str,
    now: i64,
) -> (r: Result<ProjectListView, DomainError>)
    ensures
        resolved_order(
            match order {
                Some(s) => Some(s@),
                None => None,
            },
            settings@,
        ) matches Err(v) ==> (r matches Err(e) && e@ == v),
        r matches Ok(view) ==> {
            &&& resolved_order(
                match order {
                    Some(s) => Some(s@),
                    None => None,
                },
                settings@,
            ) == Ok::<ProjectOrder, ErrorView>(view.spec_order())
            &&& view.spec_forks_enabled() == feature_enabled(settings@.features[feature_index(FeatureName::Forks)])
            &&& lists_projects(view.spec_rows(), view.spec_forks_enabled())
        },
{
    let ghost requested = match order {
        Some(s) => Some(s@),
        None => None,
    };
    let chosen: ProjectOrder = match resolve_order(order, settings) {
        Ok(o) => o,
        Err(e) => return Err(e),
    };
    let projects: Vec<Project> = match store.list(filter) {
        Ok(p) => p,
        Err(e) => return Err(e),
    };
    let names: Vec<String> = match listed_names(&projects, not_found) {
        Ok(n) => n,
        Err(e) => return Err(e),
    };
    let forks_enabled: bool = settings.feature(FeatureName::Forks).enabled();
    let visible: Vec<(String, usize)> = fold_forks(names.as_slice(), forks_enabled);
    let mut infos: Vec<ProjectInfo> = Vec::new();
    let mut k: usize = 0;
    while k < visible.len()
        invariant
            0 <= k <= visible@.len(),
            infos@.len() == k,
            resolved_order(requested, settings@) == Ok::<ProjectOrder, ErrorView>(chosen),
            requested == match order {
                Some(s) => Some(s@),
                None => None,
            },
        decreases visible.len() - k,
    {
        match store.info(visible[k].0.as_str()) {
            Ok(info) => infos.push(info),
            Err(e) => return Err(e),
        }
        k += 1;
    }
    let view: ProjectListView = match listing_view(infos, &visible, chosen, forks_enabled, now) {
        Ok(v) => v,
        Err(e) => return Err(e),
    };
    proof {
        let ns = name_views(names@);
        let f = folded(ns, forks_enabled);
        let rv = view.spec_rows();
        let keyed = choose|keyed: Seq<(RefKey, ProjectInfo)>|
            #[trigger] keyed_by(chosen, infos@, keyed) && rows_of_projects(rv, sorted_infos(chosen, keyed), count_views(visible@), now);
        let shown = sorted_infos(chosen, keyed);
        assert(ns.len() > 0);
        assert(f.len() == visible@.len());
        assert(count_views(visible@) == f);
        assert forall|i: int| 0 <= i < rv.len() implies (#[trigger] rv[i]).fork_count == fork_count_in(f, rv[i].name) by {
            assert(rv[i] == project_row_of(shown[i], now, fork_count_in(f, shown[i].name) as usize));
            assert forall|k: int| 0 <= k < f.len() implies (#[trigger] f[k]).1 <= usize::MAX by {
                assert(f[k] == (visible@[k].0@, visible@[k].1 as nat));
            }
            lemma_counts_bounded(f, rv[i].name, usize::MAX as nat);
        }
        if !forks_enabled {
            assert forall|i: int| 0 <= i < f.len() implies (#[trigger] f[i]).1 == 0 by {}
            assert forall|i: int| 0 <= i < rv.len() implies (#[trigger] rv[i]).fork_count == 0 by {
                lemma_zero_counts(f, rv[i].name);
                assert(rv[i].fork_count == fork_count_in(f, rv[i].name));
            }
        }
        lemma_lists_projects(rv, ns, forks_enabled);
    }
    Ok(view)
}


/// Assembles the project list over the [`ProjectStore`] port (404 "No
/// projects found" when the root holds none).
pub fn assemble_project_list<S: ProjectStore>(
    store: &S,
    settings: &Settings,
    order: Option<&str>,
    filter: Option<&ProjectFilter>,
    now: i64,
) -> (r: Result<ProjectListView, DomainError>)
    ensures
        resolved_order(
            match order {
                Some(s) => Some(s@),
                None => None,
            },
            settings@,
        ) matches Err(v) ==> (r matches Err(e) && e@ == v),
        r matches Ok(view) ==> lists_projects(view.spec_rows(), view.spec_forks_enabled()),
{
    assemble_listing(store, settings, order, filter, "No projects found", now)
}

} // verus!
