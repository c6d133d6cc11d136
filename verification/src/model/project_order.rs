//! The project-list sort orders (gitweb's `o=` parameter): by path,
//! description, owner, or age (most recently changed first), or none. Text
//! keys compare as byte strings, an unset description or owner as empty; the
//! sort is stable.

use vstd::prelude::*;

use crate::error::{DomainError, ErrorView};
use crate::model::project_info::{ProjectInfo, ProjectInfoView};
use crate::model::ref_order::{key_le, keyed_sorted, lemma_stable_sorted, lex_le, sort_by_ref_key, stable_sorted, RefKey, RefKeyView};
use crate::text::{chars_of, str_eq};

verus! {

/// How a project list is sorted.
#[derive(Debug, Clone, Copy, PartialEq, Eq, Structural)]
pub enum ProjectOrder {
    /// By project path (`project`).
    Project,
    /// By description (`descr`).
    Descr,
    /// By owner (`owner`).
    Owner,
    /// Most recently changed first (`age`).
    Age,
    /// In discovery order (`none`).
    Unordered,
}

/// The order a token names.
pub open spec fn order_named(token: Seq<char>) -> Option<ProjectOrder> {
    if token == "project"@ {
        Some(ProjectOrder::Project)
    } else if token == "descr"@ {
        Some(ProjectOrder::Descr)
    } else if token == "owner"@ {
        Some(ProjectOrder::Owner)
    } else if token == "age"@ {
        Some(ProjectOrder::Age)
    } else if token == "none"@ {
        Some(ProjectOrder::Unordered)
    } else {
        None
    }
}

/// The text, or the empty text when unset.
pub open spec fn or_empty(o: Option<Seq<char>>) -> Seq<char> {
    match o {
        Some(s) => s,
        None => seq![],
    }
}

/// The sort key of a project under `order`.
pub open spec fn order_key(order: ProjectOrder, info: ProjectInfoView) -> RefKeyView {
    match order {
        ProjectOrder::Project => RefKeyView { epoch: 0, first: false, name: info.name },
        ProjectOrder::Descr => RefKeyView { epoch: 0, first: false, name: or_empty(info.description) },
        ProjectOrder::Owner => RefKeyView { epoch: 0, first: false, name: or_empty(info.owner) },
        ProjectOrder::Age => match info.last_activity {
            Some(e) => RefKeyView { epoch: e, first: true, name: seq![] },
            None => RefKeyView { epoch: i64::MIN, first: false, name: seq![] },
        },
        ProjectOrder::Unordered => RefKeyView { epoch: 0, first: false, name: seq![] },
    }
}

/// The projects of `v`, each seen through its texts.
pub open spec fn info_views(v: Seq<ProjectInfo>) -> Seq<ProjectInfoView> {
    v.map_values(|i: ProjectInfo| i@)
}

/// The projects of keyed entries.
pub open spec fn keyed_infos(v: Seq<(RefKey, ProjectInfo)>) -> Seq<ProjectInfoView> {
    v.map_values(|e: (RefKey, ProjectInfo)| e.1@)
}

/// `keyed` is `infos`, each paired with its key under `order`.
pub open spec fn keyed_by(order: ProjectOrder, infos: Seq<ProjectInfo>, keyed: Seq<(RefKey, ProjectInfo)>) -> bool {
    &&& keyed.len() == infos.len()
    &&& forall|k: int|
        0 <= k < keyed.len() ==> (#[trigger] keyed[k]).1 == infos[k] && keyed[k].0@ == order_key(order, infos[k]@)
}

/// The projects sorted by `order`: the stable sort by the order's key; `None`
/// keeps discovery order.
pub open spec fn sorted_infos(order: ProjectOrder, v: Seq<(RefKey, ProjectInfo)>) -> Seq<ProjectInfoView> {
    if order == ProjectOrder::Unordered {
        keyed_infos(v)
    } else {
        keyed_infos(stable_sorted(v))
    }
}

fn text_or_empty(o: Option<&str>) -> (r: Vec<char>)
    ensures
        r@ == or_empty(
            match o {
                Some(s) => Some(s@),
                None => None,
            },
        ),
{
    match o {
        Some(s) => chars_of(s),
        None => Vec::new(),
    }
}

impl ProjectOrder {
    /// Reads an `o=` token: 400 "Unknown order parameter" for anything else.
    pub fn parse(token: &str) -> (r: Result<ProjectOrder, DomainError>)
        ensures
            match order_named(token@) {
                Some(o) => r == Ok::<ProjectOrder, DomainError>(o),
                None => r matches Err(e) && e@ == ErrorView::Invalid("Unknown order parameter"@),
            },
    {
        if str_eq(token, "project") {
            Ok(ProjectOrder::Project)
        } else if str_eq(token, "descr") {
            Ok(ProjectOrder::Descr)
        } else if str_eq(token, "owner") {
            Ok(ProjectOrder::Owner)
        } else if str_eq(token, "age") {
            Ok(ProjectOrder::Age)
        } else if str_eq(token, "none") {
            Ok(ProjectOrder::Unordered)
        } else {
            Err(crate::error::invalid("Unknown order parameter"))
        }
    }

    /// The sort key of `info` under this order (see [`order_key`]).
    pub fn key(self, info: &ProjectInfo) -> (r: RefKey)
        ensures
            r@ == order_key(self, info@),
    {
        match self {
            ProjectOrder::Project => RefKey { epoch: 0, first: false, name: chars_of(info.name()) },
            ProjectOrder::Descr => RefKey { epoch: 0, first: false, name: text_or_empty(info.description()) },
            ProjectOrder::Owner => RefKey { epoch: 0, first: false, name: text_or_empty(info.owner()) },
            ProjectOrder::Age => match info.last_activity() {
                Some(e) => RefKey { epoch: e, first: true, name: Vec::new() },
                None => RefKey { epoch: i64::MIN, first: false, name: Vec::new() },
            },
            ProjectOrder::Unordered => RefKey { epoch: 0, first: false, name: Vec::new() },
        }
    }

    /// Sorts projects by this order (see [`sorted_infos`]): each keyed by
    /// [`order_key`], then stably sorted (kept as found under `none`).
    pub fn sort(self, infos: Vec<ProjectInfo>) -> (r: Vec<ProjectInfo>)
        ensures
            r@.len() == infos@.len(),
            exists|keyed: Seq<(RefKey, ProjectInfo)>|
                #[trigger] keyed_by(self, infos@, keyed) && info_views(r@) == sorted_infos(self, keyed),
    {
        let ghost all = infos@;
        let mut keyed: Vec<(RefKey, ProjectInfo)> = Vec::new();
        let mut rest: Vec<ProjectInfo> = infos;
        assert(all.skip(0) =~= all);
        while rest.len() > 0
            invariant
                keyed@.len() <= all.len(),
                rest@ == all.skip(keyed@.len() as int),
                forall|k: int|
                    0 <= k < keyed@.len() ==> (#[trigger] keyed@[k]).1 == all[k] && keyed@[k].0@ == order_key(
                        self,
                        all[k]@,
                    ),
            decreases rest.len(),
        {
            let ghost i: int = keyed@.len() as int;
            let info: ProjectInfo = rest.remove(0);
            assert(info == all[i as int]);
            let key: RefKey = self.key(&info);
            keyed.push((key, info));
            assert(rest@ =~= all.skip(keyed@.len() as int));
        }
        let ghost witness = keyed@;
        let sorted: Vec<(RefKey, ProjectInfo)> = if self == ProjectOrder::Unordered {
            keyed
        } else {
            sort_by_ref_key(keyed)
        };
        let ghost target = sorted@;
        assert(self == ProjectOrder::Unordered ==> target == witness);
        assert(self != ProjectOrder::Unordered ==> target == stable_sorted(witness));
        let mut out: Vec<ProjectInfo> = Vec::new();
        let mut src: Vec<(RefKey, ProjectInfo)> = sorted;
        assert(target.skip(0) =~= target);
        while src.len() > 0
            invariant
                out@.len() <= target.len(),
                src@ == target.skip(out@.len() as int),
                info_views(out@) =~= keyed_infos(target.take(out@.len() as int)),
            decreases src.len(),
        {
            let ghost i: int = out@.len() as int;
            let (_, info) = src.remove(0);
            let ghost before = info_views(out@);
            out.push(info);
            assert(target.take(i + 1 as int) =~= target.take(i as int).push(target[i as int]));
            assert(info_views(out@) =~= before.push(info@));
            assert(src@ =~= target.skip(out@.len() as int));
        }
        assert(target.take(out@.len() as int) =~= target);
        assert(witness.len() == all.len());
        proof {
            lemma_stable_sorted(witness);
        }
        assert(info_views(out@) == sorted_infos(self, witness));
        assert(keyed_by(self, all, witness));
        out
    }
}

/// Every entry of the sorted sequence carries its project's key.
proof fn lemma_sorted_keys(order: ProjectOrder, infos: Seq<ProjectInfo>, keyed: Seq<(RefKey, ProjectInfo)>)
    requires
        keyed_by(order, infos, keyed),
    ensures
        forall|i: int|
            0 <= i < stable_sorted(keyed).len() ==> (#[trigger] stable_sorted(keyed)[i]).0@ == order_key(
                order,
                stable_sorted(keyed)[i].1@,
            ),
        stable_sorted(keyed).len() == keyed.len(),
        keyed_sorted(stable_sorted(keyed)),
{
    broadcast use vstd::seq_lib::group_to_multiset_ensures;

    let st = stable_sorted(keyed);
    lemma_stable_sorted(keyed);
    assert forall|i: int| 0 <= i < st.len() implies (#[trigger] st[i]).0@ == order_key(order, st[i].1@) by {
        assert(st.contains(st[i]));
        assert(st.to_multiset().count(st[i]) > 0);
        assert(keyed.to_multiset().count(st[i]) > 0);
        assert(keyed.contains(st[i]));
        let k = choose|k: int| 0 <= k < keyed.len() && keyed[k] == st[i];
        assert(keyed[k].0@ == order_key(order, infos[k]@));
    }
}

/// A sorted listing is in the order the request names: ascending by path
/// for `project`, by description for `descr` and by owner for `owner` (an
/// unset one as empty), most recently changed first for `age` (projects
/// without a time last), and as discovered for `none`.
pub proof fn lemma_sorted_by_requested_column(
    order: ProjectOrder,
    infos: Seq<ProjectInfo>,
    keyed: Seq<(RefKey, ProjectInfo)>,
)
    requires
        keyed_by(order, infos, keyed),
    ensures
        ({
            let s = sorted_infos(order, keyed);
            &&& s.len() == infos.len()
            &&& order == ProjectOrder::Project ==> forall|i: int, j: int|
                0 <= i < j < s.len() ==> lex_le(#[trigger] s[i].name, #[trigger] s[j].name)
            &&& order == ProjectOrder::Descr ==> forall|i: int, j: int|
                0 <= i < j < s.len() ==> lex_le(or_empty(#[trigger] s[i].description), or_empty(#[trigger] s[j].description))
            &&& order == ProjectOrder::Owner ==> forall|i: int, j: int|
                0 <= i < j < s.len() ==> lex_le(or_empty(#[trigger] s[i].owner), or_empty(#[trigger] s[j].owner))
            &&& order == ProjectOrder::Age ==> forall|i: int, j: int|
                0 <= i < j < s.len() && (#[trigger] s[j]).last_activity is Some ==> (#[trigger] s[i]).last_activity is Some
                    && s[i].last_activity->0 >= s[j].last_activity->0
            &&& order == ProjectOrder::Unordered ==> s == info_views(infos)
        }),
{
    let s = sorted_infos(order, keyed);
    if order == ProjectOrder::Unordered {
        assert(s =~= info_views(infos));
    } else {
        lemma_sorted_keys(order, infos, keyed);
        let st = stable_sorted(keyed);
        assert forall|i: int, j: int| 0 <= i < j < s.len() implies key_le(
            order_key(order, #[trigger] s[i]),
            order_key(order, #[trigger] s[j]),
        ) by {
            assert(s[i] == st[i].1@ && s[j] == st[j].1@);
            assert(key_le(st[i].0@, st[j].0@));
        }
    }
}

} // verus!
