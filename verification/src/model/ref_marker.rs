//! The ref badges on a commit row: gitweb's `format_ref_marker`.
//!
//! Every ref whose (peeled) target is the commit becomes a badge, in the refs'
//! order. A badge names the ref's kind (`refs/heads/x` is a `head`, the
//! directory name with one trailing `s` dropped; a ref outside a directory is
//! a `ref`), its name below that directory, whether it was reached through a
//! tag object, and where it links: an annotated tag to its tag page (except
//! from the tag page itself), otherwise to the view the row is on when that is
//! a log-shaped view, else to the shortlog.

use vstd::prelude::*;

use crate::model::action::Action;
use crate::model::object_id::ObjectId;
use crate::model::reference::DereferencedRef;
use crate::text::{chars_of, find_char_from, first_index_from, has_prefix, starts_with, str_eq, string_of, substring};

verus! {

/// The view a row with badges is shown on.
#[derive(Debug, Clone, Copy, PartialEq, Eq, Structural)]
pub enum MarkerView {
    /// The shortlog.
    Shortlog,
    /// The verbose log.
    Log,
    /// A path's history.
    History,
    /// A tag page.
    Tag,
    /// Any other page (commit, tree, blob, …).
    Other,
}

/// One ref badge.
#[derive(Debug, Clone, PartialEq, Eq)]
pub struct RefMarker {
    kind: String,
    name: String,
    indirect: bool,
    action: Action,
    target: String,
}

/// A ref badge seen through its texts.
pub struct RefMarkerView {
    pub kind: Seq<char>,
    pub name: Seq<char>,
    pub indirect: bool,
    pub action: Action,
    pub target: Seq<char>,
}

impl View for RefMarker {
    type V = RefMarkerView;

    closed spec fn view(&self) -> RefMarkerView {
        RefMarkerView {
            kind: self.kind@,
            name: self.name@,
            indirect: self.indirect,
            action: self.action,
            target: self.target@,
        }
    }
}

impl RefMarker {
    /// The ref's kind (`head`, `tag`, `remote`, …, or `ref`).
    pub fn kind(&self) -> (r: &str)
        ensures
            r@ == self@.kind,
    {
        self.kind.as_str()
    }

    /// The ref's name below its directory.
    pub fn name(&self) -> (r: &str)
        ensures
            r@ == self@.name,
    {
        self.name.as_str()
    }

    /// Whether the ref is an annotated tag.
    pub fn indirect(&self) -> (r: bool)
        ensures
            r == self@.indirect,
    {
        self.indirect
    }

    /// The action the badge links to.
    pub fn action(&self) -> (r: Action)
        ensures
            r == self@.action,
    {
        self.action
    }

    /// The full ref name the badge links to.
    pub fn target(&self) -> (r: &str)
        ensures
            r@ == self@.target,
    {
        self.target.as_str()
    }
}

/// The ref's name as gitweb lists it: without the leading `refs/`.
pub open spec fn listed_name(full: Seq<char>) -> Seq<char> {
    if has_prefix(full, "refs/"@) {
        full.skip(5)
    } else {
        full
    }
}

/// gitweb's `^(.*?)s?/(.*)$` split of a listed ref into kind and name.
pub open spec fn kind_and_name(r: Seq<char>) -> (Seq<char>, Seq<char>) {
    match first_index_from(r, '/', 0) {
        Some(i) => {
            let head = r.take(i);
            let kind = if head.len() > 0 && head.last() == 's' {
                head.drop_last()
            } else {
                head
            };
            (kind, r.skip(i + 1))
        },
        None => ("ref"@, r),
    }
}

/// The action a badge links to from `view`.
pub open spec fn marker_action(indirect: bool, view: MarkerView) -> Action {
    if indirect && view != MarkerView::Tag {
        Action::Tag
    } else if !indirect && view == MarkerView::Log {
        Action::Log
    } else if !indirect && view == MarkerView::Shortlog {
        Action::Shortlog
    } else if !indirect && view == MarkerView::History {
        Action::History
    } else {
        Action::Shortlog
    }
}

/// The badge of a ref named `full` on `view`.
pub open spec fn marker_of(full: Seq<char>, indirect: bool, view: MarkerView) -> RefMarkerView {
    let (kind, name) = kind_and_name(listed_name(full));
    RefMarkerView { kind, name, indirect, action: marker_action(indirect, view), target: full }
}

/// The badges of the first `k` refs that decorate `commit`.
pub open spec fn markers_among(refs: Seq<DereferencedRef>, commit: Seq<char>, view: MarkerView, k: int) -> Seq<
    RefMarkerView,
>
    decreases k,
{
    if k <= 0 {
        seq![]
    } else {
        let prev = markers_among(refs, commit, view, k - 1);
        let r = refs[k - 1];
        if r.spec_target()@ == commit {
            prev.push(marker_of(r.spec_name()@, r.spec_indirect(), view))
        } else {
            prev
        }
    }
}

/// The badges of `v`, each seen through its texts.
pub open spec fn marker_views(v: Seq<RefMarker>) -> Seq<RefMarkerView> {
    v.map_values(|m: RefMarker| m@)
}

fn marker_action_of(indirect: bool, view: MarkerView) -> (r: Action)
    ensures
        r == marker_action(indirect, view),
{
    if indirect && view != MarkerView::Tag {
        Action::Tag
    } else if !indirect && view == MarkerView::Log {
        Action::Log
    } else if !indirect && view == MarkerView::Shortlog {
        Action::Shortlog
    } else if !indirect && view == MarkerView::History {
        Action::History
    } else {
        Action::Shortlog
    }
}

/// The badge of one ref (see [`marker_of`]).
pub fn marker(r: &DereferencedRef, view: MarkerView) -> (m: RefMarker)
    ensures
        m@ == marker_of(r.spec_name()@, r.spec_indirect(), view),
{
    proof {
        reveal_strlit("refs/");
        reveal_strlit("ref");
    }
    let full: &str = r.name().full();
    let v: Vec<char> = chars_of(full);
    let prefix: Vec<char> = chars_of("refs/");
    let listed: Vec<char> = if starts_with(&v, &prefix) {
        crate::text::slice(&v, 5, v.len())
    } else {
        v
    };
    assert(listed@ == listed_name(full@));
    let (kind, name): (String, String) = match find_char_from(&listed, '/', 0) {
        Some(i) => {
            let end: usize = if i > 0 && listed[i - 1] == 's' {
                i - 1
            } else {
                i
            };
            let k: String = substring(&listed, 0, end);
            let n: String = substring(&listed, i + 1, listed.len());
            proof {
                let head = listed@.take(i as int);
                if i > 0 && listed@[i - 1] == 's' {
                    assert(head.last() == listed@[i - 1]);
                    assert(k@ =~= head.drop_last());
                } else {
                    if i > 0 {
                        assert(head.last() == listed@[i - 1]);
                    }
                    assert(k@ =~= head);
                }
                assert(n@ =~= listed@.skip(i + 1));
            }
            (k, n)
        },
        None => ("ref".to_owned(), string_of(listed.as_slice())),
    };
    RefMarker { kind, name, indirect: r.indirect(), action: marker_action_of(r.indirect(), view), target: full.to_owned() }
}

/// The badges decorating `commit` on `view`, in the refs' order.
pub fn markers_for(refs: &[DereferencedRef], commit: &ObjectId, view: MarkerView) -> (r: Vec<RefMarker>)
    ensures
        marker_views(r@) == markers_among(refs@, commit@, view, refs@.len() as int),
{
    let mut out: Vec<RefMarker> = Vec::new();
    let mut i: usize = 0;
    while i < refs.len()
        invariant
            0 <= i <= refs@.len(),
            marker_views(out@) == markers_among(refs@, commit@, view, i as int),
        decreases refs.len() - i,
    {
        if str_eq(refs[i].target().as_str(), commit.as_str()) {
            let ghost before = marker_views(out@);
            let m = marker(&refs[i], view);
            out.push(m);
            assert(marker_views(out@) =~= before.push(m@));
        }
        i += 1;
    }
    out
}

} // verus!
