//! The ref-markers use case: every reference read once, then any commit row
//! badged with the refs whose tip is that commit (gitweb reads
//! `git_get_references` once per page, then `format_ref_marker` per row).

use vstd::prelude::*;

use crate::error::DomainError;
use crate::model::object_id::ObjectId;
use crate::model::ref_marker::{marker_views, markers_among, markers_for, MarkerView, RefMarker};
use crate::model::reference::DereferencedRef;
use crate::port::repository::Repository;

verus! {

/// Every reference read once, ready to badge any commit row of one view.
#[derive(Debug, Clone)]
pub struct RefMarkerIndex {
    refs: Vec<DereferencedRef>,
    view: MarkerView,
}

impl RefMarkerIndex {
    /// The indexed references.
    pub closed spec fn spec_refs(&self) -> Seq<DereferencedRef> {
        self.refs@
    }

    /// The view the badges are for.
    pub closed spec fn spec_view(&self) -> MarkerView {
        self.view
    }

    /// An index of `refs` for rows on `view`.
    pub fn new(refs: Vec<DereferencedRef>, view: MarkerView) -> (r: RefMarkerIndex)
        ensures
            r.spec_refs() == refs@,
            r.spec_view() == view,
    {
        RefMarkerIndex { refs, view }
    }

    /// The badges decorating `commit`, in ref-name order.
    pub fn for_commit(&self, commit: &ObjectId) -> (r: Vec<RefMarker>)
        ensures
            marker_views(r@) == markers_among(self.spec_refs(), commit@, self.spec_view(), self.spec_refs().len() as int),
    {
        markers_for(self.refs.as_slice(), commit, self.view)
    }
}

/// Reads every reference once and indexes it for `view`'s rows.
pub fn assemble_ref_markers<R: Repository>(repo: &R, view: MarkerView) -> (r: Result<RefMarkerIndex, DomainError>)
    ensures
        r matches Ok(idx) ==> idx.spec_view() == view,
{
    match repo.dereferenced_references() {
        Ok(refs) => Ok(RefMarkerIndex::new(refs, view)),
        Err(e) => Err(e),
    }
}

} // verus!
