//! References: a named pointer to an object.
//!
//! gitweb's ref lists (`git_get_refs_list`): a fully-qualified ref name paired
//! with the object it resolves to. The display shortening lives in
//! [`RefName`].

use vstd::prelude::*;
use crate::model::object_id::ObjectId;
use crate::model::ref_name::{short_name, RefName};

verus! {

/// A git reference: a name bound to a target object.
#[derive(Debug, Clone, PartialEq, Eq)]
pub struct Reference {
    name: RefName,
    target: ObjectId,
}

impl Reference {
    /// The bound name (spec view).
    pub closed spec fn spec_name(&self) -> RefName {
        self.name
    }

    /// The target (spec view).
    pub closed spec fn spec_target(&self) -> ObjectId {
        self.target
    }

    /// Binds a ref name to its target object.
    pub fn new(name: RefName, target: ObjectId) -> (r: Self)
        ensures
            r.spec_name() == name,
            r.spec_target() == target,
    {
        Reference { name, target }
    }

    /// The fully-qualified ref name.
    pub fn name(&self) -> (r: &RefName)
        ensures
            *r == self.spec_name(),
    {
        &self.name
    }

    /// The object the ref points at.
    pub fn target(&self) -> (r: &ObjectId)
        ensures
            *r == self.spec_target(),
    {
        &self.target
    }

    /// The display short name (see [`RefName::short`]).
    pub fn short(&self) -> (r: String)
        ensures
            r@ == short_name(self.spec_name()@),
    {
        self.name.short()
    }
}

/// A reference resolved to the object it ultimately points at, the way
/// `git show-ref --dereference` reports it (gitweb's `git_get_references`). An
/// annotated tag appears already peeled to its target and flagged
/// [`indirect`](Self::indirect) — gitweb's `^{}` form.
#[derive(Debug, Clone, PartialEq, Eq)]
pub struct DereferencedRef {
    name: RefName,
    target: ObjectId,
    indirect: bool,
}

impl DereferencedRef {
    /// The bound name (spec view).
    pub closed spec fn spec_name(&self) -> RefName {
        self.name
    }

    /// The ultimate target (spec view).
    pub closed spec fn spec_target(&self) -> ObjectId {
        self.target
    }

    /// Whether the target was reached through a tag object (spec view).
    pub closed spec fn spec_indirect(&self) -> bool {
        self.indirect
    }

    /// Binds a fully-qualified ref name to the object it ultimately resolves
    /// to, recording whether reaching it went through a tag object.
    pub fn new(name: RefName, target: ObjectId, indirect: bool) -> (r: Self)
        ensures
            r.spec_name() == name,
            r.spec_target() == target,
            r.spec_indirect() == indirect,
    {
        DereferencedRef { name, target, indirect }
    }

    /// The fully-qualified ref name (e.g. `refs/tags/v1.0`).
    pub fn name(&self) -> (r: &RefName)
        ensures
            *r == self.spec_name(),
    {
        &self.name
    }

    /// The object the ref ultimately decorates — for an annotated tag, the
    /// commit it peels to, not the tag object.
    pub fn target(&self) -> (r: &ObjectId)
        ensures
            *r == self.spec_target(),
    {
        &self.target
    }

    /// Whether the ref reached [`target`](Self::target) through a tag object —
    /// gitweb's `indirect` (the `^{}` peel). True only for annotated tags.
    pub fn indirect(&self) -> (r: bool)
        ensures
            r == self.spec_indirect(),
    {
        self.indirect
    }
}

} // verus!
