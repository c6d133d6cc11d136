//! Annotated tag objects — the fields gitweb reads in `parse_tag`.

use vstd::prelude::*;
use crate::model::object_id::ObjectId;
use crate::model::object_kind::ObjectKind;
use crate::model::signature::Signature;

verus! {

/// A git annotated tag.
#[derive(Debug, Clone, PartialEq, Eq)]
pub struct Tag {
    id: ObjectId,
    object: ObjectId,
    object_kind: ObjectKind,
    name: String,
    tagger: Option<Signature>,
    message: String,
}

impl Tag {
    /// The tag object's id (spec view).
    pub closed spec fn spec_id(&self) -> ObjectId {
        self.id
    }

    /// The tagged object's id (spec view).
    pub closed spec fn spec_object(&self) -> ObjectId {
        self.object
    }

    /// The tagged object's kind (spec view).
    pub closed spec fn spec_object_kind(&self) -> ObjectKind {
        self.object_kind
    }

    /// The tag name (spec view).
    pub closed spec fn spec_name(&self) -> Seq<char> {
        self.name@
    }

    /// The tagger (spec view).
    pub closed spec fn spec_tagger(&self) -> Option<Signature> {
        self.tagger
    }

    /// The message (spec view).
    pub closed spec fn spec_message(&self) -> Seq<char> {
        self.message@
    }

    /// Assembles a tag from its structured fields.
    pub fn new(
        id: ObjectId,
        object: ObjectId,
        object_kind: ObjectKind,
        name: String,
        tagger: Option<Signature>,
        message: String,
    ) -> (r: Self)
        ensures
            r.spec_id() == id,
            r.spec_object() == object,
            r.spec_object_kind() == object_kind,
            r.spec_name() == name@,
            r.spec_tagger() == tagger,
            r.spec_message() == message@,
    {
        Tag { id, object, object_kind, name, tagger, message }
    }

    /// The tag object's own id.
    pub fn id(&self) -> (r: &ObjectId)
        ensures
            *r == self.spec_id(),
    {
        &self.id
    }

    /// The id of the object this tag points at.
    pub fn object(&self) -> (r: &ObjectId)
        ensures
            *r == self.spec_object(),
    {
        &self.object
    }

    /// The kind of the tagged object.
    pub fn object_kind(&self) -> (r: ObjectKind)
        ensures
            r == self.spec_object_kind(),
    {
        self.object_kind
    }

    /// The tag's name.
    pub fn name(&self) -> (r: &str)
        ensures
            r@ == self.spec_name(),
    {
        self.name.as_str()
    }

    /// The tagger identity, if the tag carries one.
    pub fn tagger(&self) -> (r: Option<&Signature>)
        ensures
            match self.spec_tagger() {
                Some(s) => r == Some(&s),
                None => r is None,
            },
    {
        match &self.tagger {
            Some(s) => Some(s),
            None => None,
        }
    }

    /// The tag message.
    pub fn message(&self) -> (r: &str)
        ensures
            r@ == self.spec_message(),
    {
        self.message.as_str()
    }
}

} // verus!
