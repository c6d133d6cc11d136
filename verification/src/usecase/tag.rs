//! The `tag` use case: gitweb's `git_tag` (via `parse_tag`), minus the HTML.
//!
//! The request hash is resolved and must name a tag object (anything else is
//! gitweb's 404 "Unknown tag object"); the view shows the tag's name, the
//! tagged object and its kind, the tagger with the tag's own absolute date,
//! and the message.

use vstd::prelude::*;

use crate::error::DomainError;
use crate::model::object_id::ObjectId;
use crate::model::object_kind::ObjectKind;
use crate::model::signature::{Signature, SignatureView};
use crate::model::tag::Tag;
use crate::model::timestamp::{timestamp_of, zone_fits, zone_fits_exec, Timestamp, TimestampView};
use crate::port::repository::Repository;

verus! {

/// The tagger line of a tag page.
#[derive(Debug, Clone, PartialEq, Eq)]
pub struct TagAuthor {
    name: String,
    email: Option<String>,
    timestamp: Timestamp,
}

/// A tagger line seen through its texts.
pub struct TagAuthorView {
    pub name: Seq<char>,
    pub email: Option<Seq<char>>,
    pub timestamp: TimestampView,
}

impl View for TagAuthor {
    type V = TagAuthorView;

    closed spec fn view(&self) -> TagAuthorView {
        TagAuthorView {
            name: self.name@,
            email: match self.email {
                Some(e) => Some(e@),
                None => None,
            },
            timestamp: self.timestamp@,
        }
    }
}

impl TagAuthor {
    /// The tagger's name.
    pub fn name(&self) -> (r: &str)
        ensures
            r@ == self@.name,
    {
        self.name.as_str()
    }

    /// The tagger's email, if the identity carries one.
    pub fn email(&self) -> (r: Option<&str>)
        ensures
            match self@.email {
                Some(e) => r matches Some(x) && x@ == e,
                None => r is None,
            },
    {
        match &self.email {
            Some(e) => Some(e.as_str()),
            None => None,
        }
    }

    /// The tag's absolute date in the tagger's zone.
    pub fn timestamp(&self) -> (r: &Timestamp)
        ensures
            r@ == self@.timestamp,
    {
        &self.timestamp
    }
}

/// The tagger line of an identity.
pub open spec fn author_view_of(who: SignatureView) -> TagAuthorView {
    TagAuthorView { name: who.name, email: who.email, timestamp: timestamp_of(who.epoch, who.timezone) }
}

/// The tagger line of `who` (see [`author_view_of`]).
pub fn author_of(who: &Signature) -> (r: TagAuthor)
    requires
        zone_fits(who@.epoch as int, who@.timezone),
    ensures
        r@ == author_view_of(who@),
{
    let email: Option<String> = match who.email() {
        Some(e) => Some(e.to_owned()),
        None => None,
    };
    TagAuthor { name: who.name().to_owned(), email, timestamp: Timestamp::from_signature(who) }
}

/// The assembled tag page.
#[derive(Debug, Clone, PartialEq, Eq)]
pub struct TagView {
    name: String,
    tag_id: ObjectId,
    object: ObjectId,
    object_kind: ObjectKind,
    tagger: Option<TagAuthor>,
    message: String,
}

/// A tag page seen through its texts.
pub struct TagPageView {
    pub name: Seq<char>,
    pub tag_id: Seq<char>,
    pub object: Seq<char>,
    pub object_kind: ObjectKind,
    pub tagger: Option<TagAuthorView>,
    pub message: Seq<char>,
}

impl View for TagView {
    type V = TagPageView;

    closed spec fn view(&self) -> TagPageView {
        TagPageView {
            name: self.name@,
            tag_id: self.tag_id@,
            object: self.object@,
            object_kind: self.object_kind,
            tagger: match self.tagger {
                Some(t) => Some(t@),
                None => None,
            },
            message: self.message@,
        }
    }
}

impl TagView {
    /// The tag's name.
    pub fn name(&self) -> (r: &str)
        ensures
            r@ == self@.name,
    {
        self.name.as_str()
    }

    /// The tag object's id.
    pub fn tag_id(&self) -> (r: &ObjectId)
        ensures
            r@ == self@.tag_id,
    {
        &self.tag_id
    }

    /// The tagged object's id.
    pub fn object(&self) -> (r: &ObjectId)
        ensures
            r@ == self@.object,
    {
        &self.object
    }

    /// The tagged object's kind.
    pub fn object_kind(&self) -> (r: ObjectKind)
        ensures
            r == self@.object_kind,
    {
        self.object_kind
    }

    /// The tagger line, when the tag has a tagger.
    pub fn tagger(&self) -> (r: Option<&TagAuthor>)
        ensures
            match self@.tagger {
                Some(t) => r matches Some(x) && x@ == t,
                None => r is None,
            },
    {
        match &self.tagger {
            Some(t) => Some(t),
            None => None,
        }
    }

    /// The tag message.
    pub fn message(&self) -> (r: &str)
        ensures
            r@ == self@.message,
    {
        self.message.as_str()
    }
}

/// The page of a tag object.
pub open spec fn tag_page_of(tag: Tag) -> TagPageView {
    TagPageView {
        name: tag.spec_name(),
        tag_id: tag.spec_id()@,
        object: tag.spec_object()@,
        object_kind: tag.spec_object_kind(),
        tagger: match tag.spec_tagger() {
            Some(s) => Some(author_view_of(s@)),
            None => None,
        },
        message: tag.spec_message(),
    }
}

/// The tagger's time shifted into its zone fits the clock's integer.
pub open spec fn tagger_fits(tag: Tag) -> bool {
    tag.spec_tagger() matches Some(s) ==> zone_fits(s@.epoch as int, s@.timezone)
}

/// The page of `tag` (see [`tag_page_of`]).
pub fn view_of(tag: &Tag) -> (r: TagView)
    requires
        tagger_fits(*tag),
    ensures
        r@ == tag_page_of(*tag),
{
    let tagger: Option<TagAuthor> = match tag.tagger() {
        Some(who) => Some(author_of(who)),
        None => None,
    };
    TagView {
        name: tag.name().to_owned(),
        tag_id: tag.id().clone(),
        object: tag.object().clone(),
        object_kind: tag.object_kind(),
        tagger,
        message: tag.message().to_owned(),
    }
}

/// Shows the tag object `hash` names over the [`Repository`] port: 404
/// "Unknown tag object" when it names an object of another kind.
pub fn show_tag<R: Repository>(repo: &R, hash: &str) -> (r: Result<TagView, DomainError>)
    ensures
        r matches Ok(v) ==> exists|t: Tag| #[trigger] tag_page_of(t) == v@,
{
    let oid: ObjectId = match repo.resolve(hash) {
        Ok(o) => o,
        Err(e) => return Err(e),
    };
    match repo.object_kind(&oid) {
        Ok(ObjectKind::Tag) => {},
        Ok(_) => return Err(crate::error::not_found("Unknown tag object")),
        Err(e) => return Err(e),
    }
    let tag: Tag = match repo.find_tag(&oid) {
        Ok(t) => t,
        Err(e) => return Err(e),
    };
    if let Some(who) = tag.tagger() {
        if !zone_fits_exec(who.epoch(), who.timezone()) {
            return Err(DomainError::Backend("tag time out of range".to_owned()));
        }
    }
    Ok(view_of(&tag))
}

} // verus!
