//! The `object` use case: gitweb's `git_object` redirect target.
//!
//! The request is classified ([`resolution`]), the lookup it calls for is
//! made, and the redirect names the action for the object's kind. A direct id
//! whose resolution or kind read fails is 404 "Object does not exist"; a
//! base+path resolves the base (404 "Base object does not exist") and looks
//! the path up (404 "File or directory for given base does not exist"),
//! taking the kind from the entry's mode, so a gitlink reads as a commit. The
//! base+path form replaces the hash with the id the path resolved to.

use vstd::prelude::*;

use crate::error::{DomainError, ErrorView};
use crate::model::action::Action;
use crate::model::file_mode::{kind_object, mode_kind};
use crate::model::object_id::ObjectId;
use crate::model::object_kind::ObjectKind;
use crate::model::object_redirect::{action_for, opt_chars, resolution, resolution_of, target_action, Resolution, ResolutionView};
use crate::model::tree::TreeEntry;
use crate::port::repository::Repository;

verus! {

/// Where `git_object` redirects: the action and the parameters it carries.
#[derive(Debug, Clone, PartialEq, Eq)]
pub struct ObjectRedirect {
    /// The view for the object's kind.
    pub action: Action,
    /// The object id (the request's, or the one the path resolved to).
    pub hash: Option<String>,
    /// The base revision, as requested.
    pub hash_base: Option<String>,
    /// The path under the base, as requested (trailing slashes dropped).
    pub file_name: Option<String>,
}

/// The owned copy of an optional text.
fn owned(o: Option<&str>) -> (r: Option<String>)
    ensures
        match o {
            Some(s) => r matches Some(x) && x@ == s@,
            None => r is None,
        },
{
    match o {
        Some(s) => Some(s.to_owned()),
        None => None,
    }
}

/// The redirect for an object of `kind` read by id: the request's
/// parameters carried through unchanged.
pub fn redirect_for_kind(kind: ObjectKind, hash: Option<&str>, hash_base: Option<&str>, file_name: Option<&str>) -> (r: ObjectRedirect)
    ensures
        r.action == action_for(kind),
        match hash {
            Some(s) => r.hash matches Some(x) && x@ == s@,
            None => r.hash is None,
        },
        match hash_base {
            Some(s) => r.hash_base matches Some(x) && x@ == s@,
            None => r.hash_base is None,
        },
        match file_name {
            Some(s) => r.file_name matches Some(x) && x@ == s@,
            None => r.file_name is None,
        },
{
    ObjectRedirect { action: target_action(kind), hash: owned(hash), hash_base: owned(hash_base), file_name: owned(file_name) }
}

/// The redirect for the tree entry found at `file_name` under `base`: the
/// action for the entry's mode, with the entry's id as the hash.
pub fn redirect_for_entry(entry: &TreeEntry, base: &str, file_name: &str) -> (r: ObjectRedirect)
    ensures
        r.action == action_for(kind_object(mode_kind(entry.spec_mode().spec_bits()))),
        r.hash matches Some(x) && x@ == entry.spec_oid()@,
        r.hash_base matches Some(x) && x@ == base@,
        r.file_name matches Some(x) && x@ == file_name@,
{
    let kind: ObjectKind = entry.mode().object_kind();
    ObjectRedirect {
        action: target_action(kind),
        hash: Some(entry.oid().as_str().to_owned()),
        hash_base: Some(base.to_owned()),
        file_name: Some(file_name.to_owned()),
    }
}

/// The kind of the object `id` names.
pub fn kind_of_id<R: Repository>(repo: &R, id: &str) -> (r: Result<ObjectKind, DomainError>) {
    let oid: ObjectId = match repo.resolve(id) {
        Ok(o) => o,
        Err(e) => return Err(e),
    };
    repo.object_kind(&oid)
}

/// Resolves a `git_object` request over the [`Repository`] port into its
/// redirect (see the module documentation for the 404s).
pub fn assemble_object_redirect<R: Repository>(
    repo: &R,
    hash: Option<&str>,
    hash_base: Option<&str>,
    file_name: Option<&str>,
) -> (r: Result<ObjectRedirect, DomainError>)
    ensures
        resolution_of(opt_chars(hash), opt_chars(hash_base), opt_chars(file_name)) matches Err(v) ==> (r matches Err(
            e,
        ) && e@ == v),
        resolution_of(opt_chars(hash), opt_chars(hash_base), opt_chars(file_name)) matches Ok(
            ResolutionView::ById { .. },
        ) ==> (r matches Err(e) ==> e@ == ErrorView::NotFound("Object does not exist"@)),
{
    match resolution(hash, hash_base, file_name) {
        Ok(Resolution::ById { id }) => redirect_by_id(repo, id.as_str(), hash, hash_base, file_name),
        Ok(Resolution::ByBasePath { base, file_name }) => redirect_by_base_path(repo, base.as_str(), file_name.as_str()),
        Err(e) => Err(e),
    }
}

/// gitweb's `cat-file -t` branch: the kind of what `id` names, the request's
/// parameters carried through; any miss is 404 "Object does not exist".
pub fn redirect_by_id<R: Repository>(
    repo: &R,
    id: &str,
    hash: Option<&str>,
    hash_base: Option<&str>,
    file_name: Option<&str>,
) -> (r: Result<ObjectRedirect, DomainError>)
    ensures
        r matches Err(e) ==> e@ == ErrorView::NotFound("Object does not exist"@),
        r matches Ok(v) ==> exists|k: ObjectKind| v.action == #[trigger] action_for(k),
        r matches Ok(v) ==> match hash {
            Some(s) => v.hash matches Some(x) && x@ == s@,
            None => v.hash is None,
        },
        r matches Ok(v) ==> match hash_base {
            Some(s) => v.hash_base matches Some(x) && x@ == s@,
            None => v.hash_base is None,
        },
        r matches Ok(v) ==> match file_name {
            Some(s) => v.file_name matches Some(x) && x@ == s@,
            None => v.file_name is None,
        },
{
    match kind_of_id(repo, id) {
        Ok(kind) => Ok(redirect_for_kind(kind, hash, hash_base, file_name)),
        Err(_) => Err(crate::error::not_found("Object does not exist")),
    }
}

/// The base-and-path branch: the entry at `file_name` under `base`, by its
/// mode; a base that does not resolve is 404 "Base object does not exist",
/// an absent path 404 "File or directory for given base does not exist".
pub fn redirect_by_base_path<R: Repository>(repo: &R, base: &str, file_name: &str) -> (r: Result<
    ObjectRedirect,
    DomainError,
>)
    ensures
        r matches Ok(v) ==> v.hash_base matches Some(x) && x@ == base@,
        r matches Ok(v) ==> v.file_name matches Some(x) && x@ == file_name@,
{
    let base_oid: ObjectId = match repo.resolve(base) {
        Ok(o) => o,
        Err(_) => return Err(crate::error::not_found("Base object does not exist")),
    };
    match repo.path_entry(&base_oid, file_name) {
        Ok(Some(entry)) => Ok(redirect_for_entry(&entry, base, file_name)),
        Ok(None) => Err(crate::error::not_found("File or directory for given base does not exist")),
        Err(e) => Err(e),
    }
}

} // verus!
