//! The no-action default object dispatch: gitweb's `dispatch` `git_get_type`.
//!
//! The lookup is chosen by [`dispatch_lookup`], the kind is read over the
//! port, and the action whose view shows it is served. A hash that names
//! nothing is 404 "Object does not exist"; a base+file that resolves to
//! nothing, whether at the base or the path, is 404 "File or directory does
//! not exist".

use vstd::prelude::*;

use crate::error::{DomainError, ErrorView};
use crate::model::action::Action;
use crate::model::object_dispatch::{dispatch_lookup, dispatch_lookup_of, DispatchLookup};
use crate::model::object_id::ObjectId;
use crate::model::object_kind::ObjectKind;
use crate::model::object_redirect::{action_for, opt_chars, target_action};
use crate::port::repository::Repository;

verus! {

/// The kind of the object `id` names; any miss is "Object does not exist".
pub fn kind_of_hash<R: Repository>(repo: &R, id: &str) -> (r: Result<ObjectKind, DomainError>)
    ensures
        r matches Err(e) ==> e@ == ErrorView::NotFound("Object does not exist"@),
{
    let oid: ObjectId = match repo.resolve(id) {
        Ok(o) => o,
        Err(_) => return Err(crate::error::not_found("Object does not exist")),
    };
    match repo.object_kind(&oid) {
        Ok(k) => Ok(k),
        Err(_) => Err(crate::error::not_found("Object does not exist")),
    }
}

/// The kind of the object at `file_name` under `base`; any miss is "File or
/// directory does not exist".
pub fn kind_of_base_path<R: Repository>(repo: &R, base: &str, file_name: &str) -> (r: Result<ObjectKind, DomainError>)
    ensures
        r matches Err(e) ==> e@ == ErrorView::NotFound("File or directory does not exist"@),
{
    let base_oid: ObjectId = match repo.resolve(base) {
        Ok(o) => o,
        Err(_) => return Err(crate::error::not_found("File or directory does not exist")),
    };
    let object_oid: ObjectId = match repo.path_id(&base_oid, file_name) {
        Ok(Some(o)) => o,
        _ => return Err(crate::error::not_found("File or directory does not exist")),
    };
    match repo.object_kind(&object_oid) {
        Ok(k) => Ok(k),
        Err(_) => Err(crate::error::not_found("File or directory does not exist")),
    }
}

/// The action a no-action request is served by, over the [`Repository`]
/// port: the view of the named object's kind.
pub fn resolve_dispatch_action<R: Repository>(
    repo: &R,
    hash: Option<&str>,
    hash_base: Option<&str>,
    file_name: Option<&str>,
) -> (r: Result<Action, DomainError>)
    ensures
        dispatch_lookup_of(opt_chars(hash), opt_chars(hash_base), opt_chars(file_name)) is None ==> (r matches Err(e)
            && e@ == ErrorView::NotFound("Object does not exist"@)),
        r matches Ok(a) ==> exists|k: ObjectKind| a == action_for(k),
{
    let kind: ObjectKind = match dispatch_lookup(hash, hash_base, file_name) {
        Some(DispatchLookup::ByHash { hash }) => match kind_of_hash(repo, hash.as_str()) {
            Ok(k) => k,
            Err(e) => return Err(e),
        },
        Some(DispatchLookup::ByBasePath { base, file_name }) => match kind_of_base_path(repo, base.as_str(), file_name.as_str()) {
            Ok(k) => k,
            Err(e) => return Err(e),
        },
        None => return Err(crate::error::not_found("Object does not exist")),
    };
    Ok(target_action(kind))
}

} // verus!
