//! The `blobdiff_plain` use case: one file's diff as a bare unified patch.
//!
//! gitweb's `git_blobdiff('plain')` streams the patch of a single path between
//! two bases, after a lone `X-Git-Url` line. This reads the patch between the
//! parent base and the base (rename detection `-M`) and renders the section of
//! the file whose new path is `file_name`, ids abbreviated to the repository's
//! default length; a path the diff does not touch is 404 "Blob diff not
//! found". The request's URL is added when the body is rendered.

use vstd::prelude::*;

use crate::error::{DomainError, ErrorView};
use crate::model::blobdiff_plain::BlobdiffPlain;
use crate::model::object_id::ObjectId;
use crate::model::patch::{file_text, first_to_path, FilePatchView, Patch};
use crate::port::repository::{RenameDetection, Repository};

verus! {

/// The section of the first of `files` with new path `path`, ids abbreviated
/// to `abbrev` digits; `None` when no file has that path.
pub open spec fn section_of(files: Seq<FilePatchView>, path: Seq<char>, abbrev: usize) -> Option<Seq<char>> {
    match first_to_path(files, path) {
        Some(i) => Some(file_text(files[i], Some(abbrev))),
        None => None,
    }
}

/// The body for the file `file_name` of `patch` (see [`section_of`]), or 404
/// "Blob diff not found" when the patch does not touch it.
pub fn blobdiff_plain_of(patch: &Patch, file_name: &str, abbrev: usize) -> (r: Result<BlobdiffPlain, DomainError>)
    ensures
        match section_of(patch.spec_files(), file_name@, abbrev) {
            Some(t) => r matches Ok(b) && b@ == t,
            None => r matches Err(e) && e@ == ErrorView::NotFound("Blob diff not found"@),
        },
{
    match patch.render_file_abbreviated(file_name, abbrev) {
        Some(body) => Ok(BlobdiffPlain::new(body)),
        None => Err(crate::error::not_found("Blob diff not found")),
    }
}

/// Assembles the `blobdiff_plain` body for `file_name` between
/// `hash_parent_base` and `hash_base` (see [`blobdiff_plain_of`]).
pub fn assemble_blobdiff_plain<R: Repository>(
    repo: &R,
    hash_base: &str,
    hash_parent_base: &str,
    file_name: &str,
) -> (r: Result<BlobdiffPlain, DomainError>)
    ensures
        r matches Ok(b) ==> exists|files: Seq<FilePatchView>, abbrev: usize| #[trigger] section_of(
            files,
            file_name@,
            abbrev,
        ) == Some(b@),
{
    let to: ObjectId = match repo.resolve(hash_base) {
        Ok(o) => o,
        Err(e) => return Err(e),
    };
    let from: ObjectId = match repo.resolve(hash_parent_base) {
        Ok(o) => o,
        Err(e) => return Err(e),
    };
    let patch: Patch = match repo.patch(Some(&from), &to, RenameDetection::RenamesOnly) {
        Ok(p) => p,
        Err(e) => return Err(e),
    };
    let abbrev: usize = match repo.abbrev_length() {
        Ok(n) => n,
        Err(e) => return Err(e),
    };
    blobdiff_plain_of(&patch, file_name, abbrev)
}

} // verus!
