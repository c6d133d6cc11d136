//! The `blob_plain` use case: gitweb's `git_blob_plain`, minus the streaming.
//!
//! Finds the blob as `blob` does (see [`resolve_blob`]) and returns its bytes
//! untouched with the headers they are served under (see [`PlainHeaders`]).

use vstd::prelude::*;

use crate::error::{DomainError, ErrorView};
use crate::model::blob::{looks_binary, Blob};
use crate::model::content_type::{content_type_of, disposition_of, opt_text, PlainHeaders};
use crate::model::object_id::ObjectId;
use crate::port::repository::Repository;
use crate::usecase::blob::resolve_blob;

verus! {

/// A raw blob: its headers and its bytes, verbatim.
#[derive(Debug, Clone, PartialEq, Eq)]
pub struct BlobPlainView {
    headers: PlainHeaders,
    bytes: Vec<u8>,
}

impl BlobPlainView {
    /// The `Content-Type` (spec view).
    pub closed spec fn spec_content_type(&self) -> Seq<char> {
        self.headers.spec_content_type()
    }

    /// The `Content-Disposition` (spec view).
    pub closed spec fn spec_content_disposition(&self) -> Seq<char> {
        self.headers.spec_content_disposition()
    }

    /// The bytes (spec view).
    pub closed spec fn spec_bytes(&self) -> Seq<u8> {
        self.bytes@
    }

    /// The `Content-Type` the bytes are served under.
    pub fn content_type(&self) -> (r: &str)
        ensures
            r@ == self.spec_content_type(),
    {
        self.headers.content_type()
    }

    /// The `Content-Disposition` the bytes are served under.
    pub fn content_disposition(&self) -> (r: &str)
        ensures
            r@ == self.spec_content_disposition(),
    {
        self.headers.content_disposition()
    }

    /// The bytes.
    pub fn bytes(&self) -> (r: &[u8])
        ensures
            r@ == self.spec_bytes(),
    {
        self.bytes.as_slice()
    }

    /// The bytes, taking the view.
    pub fn into_bytes(self) -> (r: Vec<u8>)
        ensures
            r@ == self.spec_bytes(),
    {
        self.bytes
    }
}

/// The raw view of blob `blob` (id `oid`) named `file_name`.
pub fn blob_plain_of(
    oid: &ObjectId,
    blob: Blob,
    file_name: Option<&str>,
    charset: Option<&str>,
    prevent_xss: bool,
) -> (r: BlobPlainView)
    ensures
        r.spec_bytes() == blob@,
        r.spec_content_type() == content_type_of(opt_text(file_name), looks_binary(blob@), opt_text(charset)),
        r.spec_content_disposition() == disposition_of(
            opt_text(file_name),
            looks_binary(blob@),
            oid@,
            prevent_xss,
        ),
{
    let headers: PlainHeaders = PlainHeaders::resolve(file_name, blob.is_binary(), oid.as_str(), charset, prevent_xss);
    BlobPlainView { headers, bytes: blob.into_bytes() }
}

/// Assembles the raw blob over the [`Repository`] port (see
/// [`resolve_blob`] and [`blob_plain_of`]).
pub fn assemble_blob_plain<R: Repository>(
    repo: &R,
    base_rev: Option<&str>,
    hash: Option<&str>,
    file_name: Option<&str>,
    charset: Option<&str>,
    prevent_xss: bool,
) -> (r: Result<BlobPlainView, DomainError>)
    ensures
        hash is None && file_name is None ==> (r matches Err(e) && e@ == ErrorView::Invalid(
            "No file name defined"@,
        )),
        r matches Ok(v) ==> v.spec_content_type() == content_type_of(
            opt_text(file_name),
            looks_binary(v.spec_bytes()),
            opt_text(charset),
        ),
{
    let oid: ObjectId = match resolve_blob(repo, base_rev, hash, file_name) {
        Ok(o) => o,
        Err(e) => return Err(e),
    };
    let blob: Blob = match repo.find_blob(&oid) {
        Ok(b) => b,
        Err(e) => return Err(e),
    };
    Ok(blob_plain_of(&oid, blob, file_name, charset, prevent_xss))
}

} // verus!
