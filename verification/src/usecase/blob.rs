//! The `blob` use case: gitweb's `git_blob`, minus the HTML.
//!
//! The blob is found directly by its id (`hash`) or by its path within the
//! base revision (`hash_base`, HEAD by default); a request naming neither is
//! 400 "No file name defined", and a path that is absent, or not a file, is
//! 404 "Cannot find file". Text is decoded (UTF-8, else the fallback
//! encoding) and split into lines; an image is marked for inline display;
//! any other binary has no lines, being download only. The commit subject
//! heads the page only when the base revision was named and is a commit.

use vstd::prelude::*;

use crate::error::{DomainError, ErrorView};
use crate::model::blob::{display_of, Blob, BlobDisplay};
use crate::model::commit::{title_of, CommitView, TITLE_LEN};
use crate::model::content_type::opt_text;
use crate::model::encoding::{text_of, to_utf8, FallbackEncoding};
use crate::model::object_id::ObjectId;
use crate::model::object_kind::ObjectKind;
use crate::port::repository::Repository;
use crate::text::{std_lines, std_lines_of, string_views};

verus! {

/// The assembled blob view: the blob's id, the commit subject for the
/// header, how the blob is presented, and a text blob's lines.
#[derive(Debug, Clone, PartialEq, Eq)]
pub struct BlobView {
    blob_id: String,
    commit_title: Option<String>,
    display: BlobDisplay,
    lines: Vec<String>,
}

/// A [`BlobView`] seen through its texts.
pub struct BlobViewModel {
    pub blob_id: Seq<char>,
    pub commit_title: Option<Seq<char>>,
    pub display: BlobDisplay,
    pub lines: Seq<Seq<char>>,
}

impl View for BlobView {
    type V = BlobViewModel;

    closed spec fn view(&self) -> BlobViewModel {
        BlobViewModel {
            blob_id: self.blob_id@,
            commit_title: match self.commit_title {
                Some(t) => Some(t@),
                None => None,
            },
            display: self.display,
            lines: string_views(self.lines@),
        }
    }
}

impl BlobView {
    /// The id of the blob shown (the title when no subject is shown).
    pub fn blob_id(&self) -> (r: &str)
        ensures
            r@ == self@.blob_id,
    {
        self.blob_id.as_str()
    }

    /// The commit subject for the header, `None` on gitweb's loose-blob path.
    pub fn commit_title(&self) -> (r: Option<&str>)
        ensures
            r matches Some(t) ==> self@.commit_title == Some(t@),
            r is None ==> self@.commit_title is None,
    {
        match &self.commit_title {
            Some(t) => Some(t.as_str()),
            None => None,
        }
    }

    /// How the blob is presented.
    pub fn display(&self) -> (r: BlobDisplay)
        ensures
            r == self@.display,
    {
        self.display
    }

    /// The decoded lines of a text blob; empty for an image or a binary.
    pub fn lines(&self) -> (r: &[String])
        ensures
            string_views(r@) == self@.lines,
    {
        self.lines.as_slice()
    }
}

/// Resolves the blob to show: by `hash` when given, else `file_name` under
/// `base_rev` (HEAD when `None`), which must name a file.
pub fn resolve_blob<R: Repository>(
    repo: &R,
    base_rev: Option<&str>,
    hash: Option<&str>,
    file_name: Option<&str>,
) -> (r: Result<ObjectId, DomainError>)
    ensures
        hash is None && file_name is None ==> (r matches Err(e) && e@ == ErrorView::Invalid(
            "No file name defined"@,
        )),
{
    match hash {
        Some(h) => return repo.resolve(h),
        None => {},
    }
    let name: &str = match file_name {
        Some(n) => n,
        None => return Err(crate::error::invalid("No file name defined")),
    };
    let rev: &str = match base_rev {
        Some(b) => b,
        None => "HEAD",
    };
    let base: ObjectId = match repo.resolve(rev) {
        Ok(o) => o,
        Err(e) => return Err(e),
    };
    let at: ObjectId = match repo.path_id(&base, name) {
        Ok(Some(o)) => o,
        Ok(None) => return Err(crate::error::not_found("Cannot find file")),
        Err(e) => return Err(e),
    };
    match repo.object_kind(&at) {
        Ok(ObjectKind::Blob) => Ok(at),
        Ok(_) => Err(crate::error::not_found("Cannot find file")),
        Err(e) => Err(e),
    }
}

/// The commit subject for the header: only when `base_rev` was named and is
/// a commit.
pub fn header_title<R: Repository>(repo: &R, base_rev: Option<&str>) -> (r: Result<Option<String>, DomainError>)
    ensures
        base_rev is None ==> r matches Ok(None),
        r matches Ok(Some(t)) ==> exists|c: CommitView| t@ == #[trigger] title_of(c.message, TITLE_LEN as nat),
{
    let rev: &str = match base_rev {
        Some(b) => b,
        None => return Ok(None),
    };
    let base: ObjectId = match repo.resolve(rev) {
        Ok(o) => o,
        Err(e) => return Err(e),
    };
    match repo.object_kind(&base) {
        Ok(ObjectKind::Commit) => match repo.find_commit(&base) {
            Ok(c) => {
                let t: String = c.title();
                assert(t@ == title_of(c@.message, TITLE_LEN as nat));
                Ok(Some(t))
            },
            Err(e) => Err(e),
        },
        Ok(_) => Ok(None),
        Err(e) => Err(e),
    }
}

/// The lines of a text blob: its text (see [`text_of`]) split the way
/// `str::lines` splits.
pub fn decode_lines(blob: &Blob, fallback: FallbackEncoding) -> (r: Vec<String>)
    ensures
        string_views(r@) == std_lines(text_of(blob@, fallback)),
{
    let text: String = to_utf8(blob.bytes(), fallback);
    std_lines_of(text.as_str())
}

/// The lines a blob of `bytes` shows as `display`: its decoded lines for
/// text, none otherwise.
pub open spec fn shown_lines(bytes: Seq<u8>, display: BlobDisplay, fallback: FallbackEncoding) -> Seq<Seq<char>> {
    if display == BlobDisplay::Text {
        std_lines(text_of(bytes, fallback))
    } else {
        Seq::empty()
    }
}

/// The view of blob `blob` (id `oid`) named `file_name`, under header
/// `commit_title`.
pub fn blob_view_of(
    oid: &ObjectId,
    blob: &Blob,
    file_name: Option<&str>,
    fallback: FallbackEncoding,
    commit_title: Option<String>,
) -> (r: BlobView)
    ensures
        r@.blob_id == oid@,
        r@.display == display_of(blob@, opt_text(file_name)),
        r@.lines == shown_lines(blob@, r@.display, fallback),
        r@.commit_title == (match commit_title {
            Some(t) => Some(t@),
            None => None::<Seq<char>>,
        }),
{
    let display: BlobDisplay = blob.display_kind(file_name);
    let lines: Vec<String> = match display {
        BlobDisplay::Text => decode_lines(blob, fallback),
        _ => Vec::new(),
    };
    let view = BlobView { blob_id: oid.as_str().to_owned(), commit_title, display, lines };
    assert(view@.lines =~= shown_lines(blob@, view@.display, fallback));
    view
}

/// Assembles the blob view over the [`Repository`] port (see
/// [`resolve_blob`], [`blob_view_of`] and [`header_title`]).
pub fn assemble_blob<R: Repository>(
    repo: &R,
    base_rev: Option<&str>,
    hash: Option<&str>,
    file_name: Option<&str>,
    fallback: FallbackEncoding,
) -> (r: Result<BlobView, DomainError>)
    ensures
        hash is None && file_name is None ==> (r matches Err(e) && e@ == ErrorView::Invalid(
            "No file name defined"@,
        )),
        r matches Ok(v) ==> (base_rev is None ==> v@.commit_title is None),
        r matches Ok(v) ==> exists|bytes: Seq<u8>| #[trigger] display_of(bytes, opt_text(file_name)) == v@.display
            && v@.lines == shown_lines(bytes, v@.display, fallback),
{
    let oid: ObjectId = match resolve_blob(repo, base_rev, hash, file_name) {
        Ok(o) => o,
        Err(e) => return Err(e),
    };
    let blob: Blob = match repo.find_blob(&oid) {
        Ok(b) => b,
        Err(e) => return Err(e),
    };
    let title: Option<String> = match header_title(repo, base_rev) {
        Ok(t) => t,
        Err(e) => return Err(e),
    };
    Ok(blob_view_of(&oid, &blob, file_name, fallback, title))
}

} // verus!
