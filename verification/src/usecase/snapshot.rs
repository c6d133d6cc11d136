//! The `snapshot` use case: gitweb's `git_snapshot`, minus the streaming.
//!
//! The archive format comes from the request and the site's configured
//! formats (403 / 400 before any object is read), the requested `hash` is
//! resolved, and the port produces `git archive --prefix=<name>/ <hash>`. The
//! view carries the headers: the format's content type, the download file
//! name (`inline; filename="<name><suffix>"`), and, when the hash names or
//! peels to a commit, its committer time as `Last-Modified`, which also stamps
//! the archive entries (0 for a bare tree).

use vstd::prelude::*;

use crate::error::{DomainError, ErrorView};
use crate::model::commit::Commit;
use crate::model::object_id::ObjectId;
use crate::model::object_kind::ObjectKind;
use crate::model::snapshot::{
    enabled_formats, enabled_spec, format_content_type, format_suffix, select_format, select_outcome,
    snapshot_name, snapshot_name_of, ArchiveFormat, ArchiveOptions,
};
use crate::model::timestamp::{timestamp_of, zone_fits, Timestamp, TimestampView};
use crate::port::repository::Repository;
use crate::text::{chars_of, push_str, string_of};

verus! {

/// What the boundary serves for a snapshot: headers and the archive bytes.
#[derive(Debug, Clone, PartialEq, Eq)]
pub struct SnapshotView {
    content_type: &'static str,
    content_disposition: String,
    last_modified: Option<Timestamp>,
    bytes: Vec<u8>,
}

impl SnapshotView {
    /// The content type.
    pub closed spec fn spec_content_type(&self) -> Seq<char> {
        self.content_type@
    }

    /// The `Content-Disposition` value.
    pub closed spec fn spec_content_disposition(&self) -> Seq<char> {
        self.content_disposition@
    }

    /// The `Last-Modified` time.
    pub closed spec fn spec_last_modified(&self) -> Option<TimestampView> {
        match self.last_modified {
            Some(t) => Some(t@),
            None => None,
        }
    }

    /// The archive bytes.
    pub closed spec fn spec_bytes(&self) -> Seq<u8> {
        self.bytes@
    }

    /// The archive's `Content-Type`.
    pub fn content_type(&self) -> (r: &'static str)
        ensures
            r@ == self.spec_content_type(),
    {
        self.content_type
    }

    /// The `Content-Disposition` header value.
    pub fn content_disposition(&self) -> (r: &str)
        ensures
            r@ == self.spec_content_disposition(),
    {
        self.content_disposition.as_str()
    }

    /// The `Last-Modified` time: the commit's, absent for a bare tree.
    pub fn last_modified(&self) -> (r: Option<&Timestamp>)
        ensures
            match self.spec_last_modified() {
                Some(t) => r matches Some(x) && x@ == t,
                None => r is None,
            },
    {
        match &self.last_modified {
            Some(t) => Some(t),
            None => None,
        }
    }

    /// The archive bytes.
    pub fn bytes(&self) -> (r: &[u8])
        ensures
            r@ == self.spec_bytes(),
    {
        self.bytes.as_slice()
    }

    /// The archive bytes, taking the view.
    pub fn into_bytes(self) -> (r: Vec<u8>)
        ensures
            r@ == self.spec_bytes(),
    {
        self.bytes
    }
}

/// gitweb's `Content-Disposition` for a snapshot named `name`.
pub open spec fn disposition_of(name: Seq<char>, format: ArchiveFormat) -> Seq<char> {
    "inline; filename=\""@ + name + format_suffix(format) + "\""@
}

/// The `Content-Disposition` value (see [`disposition_of`]).
pub fn content_disposition(name: &str, format: ArchiveFormat) -> (r: String)
    ensures
        r@ == disposition_of(name@, format),
{
    let mut out: Vec<char> = chars_of("inline; filename=\"");
    push_str(&mut out, name);
    push_str(&mut out, format.suffix());
    push_str(&mut out, "\"");
    string_of(out.as_slice())
}

/// The headers and bytes of a snapshot named `name` in `format`, dated by
/// `commit` when there is one.
pub fn snapshot_view(name: &str, format: ArchiveFormat, commit: Option<&Commit>, bytes: Vec<u8>) -> (r: SnapshotView)
    requires
        commit matches Some(c) ==> zone_fits(c@.committer.epoch as int, c@.committer.timezone),
    ensures
        r.spec_content_type() == format_content_type(format),
        r.spec_content_disposition() == disposition_of(name@, format),
        r.spec_last_modified() == match commit {
            Some(c) => Some(timestamp_of(c@.committer.epoch, c@.committer.timezone)),
            None => None,
        },
        r.spec_bytes() == bytes@,
{
    let last_modified: Option<Timestamp> = match commit {
        Some(c) => Some(Timestamp::from_signature(c.committer())),
        None => None,
    };
    SnapshotView {
        content_type: format.content_type(),
        content_disposition: content_disposition(name, format),
        last_modified,
        bytes,
    }
}

/// `disposition` names the snapshot of `hash` in `project` by gitweb's rule,
/// over some abbreviation of the resolved id (see [`snapshot_name_of`]).
pub open spec fn named_snapshot(
    disposition: Seq<char>,
    project: Seq<char>,
    hash: Seq<char>,
    branch_refs: Seq<&str>,
    format: ArchiveFormat,
) -> bool {
    exists|short: Seq<char>| disposition == #[trigger] disposition_of(snapshot_name_of(project, hash, short, branch_refs), format)
}

proof fn lemma_named_snapshot(
    disposition: Seq<char>,
    project: Seq<char>,
    hash: Seq<char>,
    short: Seq<char>,
    branch_refs: Seq<&str>,
    format: ArchiveFormat,
)
    requires
        disposition == disposition_of(snapshot_name_of(project, hash, short, branch_refs), format),
    ensures
        named_snapshot(disposition, project, hash, branch_refs, format),
{
}

/// The commit behind a snapshot: a commit names itself, an annotated tag of
/// a commit peels one level, and a tree or blob has none.
pub fn snapshot_commit<R: Repository>(repo: &R, oid: &ObjectId) -> (r: Result<Option<Commit>, DomainError>) {
    let kind: ObjectKind = match repo.object_kind(oid) {
        Ok(k) => k,
        Err(e) => return Err(e),
    };
    match kind {
        ObjectKind::Commit => match repo.find_commit(oid) {
            Ok(c) => Ok(Some(c)),
            Err(e) => Err(e),
        },
        ObjectKind::Tag => {
            let tag = match repo.find_tag(oid) {
                Ok(t) => t,
                Err(e) => return Err(e),
            };
            if tag.object_kind() == ObjectKind::Commit {
                match repo.find_commit(tag.object()) {
                    Ok(c) => Ok(Some(c)),
                    Err(e) => Err(e),
                }
            } else {
                Ok(None)
            }
        },
        ObjectKind::Tree => Ok(None),
        ObjectKind::Blob => Ok(None),
    }
}

/// The options an archive is made with: its top directory named `name`, every
/// entry stamped with the commit's committer time, or 0 without a commit.
pub fn archive_options(name: &str, commit: Option<&Commit>) -> (r: ArchiveOptions)
    ensures
        r.prefix@ == name@,
        r.modification_time == (match commit {
            Some(c) => c@.committer.epoch,
            None => 0,
        }),
{
    let modification_time: i64 = match commit {
        Some(c) => c.committer().epoch(),
        None => 0,
    };
    ArchiveOptions { prefix: name.to_owned(), modification_time }
}

/// Assembles a snapshot over the [`Repository`] port for `project`: the
/// format is chosen first (its failures come before any read), a missing
/// `hash` is 404 "Object does not exist", and the archive is named by
/// gitweb's `snapshot_name` rule with the repository's abbreviation length;
/// the archive is asked for with that name as its prefix (see
/// [`archive_options`]). A commit whose time does not fit its zone is a
/// backend error (see [`check_commit_time`](crate::model::timestamp::check_commit_time)).
pub fn assemble_snapshot<R: Repository>(
    repo: &R,
    project: &str,
    configured_formats: &[String],
    requested_format: Option<&str>,
    hash: Option<&str>,
    branch_refs: &[&str],
) -> (r: Result<SnapshotView, DomainError>)
    ensures
        select_outcome(
            match requested_format {
                Some(s) => Some(s@),
                None => None,
            },
            enabled_spec(configured_formats@),
        ) matches Err(v) ==> (r matches Err(e) && e@ == v),
        select_outcome(
            match requested_format {
                Some(s) => Some(s@),
                None => None,
            },
            enabled_spec(configured_formats@),
        ) is Ok && hash is None ==> (r matches Err(e) && e@ == ErrorView::NotFound("Object does not exist"@)),
        r matches Ok(v) ==> select_outcome(
            match requested_format {
                Some(s) => Some(s@),
                None => None,
            },
            enabled_spec(configured_formats@),
        ) matches Ok(f) && v.spec_content_type() == format_content_type(f),
        r matches Ok(v) ==> hash matches Some(h) && select_outcome(
            match requested_format {
                Some(s) => Some(s@),
                None => None,
            },
            enabled_spec(configured_formats@),
        ) matches Ok(f) && named_snapshot(v.spec_content_disposition(), project@, h@, branch_refs@, f),
{
    let enabled: Vec<ArchiveFormat> = enabled_formats(configured_formats);
    let format: ArchiveFormat = match select_format(requested_format, enabled.as_slice()) {
        Ok(f) => f,
        Err(e) => return Err(e),
    };
    let hash: &str = match hash {
        Some(h) => h,
        None => return Err(crate::error::not_found("Object does not exist")),
    };
    let oid: ObjectId = match repo.resolve(hash) {
        Ok(o) => o,
        Err(e) => return Err(e),
    };
    let commit: Option<Commit> = match snapshot_commit(repo, &oid) {
        Ok(c) => c,
        Err(e) => return Err(e),
    };
    if let Some(c) = &commit {
        match crate::model::timestamp::check_commit_time(c.committer()) {
            Ok(()) => {},
            Err(e) => return Err(e),
        }
    }
    let abbrev: usize = match repo.abbrev_length() {
        Ok(n) => n,
        Err(e) => return Err(e),
    };
    let short: &str = oid.abbreviated_to(abbrev);
    let name: String = snapshot_name(project, hash, short, branch_refs);
    let options: ArchiveOptions = archive_options(name.as_str(), commit.as_ref());
    let bytes: Vec<u8> = match repo.archive(&oid, format, &options) {
        Ok(b) => b,
        Err(e) => return Err(e),
    };
    let view: SnapshotView = snapshot_view(name.as_str(), format, commit.as_ref(), bytes);
    proof {
        lemma_named_snapshot(view.spec_content_disposition(), project@, hash@, short@, branch_refs@, format);
    }
    Ok(view)
}

} // verus!
