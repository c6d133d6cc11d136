//! The `blobdiff` use case: which one file an html diff page shows.
//!
//! gitweb's `git_blobdiff` diffs one file between two bases. It finds the
//! file in the raw diff between them, by its new path (`f=`) or, in the
//! legacy by-hash form, by its new blob id; more than one match is 400
//! "Ambiguous blob diff specification", none is 404 "Blob diff not found", and
//! a request naming neither is 400 "Missing one of the blob diff parameters".
//! The header is the base commit's subject, or, when the base is not a commit,
//! gitweb's "<new id> vs <old id>". The diff text itself is fetched separately
//! (see [`assemble_commit_diff`](crate::usecase::commitdiff::assemble_commit_diff)).

use vstd::prelude::*;

use crate::error::{DomainError, ErrorView};
use crate::model::commit::{title_of, Commit, CommitView, TITLE_LEN};
use crate::model::object_id::ObjectId;
use crate::model::object_kind::ObjectKind;
use crate::model::patch::{count_to_oid, count_to_path, FilePatch, FilePatchView, FileSelection, Patch};
use crate::port::repository::{RenameDetection, Repository};
use crate::usecase::heads::opt_str;
use crate::text::{has_prefix, push_str, str_eq, string_of};

verus! {

/// What the html `blobdiff` page needs: the header title, the file's new
/// path, and its old path when it differs (a rename or copy).
#[derive(Debug, Clone, PartialEq, Eq)]
pub struct BlobdiffView {
    title: String,
    file_name: String,
    file_parent: Option<String>,
}

/// A [`BlobdiffView`] seen through its texts.
pub struct BlobdiffViewModel {
    pub title: Seq<char>,
    pub file_name: Seq<char>,
    pub file_parent: Option<Seq<char>>,
}

impl View for BlobdiffView {
    type V = BlobdiffViewModel;

    closed spec fn view(&self) -> BlobdiffViewModel {
        BlobdiffViewModel {
            title: self.title@,
            file_name: self.file_name@,
            file_parent: match self.file_parent {
                Some(p) => Some(p@),
                None => None,
            },
        }
    }
}

impl BlobdiffView {
    /// The view from its parts.
    pub fn new(title: String, file_name: String, file_parent: Option<String>) -> (r: BlobdiffView)
        ensures
            r@.title == title@,
            r@.file_name == file_name@,
            r@.file_parent == (match file_parent {
                Some(p) => Some(p@),
                None => None::<Seq<char>>,
            }),
    {
        BlobdiffView { title, file_name, file_parent }
    }

    /// The header title.
    pub fn title(&self) -> (r: &str)
        ensures
            r@ == self@.title,
    {
        self.title.as_str()
    }

    /// The file's new path.
    pub fn file_name(&self) -> (r: &str)
        ensures
            r@ == self@.file_name,
    {
        self.file_name.as_str()
    }

    /// The file's old path, present only for a rename or copy.
    pub fn file_parent(&self) -> (r: Option<&str>)
        ensures
            r matches Some(p) ==> self@.file_parent == Some(p@),
            r is None ==> self@.file_parent is None,
    {
        match &self.file_parent {
            Some(p) => Some(p.as_str()),
            None => None,
        }
    }
}

/// The message of each way a selection fails.
pub open spec fn selection_error(count: nat) -> ErrorView {
    if count == 0 {
        ErrorView::NotFound("Blob diff not found"@)
    } else {
        ErrorView::Invalid("Ambiguous blob diff specification"@)
    }
}

/// Finds the file a `blobdiff` shows in `patch`: by its new path when
/// `file_name` is given, else by a new blob id beginning with `hash`.
pub fn select_file<'a>(patch: &'a Patch, file_name: Option<&str>, hash: Option<&str>) -> (r: Result<
    &'a FilePatch,
    DomainError,
>)
    ensures
        file_name is None && hash is None ==> (r matches Err(e) && e@ == ErrorView::Invalid(
            "Missing one of the blob diff parameters"@,
        )),
        file_name matches Some(n) ==> match r {
            Ok(f) => count_to_path(patch.spec_files(), n@) == 1 && f@.to_path == n@ && exists|i: int|
                0 <= i < patch.spec_files().len() && patch.spec_files()[i] == f@,
            Err(e) => count_to_path(patch.spec_files(), n@) != 1 && e@ == selection_error(
                count_to_path(patch.spec_files(), n@),
            ),
        },
        match hash {
            Some(h) => file_name is None ==> match r {
                Ok(f) => count_to_oid(patch.spec_files(), h@) == 1 && has_prefix(f@.to_oid, h@) && exists|i: int|
                    0 <= i < patch.spec_files().len() && patch.spec_files()[i] == f@,
                Err(e) => count_to_oid(patch.spec_files(), h@) != 1 && e@ == selection_error(
                    count_to_oid(patch.spec_files(), h@),
                ),
            },
            None => true,
        },
{
    let selection: FileSelection<'a> = match (file_name, hash) {
        (Some(name), _) => patch.select_by_to_path(name),
        (None, Some(id)) => patch.select_by_to_oid(id),
        (None, None) => {
            return Err(crate::error::invalid("Missing one of the blob diff parameters"));
        },
    };
    match selection {
        FileSelection::One(file) => Ok(file),
        FileSelection::Missing => Err(crate::error::not_found("Blob diff not found")),
        FileSelection::Ambiguous => Err(crate::error::invalid("Ambiguous blob diff specification")),
    }
}

/// gitweb's title for a base that is not a commit: `<new id> vs <old id>`.
pub open spec fn versus_title(f: FilePatchView) -> Seq<char> {
    f.to_oid + " vs "@ + f.from_oid
}

/// The `<new id> vs <old id>` title (see [`versus_title`]).
pub fn versus(file: &FilePatch) -> (r: String)
    ensures
        r@ == versus_title(file@),
{
    let mut out: Vec<char> = Vec::new();
    push_str(&mut out, file.to_oid().as_str());
    push_str(&mut out, " vs ");
    push_str(&mut out, file.from_oid().as_str());
    assert(out@ =~= versus_title(file@));
    string_of(out.as_slice())
}

/// `t` is a `blobdiff` header: some commit's subject, or some file's
/// `<new id> vs <old id>`.
pub open spec fn is_blobdiff_title(t: Seq<char>) -> bool {
    (exists|c: CommitView| t == #[trigger] title_of(c.message, TITLE_LEN as nat)) || (exists|f: FilePatchView|
        t == #[trigger] versus_title(f))
}

/// The header title: the base commit's subject when the base is a commit,
/// else the `<new id> vs <old id>` of the file.
pub fn blobdiff_title<R: Repository>(repo: &R, base: &ObjectId, file: &FilePatch) -> (r: Result<String, DomainError>)
    ensures
        r matches Ok(t) ==> t@ == versus_title(file@) || exists|c: CommitView| t@ == #[trigger] title_of(
            c.message,
            TITLE_LEN as nat,
        ),
        r matches Ok(t) ==> is_blobdiff_title(t@),
{
    match repo.object_kind(base) {
        Ok(ObjectKind::Commit) => match repo.find_commit(base) {
            Ok(commit) => {
                let t: String = commit.title();
                assert(t@ == title_of(commit@.message, TITLE_LEN as nat));
                Ok(t)
            },
            Err(e) => Err(e),
        },
        Ok(_) => Ok(versus(file)),
        Err(e) => Err(e),
    }
}

/// The old path a `blobdiff` shows: the file's old path when it differs from
/// the new one (a rename or copy).
pub open spec fn parent_path(f: FilePatchView) -> Option<Seq<char>> {
    if f.from_path != f.to_path {
        Some(f.from_path)
    } else {
        None
    }
}

/// `f` is the file a `blobdiff` selects among `files`: the one file whose new
/// path is `file_name` when that is given, else the one file whose new blob id
/// begins with `hash`.
pub open spec fn selected_file(
    files: Seq<FilePatchView>,
    file_name: Option<Seq<char>>,
    hash: Option<Seq<char>>,
    f: FilePatchView,
) -> bool {
    &&& files.contains(f)
    &&& match file_name {
        Some(n) => count_to_path(files, n) == 1 && f.to_path == n,
        None => match hash {
            Some(h) => count_to_oid(files, h) == 1 && has_prefix(f.to_oid, h),
            None => false,
        },
    }
}

/// The view of the selected `file` under `title`: the file's new path, and
/// its old path when that differs (see [`parent_path`]).
pub fn file_view(title: String, file: &FilePatch) -> (r: BlobdiffView)
    ensures
        r@.title == title@,
        r@.file_name == file@.to_path,
        r@.file_parent == parent_path(file@),
{
    let file_parent: Option<String> = if str_eq(file.from_path(), file.to_path()) {
        None
    } else {
        Some(file.from_path().to_owned())
    };
    BlobdiffView::new(title, file.to_path().to_owned(), file_parent)
}

/// Resolves the one file an html `blobdiff` shows between `hash_parent_base`
/// and `hash_base` (see [`select_file`]), takes its header title (see
/// [`blobdiff_title`]) and shows its paths (see [`file_view`]).
pub fn assemble_blobdiff<R: Repository>(
    repo: &R,
    hash_base: &str,
    hash_parent_base: &str,
    file_name: Option<&str>,
    hash: Option<&str>,
) -> (r: Result<BlobdiffView, DomainError>)
    ensures
        r matches Ok(v) ==> (file_name matches Some(n) ==> v@.file_name == n@),
        r matches Ok(v) ==> exists|files: Seq<FilePatchView>, f: FilePatchView|
            #[trigger] selected_file(files, opt_str(file_name), opt_str(hash), f) && parent_path(f) == v@.file_parent
                && f.to_path == v@.file_name,
        r matches Ok(v) ==> is_blobdiff_title(v@.title),
{
    let to: ObjectId = match repo.resolve(hash_base) {
        Ok(o) => o,
        Err(e) => return Err(e),
    };
    let from: ObjectId = match repo.resolve(hash_parent_base) {
        Ok(o) => o,
        Err(e) => return Err(e),
    };
    let patch: Patch = match repo.patch(Some(&from), &to, RenameDetection::RenamesOnly) {
        Ok(p) => p,
        Err(e) => return Err(e),
    };
    let file: &FilePatch = match select_file(&patch, file_name, hash) {
        Ok(f) => f,
        Err(e) => return Err(e),
    };
    let title: String = match blobdiff_title(repo, &to, file) {
        Ok(t) => t,
        Err(e) => return Err(e),
    };
    let view = file_view(title, file);
    proof {
        let files = patch.spec_files();
        let i = choose|i: int| 0 <= i < files.len() && files[i] == file@;
        assert(files.contains(file@));
        assert(selected_file(files, opt_str(file_name), opt_str(hash), file@));
    }
    Ok(view)
}

} // verus!
