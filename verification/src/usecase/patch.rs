//! The `patch` and `patches` use cases: commits as `git format-patch` mails.
//!
//! gitweb's `git_patch` streams `git format-patch --stdout -1` for one commit,
//! `git_patches` the most recent `$patch_max` commits, oldest first, numbered
//! `[PATCH i/N]`. Both are forbidden (403 "Patch view not allowed") when the
//! `patches` feature's limit is zero; the commit-ish defaults to HEAD and a
//! non-commit is 404 "Unknown commit object". Each mail diffs its commit
//! against its first parent (the empty tree for a root commit) with rename
//! detection, and carries the diffstat: lines added and deleted for a text
//! file, the blob sizes before and after for a binary one.

use vstd::prelude::*;

use crate::error::{DomainError, ErrorView};
use crate::model::change::ChangeStatus;
use crate::model::commit::{Commit, CommitView};
use crate::model::diffstat::{Diffstat, DiffstatEntry, DiffstatEntryView, StatChange};
use crate::model::feed::drop_trailing_empty;
use crate::model::format_patch::{FormatPatch, PatchEntry, PatchEntryView};
use crate::model::object_id::ObjectId;
use crate::model::patch::{count_starting, patch_text, FilePatch, FilePatchView, Patch};
use crate::model::signature::full_ident_of;
use crate::model::timestamp::{timestamp_of, zone_fits_exec, Timestamp};
use crate::port::repository::{Page, RenameDetection, Repository};
use crate::text::{std_lines, std_lines_of, string_views};
use crate::usecase::commitdiff::resolve_commit;
use crate::usecase::feed::first_parent;

verus! {

/// `lines` without its leading empty lines.
pub open spec fn skip_empty(lines: Seq<Seq<char>>) -> Seq<Seq<char>>
    decreases lines.len(),
{
    if lines.len() > 0 && lines[0].len() == 0 {
        skip_empty(lines.skip(1))
    } else {
        lines
    }
}

/// git format-patch's subject and body of a message: the first non-empty
/// line is the subject (empty when there is none); the body is what follows,
/// without the blank lines that lead or trail it.
pub open spec fn message_parts(message: Seq<char>) -> (Seq<char>, Seq<Seq<char>>) {
    let rest = skip_empty(std_lines(message));
    if rest.len() == 0 {
        (Seq::empty(), Seq::empty())
    } else {
        (rest[0], drop_trailing_empty(skip_empty(rest.skip(1))))
    }
}

/// The index of the first non-empty line of `lines` at or after `from`.
proof fn lemma_skip_empty_from(lines: Seq<Seq<char>>, from: int)
    requires
        0 <= from <= lines.len(),
        forall|k: int| 0 <= k < from ==> (#[trigger] lines[k]).len() == 0,
    ensures
        skip_empty(lines) == skip_empty(lines.skip(from)),
    decreases from,
{
    if from > 0 {
        assert(lines[0].len() == 0);
        let tail = lines.skip(1);
        assert forall|k: int| 0 <= k < from - 1 implies (#[trigger] tail[k]).len() == 0 by {
            assert(tail[k] == lines[k + 1]);
        }
        lemma_skip_empty_from(tail, from - 1);
        assert(tail.skip(from - 1) =~= lines.skip(from));
    } else {
        assert(lines.skip(0) =~= lines);
    }
}

/// The first index at or after `from` whose line is not empty, or the length.
fn first_non_empty(lines: &Vec<String>, from: usize) -> (r: usize)
    requires
        from <= lines@.len(),
    ensures
        from <= r <= lines@.len(),
        forall|k: int| from <= k < r ==> (#[trigger] lines@[k])@.len() == 0,
        r < lines@.len() ==> lines@[r as int]@.len() > 0,
{
    let mut i: usize = from;
    while i < lines.len()
        invariant
            from <= i <= lines@.len(),
            forall|k: int| from <= k < i ==> (#[trigger] lines@[k])@.len() == 0,
        decreases lines.len() - i,
    {
        if lines[i].as_str().is_empty() {
            i += 1;
        } else {
            return i;
        }
    }
    i
}

/// Splits a commit message into git format-patch's subject and body lines
/// (see [`message_parts`]).
pub fn split_message(message: &str) -> (r: (String, Vec<String>))
    ensures
        r.0@ == message_parts(message@).0,
        string_views(r.1@) == message_parts(message@).1,
{
    let lines: Vec<String> = std_lines_of(message);
    let ghost all = string_views(lines@);
    let start: usize = first_non_empty(&lines, 0);
    proof {
        assert forall|k: int| 0 <= k < start implies (#[trigger] all[k]).len() == 0 by {
            assert(all[k] == lines@[k]@);
        }
        lemma_skip_empty_from(all, start as int);
    }
    if start == lines.len() {
        proof {
            assert(all.skip(start as int) =~= Seq::<Seq<char>>::empty());
        }
        return (String::new(), Vec::new());
    }
    let ghost rest = all.skip(start as int);
    proof {
        assert(rest[0] == lines@[start as int]@);
        assert(rest[0].len() > 0);
    }
    let subject: String = lines[start].as_str().to_owned();
    let body_start: usize = first_non_empty(&lines, start + 1);
    let ghost tail = rest.skip(1);
    proof {
        assert forall|k: int| 0 <= k < body_start - (start + 1) implies (#[trigger] tail[k]).len() == 0 by {
            assert(tail[k] == lines@[k + start + 1]@);
        }
        lemma_skip_empty_from(tail, body_start - (start + 1));
        assert(tail.skip(body_start - (start + 1)) =~= all.skip(body_start as int));
    }
    let mut end: usize = lines.len();
    while end > body_start && lines[end - 1].as_str().is_empty()
        invariant
            body_start <= end <= lines@.len(),
            all == string_views(lines@),
            drop_trailing_empty(all.subrange(body_start as int, end as int)) == drop_trailing_empty(
                all.skip(body_start as int),
            ),
        decreases end,
    {
        proof {
            let piece = all.subrange(body_start as int, end as int);
            assert(piece.last() == lines@[end - 1]@);
            assert(piece.drop_last() =~= all.subrange(body_start as int, end - 1));
        }
        end -= 1;
    }
    let mut body: Vec<String> = Vec::new();
    let mut i: usize = body_start;
    while i < end
        invariant
            body_start <= i <= end,
            end <= lines@.len(),
            all == string_views(lines@),
            string_views(body@) =~= all.subrange(body_start as int, i as int),
        decreases end - i,
    {
        let line: String = lines[i].as_str().to_owned();
        let ghost before = body@;
        body.push(line);
        assert(string_views(body@) =~= string_views(before).push(line@));
        i += 1;
    }
    proof {
        let piece = all.subrange(body_start as int, end as int);
        if end > body_start {
            assert(piece.last() == lines@[end - 1]@);
        }
        assert(drop_trailing_empty(piece) == piece);
    }
    (subject, body)
}

/// The diffstat size of a binary file: its blob sizes, zero for the side that
/// does not exist (a created file's old side, a deleted file's new side).
pub fn binary_change<R: Repository>(repo: &R, file: &FilePatch) -> (r: Result<StatChange, DomainError>)
    ensures
        r matches Ok(c) ==> c is Binary,
        r matches Ok(StatChange::Binary { old_size, new_size }) ==> (file@.status == ChangeStatus::Added ==> old_size
            == 0) && (file@.status == ChangeStatus::Deleted ==> new_size == 0),
{
    let old_size: u64 = match file.status() {
        ChangeStatus::Added => 0,
        _ => match repo.object_size(file.from_oid()) {
            Ok(n) => n,
            Err(e) => return Err(e),
        },
    };
    let new_size: u64 = match file.status() {
        ChangeStatus::Deleted => 0,
        _ => match repo.object_size(file.to_oid()) {
            Ok(n) => n,
            Err(e) => return Err(e),
        },
    };
    Ok(StatChange::Binary { old_size, new_size })
}

/// A diffstat row describes file `f`: its status, modes and paths, and for a
/// text file its counts of added and deleted lines (a binary file's sizes
/// come from the repository).
pub open spec fn row_describes(row: DiffstatEntryView, f: FilePatchView) -> bool {
    &&& row.status == f.status
    &&& row.from_mode == f.from_mode
    &&& row.to_mode == f.to_mode
    &&& row.from_path == f.from_path
    &&& row.to_path == f.to_path
    &&& match f.hunks {
        Some(h) => row.change == StatChange::Text {
            added: count_starting(h, '+') as usize,
            deleted: count_starting(h, '-') as usize,
        },
        None => row.change is Binary && (f.status == ChangeStatus::Added ==> row.change->old_size == 0) && (
        f.status == ChangeStatus::Deleted ==> row.change->new_size == 0),
    }
}

/// Builds the diffstat of `patch`: one row per file, in order.
pub fn build_diffstat<R: Repository>(repo: &R, patch: &Patch) -> (r: Result<Diffstat, DomainError>)
    ensures
        (forall|i: int| 0 <= i < patch.spec_files().len() ==> (#[trigger] patch.spec_files()[i]).hunks is Some)
            ==> r is Ok,
        r matches Ok(d) ==> d.spec_entries().len() == patch.spec_files().len() && forall|i: int|
            0 <= i < d.spec_entries().len() ==> row_describes(
                #[trigger] d.spec_entries()[i],
                patch.spec_files()[i],
            ),
{
    let files: &[FilePatch] = patch.files();
    let mut entries: Vec<DiffstatEntry> = Vec::new();
    let mut i: usize = 0;
    while i < files.len()
        invariant
            0 <= i <= files@.len(),
            crate::model::patch::file_patch_views(files@) == patch.spec_files(),
            files@.len() == patch.spec_files().len(),
            entries@.len() == i,
            forall|k: int| 0 <= k < i ==> row_describes((#[trigger] entries@[k])@, files@[k]@),
        decreases files.len() - i,
    {
        let file: &FilePatch = &files[i];
        let change: StatChange = match file.line_counts() {
            Some((added, deleted)) => StatChange::Text { added, deleted },
            None => match binary_change(repo, file) {
                Ok(c) => c,
                Err(e) => {
                    proof {
                        assert(patch.spec_files()[i as int] == files@[i as int]@);
                    }
                    return Err(e);
                },
            },
        };
        let entry = DiffstatEntry::new(
            file.status(),
            file.from_mode(),
            file.to_mode(),
            file.from_path(),
            file.to_path(),
            change,
        );
        entries.push(entry);
        i += 1;
    }
    let d = Diffstat::new(entries);
    assert forall|k: int| 0 <= k < d.spec_entries().len() implies row_describes(
        #[trigger] d.spec_entries()[k],
        patch.spec_files()[k],
    ) by {
        assert(d.spec_entries()[k] == entries@[k]@);
        assert(patch.spec_files()[k] == files@[k]@);
    }
    Ok(d)
}

/// A mail's header fields and body come from commit `c` (id `id`) at
/// position `number`.
pub open spec fn entry_describes(e: PatchEntryView, id: Seq<char>, c: CommitView, number: Option<(usize, usize)>) -> bool {
    &&& e.id == id
    &&& e.from == full_ident_of(c.author)
    &&& e.date == timestamp_of(c.author.epoch, c.author.timezone)
    &&& e.subject == message_parts(c.message).0
    &&& e.body == message_parts(c.message).1
    &&& e.number == number
}

/// Builds one commit's mail: its header fields, the diffstat of its patch
/// against its first parent (the empty tree for a root commit), and that
/// patch with ids abbreviated to the repository's default length. An author
/// time that does not fit its zone is a backend error.
pub fn build_entry<R: Repository>(repo: &R, oid: &ObjectId, commit: &Commit, number: Option<(usize, usize)>) -> (r:
    Result<PatchEntry, DomainError>)
    ensures
        r matches Ok(e) ==> entry_describes(e@, oid@, commit@, number),
        r matches Ok(e) ==> exists|files: Seq<FilePatchView>, abbrev: usize| e@.diff == #[trigger] patch_text(
            files,
            Some(abbrev),
        ),
{
    let from: Option<&ObjectId> = first_parent(commit.parents());
    let patch: Patch = match repo.patch(from, oid, RenameDetection::RenamesOnly) {
        Ok(p) => p,
        Err(e) => return Err(e),
    };
    let abbrev: usize = match repo.abbrev_length() {
        Ok(n) => n,
        Err(e) => return Err(e),
    };
    let diff_body: String = patch.render_format_patch(abbrev);
    let diffstat: Diffstat = match build_diffstat(repo, &patch) {
        Ok(d) => d,
        Err(e) => return Err(e),
    };
    if !zone_fits_exec(commit.author().epoch(), commit.author().timezone()) {
        return Err(DomainError::Backend("commit time out of range".to_owned()));
    }
    let (subject, body): (String, Vec<String>) = split_message(commit.message());
    let entry = PatchEntry::new(
        oid.as_str().to_owned(),
        commit.author().full_ident(),
        Timestamp::from_signature(commit.author()),
        subject,
        number,
        body,
        diffstat,
        diff_body,
    );
    assert(entry@.diff == patch_text(patch.spec_files(), Some(abbrev)));
    Ok(entry)
}

/// Assembles the `patch` mail of `revision` (HEAD when `None`): forbidden
/// when `patch_max` is zero; otherwise one unnumbered mail signed with
/// `version`.
pub fn assemble_patch<R: Repository>(repo: &R, revision: Option<&str>, patch_max: usize, version: &str) -> (r: Result<
    FormatPatch,
    DomainError,
>)
    ensures
        patch_max == 0 ==> (r matches Err(e) && e@ == ErrorView::Forbidden("Patch view not allowed"@)),
        r matches Ok(f) ==> f.spec_entries().len() == 1 && f.spec_entries()[0].number is None && f.spec_version()
            == version@,
{
    if patch_max == 0 {
        return Err(crate::error::forbidden("Patch view not allowed"));
    }
    let oid: ObjectId = match resolve_commit(repo, revision) {
        Ok(o) => o,
        Err(e) => return Err(e),
    };
    let commit: Commit = match repo.find_commit(&oid) {
        Ok(c) => c,
        Err(e) => return Err(e),
    };
    let entry: PatchEntry = match build_entry(repo, &oid, &commit, None) {
        Ok(e) => e,
        Err(e) => return Err(e),
    };
    let mut entries: Vec<PatchEntry> = Vec::new();
    entries.push(entry);
    let f = FormatPatch::new(entries, version);
    assert(f.spec_entries()[0] == entries@[0]@);
    Ok(f)
}

/// Assembles the `patches` stream from `revision` (HEAD when `None`):
/// forbidden when `patch_max` is zero; otherwise the most recent `patch_max`
/// commits the history walk yields, oldest first, the `i`-th of `n` numbered
/// `(i, n)`, each signed with `version`.
pub fn assemble_patches<R: Repository>(repo: &R, revision: Option<&str>, patch_max: usize, version: &str) -> (r:
    Result<FormatPatch, DomainError>)
    ensures
        patch_max == 0 ==> (r matches Err(e) && e@ == ErrorView::Forbidden("Patch view not allowed"@)),
        r matches Ok(f) ==> f.spec_version() == version@ && forall|i: int|
            0 <= i < f.spec_entries().len() ==> (#[trigger] f.spec_entries()[i]).number == Some(
                ((i + 1) as usize, f.spec_entries().len() as usize),
            ),
{
    if patch_max == 0 {
        return Err(crate::error::forbidden("Patch view not allowed"));
    }
    let oid: ObjectId = match resolve_commit(repo, revision) {
        Ok(o) => o,
        Err(e) => return Err(e),
    };
    let commits: Vec<Commit> = match repo.history(&oid, None, Page::new(0, patch_max)) {
        Ok(c) => c,
        Err(e) => return Err(e),
    };
    let total: usize = commits.len();
    let mut entries: Vec<PatchEntry> = Vec::new();
    let mut offset: usize = 0;
    while offset < total
        invariant
            0 <= offset <= total,
            patch_max > 0,
            total == commits@.len(),
            entries@.len() == offset,
            forall|k: int| 0 <= k < offset ==> (#[trigger] entries@[k])@.number == Some(((k + 1) as usize, total)),
        decreases total - offset,
    {
        let commit: &Commit = &commits[total - 1 - offset];
        let entry: PatchEntry = match build_entry(repo, commit.id(), commit, Some((offset + 1, total))) {
            Ok(e) => e,
            Err(e) => return Err(e),
        };
        entries.push(entry);
        offset += 1;
    }
    let f = FormatPatch::new(entries, version);
    assert forall|i: int| 0 <= i < f.spec_entries().len() implies (#[trigger] f.spec_entries()[i]).number == Some(
        ((i + 1) as usize, f.spec_entries().len() as usize),
    ) by {
        assert(f.spec_entries()[i] == entries@[i]@);
    }
    Ok(f)
}

} // verus!
