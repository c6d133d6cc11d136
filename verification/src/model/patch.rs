//! A two-tree patch: per changed file, what `git diff-tree --raw` says of it
//! and the hunks of its unified diff, rendered as the text `git diff-tree -p`
//! writes (the `diff --git` header, the mode, rename/copy and `index` lines,
//! then either the `---`/`+++` pair and the hunks or git's binary notice).

use vstd::prelude::*;

use crate::model::change::ChangeStatus;
use crate::model::file_mode::FileMode;
use crate::model::object_id::ObjectId;
use crate::text::{chars_of, decimal, decimal_chars, has_prefix, octal, octal_chars, pad_chars, pad_left, push_all,
    push_str, starts_with, str_eq, string_of};

verus! {

/// One changed file of a patch.
#[derive(Debug, Clone, PartialEq, Eq)]
pub struct FilePatch {
    status: ChangeStatus,
    similarity: Option<u32>,
    from_mode: FileMode,
    to_mode: FileMode,
    from_path: String,
    to_path: String,
    from_oid: ObjectId,
    to_oid: ObjectId,
    hunks: Option<Vec<String>>,
}

/// A [`FilePatch`] seen through its plain values.
pub struct FilePatchView {
    pub status: ChangeStatus,
    pub similarity: Option<u32>,
    pub from_mode: u32,
    pub to_mode: u32,
    pub from_path: Seq<char>,
    pub to_path: Seq<char>,
    pub from_oid: Seq<char>,
    pub to_oid: Seq<char>,
    pub hunks: Option<Seq<Seq<char>>>,
}

/// The texts of `v`, each as its characters.
pub open spec fn line_views(v: Seq<String>) -> Seq<Seq<char>> {
    v.map_values(|x: String| x@)
}

impl View for FilePatch {
    type V = FilePatchView;

    closed spec fn view(&self) -> FilePatchView {
        FilePatchView {
            status: self.status,
            similarity: self.similarity,
            from_mode: self.from_mode.spec_bits(),
            to_mode: self.to_mode.spec_bits(),
            from_path: self.from_path@,
            to_path: self.to_path@,
            from_oid: self.from_oid@,
            to_oid: self.to_oid@,
            hunks: match self.hunks {
                Some(h) => Some(line_views(h@)),
                None => None,
            },
        }
    }
}

/// How many of `lines` begin with `c`.
pub open spec fn count_starting(lines: Seq<Seq<char>>, c: char) -> nat
    decreases lines.len(),
{
    if lines.len() == 0 {
        0
    } else {
        count_starting(lines.drop_last(), c) + if lines.last().len() > 0 && lines.last()[0] == c {
            1nat
        } else {
            0nat
        }
    }
}

/// A mode as git prints it: six octal digits.
pub open spec fn mode_text(bits: u32) -> Seq<char> {
    pad_left(octal(bits as nat), 6, '0')
}

/// An id as the `index` line shows it: its first `n` digits when
/// abbreviating to `n`, the whole id otherwise.
pub open spec fn shown_id(id: Seq<char>, abbrev: Option<usize>) -> Seq<char> {
    match abbrev {
        Some(n) => if n < id.len() {
            id.take(n as int)
        } else {
            id
        },
        None => id,
    }
}

/// The mode lines: a created or deleted file's mode, or the old and new mode
/// of a file whose mode changed.
pub open spec fn mode_lines(f: FilePatchView) -> Seq<char> {
    if f.status == ChangeStatus::Added {
        "new file mode "@ + mode_text(f.to_mode) + "\n"@
    } else if f.status == ChangeStatus::Deleted {
        "deleted file mode "@ + mode_text(f.from_mode) + "\n"@
    } else if f.from_mode != f.to_mode {
        "old mode "@ + mode_text(f.from_mode) + "\n"@ + "new mode "@ + mode_text(f.to_mode) + "\n"@
    } else {
        Seq::empty()
    }
}

/// The similarity line of a rename or copy, when git scored it.
pub open spec fn similarity_line(f: FilePatchView) -> Seq<char> {
    match f.similarity {
        Some(s) => "similarity index "@ + decimal(s as nat) + "%\n"@,
        None => Seq::empty(),
    }
}

/// The rename or copy lines: the similarity, then where from and where to.
pub open spec fn move_lines(f: FilePatchView) -> Seq<char> {
    if f.status == ChangeStatus::Renamed {
        similarity_line(f) + "rename from "@ + f.from_path + "\n"@ + "rename to "@ + f.to_path + "\n"@
    } else if f.status == ChangeStatus::Copied {
        similarity_line(f) + "copy from "@ + f.from_path + "\n"@ + "copy to "@ + f.to_path + "\n"@
    } else {
        Seq::empty()
    }
}

/// The `index` line, present when the content changed: both ids, and the
/// mode when it did not change.
pub open spec fn index_line(f: FilePatchView, abbrev: Option<usize>) -> Seq<char> {
    if f.from_oid == f.to_oid {
        Seq::empty()
    } else {
        "index "@ + shown_id(f.from_oid, abbrev) + ".."@ + shown_id(f.to_oid, abbrev) + (if f.from_mode
            == f.to_mode {
            " "@ + mode_text(f.to_mode)
        } else {
            Seq::empty()
        }) + "\n"@
    }
}

/// The old side's name in the body: `/dev/null` for a created file.
pub open spec fn old_side(f: FilePatchView) -> Seq<char> {
    if f.status == ChangeStatus::Added {
        "/dev/null"@
    } else {
        "a/"@ + f.from_path
    }
}

/// The new side's name in the body: `/dev/null` for a deleted file.
pub open spec fn new_side(f: FilePatchView) -> Seq<char> {
    if f.status == ChangeStatus::Deleted {
        "/dev/null"@
    } else {
        "b/"@ + f.to_path
    }
}

/// Each of `lines` followed by a newline.
pub open spec fn joined_lines(lines: Seq<Seq<char>>) -> Seq<char>
    decreases lines.len(),
{
    if lines.len() == 0 {
        Seq::empty()
    } else {
        joined_lines(lines.drop_last()) + lines.last() + "\n"@
    }
}

/// The body: nothing when the content did not change, git's notice for a
/// binary file, else the `---`/`+++` pair and the hunks.
pub open spec fn body_text(f: FilePatchView) -> Seq<char> {
    if f.from_oid == f.to_oid {
        Seq::empty()
    } else {
        match f.hunks {
            None => "Binary files "@ + old_side(f) + " and "@ + new_side(f) + " differ\n"@,
            Some(h) => "--- "@ + old_side(f) + "\n"@ + "+++ "@ + new_side(f) + "\n"@ + joined_lines(h),
        }
    }
}

/// One file's section of the patch.
pub open spec fn file_text(f: FilePatchView, abbrev: Option<usize>) -> Seq<char> {
    "diff --git a/"@ + f.from_path + " b/"@ + f.to_path + "\n"@ + mode_lines(f) + move_lines(f) + index_line(
        f,
        abbrev,
    ) + body_text(f)
}

/// The files of `v`, each seen through its plain values.
pub open spec fn file_patch_views(v: Seq<FilePatch>) -> Seq<FilePatchView> {
    v.map_values(|f: FilePatch| f@)
}

/// The whole patch: each file's section in order.
pub open spec fn patch_text(files: Seq<FilePatchView>, abbrev: Option<usize>) -> Seq<char>
    decreases files.len(),
{
    if files.len() == 0 {
        Seq::empty()
    } else {
        patch_text(files.drop_last(), abbrev) + file_text(files.last(), abbrev)
    }
}

/// Counts the lines of `lines` that begin with `c`.
fn count_lines_starting(lines: &[String], c: char) -> (r: usize)
    ensures
        r == count_starting(line_views(lines@), c),
{
    let ghost v = line_views(lines@);
    let mut n: usize = 0;
    let mut i: usize = 0;
    while i < lines.len()
        invariant
            0 <= i <= lines@.len(),
            v == line_views(lines@),
            n == count_starting(v.take(i as int), c),
            n <= i,
        decreases lines.len() - i,
    {
        assert(v.take(i + 1).drop_last() =~= v.take(i as int));
        let chars: Vec<char> = chars_of(lines[i].as_str());
        assert(v.take(i + 1).last() == chars@);
        if chars.len() > 0 && chars[0] == c {
            n += 1;
        }
        i += 1;
    }
    assert(v.take(lines@.len() as int) =~= v);
    n
}

/// Appends the six-digit octal form of `mode` (see [`mode_text`]).
fn push_mode(out: &mut Vec<char>, mode: FileMode)
    ensures
        final(out)@ == old(out)@ + mode_text(mode.spec_bits()),
{
    let digits: Vec<char> = pad_chars(octal_chars(mode.bits()), 6, '0');
    push_all(out, &digits);
}

/// Appends the id as the `index` line shows it (see [`shown_id`]).
fn push_id(out: &mut Vec<char>, id: &ObjectId, abbrev: Option<usize>)
    ensures
        final(out)@ == old(out)@ + shown_id(id@, abbrev),
{
    match abbrev {
        Some(n) => push_str(out, id.abbreviated_to(n)),
        None => push_str(out, id.as_str()),
    }
}

impl FilePatch {
    /// A changed file from its parts: `similarity` for a rename or copy, and
    /// `hunks` the lines of its unified diff (`None` for a binary file).
    pub fn new(
        status: ChangeStatus,
        similarity: Option<u32>,
        from_mode: FileMode,
        to_mode: FileMode,
        from_path: String,
        to_path: String,
        from_oid: ObjectId,
        to_oid: ObjectId,
        hunks: Option<Vec<String>>,
    ) -> (r: FilePatch)
        ensures
            r@.status == status,
            r@.similarity == similarity,
            r@.from_mode == from_mode.spec_bits(),
            r@.to_mode == to_mode.spec_bits(),
            r@.from_path == from_path@,
            r@.to_path == to_path@,
            r@.from_oid == from_oid@,
            r@.to_oid == to_oid@,
            r@.hunks == (match hunks {
                Some(h) => Some(line_views(h@)),
                None => None::<Seq<Seq<char>>>,
            }),
    {
        FilePatch { status, similarity, from_mode, to_mode, from_path, to_path, from_oid, to_oid, hunks }
    }

    /// How the file changed.
    pub fn status(&self) -> (r: ChangeStatus)
        ensures
            r == self@.status,
    {
        self.status
    }

    /// The similarity score of a rename or copy.
    pub fn similarity(&self) -> (r: Option<u32>)
        ensures
            r == self@.similarity,
    {
        self.similarity
    }

    /// The old mode (zero for a created file).
    pub fn from_mode(&self) -> (r: FileMode)
        ensures
            r.spec_bits() == self@.from_mode,
    {
        self.from_mode
    }

    /// The new mode (zero for a deleted file).
    pub fn to_mode(&self) -> (r: FileMode)
        ensures
            r.spec_bits() == self@.to_mode,
    {
        self.to_mode
    }

    /// The old path.
    pub fn from_path(&self) -> (r: &str)
        ensures
            r@ == self@.from_path,
    {
        self.from_path.as_str()
    }

    /// The new path.
    pub fn to_path(&self) -> (r: &str)
        ensures
            r@ == self@.to_path,
    {
        self.to_path.as_str()
    }

    /// The old blob id (all zeros for a created file).
    pub fn from_oid(&self) -> (r: &ObjectId)
        ensures
            r@ == self@.from_oid,
    {
        &self.from_oid
    }

    /// The new blob id (all zeros for a deleted file).
    pub fn to_oid(&self) -> (r: &ObjectId)
        ensures
            r@ == self@.to_oid,
    {
        &self.to_oid
    }

    /// Whether git treats the file as binary (it has no hunks).
    pub fn is_binary(&self) -> (r: bool)
        ensures
            r == self@.hunks is None,
    {
        self.hunks.is_none()
    }

    /// The added and deleted line counts of a text change; `None` for a
    /// binary file.
    pub fn line_counts(&self) -> (r: Option<(usize, usize)>)
        ensures
            match self@.hunks {
                Some(h) => r == Some((count_starting(h, '+') as usize, count_starting(h, '-') as usize)),
                None => r is None,
            },
    {
        match &self.hunks {
            Some(h) => Some((count_lines_starting(h.as_slice(), '+'), count_lines_starting(h.as_slice(), '-'))),
            None => None,
        }
    }

    /// Appends this file's section (see [`file_text`]).
    fn push_text(&self, out: &mut Vec<char>, abbrev: Option<usize>)
        ensures
            final(out)@ == old(out)@ + file_text(self@, abbrev),
    {
        let ghost start = out@;
        self.push_head(out);
        let ghost a = out@;
        self.push_mode_lines(out);
        let ghost b = out@;
        self.push_move_lines(out);
        let ghost c = out@;
        self.push_index_line(out, abbrev);
        let ghost d = out@;
        self.push_body(out);
        assert(out@ =~= start + file_text(self@, abbrev));
    }

    /// Appends the `diff --git` line.
    fn push_head(&self, out: &mut Vec<char>)
        ensures
            final(out)@ == old(out)@ + ("diff --git a/"@ + self@.from_path + " b/"@ + self@.to_path + "\n"@),
    {
        let ghost start = out@;
        push_str(out, "diff --git a/");
        push_str(out, self.from_path.as_str());
        push_str(out, " b/");
        push_str(out, self.to_path.as_str());
        push_str(out, "\n");
        assert(out@ =~= start + ("diff --git a/"@ + self@.from_path + " b/"@ + self@.to_path + "\n"@));
    }

    /// Appends the mode lines (see [`mode_lines`]).
    fn push_mode_lines(&self, out: &mut Vec<char>)
        ensures
            final(out)@ == old(out)@ + mode_lines(self@),
    {
        let ghost start = out@;
        match self.status {
            ChangeStatus::Added => {
                push_str(out, "new file mode ");
                push_mode(out, self.to_mode);
                push_str(out, "\n");
            },
            ChangeStatus::Deleted => {
                push_str(out, "deleted file mode ");
                push_mode(out, self.from_mode);
                push_str(out, "\n");
            },
            _ => if self.from_mode.bits() != self.to_mode.bits() {
                push_str(out, "old mode ");
                push_mode(out, self.from_mode);
                push_str(out, "\n");
                push_str(out, "new mode ");
                push_mode(out, self.to_mode);
                push_str(out, "\n");
            },
        }
        assert(out@ =~= start + mode_lines(self@));
    }

    /// Appends the rename or copy lines (see [`move_lines`]).
    fn push_move_lines(&self, out: &mut Vec<char>)
        ensures
            final(out)@ == old(out)@ + move_lines(self@),
    {
        let ghost start = out@;
        let (from_word, to_word): (&str, &str) = match self.status {
            ChangeStatus::Renamed => ("rename from ", "rename to "),
            ChangeStatus::Copied => ("copy from ", "copy to "),
            _ => return,
        };
        match self.similarity {
            Some(s) => {
                push_str(out, "similarity index ");
                let digits: Vec<char> = decimal_chars(s as u128);
                push_all(out, &digits);
                push_str(out, "%\n");
            },
            None => {},
        }
        assert(out@ =~= start + similarity_line(self@));
        push_str(out, from_word);
        push_str(out, self.from_path.as_str());
        push_str(out, "\n");
        push_str(out, to_word);
        push_str(out, self.to_path.as_str());
        push_str(out, "\n");
        assert(out@ =~= start + move_lines(self@));
    }

    /// Appends the `index` line (see [`index_line`]).
    fn push_index_line(&self, out: &mut Vec<char>, abbrev: Option<usize>)
        ensures
            final(out)@ == old(out)@ + index_line(self@, abbrev),
    {
        let ghost start = out@;
        if str_eq(self.from_oid.as_str(), self.to_oid.as_str()) {
            return;
        }
        push_str(out, "index ");
        push_id(out, &self.from_oid, abbrev);
        push_str(out, "..");
        push_id(out, &self.to_oid, abbrev);
        if self.from_mode.bits() == self.to_mode.bits() {
            push_str(out, " ");
            push_mode(out, self.to_mode);
        }
        push_str(out, "\n");
        assert(out@ =~= start + index_line(self@, abbrev));
    }

    /// Appends the body (see [`body_text`]).
    fn push_body(&self, out: &mut Vec<char>)
        ensures
            final(out)@ == old(out)@ + body_text(self@),
    {
        let ghost start = out@;
        if str_eq(self.from_oid.as_str(), self.to_oid.as_str()) {
            return;
        }
        let added: bool = match self.status {
            ChangeStatus::Added => true,
            _ => false,
        };
        let deleted: bool = match self.status {
            ChangeStatus::Deleted => true,
            _ => false,
        };
        match &self.hunks {
            None => {
                push_str(out, "Binary files ");
                self.push_old_side(out, added);
                push_str(out, " and ");
                self.push_new_side(out, deleted);
                push_str(out, " differ\n");
            },
            Some(h) => {
                push_str(out, "--- ");
                self.push_old_side(out, added);
                push_str(out, "\n");
                push_str(out, "+++ ");
                self.push_new_side(out, deleted);
                push_str(out, "\n");
                push_lines(out, h.as_slice());
            },
        }
        assert(out@ =~= start + body_text(self@));
    }

    /// Appends the old side's name (see [`old_side`]).
    fn push_old_side(&self, out: &mut Vec<char>, added: bool)
        requires
            added == (self@.status == ChangeStatus::Added),
        ensures
            final(out)@ == old(out)@ + old_side(self@),
    {
        if added {
            push_str(out, "/dev/null");
        } else {
            push_str(out, "a/");
            push_str(out, self.from_path.as_str());
            assert(out@ =~= old(out)@ + old_side(self@));
        }
    }

    /// Appends the new side's name (see [`new_side`]).
    fn push_new_side(&self, out: &mut Vec<char>, deleted: bool)
        requires
            deleted == (self@.status == ChangeStatus::Deleted),
        ensures
            final(out)@ == old(out)@ + new_side(self@),
    {
        if deleted {
            push_str(out, "/dev/null");
        } else {
            push_str(out, "b/");
            push_str(out, self.to_path.as_str());
            assert(out@ =~= old(out)@ + new_side(self@));
        }
    }

    /// This file's section of the patch, with full ids (see [`file_text`]).
    pub fn render(&self, abbrev: Option<usize>) -> (r: String)
        ensures
            r@ == file_text(self@, abbrev),
    {
        let mut out: Vec<char> = Vec::new();
        self.push_text(&mut out, abbrev);
        assert(out@ =~= file_text(self@, abbrev));
        string_of(out.as_slice())
    }
}

/// Appends each of `lines` followed by a newline (see [`joined_lines`]).
fn push_lines(out: &mut Vec<char>, lines: &[String])
    ensures
        final(out)@ == old(out)@ + joined_lines(line_views(lines@)),
{
    let ghost v = line_views(lines@);
    let ghost start = out@;
    let mut i: usize = 0;
    while i < lines.len()
        invariant
            0 <= i <= lines@.len(),
            v == line_views(lines@),
            out@ == start + joined_lines(v.take(i as int)),
        decreases lines.len() - i,
    {
        assert(v.take(i + 1).drop_last() =~= v.take(i as int));
        assert(v.take(i + 1).last() == lines@[i as int]@);
        push_str(out, lines[i].as_str());
        push_str(out, "\n");
        i += 1;
        assert(out@ =~= start + joined_lines(v.take(i as int)));
    }
    assert(v.take(lines@.len() as int) =~= v);
}

/// Which file a selection found: exactly one, none, or more than one.
pub enum FileSelection<'a> {
    /// The one matching file.
    One(&'a FilePatch),
    /// No file matches.
    Missing,
    /// More than one file matches.
    Ambiguous,
}

/// A patch: its changed files, in git's order.
#[derive(Debug, Clone, PartialEq, Eq)]
pub struct Patch {
    files: Vec<FilePatch>,
}

/// How many of `files` have new path `path`.
pub open spec fn count_to_path(files: Seq<FilePatchView>, path: Seq<char>) -> nat
    decreases files.len(),
{
    if files.len() == 0 {
        0
    } else {
        count_to_path(files.drop_last(), path) + if files.last().to_path == path {
            1nat
        } else {
            0nat
        }
    }
}

/// How many of `files` have a new blob id beginning with `id`.
pub open spec fn count_to_oid(files: Seq<FilePatchView>, id: Seq<char>) -> nat
    decreases files.len(),
{
    if files.len() == 0 {
        0
    } else {
        count_to_oid(files.drop_last(), id) + if has_prefix(files.last().to_oid, id) {
            1nat
        } else {
            0nat
        }
    }
}

/// The index of the first of `files` with new path `path`.
pub open spec fn first_to_path(files: Seq<FilePatchView>, path: Seq<char>) -> Option<int>
    decreases files.len(),
{
    if files.len() == 0 {
        None
    } else {
        match first_to_path(files.drop_last(), path) {
            Some(i) => Some(i),
            None => if files.last().to_path == path {
                Some(files.len() - 1)
            } else {
                None
            },
        }
    }
}

impl Patch {
    /// The changed files, seen through their plain values.
    pub closed spec fn spec_files(&self) -> Seq<FilePatchView> {
        file_patch_views(self.files@)
    }

    /// A patch of `files`.
    pub fn new(files: Vec<FilePatch>) -> (r: Patch)
        ensures
            r.spec_files() == file_patch_views(files@),
    {
        Patch { files }
    }

    /// The changed files, in git's order.
    pub fn files(&self) -> (r: &[FilePatch])
        ensures
            file_patch_views(r@) == self.spec_files(),
    {
        self.files.as_slice()
    }

    /// The patch text with full ids (see [`patch_text`]).
    pub fn render(&self) -> (r: String)
        ensures
            r@ == patch_text(self.spec_files(), None),
    {
        self.render_with(None)
    }

    /// The patch text with ids abbreviated to `abbrev` digits, the form bare
    /// `git diff-tree -p` writes.
    pub fn render_abbreviated(&self, abbrev: usize) -> (r: String)
        ensures
            r@ == patch_text(self.spec_files(), Some(abbrev)),
    {
        self.render_with(Some(abbrev))
    }

    /// The patch text a `git format-patch` mail carries, ids abbreviated to
    /// `abbrev` digits. A binary file is shown by git's notice.
    pub fn render_format_patch(&self, abbrev: usize) -> (r: String)
        ensures
            r@ == patch_text(self.spec_files(), Some(abbrev)),
    {
        self.render_with(Some(abbrev))
    }

    /// The patch text (see [`patch_text`]).
    fn render_with(&self, abbrev: Option<usize>) -> (r: String)
        ensures
            r@ == patch_text(self.spec_files(), abbrev),
    {
        let ghost v = self.spec_files();
        let mut out: Vec<char> = Vec::new();
        let mut i: usize = 0;
        while i < self.files.len()
            invariant
                0 <= i <= self.files@.len(),
                v == file_patch_views(self.files@),
                out@ == patch_text(v.take(i as int), abbrev),
            decreases self.files.len() - i,
        {
            assert(v.take(i + 1).drop_last() =~= v.take(i as int));
            assert(v.take(i + 1).last() == self.files@[i as int]@);
            self.files[i].push_text(&mut out, abbrev);
            i += 1;
        }
        assert(v.take(self.files@.len() as int) =~= v);
        string_of(out.as_slice())
    }

    /// The section of the first file whose new path is `path`, ids
    /// abbreviated to `abbrev` digits; `None` when no file has that path.
    pub fn render_file_abbreviated(&self, path: &str, abbrev: usize) -> (r: Option<String>)
        ensures
            match first_to_path(self.spec_files(), path@) {
                Some(i) => r matches Some(t) && t@ == file_text(self.spec_files()[i], Some(abbrev)),
                None => r is None,
            },
    {
        let ghost v = self.spec_files();
        let mut i: usize = 0;
        while i < self.files.len()
            invariant
                0 <= i <= self.files@.len(),
                v == file_patch_views(self.files@),
                first_to_path(v.take(i as int), path@) is None,
            decreases self.files.len() - i,
        {
            assert(v.take(i + 1).drop_last() =~= v.take(i as int));
            assert(v.take(i + 1).last() == self.files@[i as int]@);
            if str_eq(self.files[i].to_path(), path) {
                proof {
                    lemma_first_to_path_prefix(v, path@, i + 1);
                }
                return Some(self.files[i].render(Some(abbrev)));
            }
            i += 1;
        }
        assert(v.take(self.files@.len() as int) =~= v);
        None
    }

    /// Selects the file whose new path is `path`: the one, none, or more than
    /// one.
    pub fn select_by_to_path(&self, path: &str) -> (r: FileSelection<'_>)
        ensures
            count_to_path(self.spec_files(), path@) == 0 <==> r is Missing,
            count_to_path(self.spec_files(), path@) == 1 <==> r is One,
            count_to_path(self.spec_files(), path@) > 1 <==> r is Ambiguous,
            r matches FileSelection::One(f) ==> f@.to_path == path@ && exists|i: int|
                0 <= i < self.spec_files().len() && self.spec_files()[i] == f@,
    {
        let ghost v = self.spec_files();
        let mut found: Option<usize> = None;
        let mut count: usize = 0;
        let mut i: usize = 0;
        while i < self.files.len()
            invariant
                0 <= i <= self.files@.len(),
                v == file_patch_views(self.files@),
                count == count_to_path(v.take(i as int), path@),
                count <= i,
                count == 0 <==> found is None,
                found matches Some(k) ==> k < i && v[k as int].to_path == path@,
            decreases self.files.len() - i,
        {
            assert(v.take(i + 1).drop_last() =~= v.take(i as int));
            assert(v.take(i + 1).last() == self.files@[i as int]@);
            if str_eq(self.files[i].to_path(), path) {
                if found.is_none() {
                    found = Some(i);
                }
                count += 1;
            }
            i += 1;
        }
        assert(v.take(self.files@.len() as int) =~= v);
        match found {
            None => FileSelection::Missing,
            Some(k) => if count == 1 {
                FileSelection::One(&self.files[k])
            } else {
                FileSelection::Ambiguous
            },
        }
    }

    /// Selects the file whose new blob id begins with `id` (gitweb's
    /// by-hash lookup): the one, none, or more than one.
    pub fn select_by_to_oid(&self, id: &str) -> (r: FileSelection<'_>)
        ensures
            count_to_oid(self.spec_files(), id@) == 0 <==> r is Missing,
            count_to_oid(self.spec_files(), id@) == 1 <==> r is One,
            count_to_oid(self.spec_files(), id@) > 1 <==> r is Ambiguous,
            r matches FileSelection::One(f) ==> has_prefix(f@.to_oid, id@) && exists|i: int|
                0 <= i < self.spec_files().len() && self.spec_files()[i] == f@,
    {
        let ghost v = self.spec_files();
        let prefix: Vec<char> = chars_of(id);
        let mut found: Option<usize> = None;
        let mut count: usize = 0;
        let mut i: usize = 0;
        while i < self.files.len()
            invariant
                0 <= i <= self.files@.len(),
                v == file_patch_views(self.files@),
                prefix@ == id@,
                count == count_to_oid(v.take(i as int), id@),
                count <= i,
                count == 0 <==> found is None,
                found matches Some(k) ==> k < i && has_prefix(v[k as int].to_oid, id@),
            decreases self.files.len() - i,
        {
            assert(v.take(i + 1).drop_last() =~= v.take(i as int));
            assert(v.take(i + 1).last() == self.files@[i as int]@);
            let oid: Vec<char> = chars_of(self.files[i].to_oid().as_str());
            if starts_with(&oid, &prefix) {
                if found.is_none() {
                    found = Some(i);
                }
                count += 1;
            }
            i += 1;
        }
        assert(v.take(self.files@.len() as int) =~= v);
        match found {
            None => FileSelection::Missing,
            Some(k) => if count == 1 {
                FileSelection::One(&self.files[k])
            } else {
                FileSelection::Ambiguous
            },
        }
    }
}

/// Once a prefix of `files` has its first match with path `path` at its last
/// index, every longer prefix, and the whole list, has it there too.
proof fn lemma_first_to_path_prefix(files: Seq<FilePatchView>, path: Seq<char>, n: int)
    requires
        0 < n <= files.len(),
        first_to_path(files.take(n - 1), path) is None,
        files[n - 1].to_path == path,
    ensures
        first_to_path(files, path) == Some(n - 1),
    decreases files.len() - n,
{
    assert(files.take(n).drop_last() =~= files.take(n - 1));
    assert(first_to_path(files.take(n), path) == Some(n - 1));
    if n < files.len() {
        lemma_first_to_path_grow(files, path, n);
    } else {
        assert(files.take(n) =~= files);
    }
}

/// A first match in a prefix stays the first match in the whole list.
proof fn lemma_first_to_path_grow(files: Seq<FilePatchView>, path: Seq<char>, n: int)
    requires
        0 < n <= files.len(),
        first_to_path(files.take(n), path) is Some,
    ensures
        first_to_path(files, path) == first_to_path(files.take(n), path),
    decreases files.len() - n,
{
    if n < files.len() {
        assert(files.take(n + 1).drop_last() =~= files.take(n));
        lemma_first_to_path_grow(files, path, n + 1);
    } else {
        assert(files.take(n) =~= files);
    }
}

} // verus!
