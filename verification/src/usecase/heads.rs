//! The `heads` use case: gitweb's `git_heads` / `git_get_heads_list`, minus
//! the HTML.
//!
//! gitweb lists the branches with `for-each-ref --sort=-HEAD
//! --sort=-committerdate`: newest tip first, the branch HEAD names floated
//! above any branch tied on commit time, then by ref name. Each row carries
//! its tip's age at request time, and every branch whose tip is HEAD's commit
//! is marked current. A tip that is not a readable commit has no time (age
//! "unknown").

use vstd::prelude::*;

use crate::error::DomainError;
use crate::model::age::Age;
use crate::model::commit::Commit;
use crate::model::object_id::ObjectId;
use crate::model::ref_name::short_name;
use crate::model::ref_order::{sort_by_ref_key, stable_sorted, RefKey, RefKeyView};
use crate::model::reference::Reference;
use crate::port::repository::Repository;
use crate::text::{chars_of, push_str, string_of, str_eq};

verus! {

/// One branch as the heads listing shows it.
#[derive(Debug, Clone, PartialEq, Eq)]
pub struct HeadRow {
    name: String,
    full_name: String,
    age: Option<Age>,
    current: bool,
}

/// A head row seen through its texts; the age as its seconds.
pub struct HeadRowView {
    pub name: Seq<char>,
    pub full_name: Seq<char>,
    pub age: Option<i64>,
    pub current: bool,
}

/// An optional age seen as its seconds.
pub open spec fn age_view(a: Option<Age>) -> Option<i64> {
    match a {
        Some(x) => Some(x.spec_seconds()),
        None => None,
    }
}

impl View for HeadRow {
    type V = HeadRowView;

    closed spec fn view(&self) -> HeadRowView {
        HeadRowView {
            name: self.name@,
            full_name: self.full_name@,
            age: age_view(self.age),
            current: self.current,
        }
    }
}

impl HeadRow {
    /// The display short branch name (e.g. `main`).
    pub fn name(&self) -> (r: &str)
        ensures
            r@ == self@.name,
    {
        self.name.as_str()
    }

    /// The fully-qualified ref name (`refs/heads/<name>`).
    pub fn full_name(&self) -> (r: &str)
        ensures
            r@ == self@.full_name,
    {
        self.full_name.as_str()
    }

    /// The tip's age at request time, or `None` when the tip has no commit
    /// time (gitweb's "unknown").
    pub fn age(&self) -> (r: Option<Age>)
        ensures
            age_view(r) == self@.age,
    {
        self.age
    }

    /// Whether this branch's tip is HEAD's commit.
    pub fn current(&self) -> (r: bool)
        ensures
            r == self@.current,
    {
        self.current
    }
}

/// The assembled heads page: the branches in display order.
#[derive(Debug, Clone, PartialEq, Eq)]
pub struct HeadsView {
    rows: Vec<HeadRow>,
}

/// The rows of `v`, each seen through its texts.
pub open spec fn head_row_views(v: Seq<HeadRow>) -> Seq<HeadRowView> {
    v.map_values(|r: HeadRow| r@)
}

impl HeadsView {
    /// The rows, taking the view (for composing pages from it).
    pub fn into_rows(self) -> (r: Vec<HeadRow>)
        ensures
            head_row_views(r@) == self.spec_rows(),
    {
        self.rows
    }
    /// The rows, in display order.
    pub closed spec fn spec_rows(&self) -> Seq<HeadRowView> {
        head_row_views(self.rows@)
    }

    /// The branches, in display order.
    pub fn rows(&self) -> (r: &[HeadRow])
        ensures
            head_row_views(r@) == self.spec_rows(),
    {
        self.rows.as_slice()
    }
}

/// A branch before it becomes a row: display names, tip epoch (0 when the tip
/// has no commit time), and whether its tip is HEAD's commit.
pub struct HeadEntry {
    pub name: String,
    pub full_name: String,
    pub epoch: i64,
    pub current: bool,
}

/// A tip's age at `now`: none for a tip without a time (epoch 0).
pub open spec fn tip_age(epoch: i64, now: i64) -> Option<i64> {
    if epoch == 0 {
        None
    } else {
        Some((now - epoch) as i64)
    }
}

/// Whether the age of a tip at `epoch` fits the clock's integer.
pub open spec fn tip_age_fits(epoch: i64, now: i64) -> bool {
    epoch == 0 || i64::MIN <= now - epoch <= i64::MAX
}

/// The row of an entry seen at `now`.
pub open spec fn head_row_of(e: HeadEntry, now: i64) -> HeadRowView {
    HeadRowView { name: e.name@, full_name: e.full_name@, age: tip_age(e.epoch, now), current: e.current }
}

/// The sort key of a branch: its tip time, whether it is HEAD's branch, its
/// full name.
pub open spec fn head_key(epoch: i64, is_head_branch: bool, full_name: Seq<char>) -> RefKeyView {
    RefKeyView { epoch, first: is_head_branch, name: full_name }
}

/// The tip's age at `now`, or `None` for a tip without a time.
pub fn age_of(epoch: i64, now: i64) -> (r: Option<Age>)
    requires
        tip_age_fits(epoch, now),
    ensures
        age_view(r) == tip_age(epoch, now),
{
    if epoch == 0 {
        None
    } else {
        Some(Age::from_seconds(now - epoch))
    }
}

/// Lays out sorted branch entries as rows at `now`. Fails with `Backend` when
/// a tip time is so far from `now` that its age does not fit.
pub fn head_rows_of(entries: Vec<(RefKey, HeadEntry)>, now: i64) -> (r: Result<Vec<HeadRow>, DomainError>)
    ensures
        r is Ok <==> forall|i: int| 0 <= i < entries@.len() ==> tip_age_fits(#[trigger] entries@[i].1.epoch, now),
        r matches Ok(rows) ==> rows@.len() == entries@.len(),
        r matches Ok(rows) ==> forall|i: int|
            0 <= i < entries@.len() ==> (#[trigger] rows@[i])@ == head_row_of(entries@[i].1, now),
{
    let mut rows: Vec<HeadRow> = Vec::new();
    let mut i: usize = 0;
    while i < entries.len()
        invariant
            0 <= i <= entries@.len(),
            rows@.len() == i,
            forall|k: int| 0 <= k < i ==> tip_age_fits(#[trigger] entries@[k].1.epoch, now),
            forall|k: int| 0 <= k < i ==> (#[trigger] rows@[k])@ == head_row_of(entries@[k].1, now),
        decreases entries.len() - i,
    {
        let entry: &HeadEntry = &entries[i].1;
        if entry.epoch != 0 && now.checked_sub(entry.epoch).is_none() {
            return Err(DomainError::Backend("commit time out of range".to_owned()));
        }
        let row = HeadRow {
            name: entry.name.clone(),
            full_name: entry.full_name.clone(),
            age: age_of(entry.epoch, now),
            current: entry.current,
        };
        rows.push(row);
        i += 1;
    }
    Ok(rows)
}

/// Reads HEAD: the fully-qualified branch it points at and the commit it
/// resolves to. An unborn HEAD (the port answers `NotFound`) yields
/// `(None, None)`; any other failure propagates.
pub fn read_head<R: Repository>(repo: &R) -> (r: Result<(Option<String>, Option<ObjectId>), DomainError>)
    ensures
        r matches Ok((b, c)) ==> (b is Some <==> c is Some),
{
    match repo.head() {
        Ok(reference) => Ok((Some(reference.name().full().to_owned()), Some(reference.target().clone()))),
        Err(DomainError::NotFound(_)) => Ok((None, None)),
        Err(other) => Err(other),
    }
}

/// The ref prefix of a branch directory: `refs/<dir>/`.
pub open spec fn branch_prefix(dir: Seq<char>) -> Seq<char> {
    "refs/"@ + dir + "/"@
}

fn prefix_of(dir: &str) -> (r: String)
    ensures
        r@ == branch_prefix(dir@),
{
    let mut out: Vec<char> = chars_of("refs/");
    push_str(&mut out, dir);
    push_str(&mut out, "/");
    string_of(out.as_slice())
}

/// Lists the refs under every branch directory of `branch_refs`
/// (`map { "refs/$_" } get_branch_refs()`), one directory after another.
pub fn branch_references<R: Repository>(repo: &R, branch_refs: &[&str]) -> (r: Result<Vec<Reference>, DomainError>)
    ensures
        branch_refs@.len() == 0 ==> (r matches Ok(v) && v@.len() == 0),
{
    let mut references: Vec<Reference> = Vec::new();
    let mut i: usize = 0;
    while i < branch_refs.len()
        invariant
            0 <= i <= branch_refs@.len(),
            branch_refs@.len() == 0 ==> references@.len() == 0,
        decreases branch_refs.len() - i,
    {
        let prefix: String = prefix_of(branch_refs[i]);
        match repo.references(prefix.as_str()) {
            Ok(found) => {
                let mut more: Vec<Reference> = found;
                references.append(&mut more);
            },
            Err(e) => return Err(e),
        }
        i += 1;
    }
    Ok(references)
}

/// Whether the optional id `a` is `b`.
fn same_commit(a: Option<&ObjectId>, b: &ObjectId) -> (r: bool)
    ensures
        r == (a matches Some(x) && x@ == b@),
{
    match a {
        Some(x) => str_eq(x.as_str(), b.as_str()),
        None => false,
    }
}

/// Whether the optional name `a` is `b`.
fn same_name(a: Option<&str>, b: &str) -> (r: bool)
    ensures
        r == (a matches Some(x) && x@ == b@),
{
    match a {
        Some(x) => str_eq(x, b),
        None => false,
    }
}

/// One branch as an entry with its sort key: floated when its full name is
/// HEAD's branch, current when its target is HEAD's commit.
pub fn head_entry(
    reference: &Reference,
    name: String,
    epoch: i64,
    head_branch: Option<&str>,
    head_commit: Option<&ObjectId>,
) -> (r: (RefKey, HeadEntry))
    ensures
        r.1.name@ == name@,
        r.1.full_name@ == reference.spec_name()@,
        r.1.epoch == epoch,
        r.1.current == (head_commit matches Some(x) && x@ == reference.spec_target()@),
        r.0@ == head_key(epoch, head_branch matches Some(b) && b@ == reference.spec_name()@, reference.spec_name()@),
{
    let full_name: String = reference.name().full().to_owned();
    let is_head_branch: bool = same_name(head_branch, full_name.as_str());
    let current: bool = same_commit(head_commit, reference.target());
    let key = RefKey { epoch, first: is_head_branch, name: chars_of(full_name.as_str()) };
    (key, HeadEntry { name, full_name, epoch, current })
}

/// `e` is the entry of branch `reference` shown as `name`, its tip read at
/// time `e.1.epoch`: floated when it is HEAD's branch, current when its tip is
/// HEAD's commit, keyed by that time, that flag and its full name.
pub open spec fn head_entry_for(
    e: (RefKey, HeadEntry),
    reference: Reference,
    name: Seq<char>,
    head_branch: Option<Seq<char>>,
    head_commit: Option<Seq<char>>,
) -> bool {
    &&& e.1.name@ == name
    &&& e.1.full_name@ == reference.spec_name()@
    &&& e.1.current == (head_commit matches Some(x) && x == reference.spec_target()@)
    &&& e.0@ == head_key(e.1.epoch, head_branch matches Some(b) && b == reference.spec_name()@, reference.spec_name()@)
}

/// The text of an optional string slice.
pub open spec fn opt_str(o: Option<&str>) -> Option<Seq<char>> {
    match o {
        Some(s) => Some(s@),
        None => None,
    }
}

/// The text of an optional id.
pub open spec fn opt_id(o: Option<&ObjectId>) -> Option<Seq<char>> {
    match o {
        Some(x) => Some(x@),
        None => None,
    }
}

/// `rows` are the rows of some entries of `references` (named by `names`,
/// see [`head_entry_for`]) in gitweb's order: the entries sorted by key,
/// newest tip first, HEAD's branch first among equal times, then by full
/// name, the sort stable.
pub open spec fn head_rows_from(
    rows: Seq<HeadRowView>,
    references: Seq<Reference>,
    names: Seq<Seq<char>>,
    head_branch: Option<Seq<char>>,
    head_commit: Option<Seq<char>>,
    now: i64,
) -> bool {
    exists|entries: Seq<(RefKey, HeadEntry)>| #[trigger] sorted_head_rows(rows, entries, references, names, head_branch, head_commit, now)
}

/// The witness form of [`head_rows_from`].
pub open spec fn sorted_head_rows(
    rows: Seq<HeadRowView>,
    entries: Seq<(RefKey, HeadEntry)>,
    references: Seq<Reference>,
    names: Seq<Seq<char>>,
    head_branch: Option<Seq<char>>,
    head_commit: Option<Seq<char>>,
    now: i64,
) -> bool {
    &&& entries.len() == references.len()
    &&& entries.len() == names.len()
    &&& forall|i: int| 0 <= i < entries.len() ==> head_entry_for(#[trigger] entries[i], references[i], names[i], head_branch, head_commit)
    &&& rows.len() == entries.len()
    &&& forall|i: int| 0 <= i < rows.len() ==> #[trigger] rows[i] == head_row_of(stable_sorted(entries)[i].1, now)
}

proof fn lemma_head_rows_from(
    rows: Seq<HeadRowView>,
    entries: Seq<(RefKey, HeadEntry)>,
    references: Seq<Reference>,
    names: Seq<Seq<char>>,
    head_branch: Option<Seq<char>>,
    head_commit: Option<Seq<char>>,
    now: i64,
)
    requires
        sorted_head_rows(rows, entries, references, names, head_branch, head_commit, now),
    ensures
        head_rows_from(rows, references, names, head_branch, head_commit, now),
{
}

/// The tip time read from the repository's answer for a tip commit: the
/// committer's time of a commit found, no time (epoch 0) for a tip that is
/// not a commit (`NotFound`), any other failure as it came.
pub open spec fn tip_epoch_of(answer: Result<Commit, DomainError>) -> Result<i64, DomainError> {
    match answer {
        Ok(c) => Ok(c@.committer.epoch),
        Err(DomainError::NotFound(_)) => Ok(0),
        Err(e) => Err(e),
    }
}

/// The tip time from the repository's answer (see [`tip_epoch_of`]).
pub fn tip_epoch(answer: Result<Commit, DomainError>) -> (r: Result<i64, DomainError>)
    ensures
        r == tip_epoch_of(answer),
{
    match answer {
        Ok(commit) => Ok(commit.committer().epoch()),
        Err(DomainError::NotFound(_)) => Ok(0),
        Err(other) => Err(other),
    }
}

/// Enriches one branch with its tip's committer time, read by [`tip_epoch`]
/// from the repository's answer for the tip: a tip the port cannot read as a
/// commit (`NotFound`) has no time (epoch 0); other failures propagate.
pub fn entry_for<R: Repository>(
    repo: &R,
    reference: &Reference,
    head_branch: Option<&str>,
    head_commit: Option<&ObjectId>,
    name: String,
) -> (r: Result<(RefKey, HeadEntry), DomainError>)
    ensures
        r matches Ok(e) ==> head_entry_for(e, *reference, name@, opt_str(head_branch), opt_id(head_commit)),
{
    let epoch: i64 = match tip_epoch(repo.find_commit(reference.target())) {
        Ok(t) => t,
        Err(other) => return Err(other),
    };
    Ok(head_entry(reference, name, epoch, head_branch, head_commit))
}

/// Enriches branch-like refs into ordered head rows: each ref named by the
/// matching entry of `names`, its tip's age at `now`, and the current marker;
/// in gitweb's `--sort=-HEAD --sort=-committerdate` order. Shared by the heads
/// listing and the remotes view.
pub fn assemble_head_rows<R: Repository>(
    repo: &R,
    references: &[Reference],
    names: Vec<String>,
    head_branch: Option<&str>,
    head_commit: Option<&ObjectId>,
    now: i64,
) -> (r: Result<Vec<HeadRow>, DomainError>)
    requires
        names@.len() == references@.len(),
    ensures
        r matches Ok(rows) ==> rows@.len() == references@.len(),
        r matches Ok(rows) ==> head_rows_from(
            head_row_views(rows@),
            references@,
            crate::text::string_views(names@),
            opt_str(head_branch),
            opt_id(head_commit),
            now,
        ),
        references@.len() == 0 ==> (r matches Ok(rows) && rows@.len() == 0),
{
    let mut entries: Vec<(RefKey, HeadEntry)> = Vec::new();
    let mut i: usize = 0;
    while i < references.len()
        invariant
            0 <= i <= references@.len(),
            names@.len() == references@.len(),
            i < references@.len() ==> references@.len() > 0,
            entries@.len() == i,
            forall|k: int| 0 <= k < i ==> head_entry_for(#[trigger] entries@[k], references@[k], names@[k]@, opt_str(head_branch), opt_id(head_commit)),
        decreases references.len() - i,
    {
        let name: String = names[i].clone();
        match entry_for(repo, &references[i], head_branch, head_commit, name) {
            Ok(e) => entries.push(e),
            Err(err) => return Err(err),
        }
        i += 1;
    }
    let ghost unsorted = entries@;
    let sorted: Vec<(RefKey, HeadEntry)> = sort_by_ref_key(entries);
    match head_rows_of(sorted, now) {
        Ok(rows) => {
            proof {
                let rv = head_row_views(rows@);
                assert forall|i: int| 0 <= i < rv.len() implies #[trigger] rv[i] == head_row_of(stable_sorted(unsorted)[i].1, now) by {
                    assert(rv[i] == rows@[i]@);
                }
                assert forall|i: int| 0 <= i < unsorted.len() implies head_entry_for(#[trigger] unsorted[i], references@[i], crate::text::string_views(names@)[i], opt_str(head_branch), opt_id(head_commit)) by {
                    assert(crate::text::string_views(names@)[i] == names@[i]@);
                }
                lemma_head_rows_from(rv, unsorted, references@, crate::text::string_views(names@), opt_str(head_branch), opt_id(head_commit), now);
            }
            Ok(rows)
        },
        Err(e) => Err(e),
    }
}

/// The short names of `references` (gitweb's display names for branches).
fn short_names(references: &Vec<Reference>) -> (r: Vec<String>)
    ensures
        r@.len() == references@.len(),
        forall|i: int| 0 <= i < r@.len() ==> (#[trigger] r@[i])@ == short_name(references@[i].spec_name()@),
{
    let mut names: Vec<String> = Vec::new();
    let mut i: usize = 0;
    while i < references.len()
        invariant
            0 <= i <= references@.len(),
            names@.len() == i,
            forall|k: int| 0 <= k < i ==> (#[trigger] names@[k])@ == short_name(references@[k].spec_name()@),
        decreases references.len() - i,
    {
        names.push(references[i].short());
        i += 1;
    }
    names
}

/// The short names of the references' full names.
pub open spec fn short_name_views(references: Seq<Reference>) -> Seq<Seq<char>> {
    references.map_values(|r: Reference| short_name(r.spec_name()@))
}

/// `rows` are the head rows of some branches, each shown by its short name,
/// in gitweb's order at `now`, HEAD's branch and commit known together (see
/// [`head_rows_from`]).
pub open spec fn lists_heads(rows: Seq<HeadRowView>, now: i64) -> bool {
    exists|references: Seq<Reference>, head_branch: Option<Seq<char>>, head_commit: Option<Seq<char>>|
        #[trigger] heads_of_refs(rows, now, references, head_branch, head_commit)
}

/// The witness form of [`lists_heads`].
pub open spec fn heads_of_refs(
    rows: Seq<HeadRowView>,
    now: i64,
    references: Seq<Reference>,
    head_branch: Option<Seq<char>>,
    head_commit: Option<Seq<char>>,
) -> bool {
    &&& (head_branch is Some <==> head_commit is Some)
    &&& head_rows_from(rows, references, short_name_views(references), head_branch, head_commit, now)
}

/// Assembles the heads page over the [`Repository`] port: the branches under
/// every directory of `branch_refs`, shown by their short names, with ages at
/// `now`, in gitweb's order (see [`assemble_head_rows`]).
pub fn assemble_heads<R: Repository>(repo: &R, now: i64, branch_refs: &[&str]) -> (r: Result<HeadsView, DomainError>)
    ensures
        r matches Ok(v) ==> lists_heads(v.spec_rows(), now),
{
    let (head_branch, head_commit): (Option<String>, Option<ObjectId>) = match read_head(repo) {
        Ok(h) => h,
        Err(e) => return Err(e),
    };
    let references: Vec<Reference> = match branch_references(repo, branch_refs) {
        Ok(r) => r,
        Err(e) => return Err(e),
    };
    let names: Vec<String> = short_names(&references);
    let branch: Option<&str> = match &head_branch {
        Some(b) => Some(b.as_str()),
        None => None,
    };
    let ghost nv = crate::text::string_views(names@);
    let commit: Option<&ObjectId> = head_commit.as_ref();
    let rows: Vec<HeadRow> = match assemble_head_rows(repo, references.as_slice(), names, branch, commit, now) {
        Ok(rows) => rows,
        Err(e) => return Err(e),
    };
    let view = HeadsView { rows };
    proof {
        assert(nv =~= short_name_views(references@));
        assert(view.spec_rows() == head_row_views(view.rows@));
        assert(heads_of_refs(view.spec_rows(), now, references@, opt_str(branch), opt_id(commit)));
    }
    Ok(view)
}

} // verus!
