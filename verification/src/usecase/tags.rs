//! The `tags` use case: gitweb's `git_tags` / `git_get_tags_list`, minus the
//! HTML.
//!
//! gitweb lists the refs under `refs/tags/` with `for-each-ref
//! --sort=-creatordate`: newest creation first, then by ref name. An annotated
//! tag (its ref names a tag object) is peeled: the tagged object's id and kind
//! become the row's `refid` / `reftype`, the tag message's subject is shown,
//! and the row ages by the tagger's time. A lightweight tag points straight at
//! its object, has no subject, and ages by a commit's committer time; one of a
//! blob or tree carries no time at all.

use vstd::prelude::*;

use crate::error::DomainError;
use crate::model::age::Age;
use crate::model::commit::first_nonempty;
use crate::model::object_id::ObjectId;
use crate::model::object_kind::ObjectKind;
use crate::model::ref_name::short_name;
use crate::model::ref_order::{sort_by_ref_key, stable_sorted, RefKey, RefKeyView};
use crate::model::reference::Reference;
use crate::model::tag::Tag;
use crate::port::repository::Repository;
use crate::text::{chars_of, std_lines, std_lines_of, string_views};
use crate::usecase::heads::{age_of, age_view, tip_age, tip_age_fits};

verus! {

/// One tag as the tags listing shows it.
#[derive(Debug, Clone, PartialEq, Eq)]
pub struct TagRow {
    name: String,
    full_name: String,
    tag_id: ObjectId,
    reftype: ObjectKind,
    refid: ObjectId,
    subject: Option<String>,
    annotated: bool,
    age: Option<Age>,
}

/// A tag row seen through its texts; the age as its seconds.
pub struct TagRowView {
    pub name: Seq<char>,
    pub full_name: Seq<char>,
    pub tag_id: Seq<char>,
    pub reftype: ObjectKind,
    pub refid: Seq<char>,
    pub subject: Option<Seq<char>>,
    pub annotated: bool,
    pub age: Option<i64>,
}

impl View for TagRow {
    type V = TagRowView;

    closed spec fn view(&self) -> TagRowView {
        TagRowView {
            name: self.name@,
            full_name: self.full_name@,
            tag_id: self.tag_id@,
            reftype: self.reftype,
            refid: self.refid@,
            subject: match self.subject {
                Some(s) => Some(s@),
                None => None,
            },
            annotated: self.annotated,
            age: age_view(self.age),
        }
    }
}

impl TagRow {
    /// The display short tag name (e.g. `v1.0`).
    pub fn name(&self) -> (r: &str)
        ensures
            r@ == self@.name,
    {
        self.name.as_str()
    }

    /// The fully-qualified ref name (`refs/tags/<name>`).
    pub fn full_name(&self) -> (r: &str)
        ensures
            r@ == self@.full_name,
    {
        self.full_name.as_str()
    }

    /// The id the ref points at: the tag object, or for a lightweight tag the
    /// tagged object itself.
    pub fn tag_id(&self) -> (r: &ObjectId)
        ensures
            r@ == self@.tag_id,
    {
        &self.tag_id
    }

    /// The kind of the tagged object.
    pub fn reftype(&self) -> (r: ObjectKind)
        ensures
            r == self@.reftype,
    {
        self.reftype
    }

    /// The id of the tagged object.
    pub fn refid(&self) -> (r: &ObjectId)
        ensures
            r@ == self@.refid,
    {
        &self.refid
    }

    /// The tag message's subject, for an annotated tag.
    pub fn subject(&self) -> (r: Option<&str>)
        ensures
            match self@.subject {
                Some(s) => r matches Some(x) && x@ == s,
                None => r is None,
            },
    {
        match &self.subject {
            Some(s) => Some(s.as_str()),
            None => None,
        }
    }

    /// Whether the ref names a tag object.
    pub fn annotated(&self) -> (r: bool)
        ensures
            r == self@.annotated,
    {
        self.annotated
    }

    /// The tag's age at request time, or `None` when it carries no time.
    pub fn age(&self) -> (r: Option<Age>)
        ensures
            age_view(r) == self@.age,
    {
        self.age
    }
}

/// The assembled tags page: the tags in display order.
#[derive(Debug, Clone, PartialEq, Eq)]
pub struct TagsView {
    rows: Vec<TagRow>,
}

/// The rows of `v`, each seen through its texts.
pub open spec fn tag_row_views(v: Seq<TagRow>) -> Seq<TagRowView> {
    v.map_values(|r: TagRow| r@)
}

impl TagsView {
    /// The rows, taking the view (for composing pages from it).
    pub fn into_rows(self) -> (r: Vec<TagRow>)
        ensures
            tag_row_views(r@) == self.spec_rows(),
    {
        self.rows
    }
    /// The rows, in display order.
    pub closed spec fn spec_rows(&self) -> Seq<TagRowView> {
        tag_row_views(self.rows@)
    }

    /// The tags, in display order.
    pub fn rows(&self) -> (r: &[TagRow])
        ensures
            tag_row_views(r@) == self.spec_rows(),
    {
        self.rows.as_slice()
    }
}

/// A tag before it becomes a row: the row's fields and its creation epoch
/// (0 when it carries no time).
pub struct TagEntry {
    pub name: String,
    pub full_name: String,
    pub tag_id: ObjectId,
    pub reftype: ObjectKind,
    pub refid: ObjectId,
    pub subject: Option<String>,
    pub annotated: bool,
    pub epoch: i64,
}

/// The first non-empty line of a tag message, or the empty text.
pub open spec fn tag_subject(message: Seq<char>) -> Seq<char> {
    match first_nonempty(std_lines(message)) {
        Some(l) => l,
        None => seq![],
    }
}

/// The first non-empty line of `message` (see [`tag_subject`]).
pub fn subject_line(message: &str) -> (r: String)
    ensures
        r@ == tag_subject(message@),
{
    let lines: Vec<String> = std_lines_of(message);
    let ghost all = std_lines(message@);
    let mut i: usize = 0;
    assert(all.skip(0) =~= all);
    while i < lines.len()
        invariant
            0 <= i <= lines@.len(),
            all == std_lines(message@),
            string_views(lines@) == all,
            first_nonempty(all) == first_nonempty(all.skip(i as int)),
        decreases lines.len() - i,
    {
        let ghost rest = all.skip(i as int);
        assert(rest[0] == lines@[i as int]@);
        if !lines[i].as_str().is_empty() {
            return lines[i].clone();
        }
        assert(rest.drop_first() =~= all.skip(i + 1));
        i += 1;
    }
    assert(all.skip(i as int) =~= Seq::<Seq<char>>::empty());
    String::new()
}

/// The entry of an annotated tag: peeled to the tagged object, with the
/// message's subject and the tagger's time (0 without a tagger).
pub fn annotated_entry(reference: &Reference, tag: &Tag) -> (r: TagEntry)
    ensures
        r.name@ == short_name(reference.spec_name()@),
        r.full_name@ == reference.spec_name()@,
        r.tag_id@ == reference.spec_target()@,
        r.reftype == tag.spec_object_kind(),
        r.refid@ == tag.spec_object()@,
        r.subject matches Some(s) && s@ == tag_subject(tag.spec_message()),
        r.annotated,
        r.epoch == match tag.spec_tagger() {
            Some(t) => t@.epoch,
            None => 0,
        },
{
    let epoch: i64 = match tag.tagger() {
        Some(who) => who.epoch(),
        None => 0,
    };
    TagEntry {
        name: reference.short(),
        full_name: reference.name().full().to_owned(),
        tag_id: reference.target().clone(),
        reftype: tag.object_kind(),
        refid: tag.object().clone(),
        subject: Some(subject_line(tag.message())),
        annotated: true,
        epoch,
    }
}

/// The entry of a lightweight tag of an object of `kind` made at `epoch`.
pub fn lightweight_entry(reference: &Reference, kind: ObjectKind, epoch: i64) -> (r: TagEntry)
    ensures
        r.name@ == short_name(reference.spec_name()@),
        r.full_name@ == reference.spec_name()@,
        r.tag_id@ == reference.spec_target()@,
        r.reftype == kind,
        r.refid@ == reference.spec_target()@,
        r.subject is None,
        !r.annotated,
        r.epoch == epoch,
{
    let target: ObjectId = reference.target().clone();
    TagEntry {
        name: reference.short(),
        full_name: reference.name().full().to_owned(),
        tag_id: target.clone(),
        reftype: kind,
        refid: target,
        subject: None,
        annotated: false,
        epoch,
    }
}

/// `e` is the entry of tag ref `reference`: named by it, its id the ref's
/// target, and a lightweight tag names that target itself, with no subject.
pub open spec fn tag_entry_for(e: TagEntry, reference: Reference) -> bool {
    &&& e.name@ == short_name(reference.spec_name()@)
    &&& e.full_name@ == reference.spec_name()@
    &&& e.tag_id@ == reference.spec_target()@
    &&& (!e.annotated ==> e.refid@ == reference.spec_target()@ && e.subject is None)
    &&& (e.annotated ==> e.subject is Some)
}

/// Classifies one tag ref by the kind of the object it names: a tag object
/// is read and peeled, a commit gives its committer time, anything else no
/// time.
pub fn entry_for<R: Repository>(repo: &R, reference: &Reference) -> (r: Result<TagEntry, DomainError>)
    ensures
        r matches Ok(e) ==> tag_entry_for(e, *reference),
{
    let target: &ObjectId = reference.target();
    let kind: ObjectKind = match repo.object_kind(target) {
        Ok(k) => k,
        Err(e) => return Err(e),
    };
    match kind {
        ObjectKind::Tag => match repo.find_tag(target) {
            Ok(tag) => Ok(annotated_entry(reference, &tag)),
            Err(e) => Err(e),
        },
        ObjectKind::Commit => match repo.find_commit(target) {
            Ok(commit) => Ok(lightweight_entry(reference, ObjectKind::Commit, commit.committer().epoch())),
            Err(e) => Err(e),
        },
        other => Ok(lightweight_entry(reference, other, 0)),
    }
}

/// The row of a tag entry seen at `now`.
pub open spec fn tag_row_of(e: TagEntry, now: i64) -> TagRowView {
    TagRowView {
        name: e.name@,
        full_name: e.full_name@,
        tag_id: e.tag_id@,
        reftype: e.reftype,
        refid: e.refid@,
        subject: match e.subject {
            Some(s) => Some(s@),
            None => None,
        },
        annotated: e.annotated,
        age: tip_age(e.epoch, now),
    }
}

/// The sort key of a tag: its creation time and full name.
pub open spec fn tag_key(e: TagEntry) -> RefKeyView {
    RefKeyView { epoch: e.epoch, first: false, name: e.full_name@ }
}

/// `keyed` is `entries`, in order, each paired with its sort key.
pub open spec fn keyed_entries(keyed: Seq<(RefKey, TagEntry)>, entries: Seq<TagEntry>) -> bool {
    &&& keyed.len() == entries.len()
    &&& forall|i: int| 0 <= i < keyed.len() ==> (#[trigger] keyed[i]).0@ == tag_key(keyed[i].1) && keyed[i].1 == entries[i]
}

/// Pairs each entry with its sort key.
pub fn keyed_tags(entries: Vec<TagEntry>) -> (r: Vec<(RefKey, TagEntry)>)
    ensures
        keyed_entries(r@, entries@),
{
    let ghost all = entries@;
    let mut rest: Vec<TagEntry> = entries;
    let mut out: Vec<(RefKey, TagEntry)> = Vec::new();
    assert(all.skip(0) =~= all);
    while rest.len() > 0
        invariant
            out@.len() <= all.len(),
            rest@ == all.skip(out@.len() as int),
            forall|i: int| 0 <= i < out@.len() ==> (#[trigger] out@[i]).0@ == tag_key(out@[i].1) && out@[i].1 == all[i],
        decreases rest.len(),
    {
        let ghost k = out@.len() as int;
        let e: TagEntry = rest.remove(0);
        assert(e == all[k]);
        assert(rest@ =~= all.skip(k + 1));
        let key = RefKey { epoch: e.epoch, first: false, name: chars_of(e.full_name.as_str()) };
        out.push((key, e));
    }
    out
}

/// Lays out sorted tag entries as rows at `now`. Fails with `Backend` when a
/// creation time is so far from `now` that its age does not fit.
pub fn tag_rows_of(entries: Vec<(RefKey, TagEntry)>, now: i64) -> (r: Result<Vec<TagRow>, DomainError>)
    ensures
        r is Ok <==> forall|i: int| 0 <= i < entries@.len() ==> tip_age_fits(#[trigger] entries@[i].1.epoch, now),
        r matches Ok(rows) ==> rows@.len() == entries@.len(),
        r matches Ok(rows) ==> forall|i: int|
            0 <= i < entries@.len() ==> (#[trigger] rows@[i])@ == tag_row_of(entries@[i].1, now),
{
    let mut rows: Vec<TagRow> = Vec::new();
    let mut i: usize = 0;
    while i < entries.len()
        invariant
            0 <= i <= entries@.len(),
            rows@.len() == i,
            forall|k: int| 0 <= k < i ==> tip_age_fits(#[trigger] entries@[k].1.epoch, now),
            forall|k: int| 0 <= k < i ==> (#[trigger] rows@[k])@ == tag_row_of(entries@[k].1, now),
        decreases entries.len() - i,
    {
        let e: &TagEntry = &entries[i].1;
        if e.epoch != 0 && now.checked_sub(e.epoch).is_none() {
            return Err(DomainError::Backend("commit time out of range".to_owned()));
        }
        let subject: Option<String> = match &e.subject {
            Some(s) => Some(s.clone()),
            None => None,
        };
        rows.push(TagRow {
            name: e.name.clone(),
            full_name: e.full_name.clone(),
            tag_id: e.tag_id.clone(),
            reftype: e.reftype,
            refid: e.refid.clone(),
            subject,
            annotated: e.annotated,
            age: age_of(e.epoch, now),
        });
        i += 1;
    }
    Ok(rows)
}

/// `rows` are the rows at `now` of `entries` in listing order: sorted by
/// creation time, newest first, then by full name, the sort stable.
pub open spec fn sorted_tag_rows(rows: Seq<TagRowView>, entries: Seq<TagEntry>, now: i64) -> bool {
    exists|keyed: Seq<(RefKey, TagEntry)>| #[trigger] keyed_entries(keyed, entries) && {
        let sorted = stable_sorted(keyed);
        &&& rows.len() == sorted.len()
        &&& forall|i: int| 0 <= i < rows.len() ==> #[trigger] rows[i] == tag_row_of(sorted[i].1, now)
    }
}

/// The tags page of the tag entries `entries` at `now` (see
/// [`sorted_tag_rows`]); an entry whose age does not fit is a backend error.
pub fn tags_view_of(entries: Vec<TagEntry>, now: i64) -> (r: Result<TagsView, DomainError>)
    ensures
        exists|keyed: Seq<(RefKey, TagEntry)>| #[trigger] keyed_entries(keyed, entries@) && {
            let sorted = stable_sorted(keyed);
            &&& (r is Ok <==> forall|i: int| 0 <= i < sorted.len() ==> tip_age_fits(#[trigger] sorted[i].1.epoch, now))
            &&& (r matches Ok(v) ==> v.spec_rows().len() == sorted.len() && forall|i: int|
                0 <= i < sorted.len() ==> #[trigger] v.spec_rows()[i] == tag_row_of(sorted[i].1, now))
        },
        r matches Ok(v) ==> sorted_tag_rows(v.spec_rows(), entries@, now),
{
    let ghost all = entries@;
    let keyed: Vec<(RefKey, TagEntry)> = keyed_tags(entries);
    let ghost kv = keyed@;
    let sorted: Vec<(RefKey, TagEntry)> = sort_by_ref_key(keyed);
    let r = match tag_rows_of(sorted, now) {
        Ok(rows) => Ok(TagsView { rows }),
        Err(e) => Err(e),
    };
    proof {
        if r is Ok {
            let v = r->Ok_0;
            assert forall|i: int| 0 <= i < v.spec_rows().len() implies #[trigger] v.spec_rows()[i] == tag_row_of(
                stable_sorted(kv)[i].1,
                now,
            ) by {
                assert(v.spec_rows()[i] == v.rows@[i]@);
            }
        }
        assert(keyed_entries(kv, all));
    }
    r
}

/// The tags page is the rows of the entries of some tag refs (see
/// [`tag_entry_for`]), one per ref, in listing order.
pub open spec fn lists_tags(rows: Seq<TagRowView>, now: i64) -> bool {
    exists|references: Seq<Reference>, entries: Seq<TagEntry>| #[trigger] tags_of_refs(rows, now, references, entries)
}

/// The witness form of [`lists_tags`].
pub open spec fn tags_of_refs(rows: Seq<TagRowView>, now: i64, references: Seq<Reference>, entries: Seq<TagEntry>) -> bool {
    &&& entries.len() == references.len()
    &&& forall|i: int| 0 <= i < entries.len() ==> tag_entry_for(#[trigger] entries[i], references[i])
    &&& sorted_tag_rows(rows, entries, now)
}

/// Assembles the tags page over the [`Repository`] port, with ages at `now`:
/// one entry per tag ref (see [`entry_for`]), laid out by [`tags_view_of`].
pub fn assemble_tags<R: Repository>(repo: &R, now: i64) -> (r: Result<TagsView, DomainError>)
    ensures
        r matches Ok(v) ==> lists_tags(v.spec_rows(), now),
{
    let references: Vec<Reference> = match repo.references("refs/tags/") {
        Ok(r) => r,
        Err(e) => return Err(e),
    };
    let mut entries: Vec<TagEntry> = Vec::new();
    let mut i: usize = 0;
    while i < references.len()
        invariant
            0 <= i <= references@.len(),
            entries@.len() == i,
            forall|k: int| 0 <= k < i ==> tag_entry_for(#[trigger] entries@[k], references@[k]),
        decreases references.len() - i,
    {
        match entry_for(repo, &references[i]) {
            Ok(e) => entries.push(e),
            Err(e) => return Err(e),
        }
        i += 1;
    }
    let ghost ev = entries@;
    let r = tags_view_of(entries, now);
    proof {
        if r is Ok {
            assert(tags_of_refs(r->Ok_0.spec_rows(), now, references@, ev));
        }
    }
    r
}

} // verus!
