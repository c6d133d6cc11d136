//! A `git format-patch` stream: one mail per commit, each with its mailbox
//! header fields, message body, diffstat and patch, signed with the git
//! version.

use vstd::prelude::*;

use crate::model::diffstat::Diffstat;
use crate::model::timestamp::{Timestamp, TimestampView};
use crate::text::{decimal, decimal_chars, push_all, push_str, string_of, string_views};

verus! {

/// One commit's mail.
#[derive(Debug, Clone, PartialEq, Eq)]
pub struct PatchEntry {
    id: String,
    from: String,
    date: Timestamp,
    subject: String,
    number: Option<(usize, usize)>,
    body: Vec<String>,
    diffstat: Diffstat,
    diff: String,
}

/// The texts of a [`PatchEntry`].
pub struct PatchEntryView {
    pub id: Seq<char>,
    pub from: Seq<char>,
    pub date: TimestampView,
    pub subject: Seq<char>,
    pub number: Option<(usize, usize)>,
    pub body: Seq<Seq<char>>,
    pub diff: Seq<char>,
}

impl View for PatchEntry {
    type V = PatchEntryView;

    closed spec fn view(&self) -> PatchEntryView {
        PatchEntryView {
            id: self.id@,
            from: self.from@,
            date: self.date@,
            subject: self.subject@,
            number: self.number,
            body: string_views(self.body@),
            diff: self.diff@,
        }
    }
}

/// The `Subject:` text of a mail: `[PATCH] subject`, or `[PATCH i/n]
/// subject` in a numbered stream.
pub open spec fn subject_text(subject: Seq<char>, number: Option<(usize, usize)>) -> Seq<char> {
    match number {
        Some((i, n)) => "[PATCH "@ + decimal(i as nat) + "/"@ + decimal(n as nat) + "] "@ + subject,
        None => "[PATCH] "@ + subject,
    }
}

impl PatchEntry {
    /// A mail from its parts: the commit id, the author's identity and date,
    /// the subject, the position `(i, n)` in a numbered stream, the body
    /// lines, the diffstat and the patch text.
    pub fn new(
        id: String,
        from: String,
        date: Timestamp,
        subject: String,
        number: Option<(usize, usize)>,
        body: Vec<String>,
        diffstat: Diffstat,
        diff: String,
    ) -> (r: PatchEntry)
        ensures
            r@ == (PatchEntryView {
                id: id@,
                from: from@,
                date: date@,
                subject: subject@,
                number,
                body: string_views(body@),
                diff: diff@,
            }),
            r.spec_diffstat() == diffstat,
    {
        PatchEntry { id, from, date, subject, number, body, diffstat, diff }
    }

    /// The diffstat.
    pub closed spec fn spec_diffstat(&self) -> Diffstat {
        self.diffstat
    }

    /// The commit id.
    pub fn id(&self) -> (r: &str)
        ensures
            r@ == self@.id,
    {
        self.id.as_str()
    }

    /// The author's identity (`From:`).
    pub fn from(&self) -> (r: &str)
        ensures
            r@ == self@.from,
    {
        self.from.as_str()
    }

    /// The author date (`Date:`).
    pub fn date(&self) -> (r: &Timestamp)
        ensures
            r@ == self@.date,
    {
        &self.date
    }

    /// The commit subject.
    pub fn subject(&self) -> (r: &str)
        ensures
            r@ == self@.subject,
    {
        self.subject.as_str()
    }

    /// The position `(i, n)` in a numbered stream; `None` for a single mail.
    pub fn number(&self) -> (r: Option<(usize, usize)>)
        ensures
            r == self@.number,
    {
        self.number
    }

    /// The message body lines.
    pub fn body(&self) -> (r: &[String])
        ensures
            string_views(r@) == self@.body,
    {
        self.body.as_slice()
    }

    /// The diffstat.
    pub fn diffstat(&self) -> (r: &Diffstat)
        ensures
            *r == self.spec_diffstat(),
    {
        &self.diffstat
    }

    /// The patch text.
    pub fn diff(&self) -> (r: &str)
        ensures
            r@ == self@.diff,
    {
        self.diff.as_str()
    }

    /// The `Subject:` text (see [`subject_text`]).
    pub fn subject_line(&self) -> (r: String)
        ensures
            r@ == subject_text(self@.subject, self@.number),
    {
        let mut out: Vec<char> = Vec::new();
        match self.number {
            Some((i, n)) => {
                push_str(&mut out, "[PATCH ");
                let a: Vec<char> = decimal_chars(i as u128);
                push_all(&mut out, &a);
                push_str(&mut out, "/");
                let b: Vec<char> = decimal_chars(n as u128);
                push_all(&mut out, &b);
                push_str(&mut out, "] ");
            },
            None => push_str(&mut out, "[PATCH] "),
        }
        push_str(&mut out, self.subject.as_str());
        assert(out@ =~= subject_text(self@.subject, self@.number));
        string_of(out.as_slice())
    }
}

/// The mails of `v`, each seen through its texts.
pub open spec fn patch_entry_views(v: Seq<PatchEntry>) -> Seq<PatchEntryView> {
    v.map_values(|e: PatchEntry| e@)
}

/// A stream of mails, oldest first, signed with the git version.
#[derive(Debug, Clone, PartialEq, Eq)]
pub struct FormatPatch {
    entries: Vec<PatchEntry>,
    version: String,
}

impl FormatPatch {
    /// The mails.
    pub closed spec fn spec_entries(&self) -> Seq<PatchEntryView> {
        patch_entry_views(self.entries@)
    }

    /// The git version on the signature.
    pub closed spec fn spec_version(&self) -> Seq<char> {
        self.version@
    }

    /// A stream of `entries` signed with `version`.
    pub fn new(entries: Vec<PatchEntry>, version: &str) -> (r: FormatPatch)
        ensures
            r.spec_entries() == patch_entry_views(entries@),
            r.spec_version() == version@,
    {
        FormatPatch { entries, version: version.to_owned() }
    }

    /// The mails, oldest first.
    pub fn entries(&self) -> (r: &[PatchEntry])
        ensures
            patch_entry_views(r@) == self.spec_entries(),
    {
        self.entries.as_slice()
    }

    /// The git version on each mail's signature.
    pub fn version(&self) -> (r: &str)
        ensures
            r@ == self.spec_version(),
    {
        self.version.as_str()
    }
}

} // verus!
