//! The `commitdiff_plain` body: a commit's patch framed in gitweb's mailbox
//! header (`From:`, `Date:`, `Subject:`, an optional `X-Git-Tag:`, the
//! `X-Git-Url:` of the request, the message lines and `---`), then the patch
//! `git diff-tree -p` writes, led by the commit id for a root commit.

use vstd::prelude::*;

use crate::model::feed::opt_view;
use crate::model::timestamp::{rfc2822_form, Timestamp, TimestampView};
use crate::text::{push_str, string_of, string_views};

verus! {

/// Everything a `commitdiff_plain` body holds but the request's own URL.
#[derive(Debug, Clone, PartialEq, Eq)]
pub struct CommitdiffPlain {
    from: String,
    date: Timestamp,
    subject: String,
    tag: Option<String>,
    comment: Vec<String>,
    commit_id: Option<String>,
    patch: String,
}

/// A [`CommitdiffPlain`] seen through its texts.
pub struct CommitdiffPlainView {
    pub from: Seq<char>,
    pub date: TimestampView,
    pub subject: Seq<char>,
    pub tag: Option<Seq<char>>,
    pub comment: Seq<Seq<char>>,
    pub commit_id: Option<Seq<char>>,
    pub patch: Seq<char>,
}

impl View for CommitdiffPlain {
    type V = CommitdiffPlainView;

    closed spec fn view(&self) -> CommitdiffPlainView {
        CommitdiffPlainView {
            from: self.from@,
            date: self.date@,
            subject: self.subject@,
            tag: opt_view(self.tag),
            comment: string_views(self.comment@),
            commit_id: opt_view(self.commit_id),
            patch: self.patch@,
        }
    }
}

/// Each of `lines` followed by a newline.
pub open spec fn lines_text(lines: Seq<Seq<char>>) -> Seq<char>
    decreases lines.len(),
{
    if lines.len() == 0 {
        Seq::empty()
    } else {
        lines_text(lines.drop_last()) + lines.last() + "\n"@
    }
}

/// The body served for request URL `url`.
pub open spec fn commitdiff_plain_text(v: CommitdiffPlainView, url: Seq<char>) -> Seq<char> {
    "From: "@ + v.from + "\n"@ + "Date: "@ + rfc2822_form(v.date.utc, "+0000"@) + " ("@ + v.date.timezone + ")\n"@
        + "Subject: "@ + v.subject + "\n"@ + (match v.tag {
        Some(t) => "X-Git-Tag: "@ + t + "\n"@,
        None => Seq::empty(),
    }) + "X-Git-Url: "@ + url + "\n\n"@ + lines_text(v.comment) + "---\n\n"@ + (match v.commit_id {
        Some(id) => id + "\n"@,
        None => Seq::empty(),
    }) + v.patch
}

/// Appends each of `lines` followed by a newline (see [`lines_text`]).
pub fn push_lines_text(out: &mut Vec<char>, lines: &[String])
    ensures
        final(out)@ == old(out)@ + lines_text(string_views(lines@)),
{
    let ghost v = string_views(lines@);
    let ghost start = out@;
    let mut i: usize = 0;
    while i < lines.len()
        invariant
            0 <= i <= lines@.len(),
            v == string_views(lines@),
            out@ == start + lines_text(v.take(i as int)),
        decreases lines.len() - i,
    {
        assert(v.take(i + 1).drop_last() =~= v.take(i as int));
        assert(v.take(i + 1).last() == lines@[i as int]@);
        push_str(out, lines[i].as_str());
        push_str(out, "\n");
        i += 1;
        assert(out@ =~= start + lines_text(v.take(i as int)));
    }
    assert(v.take(lines@.len() as int) =~= v);
}

impl CommitdiffPlain {
    /// A body from its parts: the author's identity, the author date, the
    /// subject, the tag naming the commit, the message lines, the commit id
    /// (a root commit's only) and the patch text.
    pub fn new(
        from: String,
        date: Timestamp,
        subject: String,
        tag: Option<String>,
        comment: Vec<String>,
        commit_id: Option<String>,
        patch: String,
    ) -> (r: CommitdiffPlain)
        ensures
            r@ == (CommitdiffPlainView {
                from: from@,
                date: date@,
                subject: subject@,
                tag: opt_view(tag),
                comment: string_views(comment@),
                commit_id: opt_view(commit_id),
                patch: patch@,
            }),
    {
        CommitdiffPlain { from, date, subject, tag, comment, commit_id, patch }
    }

    /// The author's identity (`From:`).
    pub fn from(&self) -> (r: &str)
        ensures
            r@ == self@.from,
    {
        self.from.as_str()
    }

    /// The author date (`Date:`).
    pub fn date(&self) -> (r: &Timestamp)
        ensures
            r@ == self@.date,
    {
        &self.date
    }

    /// The commit subject (`Subject:`).
    pub fn subject(&self) -> (r: &str)
        ensures
            r@ == self@.subject,
    {
        self.subject.as_str()
    }

    /// The tag naming the commit (`X-Git-Tag:`), if any.
    pub fn tag(&self) -> (r: Option<&str>)
        ensures
            r matches Some(t) ==> self@.tag == Some(t@),
            r is None ==> self@.tag is None,
    {
        match &self.tag {
            Some(t) => Some(t.as_str()),
            None => None,
        }
    }

    /// The message lines.
    pub fn comment(&self) -> (r: &[String])
        ensures
            string_views(r@) == self@.comment,
    {
        self.comment.as_slice()
    }

    /// The commit id leading a root commit's patch.
    pub fn commit_id(&self) -> (r: Option<&str>)
        ensures
            r matches Some(t) ==> self@.commit_id == Some(t@),
            r is None ==> self@.commit_id is None,
    {
        match &self.commit_id {
            Some(t) => Some(t.as_str()),
            None => None,
        }
    }

    /// The patch text.
    pub fn patch(&self) -> (r: &str)
        ensures
            r@ == self@.patch,
    {
        self.patch.as_str()
    }

    /// The body as served for the request URL `url` (see
    /// [`commitdiff_plain_text`]).
    pub fn render(&self, url: &str) -> (r: String)
        ensures
            r@ == commitdiff_plain_text(self@, url@),
    {
        let ghost v = self@;
        let mut out: Vec<char> = Vec::new();
        push_str(&mut out, "From: ");
        push_str(&mut out, self.from.as_str());
        push_str(&mut out, "\n");
        push_str(&mut out, "Date: ");
        let utc: String = self.date.rfc2822();
        push_str(&mut out, utc.as_str());
        push_str(&mut out, " (");
        push_str(&mut out, self.date.timezone());
        push_str(&mut out, ")\n");
        push_str(&mut out, "Subject: ");
        push_str(&mut out, self.subject.as_str());
        push_str(&mut out, "\n");
        let ghost head = out@;
        match &self.tag {
            Some(t) => {
                push_str(&mut out, "X-Git-Tag: ");
                push_str(&mut out, t.as_str());
                push_str(&mut out, "\n");
            },
            None => {},
        }
        let ghost tagged = out@;
        push_str(&mut out, "X-Git-Url: ");
        push_str(&mut out, url);
        push_str(&mut out, "\n\n");
        push_lines_text(&mut out, self.comment.as_slice());
        push_str(&mut out, "---\n\n");
        let ghost framed = out@;
        match &self.commit_id {
            Some(id) => {
                push_str(&mut out, id.as_str());
                push_str(&mut out, "\n");
            },
            None => {},
        }
        let ghost led = out@;
        push_str(&mut out, self.patch.as_str());
        assert(out@ =~= commitdiff_plain_text(v, url@));
        string_of(out.as_slice())
    }
}

} // verus!
