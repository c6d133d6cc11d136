//! The search-result highlight: gitweb's `git_search_grep_body` line rule.
//!
//! For each commit-message line that matches the search, gitweb prints the text
//! before the match, the match, and the text after it, each shortened with
//! `chop_str`:
//!
//! ```text
//! $match = chop_str($match, 70, 5, 'center');
//! my $contextlen = int((80 - length($match))/2);
//! $contextlen = 30 if ($contextlen > 30);
//! $lead  = chop_str($lead,  $contextlen, 10, 'left');
//! $trail = chop_str($trail, $contextlen, 10, 'right');
//! ```
//!
//! A line that does not match yields no snippet.

use vstd::prelude::*;
use vstd::string::StringSliceAdditionalSpecFns;
use vstd::utf8::{
    decode_utf8, encode_utf8, is_char_boundary, is_char_boundary_iff_not_is_continuation_byte,
    is_char_boundary_start_end_of_seq, valid_utf8, valid_utf8_split,
};

use crate::model::chop::{chop_center, chop_left, chop_right, chop_str, ChopMode};
use crate::model::search_pattern::{regex_first_match, SearchPattern};
use crate::text::chars_of;

verus! {

/// The centre-chop length of the match.
pub const MATCH_LEN: usize = 70;

/// The match chop's word slack.
pub const MATCH_SLACK: usize = 5;

/// The character budget shared by the match and its context.
pub const BUDGET: usize = 80;

/// The per-side context cap.
pub const MAX_CONTEXT: usize = 30;

/// The context chop's word slack.
pub const CONTEXT_SLACK: usize = 10;

/// One highlighted line: the shortened text before the match, the shortened
/// match, and the shortened text after it.
pub struct MatchSnippet {
    lead: String,
    matched: String,
    trail: String,
}

/// The three parts of a [`MatchSnippet`] as character sequences.
pub struct SnippetView {
    pub lead: Seq<char>,
    pub matched: Seq<char>,
    pub trail: Seq<char>,
}

impl View for MatchSnippet {
    type V = SnippetView;

    closed spec fn view(&self) -> SnippetView {
        SnippetView { lead: self.lead@, matched: self.matched@, trail: self.trail@ }
    }
}

/// The per-side context length for a shortened match of `m` characters: half
/// of what the 80-character budget leaves, at most 30, and nothing when the
/// match fills the budget.
pub open spec fn context_length(m: nat) -> nat {
    let half = if m >= BUDGET {
        0
    } else {
        ((BUDGET - m) / 2) as nat
    };
    if half > MAX_CONTEXT {
        MAX_CONTEXT as nat
    } else {
        half
    }
}

/// The snippet of a line split into `lead`, `matched` and `trail`.
pub open spec fn snippet_parts(lead: Seq<char>, matched: Seq<char>, trail: Seq<char>) -> SnippetView {
    let m = chop_center(matched, MATCH_LEN as nat, MATCH_SLACK as nat);
    let ctx = context_length(m.len());
    SnippetView {
        lead: chop_left(lead, ctx, CONTEXT_SLACK as nat),
        matched: m,
        trail: chop_right(trail, ctx, CONTEXT_SLACK as nat),
    }
}

impl MatchSnippet {
    /// The shortened text before the match (chopped from its left).
    pub fn lead(&self) -> (r: &str)
        ensures
            r@ == self@.lead,
    {
        self.lead.as_str()
    }

    /// The shortened match (chopped in its centre).
    pub fn matched(&self) -> (r: &str)
        ensures
            r@ == self@.matched,
    {
        self.matched.as_str()
    }

    /// The shortened text after the match (chopped from its right).
    pub fn trail(&self) -> (r: &str)
        ensures
            r@ == self@.trail,
    {
        self.trail.as_str()
    }
}

/// The per-side context length (see [`context_length`]).
pub fn context_len(match_chars: usize) -> (r: usize)
    ensures
        r == context_length(match_chars as nat),
{
    let half: usize = BUDGET.saturating_sub(match_chars) / 2;
    if half > MAX_CONTEXT {
        MAX_CONTEXT
    } else {
        half
    }
}

/// The snippet of a line already split at its match (see [`snippet_parts`]).
pub fn snippet_of(lead: &str, matched: &str, trail: &str) -> (r: MatchSnippet)
    ensures
        r@ == snippet_parts(lead@, matched@, trail@),
{
    let m: String = chop_str(matched, MATCH_LEN, MATCH_SLACK, ChopMode::Center);
    let count: usize = chars_of(m.as_str()).len();
    let context: usize = context_len(count);
    MatchSnippet {
        lead: chop_str(lead, context, CONTEXT_SLACK, ChopMode::Left),
        trail: chop_str(trail, context, CONTEXT_SLACK, ChopMode::Right),
        matched: m,
    }
}

/// A character boundary of a UTF-8 sequence stays one in every prefix that
/// reaches it.
proof fn lemma_prefix_boundary(bytes: Seq<u8>, end: int, start: int)
    requires
        valid_utf8(bytes),
        is_char_boundary(bytes, end),
        is_char_boundary(bytes, start),
        0 <= start <= end,
    ensures
        is_char_boundary(bytes.subrange(0, end), start),
{
    let up = bytes.subrange(0, end);
    valid_utf8_split(bytes, end);
    if start == end {
        is_char_boundary_start_end_of_seq(up);
    } else {
        assert(end <= bytes.len()) by {
            if end > bytes.len() {
                assert(!is_char_boundary(bytes, end));
            }
        }
        is_char_boundary_iff_not_is_continuation_byte(bytes, start);
        is_char_boundary_iff_not_is_continuation_byte(up, start);
    }
}

/// `parts` is a split of `line` into text before, match and text after.
pub open spec fn is_split(line: Seq<char>, parts: SnippetView) -> bool {
    exists|i: int, j: int|
        0 <= i <= j <= line.len() && parts == (SnippetView {
            lead: #[trigger] line.take(i),
            matched: line.subrange(i, j),
            trail: #[trigger] line.skip(j),
        })
}

/// `line` split at the byte offsets `s` and `e` of its UTF-8 encoding: the
/// text before, between and after.
pub open spec fn split_at_bytes(line: Seq<char>, s: int, e: int) -> SnippetView {
    let b = encode_utf8(line);
    SnippetView {
        lead: decode_utf8(b.subrange(0, s)),
        matched: decode_utf8(b.subrange(s, e)),
        trail: decode_utf8(b.subrange(e, b.len() as int)),
    }
}

/// `line` split at the first match of the expression `source` (see
/// [`regex_first_match`]), or `None` when the line does not match.
pub open spec fn match_split(source: Seq<char>, line: Seq<char>) -> Option<SnippetView> {
    match regex_first_match(source, line) {
        Some((s, e)) => Some(split_at_bytes(line, s, e)),
        None => None,
    }
}

/// The shortened snippet of `line` for the expression `source` (see
/// [`snippet_parts`]), or `None` when the line does not match.
pub open spec fn highlight_of(source: Seq<char>, line: Seq<char>) -> Option<SnippetView> {
    match match_split(source, line) {
        Some(p) => Some(snippet_parts(p.lead, p.matched, p.trail)),
        None => None,
    }
}

/// Splits `line` at the first match of `pattern` into the text before, the
/// match and the text after, or `None` when the line does not match.
fn split_at_match<'a>(line: &'a str, pattern: &SearchPattern) -> (r: Option<(&'a str, &'a str, &'a str)>)
    ensures
        r matches Some((a, b, c)) ==> line@ == a@ + b@ + c@,
        match match_split(pattern.spec_source(), line@) {
            Some(p) => r matches Some((a, b, c)) && a@ == p.lead && b@ == p.matched && c@ == p.trail,
            None => r is None,
        },
{
    broadcast use vstd::utf8::group_utf8_lib;

    let (start, end): (usize, usize) = match pattern.first_match(line) {
        Some(found) => found,
        None => return None,
    };
    let ghost bytes = line.spec_bytes();
    proof {
        assert(bytes == encode_utf8(line@));
        lemma_prefix_boundary(bytes, end as int, start as int);
    }
    let (upto, trail) = line.split_at(end);
    let (lead, matched) = upto.split_at(start);
    proof {
        assert(line@ == decode_utf8(bytes));
        assert(upto@ == decode_utf8(upto.spec_bytes()));
        assert(trail@ == decode_utf8(trail.spec_bytes()));
        assert(lead@ == decode_utf8(lead.spec_bytes()));
        assert(matched@ == decode_utf8(matched.spec_bytes()));
        assert(line@ =~= upto@ + trail@);
        let ub = upto.spec_bytes();
        assert(ub =~= bytes.subrange(0, end as int));
        assert(valid_utf8(ub));
        assert(upto@ =~= lead@ + matched@);
        let lb = lead.spec_bytes();
        let mb = matched.spec_bytes();
        let tb = trail.spec_bytes();
        assert(lb =~= bytes.subrange(0, start as int));
        assert(mb =~= bytes.subrange(start as int, end as int));
        assert(tb =~= bytes.subrange(end as int, bytes.len() as int));
    }
    Some((lead, matched, trail))
}

/// A line that is the concatenation of three parts splits into them.
proof fn lemma_split_of(line: Seq<char>, a: Seq<char>, b: Seq<char>, c: Seq<char>)
    requires
        line == a + b + c,
    ensures
        is_split(line, SnippetView { lead: a, matched: b, trail: c }),
{
    let i = a.len() as int;
    let j = (a.len() + b.len()) as int;
    assert(line.take(i) =~= a);
    assert(line.subrange(i, j) =~= b);
    assert(line.skip(j) =~= c);
}

/// Highlights `line` against `pattern`: splits it at the first match and
/// shortens each part, or `None` when the line does not match. Which match the
/// pattern finds is the `regex` crate's; the snippet is always that of a split
/// of the line into text before, match and text after.
pub fn highlight_line(line: &str, pattern: &SearchPattern) -> (r: Option<MatchSnippet>)
    ensures
        match highlight_of(pattern.spec_source(), line@) {
            Some(v) => r matches Some(s) && s@ == v,
            None => r is None,
        },
        r matches Some(s) ==> exists|i: int, j: int|
            0 <= i <= j <= line@.len() && s@ == snippet_parts(
                #[trigger] line@.take(i),
                line@.subrange(i, j),
                #[trigger] line@.skip(j),
            ),
{
    match split_at_match(line, pattern) {
        Some((lead, matched, trail)) => {
            proof {
                let i = lead@.len() as int;
                let j = (lead@.len() + matched@.len()) as int;
                assert(line@.take(i) =~= lead@);
                assert(line@.subrange(i, j) =~= matched@);
                assert(line@.skip(j) =~= trail@);
            }
            Some(snippet_of(lead, matched, trail))
        },
        None => None,
    }
}

/// Splits `line` at the first match of `pattern` without shortening any part
/// (the file-content search shows whole lines), or `None` when the line does
/// not match.
pub fn highlight_full(line: &str, pattern: &SearchPattern) -> (r: Option<MatchSnippet>)
    ensures
        match match_split(pattern.spec_source(), line@) {
            Some(v) => r matches Some(s) && s@ == v,
            None => r is None,
        },
        r matches Some(s) ==> is_split(line@, s@),
{
    match split_at_match(line, pattern) {
        Some((lead, matched, trail)) => {
            proof {
                lemma_split_of(line@, lead@, matched@, trail@);
            }
            Some(MatchSnippet { lead: lead.to_owned(), matched: matched.to_owned(), trail: trail.to_owned() })
        },
        None => None,
    }
}

/// The context kept around a match is the context next to it: the text
/// before the match is kept whole or as its end (at least the context length
/// of it) after a `" ..."` filler, and the text after the match is kept whole
/// or as its start (at least the context length of it) before a `"... "`
/// filler.
pub proof fn lemma_snippet_keeps_nearby_context(lead: Seq<char>, matched: Seq<char>, trail: Seq<char>)
    ensures
        ({
            let p = snippet_parts(lead, matched, trail);
            let ctx = context_length(p.matched.len());
            &&& (p.lead == lead || exists|k: int|
                0 < k && lead.len() - k >= ctx && p.lead == " ..."@ + #[trigger] lead.skip(k))
            &&& (p.trail == trail || exists|k: int|
                ctx <= k < trail.len() && p.trail == #[trigger] trail.take(k) + "... "@)
        }),
{
    let p = snippet_parts(lead, matched, trail);
    let ctx = context_length(p.matched.len());
    if !(ctx + 4 >= lead.len()) {
        let front = lead.take(lead.len() - ctx);
        crate::model::chop::lemma_tail_words_bound(front, CONTEXT_SLACK as nat);
        let head = (lead.len() - ctx - crate::model::chop::tail_words(front, CONTEXT_SLACK as nat)) as int;
        if head > 4 {
            assert(p.lead == " ..."@ + lead.skip(head));
        }
    }
    if !(ctx + 4 >= trail.len()) {
        let back = trail.skip(ctx as int);
        crate::model::chop::lemma_lead_words_bound(back, CONTEXT_SLACK as nat);
        let cut = ctx + crate::model::chop::lead_words(back, CONTEXT_SLACK as nat);
        if trail.len() - cut > 4 {
            assert(p.trail == trail.take(cut as int) + "... "@);
        }
    }
}

} // verus!
