//! A commit message as gitweb's `git_print_log` shows it.
//!
//! The message is split into lines (trailing empty lines dropped, as Perl's
//! `split` does), leading empty lines are dropped, sign-off style lines
//! (`Signed-off-by: `, `Acked-by: `, `Cc: `, `Fixes: `, …) are marked, runs of
//! empty lines collapse to one, and no empty line follows a sign-off.

use vstd::prelude::*;

use crate::text::{chars_of, split_chars, split_on, string_of, views};

verus! {

/// One displayed line of a commit message.
#[derive(Debug, Clone, PartialEq, Eq)]
pub enum LogLine {
    /// An ordinary line.
    Text(String),
    /// A sign-off style trailer line.
    Signoff(String),
    /// One empty line.
    Blank,
}

/// A [`LogLine`] seen through its text.
pub enum LogLineView {
    Text(Seq<char>),
    Signoff(Seq<char>),
    Blank,
}

impl View for LogLine {
    type V = LogLineView;

    open spec fn view(&self) -> LogLineView {
        match self {
            LogLine::Text(s) => LogLineView::Text(s@),
            LogLine::Signoff(s) => LogLineView::Signoff(s@),
            LogLine::Blank => LogLineView::Blank,
        }
    }
}

/// The lines of `v`, each seen through its text.
pub open spec fn log_line_views(v: Seq<LogLine>) -> Seq<LogLineView> {
    v.map_values(|l: LogLine| l@)
}

/// A Perl `\s` character.
pub open spec fn is_perl_space(c: char) -> bool {
    c == ' ' || c == '\t' || c == '\n' || c == '\r' || c == '\u{b}' || c == '\u{c}'
}

/// A character of `[-A-Za-z]`.
pub open spec fn is_trailer_char(c: char) -> bool {
    c == '-' || ('a' <= c && c <= 'z') || ('A' <= c && c <= 'Z')
}

/// How many leading Perl spaces `s` has.
pub open spec fn leading_spaces(s: Seq<char>) -> nat
    decreases s.len(),
{
    if s.len() > 0 && is_perl_space(s[0]) {
        1 + leading_spaces(s.drop_first())
    } else {
        0
    }
}

/// How many `[-A-Za-z]` characters open `s`.
pub open spec fn word_run(s: Seq<char>) -> nat
    decreases s.len(),
{
    if s.len() > 0 && is_trailer_char(s[0]) {
        1 + word_run(s.drop_first())
    } else {
        0
    }
}

/// A trailer keyword: a capitalised hyphenated word ending in `-By` or `-To`
/// (either case), or `CC`, `Cc`, `Closes`, `Fixes`.
pub open spec fn is_trailer_word(w: Seq<char>) -> bool {
    ||| w =~= "CC"@ || w =~= "Cc"@ || w =~= "Closes"@ || w =~= "Fixes"@
    ||| (w.len() >= 4 && 'A' <= w[0] && w[0] <= 'Z' && w[w.len() - 3] == '-' && ((w[w.len() - 2] == 'B'
        || w[w.len() - 2] == 'b') && w[w.len() - 1] == 'y' || (w[w.len() - 2] == 'T' || w[w.len() - 2]
        == 't') && w[w.len() - 1] == 'o'))
}

/// gitweb's sign-off test `^\s*([A-Z][-A-Za-z]*-([Bb]y|[Tt]o)|C[Cc]|(Clos|Fix)es): `:
/// after any spaces, a trailer keyword directly followed by `: `.
pub open spec fn is_signoff(line: Seq<char>) -> bool {
    let rest = line.skip(leading_spaces(line) as int);
    let n = word_run(rest);
    is_trailer_word(rest.take(n as int)) && rest.len() >= n + 2 && rest[n as int] == ':' && rest[n + 1 as int] == ' '
}

/// The lines Perl's `split /\n/` yields: the pieces between newlines with the
/// trailing empty pieces dropped.
pub open spec fn perl_lines(pieces: Seq<Seq<char>>) -> Seq<Seq<char>>
    decreases pieces.len(),
{
    if pieces.len() > 0 && pieces.last().len() == 0 {
        perl_lines(pieces.drop_last())
    } else {
        pieces
    }
}

/// `lines` without its leading empty lines.
pub open spec fn drop_leading_empty(lines: Seq<Seq<char>>) -> Seq<Seq<char>>
    decreases lines.len(),
{
    if lines.len() > 0 && lines[0].len() == 0 {
        drop_leading_empty(lines.drop_first())
    } else {
        lines
    }
}

/// The displayed lines of `lines` after the first `k`, given whether an empty
/// line is to be skipped at that point.
pub open spec fn shown_lines(lines: Seq<Seq<char>>, k: int, skip: bool) -> Seq<LogLineView>
    decreases lines.len() - k,
{
    if k >= lines.len() || k < 0 {
        seq![]
    } else {
        let line = lines[k];
        if is_signoff(line) {
            seq![LogLineView::Signoff(line)] + shown_lines(lines, k + 1, true)
        } else if line.len() == 0 {
            if skip {
                shown_lines(lines, k + 1, true)
            } else {
                seq![LogLineView::Blank] + shown_lines(lines, k + 1, true)
            }
        } else {
            seq![LogLineView::Text(line)] + shown_lines(lines, k + 1, false)
        }
    }
}

/// The displayed lines of a commit message.
pub open spec fn log_lines_of(message: Seq<char>) -> Seq<LogLineView> {
    shown_lines(drop_leading_empty(perl_lines(split_on(message, '\n'))), 0, false)
}

fn perl_space(c: char) -> (r: bool)
    ensures
        r == is_perl_space(c),
{
    c == ' ' || c == '\t' || c == '\n' || c == '\r' || c == '\u{b}' || c == '\u{c}'
}

fn trailer_char(c: char) -> (r: bool)
    ensures
        r == is_trailer_char(c),
{
    c == '-' || ('a' <= c && c <= 'z') || ('A' <= c && c <= 'Z')
}

/// Whether `line` is a sign-off style line (see [`is_signoff`]).
pub fn signoff_line(line: &Vec<char>) -> (r: bool)
    ensures
        r == is_signoff(line@),
{
    let mut s: usize = 0;
    assert(line@.skip(0) =~= line@);
    while s < line.len() && perl_space(line[s])
        invariant
            s <= line.len(),
            leading_spaces(line@) == s + leading_spaces(line@.skip(s as int)),
        decreases line.len() - s,
    {
        assert(line@.skip(s as int).drop_first() =~= line@.skip(s + 1));
        assert(line@.skip(s as int)[0] == line@[s as int]);
        s += 1;
    }
    proof {
        if s < line.len() {
            assert(line@.skip(s as int)[0] == line@[s as int]);
        }
    }
    let ghost rest = line@.skip(s as int);
    let mut e: usize = s;
    assert(rest.skip(0) =~= rest);
    while e < line.len() && trailer_char(line[e])
        invariant
            s <= e <= line.len(),
            rest == line@.skip(s as int),
            word_run(rest) == (e - s) + word_run(rest.skip(e - s)),
            forall|i: int| s <= i < e ==> is_trailer_char(#[trigger] line@[i]),
        decreases line.len() - e,
    {
        assert(rest.skip(e - s).drop_first() =~= rest.skip(e - s + 1));
        assert(rest.skip(e - s)[0] == line@[e as int]);
        e += 1;
    }
    proof {
        if e < line.len() {
            assert(rest.skip(e - s)[0] == line@[e as int]);
        }
    }
    let n: usize = e - s;
    assert(n == word_run(rest));
    let w: Vec<char> = crate::text::slice(line, s, e);
    assert(w@ =~= rest.take(n as int));
    let keyword: bool = {
        let cc: Vec<char> = chars_of("CC");
        let cc2: Vec<char> = chars_of("Cc");
        let closes: Vec<char> = chars_of("Closes");
        let fixes: Vec<char> = chars_of("Fixes");
        let named: bool = crate::text::chars_eq(&w, &cc) || crate::text::chars_eq(&w, &cc2)
            || crate::text::chars_eq(&w, &closes) || crate::text::chars_eq(&w, &fixes);
        let by_to: bool = n >= 4 && 'A' <= w[0] && w[0] <= 'Z' && w[n - 3] == '-' && ((w[n - 2] == 'B'
            || w[n - 2] == 'b') && w[n - 1] == 'y' || (w[n - 2] == 'T' || w[n - 2] == 't') && w[n - 1]
            == 'o');
        named || by_to
    };
    assert(keyword == is_trailer_word(w@));
    keyword && e < line.len() && line.len() - e >= 2 && line[e] == ':' && line[e + 1] == ' '
}

/// The displayed lines of a commit message (see [`log_lines_of`]).
pub fn log_lines(message: &str) -> (r: Vec<LogLine>)
    ensures
        log_line_views(r@) == log_lines_of(message@),
{
    let text: Vec<char> = chars_of(message);
    let pieces: Vec<Vec<char>> = split_chars(&text, '\n');
    let ghost all = views(pieces@);
    // trailing empty pieces
    let mut end: usize = pieces.len();
    assert(all.take(end as int) =~= all);
    while end > 0 && pieces[end - 1].len() == 0
        invariant
            end <= pieces@.len(),
            all == views(pieces@),
            perl_lines(all) == perl_lines(all.take(end as int)),
        decreases end,
    {
        assert(all.take(end as int).last() == pieces@[end - 1]@);
        assert(all.take(end as int).drop_last() =~= all.take(end - 1));
        end -= 1;
    }
    proof {
        if end > 0 {
            assert(all.take(end as int).last() == pieces@[end - 1]@);
        }
    }
    let ghost kept = all.take(end as int);
    assert(perl_lines(all) == kept);
    // leading empty pieces
    let mut start: usize = 0;
    assert(kept.skip(0) =~= kept);
    while start < end && pieces[start].len() == 0
        invariant
            start <= end <= pieces@.len(),
            all == views(pieces@),
            kept == all.take(end as int),
            drop_leading_empty(kept) == drop_leading_empty(kept.skip(start as int)),
        decreases end - start,
    {
        assert(kept.skip(start as int)[0] == pieces@[start as int]@);
        assert(kept.skip(start as int).drop_first() =~= kept.skip(start + 1));
        start += 1;
    }
    proof {
        if start < end {
            assert(kept.skip(start as int)[0] == pieces@[start as int]@);
        }
    }
    let ghost lines = kept.skip(start as int);
    assert(drop_leading_empty(kept) == lines);
    let mut out: Vec<LogLine> = Vec::new();
    let mut skip: bool = false;
    let mut k: usize = start;
    while k < end
        invariant
            start <= k <= end <= pieces@.len(),
            all == views(pieces@),
            lines == all.take(end as int).skip(start as int),
            lines.len() == end - start,
            log_line_views(out@) + shown_lines(lines, k - start, skip) == shown_lines(lines, 0, false),
        decreases end - k,
    {
        let piece: &Vec<char> = &pieces[k];
        assert(lines[k - start] == piece@);
        let ghost before = log_line_views(out@);
        let ghost skip0 = skip;
        let ghost j: int = k - start;
        if signoff_line(piece) {
            let line: LogLine = LogLine::Signoff(string_of(piece.as_slice()));
            out.push(line);
            assert(log_line_views(out@) =~= before + seq![LogLineView::Signoff(piece@)]);
            skip = true;
        } else if piece.len() == 0 {
            if !skip {
                out.push(LogLine::Blank);
                assert(log_line_views(out@) =~= before + seq![LogLineView::Blank]);
            }
            skip = true;
        } else {
            let line: LogLine = LogLine::Text(string_of(piece.as_slice()));
            out.push(line);
            assert(log_line_views(out@) =~= before + seq![LogLineView::Text(piece@)]);
            skip = false;
        }
        assert(log_line_views(out@) + shown_lines(lines, j + 1, skip) =~= before + shown_lines(lines, j, skip0));
        k += 1;
    }
    out
}

} // verus!
