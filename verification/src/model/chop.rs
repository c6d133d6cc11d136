//! gitweb's `chop_str`: shortening a string for display without cutting a
//! word in half when the rest of the word is short.
//!
//! `chop_str($str, $len, $add_len, $where)` keeps `$len` characters and lets a
//! word that is already under way run on for up to `$add_len` more word
//! characters; what it drops is replaced by a filler (`"... "`, `" ..."` or
//! `" ... "`), and only when the dropped part is longer than the filler itself.
//! A word character is an ASCII letter, digit or underscore.

use vstd::prelude::*;

use crate::text::{alnum, chars_of, is_alnum, push_str, slice, string_of};

verus! {

/// Which end of the string `chop_str` shortens.
#[derive(Debug, Clone, Copy, PartialEq, Eq, Structural)]
pub enum ChopMode {
    /// Keep the end, drop from the start (`'left'`).
    Left,
    /// Keep both ends, drop from the middle (`'center'`).
    Center,
    /// Keep the start, drop from the end (`'right'`, gitweb's default).
    Right,
}

/// A regex `\w` character, taken as ASCII: a letter, a digit or `_`.
pub open spec fn is_word(c: char) -> bool {
    is_alnum(c) || c == '_'
}

/// How many word characters open `s`, at most `cap`.
pub open spec fn lead_words(s: Seq<char>, cap: nat) -> nat
    decreases cap,
{
    if cap == 0 || s.len() == 0 || !is_word(s[0]) {
        0
    } else {
        1 + lead_words(s.subrange(1, s.len() as int), (cap - 1) as nat)
    }
}

/// How many word characters close `s`, at most `cap`.
pub open spec fn tail_words(s: Seq<char>, cap: nat) -> nat
    decreases cap,
{
    if cap == 0 || s.len() == 0 || !is_word(s.last()) {
        0
    } else {
        1 + tail_words(s.drop_last(), (cap - 1) as nat)
    }
}

/// `chop_str(s, len, add, 'right')`: the first `len` characters, run on to the
/// end of a word for at most `add` more, then `"... "` when more than four
/// characters were left over.
pub open spec fn chop_right(s: Seq<char>, len: nat, add: nat) -> Seq<char> {
    if len + 4 >= s.len() {
        s
    } else {
        let cut = len + lead_words(s.skip(len as int), add);
        if s.len() - cut > 4 {
            s.take(cut as int) + "... "@
        } else {
            s
        }
    }
}

/// `chop_str(s, len, add, 'left')`: the last `len` characters, reaching back
/// over at most `add` word characters before them, after `" ..."` when the
/// dropped head is longer than four characters.
pub open spec fn chop_left(s: Seq<char>, len: nat, add: nat) -> Seq<char> {
    if len + 4 >= s.len() {
        s
    } else {
        let head = (s.len() - len - tail_words(s.take(s.len() - len), add)) as int;
        if head > 4 {
            " ..."@ + s.skip(head)
        } else {
            s
        }
    }
}

/// `chop_str(s, len, add, 'center')`: half of `len` kept at each end (each
/// widened by up to `add` word characters), joined by `" ... "` when the
/// dropped middle is longer than five characters. When the part after the
/// kept start is shorter than the kept end, gitweb's second match fails and
/// it reuses the kept start as the middle.
pub open spec fn chop_center(s: Seq<char>, len: nat, add: nat) -> Seq<char> {
    if len + 5 >= s.len() {
        s
    } else {
        let half = len / 2;
        let cut = half + lead_words(s.skip(half as int), add);
        let left = s.take(cut as int);
        let rest = s.skip(cut as int);
        if rest.len() < half {
            let mid = if left.len() > 5 {
                " ... "@
            } else {
                left
            };
            left + mid + rest
        } else {
            let mid_len = (rest.len() - half - tail_words(rest.take(rest.len() - half), add)) as int;
            if mid_len > 5 {
                left + " ... "@ + rest.skip(mid_len)
            } else {
                s
            }
        }
    }
}

/// `chop_str` in any of its three modes.
pub open spec fn chopped(s: Seq<char>, len: nat, add: nat, mode: ChopMode) -> Seq<char> {
    match mode {
        ChopMode::Left => chop_left(s, len, add),
        ChopMode::Center => chop_center(s, len, add),
        ChopMode::Right => chop_right(s, len, add),
    }
}

fn word(c: char) -> (b: bool)
    ensures
        b == is_word(c),
{
    alnum(c) || c == '_'
}

/// `lead_words(v[from..], cap)`.
fn count_lead_words(v: &Vec<char>, from: usize, cap: usize) -> (r: usize)
    requires
        from <= v.len(),
    ensures
        r == lead_words(v@.skip(from as int), cap as nat),
        r <= cap,
        from + r <= v.len(),
{
    let mut i: usize = 0;
    while i < cap && from + i < v.len() && word(v[from + i])
        invariant
            from <= v.len(),
            i <= cap,
            from + i <= v.len(),
            lead_words(v@.skip(from as int), cap as nat) == i + lead_words(
                v@.skip(from + i),
                (cap - i) as nat,
            ),
        decreases cap - i,
    {
        let ghost t = v@.skip(from + i);
        assert(t.subrange(1, t.len() as int) =~= v@.skip(from + i + 1));
        assert(t[0] == v@[from + i]);
        i += 1;
    }
    proof {
        let t = v@.skip(from + i);
        if from + i < v.len() {
            assert(t[0] == v@[from + i]);
        }
    }
    i
}

/// `tail_words(v[..to], cap)`.
fn count_tail_words(v: &Vec<char>, to: usize, cap: usize) -> (r: usize)
    requires
        to <= v.len(),
    ensures
        r == tail_words(v@.take(to as int), cap as nat),
        r <= cap,
        r <= to,
{
    let mut i: usize = 0;
    while i < cap && i < to && word(v[to - i - 1])
        invariant
            to <= v.len(),
            i <= cap,
            i <= to,
            tail_words(v@.take(to as int), cap as nat) == i + tail_words(
                v@.take(to - i),
                (cap - i) as nat,
            ),
        decreases cap - i,
    {
        let ghost t = v@.take(to - i);
        assert(t.drop_last() =~= v@.take(to - i - 1));
        assert(t.last() == v@[to - i - 1]);
        i += 1;
    }
    proof {
        let t = v@.take(to - i);
        if i < to {
            assert(t.last() == v@[to - i - 1]);
        }
    }
    i
}

fn chop_right_chars(v: &Vec<char>, len: usize, add: usize) -> (r: Vec<char>)
    ensures
        r@ == chop_right(v@, len as nat, add as nat),
{
    if len as u128 + 4 >= v.len() as u128 {
        return slice(v, 0, v.len());
    }
    let cut: usize = len + count_lead_words(v, len, add);
    if v.len() - cut > 4 {
        let mut out: Vec<char> = slice(v, 0, cut);
        push_str(&mut out, "... ");
        out
    } else {
        slice(v, 0, v.len())
    }
}

fn chop_left_chars(v: &Vec<char>, len: usize, add: usize) -> (r: Vec<char>)
    ensures
        r@ == chop_left(v@, len as nat, add as nat),
{
    if len as u128 + 4 >= v.len() as u128 {
        return slice(v, 0, v.len());
    }
    let keep_from: usize = v.len() - len;
    let head: usize = keep_from - count_tail_words(v, keep_from, add);
    if head > 4 {
        let mut out: Vec<char> = chars_of(" ...");
        let body: Vec<char> = slice(v, head, v.len());
        crate::text::push_all(&mut out, &body);
        out
    } else {
        slice(v, 0, v.len())
    }
}

fn chop_center_chars(v: &Vec<char>, len: usize, add: usize) -> (r: Vec<char>)
    ensures
        r@ == chop_center(v@, len as nat, add as nat),
{
    if len as u128 + 5 >= v.len() as u128 {
        return slice(v, 0, v.len());
    }
    let half: usize = len / 2;
    let cut: usize = half + count_lead_words(v, half, add);
    let left: Vec<char> = slice(v, 0, cut);
    let rest: Vec<char> = slice(v, cut, v.len());
    assert(rest@ =~= v@.skip(cut as int));
    if rest.len() < half {
        let mut out: Vec<char> = slice(v, 0, cut);
        if left.len() > 5 {
            push_str(&mut out, " ... ");
        } else {
            crate::text::push_all(&mut out, &left);
        }
        crate::text::push_all(&mut out, &rest);
        return out;
    }
    let keep_from: usize = rest.len() - half;
    let mid_len: usize = keep_from - count_tail_words(&rest, keep_from, add);
    if mid_len > 5 {
        let mut out: Vec<char> = left;
        push_str(&mut out, " ... ");
        let right: Vec<char> = slice(&rest, mid_len, rest.len());
        assert(right@ =~= rest@.skip(mid_len as int));
        crate::text::push_all(&mut out, &right);
        out
    } else {
        slice(v, 0, v.len())
    }
}

/// gitweb's `chop_str(s, len, add_len, mode)` (see [`chopped`]).
pub fn chop_str(s: &str, len: usize, add_len: usize, mode: ChopMode) -> (r: String)
    ensures
        r@ == chopped(s@, len as nat, add_len as nat, mode),
{
    let v: Vec<char> = chars_of(s);
    let out: Vec<char> = match mode {
        ChopMode::Left => chop_left_chars(&v, len, add_len),
        ChopMode::Center => chop_center_chars(&v, len, add_len),
        ChopMode::Right => chop_right_chars(&v, len, add_len),
    };
    string_of(out.as_slice())
}

/// A word run counted from the start is no longer than its cap or `s`.
pub proof fn lemma_lead_words_bound(s: Seq<char>, cap: nat)
    ensures
        lead_words(s, cap) <= cap,
        lead_words(s, cap) <= s.len(),
    decreases cap,
{
    if !(cap == 0 || s.len() == 0 || !is_word(s[0])) {
        lemma_lead_words_bound(s.subrange(1, s.len() as int), (cap - 1) as nat);
    }
}

/// A word run counted from the end is no longer than its cap or `s`.
pub proof fn lemma_tail_words_bound(s: Seq<char>, cap: nat)
    ensures
        tail_words(s, cap) <= cap,
        tail_words(s, cap) <= s.len(),
    decreases cap,
{
    if !(cap == 0 || s.len() == 0 || !is_word(s.last())) {
        lemma_tail_words_bound(s.drop_last(), (cap - 1) as nat);
    }
}

/// `chop_str` only ever shortens: the result is never longer than the input.
/// In centre mode this needs a word slack of at most five (gitweb's own use);
/// with a wider slack gitweb's second match can fail and repeat the kept
/// start.
pub proof fn lemma_chop_never_lengthens(s: Seq<char>, len: nat, add: nat, mode: ChopMode)
    requires
        mode == ChopMode::Center ==> add <= 5,
    ensures
        chopped(s, len, add, mode).len() <= s.len(),
{
    reveal_strlit("... ");
    reveal_strlit(" ...");
    reveal_strlit(" ... ");
    match mode {
        ChopMode::Right => {
            if len + 4 < s.len() {
                lemma_lead_words_bound(s.skip(len as int), add);
            }
        },
        ChopMode::Left => {
            if len + 4 < s.len() {
                lemma_tail_words_bound(s.take(s.len() - len), add);
            }
        },
        ChopMode::Center => {
            if len + 5 < s.len() {
                let half = len / 2;
                lemma_lead_words_bound(s.skip(half as int), add);
                let cut = half + lead_words(s.skip(half as int), add);
                let rest = s.skip(cut as int);
                if rest.len() >= half {
                    lemma_tail_words_bound(rest.take(rest.len() - half), add);
                }
            }
        },
    }
}

/// A string within the length and the filler is never chopped.
pub proof fn lemma_chop_short_identity(s: Seq<char>, len: nat, add: nat, mode: ChopMode)
    requires
        len + 4 >= s.len(),
    ensures
        chopped(s, len, add, mode) == s,
{
}

} // verus!
