//! Tab expansion for display — gitweb's `untabify`.
//!
//! Every tab widens to the spaces that reach the next eight-column tab stop,
//! the column counted in characters of the already-expanded line.

use vstd::prelude::*;
use crate::text::{chars_of, string_of};

verus! {

/// The tab stop width gitweb expands to.
pub const TAB_STOP: usize = 8;

/// `n` spaces.
pub open spec fn spaces(n: nat) -> Seq<char> {
    Seq::new(n, |_i: int| ' ')
}

/// `line` with each tab expanded to the next eight-column stop.
pub open spec fn untabified(line: Seq<char>) -> Seq<char>
    decreases line.len(),
{
    if line.len() == 0 {
        seq![]
    } else {
        let before = untabified(line.drop_last());
        if line.last() == '\t' {
            before + spaces((8 - before.len() % 8) as nat)
        } else {
            before.push(line.last())
        }
    }
}

/// Expands every tab in `line` (see [`untabified`]).
pub fn untabify(line: &str) -> (r: String)
    ensures
        r@ == untabified(line@),
{
    let chars: Vec<char> = chars_of(line);
    let mut expanded: Vec<char> = Vec::new();
    let mut i: usize = 0;
    while i < chars.len()
        invariant
            0 <= i <= chars.len(),
            expanded@ == untabified(chars@.take(i as int)),
        decreases chars.len() - i,
    {
        assert(chars@.take(i + 1).drop_last() == chars@.take(i as int));
        assert(chars@.take(i + 1).last() == chars@[i as int]);
        let c: char = chars[i];
        if c == '\t' {
            let width: usize = TAB_STOP - (expanded.len() % TAB_STOP);
            let ghost before = expanded@;
            let mut k: usize = 0;
            while k < width
                invariant
                    0 <= k <= width,
                    expanded@ == before + spaces(k as nat),
                decreases width - k,
            {
                expanded.push(' ');
                k += 1;
                assert(expanded@ =~= before + spaces(k as nat));
            }
        } else {
            expanded.push(c);
        }
        i += 1;
    }
    assert(chars@.take(chars.len() as int) == chars@);
    string_of(expanded.as_slice())
}

/// The characters of `s` other than spaces and tabs, in order.
pub open spec fn nonblank(s: Seq<char>) -> Seq<char>
    decreases s.len(),
{
    if s.len() == 0 {
        seq![]
    } else {
        let before = nonblank(s.drop_last());
        if s.last() == ' ' || s.last() == '\t' {
            before
        } else {
            before.push(s.last())
        }
    }
}

proof fn lemma_nonblank_spaces(a: Seq<char>, n: nat)
    ensures
        nonblank(a + spaces(n)) == nonblank(a),
    decreases n,
{
    if n == 0 {
        assert(a + spaces(0) =~= a);
    } else {
        lemma_nonblank_spaces(a, (n - 1) as nat);
        assert((a + spaces(n)).drop_last() =~= a + spaces((n - 1) as nat));
        assert((a + spaces(n)).last() == ' ');
    }
}

proof fn lemma_untabified_tab_free(line: Seq<char>)
    ensures
        forall|i: int| 0 <= i < untabified(line).len() ==> untabified(line)[i] != '\t',
        untabified(line).len() >= line.len(),
        nonblank(untabified(line)) == nonblank(line),
    decreases line.len(),
{
    if line.len() > 0 {
        let before = untabified(line.drop_last());
        lemma_untabified_tab_free(line.drop_last());
        if line.last() == '\t' {
            lemma_nonblank_spaces(before, (8 - before.len() % 8) as nat);
        } else {
            assert(untabified(line).drop_last() =~= before);
        }
    }
}

proof fn lemma_untabified_identity(line: Seq<char>)
    requires
        forall|i: int| 0 <= i < line.len() ==> line[i] != '\t',
    ensures
        untabified(line) == line,
    decreases line.len(),
{
    if line.len() > 0 {
        lemma_untabified_identity(line.drop_last());
        assert(line.last() == line[line.len() - 1]);
        assert(line.drop_last().push(line.last()) =~= line);
    }
}

/// Tab expansion leaves no tab behind, never shortens a line, keeps every
/// character other than blanks in order, changes nothing in a line without
/// tabs, and so expanding twice is expanding once.
pub proof fn lemma_untabify_laws(line: Seq<char>)
    ensures
        !untabified(line).contains('\t'),
        untabified(line).len() >= line.len(),
        nonblank(untabified(line)) == nonblank(line),
        !line.contains('\t') ==> untabified(line) == line,
        untabified(untabified(line)) == untabified(line),
{
    lemma_untabified_tab_free(line);
    lemma_untabified_identity(untabified(line));
    if !line.contains('\t') {
        assert forall|i: int| 0 <= i < line.len() implies line[i] != '\t' by {
            if line[i] == '\t' {
                assert(line.contains('\t'));
            }
        }
        lemma_untabified_identity(line);
    }
}

/// Each tab widens to the next eight-column stop of the expanded line: right
/// after a tab the expanded text is a whole number of stops long, and a tab
/// takes between one and eight columns.
pub proof fn lemma_tab_reaches_next_stop(line: Seq<char>, i: int)
    requires
        0 <= i < line.len(),
        line[i] == '\t',
    ensures
        untabified(line.take(i + 1)).len() % 8 == 0,
        untabified(line.take(i)).len() < untabified(line.take(i + 1)).len() <= untabified(line.take(i)).len() + 8,
{
    let t = line.take(i + 1);
    assert(t.drop_last() =~= line.take(i));
    assert(t.last() == '\t');
    let b = untabified(line.take(i)).len();
    assert((b + (8 - b % 8)) % 8 == 0) by (nonlinear_arith)
        requires
            b >= 0,
    ;
}

} // verus!
