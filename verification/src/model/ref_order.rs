//! The order `git for-each-ref --sort=-<date> [--sort=-HEAD]` lists refs in:
//! newest first, an optional flag (the branch HEAD names) floated above ties,
//! then ref name ascending, git's implicit final key. Names compare as byte
//! strings, which for UTF-8 text is the order of their characters' code points.

use vstd::prelude::*;

verus! {

broadcast use vstd::seq_lib::group_to_multiset_ensures;

/// `a` sorts no later than `b` in code-point lexicographic order.
pub open spec fn lex_le(a: Seq<char>, b: Seq<char>) -> bool
    decreases a.len(),
{
    if a.len() == 0 {
        true
    } else if b.len() == 0 {
        false
    } else if a[0] != b[0] {
        a[0] < b[0]
    } else {
        lex_le(a.drop_first(), b.drop_first())
    }
}

/// Any two names are ordered one way or the other.
pub proof fn lemma_lex_total(a: Seq<char>, b: Seq<char>)
    ensures
        lex_le(a, b) || lex_le(b, a),
    decreases a.len(),
{
    if a.len() > 0 && b.len() > 0 && a[0] == b[0] {
        lemma_lex_total(a.drop_first(), b.drop_first());
    }
}

/// The lexicographic order is transitive.
pub proof fn lemma_lex_trans(a: Seq<char>, b: Seq<char>, c: Seq<char>)
    requires
        lex_le(a, b),
        lex_le(b, c),
    ensures
        lex_le(a, c),
    decreases a.len(),
{
    if a.len() > 0 && b.len() > 0 && c.len() > 0 && a[0] == b[0] && b[0] == c[0] {
        lemma_lex_trans(a.drop_first(), b.drop_first(), c.drop_first());
    }
}

/// Whether `a` sorts no later than `b` (see [`lex_le`]).
pub fn lex_le_chars(a: &Vec<char>, b: &Vec<char>) -> (r: bool)
    ensures
        r == lex_le(a@, b@),
{
    let mut i: usize = 0;
    assert(a@.skip(0) =~= a@);
    assert(b@.skip(0) =~= b@);
    while i < a.len() && i < b.len() && a[i] == b[i]
        invariant
            i <= a.len(),
            i <= b.len(),
            lex_le(a@, b@) == lex_le(a@.skip(i as int), b@.skip(i as int)),
        decreases a.len() - i,
    {
        assert(a@.skip(i as int)[0] == a@[i as int]);
        assert(b@.skip(i as int)[0] == b@[i as int]);
        assert(a@.skip(i as int).drop_first() =~= a@.skip(i + 1));
        assert(b@.skip(i as int).drop_first() =~= b@.skip(i + 1));
        i += 1;
    }
    if i == a.len() {
        true
    } else if i == b.len() {
        false
    } else {
        assert(a@.skip(i as int)[0] == a@[i as int]);
        assert(b@.skip(i as int)[0] == b@[i as int]);
        a[i] < b[i]
    }
}

/// The sort key of a listed ref: its date, whether it is floated, its name.
pub struct RefKey {
    pub epoch: i64,
    pub first: bool,
    pub name: Vec<char>,
}

/// A [`RefKey`] seen through its name's characters.
pub struct RefKeyView {
    pub epoch: i64,
    pub first: bool,
    pub name: Seq<char>,
}

impl View for RefKey {
    type V = RefKeyView;

    open spec fn view(&self) -> RefKeyView {
        RefKeyView { epoch: self.epoch, first: self.first, name: self.name@ }
    }
}

/// `a` is listed no later than `b`: newer first, then floated first, then by
/// name.
pub open spec fn key_le(a: RefKeyView, b: RefKeyView) -> bool {
    ||| a.epoch > b.epoch
    ||| a.epoch == b.epoch && a.first && !b.first
    ||| a.epoch == b.epoch && a.first == b.first && lex_le(a.name, b.name)
}

/// Any two keys are ordered one way or the other.
pub proof fn lemma_key_total(a: RefKeyView, b: RefKeyView)
    ensures
        key_le(a, b) || key_le(b, a),
{
    lemma_lex_total(a.name, b.name);
}

/// The listing order is transitive.
pub proof fn lemma_key_trans(a: RefKeyView, b: RefKeyView, c: RefKeyView)
    requires
        key_le(a, b),
        key_le(b, c),
    ensures
        key_le(a, c),
{
    if a.epoch == b.epoch && b.epoch == c.epoch && a.first == b.first && b.first == c.first {
        lemma_lex_trans(a.name, b.name, c.name);
    }
}

/// Whether `a` is listed no later than `b` (see [`key_le`]).
pub fn key_precedes(a: &RefKey, b: &RefKey) -> (r: bool)
    ensures
        r == key_le(a@, b@),
{
    if a.epoch != b.epoch {
        a.epoch > b.epoch
    } else if a.first != b.first {
        a.first
    } else {
        lex_le_chars(&a.name, &b.name)
    }
}

/// The entries of `s` are in listing order.
pub open spec fn keyed_sorted<T>(s: Seq<(RefKey, T)>) -> bool {
    forall|i: int, j: int| 0 <= i < j < s.len() ==> key_le(#[trigger] s[i].0@, #[trigger] s[j].0@)
}

/// Where a stable insertion puts an entry keyed `k` into `s`: after every
/// entry listed no later than it.
pub open spec fn insertion_pos<T>(s: Seq<(RefKey, T)>, k: RefKeyView) -> int
    decreases s.len(),
{
    if s.len() == 0 {
        0
    } else if !key_le(s[0].0@, k) {
        0
    } else {
        1 + insertion_pos(s.drop_first(), k)
    }
}

/// The stable sort of `s` into listing order: each entry, in turn, inserted
/// after the entries listed no later than it, so equal keys keep their order.
pub open spec fn stable_sorted<T>(s: Seq<(RefKey, T)>) -> Seq<(RefKey, T)>
    decreases s.len(),
{
    if s.len() == 0 {
        s
    } else {
        let prev = stable_sorted(s.drop_last());
        prev.insert(insertion_pos(prev, s.last().0@), s.last())
    }
}

/// The insertion position lies within the list, after entries no later than
/// the key and before the first later one.
pub proof fn lemma_insertion_pos<T>(s: Seq<(RefKey, T)>, k: RefKeyView)
    ensures
        0 <= insertion_pos(s, k) <= s.len(),
        forall|i: int| 0 <= i < insertion_pos(s, k) ==> key_le(#[trigger] s[i].0@, k),
        insertion_pos(s, k) < s.len() ==> !key_le(s[insertion_pos(s, k)].0@, k),
    decreases s.len(),
{
    if s.len() > 0 && key_le(s[0].0@, k) {
        lemma_insertion_pos(s.drop_first(), k);
        assert forall|i: int| 0 <= i < insertion_pos(s, k) implies key_le(#[trigger] s[i].0@, k) by {
            if i > 0 {
                assert(s[i] == s.drop_first()[i - 1]);
            }
        }
    }
}

/// A position with every earlier entry no later than the key, and the entry
/// there (if any) later, is the insertion position.
proof fn lemma_insertion_pos_unique<T>(s: Seq<(RefKey, T)>, k: RefKeyView, p: int)
    requires
        0 <= p <= s.len(),
        forall|i: int| 0 <= i < p ==> key_le(#[trigger] s[i].0@, k),
        p < s.len() ==> !key_le(s[p].0@, k),
    ensures
        insertion_pos(s, k) == p,
    decreases s.len(),
{
    if s.len() > 0 && p > 0 {
        assert(key_le(s[0].0@, k));
        assert forall|i: int| 0 <= i < p - 1 implies key_le(#[trigger] s.drop_first()[i].0@, k) by {
            assert(s.drop_first()[i] == s[i + 1]);
        }
        lemma_insertion_pos_unique(s.drop_first(), k, p - 1);
    }
}

/// The stable sort lists entries in order and keeps every entry.
pub proof fn lemma_stable_sorted<T>(s: Seq<(RefKey, T)>)
    ensures
        keyed_sorted(stable_sorted(s)),
        stable_sorted(s).to_multiset() == s.to_multiset(),
        stable_sorted(s).len() == s.len(),
    decreases s.len(),
{
    if s.len() > 0 {
        let prev = stable_sorted(s.drop_last());
        lemma_stable_sorted(s.drop_last());
        let x = s.last();
        let p = insertion_pos(prev, x.0@);
        lemma_insertion_pos(prev, x.0@);
        let out = prev.insert(p, x);
        if p < prev.len() {
            lemma_key_total(prev[p].0@, x.0@);
            assert forall|k: int| p <= k < prev.len() implies key_le(x.0@, #[trigger] prev[k].0@) by {
                if k > p {
                    lemma_key_trans(x.0@, prev[p].0@, prev[k].0@);
                }
            }
        }
        assert forall|i: int, j: int| 0 <= i < j < out.len() implies key_le(
            #[trigger] out[i].0@,
            #[trigger] out[j].0@,
        ) by {
            if i < p && j == p {
            } else if i < p && j > p {
                assert(out[i] == prev[i]);
                assert(out[j] == prev[j - 1]);
            } else if i == p {
                assert(out[j] == prev[j - 1]);
            } else if i < p {
            } else {
                assert(out[i] == prev[i - 1]);
                assert(out[j] == prev[j - 1]);
            }
        }
        vstd::seq_lib::to_multiset_insert(prev, p, x);
        assert(s =~= s.drop_last().push(x));
        vstd::seq_lib::to_multiset_build(s.drop_last(), x);
    }
}

/// Sorts keyed entries into listing order, stably (see [`stable_sorted`]).
pub fn sort_by_ref_key<T>(items: Vec<(RefKey, T)>) -> (r: Vec<(RefKey, T)>)
    ensures
        r@ == stable_sorted(items@),
        keyed_sorted(r@),
        r@.to_multiset() == items@.to_multiset(),
        r@.len() == items@.len(),
{
    let ghost all = items@;
    let mut rest: Vec<(RefKey, T)> = items;
    let mut out: Vec<(RefKey, T)> = Vec::new();
    let ghost mut done: int = 0;
    assert(all.take(0) =~= Seq::<(RefKey, T)>::empty());
    assert(all.skip(0) =~= all);
    while rest.len() > 0
        invariant
            0 <= done <= all.len(),
            rest@ == all.skip(done),
            out@ == stable_sorted(all.take(done)),
        decreases rest.len(),
    {
        let ghost before_out = out@;
        let x: (RefKey, T) = rest.remove(0);
        let mut p: usize = 0;
        while p < out.len() && key_precedes(&out[p].0, &x.0)
            invariant
                p <= out.len(),
                out@ == before_out,
                forall|k: int| 0 <= k < p ==> key_le(#[trigger] out@[k].0@, x.0@),
            decreases out.len() - p,
        {
            p += 1;
        }
        proof {
            lemma_insertion_pos_unique(before_out, x.0@, p as int);
            assert(x == all[done]);
            assert(all.take(done + 1).drop_last() =~= all.take(done));
            assert(all.take(done + 1).last() == x);
        }
        out.insert(p, x);
        proof {
            done = done + 1;
            assert(rest@ =~= all.skip(done));
        }
    }
    proof {
        assert(all.take(done) =~= all);
        lemma_stable_sorted(all);
    }
    out
}

} // verus!
