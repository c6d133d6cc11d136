//! Character-level text primitives the rules are written in.
//!
//! Every rule in this crate reads text as a sequence of Unicode scalar values
//! (`Seq<char>`, the view of `str` and `String`). The helpers here move text
//! between `str`/`String` and `Vec<char>`, classify characters, and split,
//! trim and compare character sequences, each against a spec function that
//! says what it computes.

use vstd::prelude::*;

verus! {

/// An ASCII decimal digit.
pub open spec fn is_digit(c: char) -> bool {
    '0' <= c && c <= '9'
}

/// An ASCII lowercase letter.
pub open spec fn is_lower(c: char) -> bool {
    'a' <= c && c <= 'z'
}

/// An ASCII uppercase letter.
pub open spec fn is_upper(c: char) -> bool {
    'A' <= c && c <= 'Z'
}

/// An ASCII letter or digit.
pub open spec fn is_alnum(c: char) -> bool {
    is_digit(c) || is_lower(c) || is_upper(c)
}

/// An ASCII hexadecimal digit, either case.
pub open spec fn is_hex(c: char) -> bool {
    is_digit(c) || ('a' <= c && c <= 'f') || ('A' <= c && c <= 'F')
}

/// A Unicode `White_Space` character — the set `char::is_whitespace`,
/// `str::trim` and `str::split_whitespace` use.
pub open spec fn is_space(c: char) -> bool {
    ||| ('\u{9}' <= c && c <= '\u{d}')
    ||| c == ' '
    ||| c == '\u{85}'
    ||| c == '\u{a0}'
    ||| c == '\u{1680}'
    ||| ('\u{2000}' <= c && c <= '\u{200a}')
    ||| c == '\u{2028}'
    ||| c == '\u{2029}'
    ||| c == '\u{202f}'
    ||| c == '\u{205f}'
    ||| c == '\u{3000}'
}

/// Whether `c` is an ASCII digit.
pub fn digit(c: char) -> (b: bool)
    ensures
        b == is_digit(c),
{
    '0' <= c && c <= '9'
}

/// Whether `c` is an ASCII lowercase letter.
pub fn lower(c: char) -> (b: bool)
    ensures
        b == is_lower(c),
{
    'a' <= c && c <= 'z'
}

/// Whether `c` is an ASCII letter or digit.
pub fn alnum(c: char) -> (b: bool)
    ensures
        b == is_alnum(c),
{
    ('0' <= c && c <= '9') || ('a' <= c && c <= 'z') || ('A' <= c && c <= 'Z')
}

/// Whether `c` is an ASCII hexadecimal digit.
pub fn hex(c: char) -> (b: bool)
    ensures
        b == is_hex(c),
{
    ('0' <= c && c <= '9') || ('a' <= c && c <= 'f') || ('A' <= c && c <= 'F')
}

/// Whether `c` is Unicode white space.
pub fn space(c: char) -> (b: bool)
    ensures
        b == is_space(c),
{
    ('\u{9}' <= c && c <= '\u{d}') || c == ' ' || c == '\u{85}' || c == '\u{a0}' || c
        == '\u{1680}' || ('\u{2000}' <= c && c <= '\u{200a}') || c == '\u{2028}' || c
        == '\u{2029}' || c == '\u{202f}' || c == '\u{205f}' || c == '\u{3000}'
}

/// The characters of `s`, in order.
pub fn chars_of(s: &str) -> (r: Vec<char>)
    ensures
        r@ == s@,
{
    broadcast use vstd::string::group_string_axioms;

    let mut v: Vec<char> = Vec::new();
    for c in it: s.chars()
        invariant
            v@ == it.seq().take(it.index() as int),
    {
        v.push(c);
    }
    v
}

/// `String::push`: claimed to append `c` to the characters of `s`, as std
/// documents.
#[verifier::external_body]
fn push_char(s: &mut String, c: char)
    ensures
        final(s)@ == old(s)@.push(c),
{
    s.push(c);
}

/// The string made of the characters `v`, in order.
pub fn string_of(v: &[char]) -> (s: String)
    ensures
        s@ == v@,
{
    let mut s: String = String::new();
    let mut i: usize = 0;
    while i < v.len()
        invariant
            0 <= i <= v@.len(),
            s@ == v@.take(i as int),
        decreases v.len() - i,
    {
        push_char(&mut s, v[i]);
        i += 1;
        assert(s@ =~= v@.take(i as int));
    }
    assert(v@.take(v@.len() as int) =~= v@);
    s
}

/// The characters `v[from..to]` as a new vector.
pub fn slice(v: &Vec<char>, from: usize, to: usize) -> (r: Vec<char>)
    requires
        from <= to <= v.len(),
    ensures
        r@ == v@.subrange(from as int, to as int),
{
    let mut r: Vec<char> = Vec::new();
    let mut i: usize = from;
    while i < to
        invariant
            from <= i <= to <= v.len(),
            r@ == v@.subrange(from as int, i as int),
        decreases to - i,
    {
        r.push(v[i]);
        i += 1;
    }
    r
}

/// The string `v[from..to]`.
pub fn substring(v: &Vec<char>, from: usize, to: usize) -> (s: String)
    requires
        from <= to <= v.len(),
    ensures
        s@ == v@.subrange(from as int, to as int),
{
    let r: Vec<char> = slice(v, from, to);
    string_of(r.as_slice())
}

/// Whether two character vectors hold the same characters.
pub fn chars_eq(a: &Vec<char>, b: &Vec<char>) -> (r: bool)
    ensures
        r == (a@ == b@),
{
    if a.len() != b.len() {
        return false;
    }
    let mut i: usize = 0;
    while i < a.len()
        invariant
            a.len() == b.len(),
            0 <= i <= a.len(),
            a@.take(i as int) == b@.take(i as int),
        decreases a.len() - i,
    {
        if a[i] != b[i] {
            assert(a@[i as int] != b@[i as int]);
            return false;
        }
        assert(a@.take(i + 1) == a@.take(i as int).push(a@[i as int]));
        assert(b@.take(i + 1) == b@.take(i as int).push(b@[i as int]));
        i += 1;
    }
    assert(a@ == a@.take(a.len() as int));
    assert(b@ == b@.take(b.len() as int));
    true
}

/// Whether two strings are equal.
pub fn str_eq(a: &str, b: &str) -> (r: bool)
    ensures
        r == (a@ == b@),
{
    let x: Vec<char> = chars_of(a);
    let y: Vec<char> = chars_of(b);
    chars_eq(&x, &y)
}

/// `prefix` begins `s`.
pub open spec fn has_prefix(s: Seq<char>, prefix: Seq<char>) -> bool {
    prefix.len() <= s.len() && s.take(prefix.len() as int) == prefix
}

/// `suffix` ends `s`.
pub open spec fn has_suffix(s: Seq<char>, suffix: Seq<char>) -> bool {
    suffix.len() <= s.len() && s.skip(s.len() - suffix.len()) == suffix
}

/// Whether `prefix` begins `s`.
pub fn starts_with(s: &Vec<char>, prefix: &Vec<char>) -> (r: bool)
    ensures
        r == has_prefix(s@, prefix@),
{
    if prefix.len() > s.len() {
        return false;
    }
    let head: Vec<char> = slice(s, 0, prefix.len());
    chars_eq(&head, prefix)
}

/// Whether `suffix` ends `s`.
pub fn ends_with(s: &Vec<char>, suffix: &Vec<char>) -> (r: bool)
    ensures
        r == has_suffix(s@, suffix@),
{
    if suffix.len() > s.len() {
        return false;
    }
    let tail: Vec<char> = slice(s, s.len() - suffix.len(), s.len());
    chars_eq(&tail, suffix)
}

/// Whether `c` occurs in `s`.
pub fn contains_char(s: &Vec<char>, c: char) -> (r: bool)
    ensures
        r == s@.contains(c),
{
    let mut i: usize = 0;
    while i < s.len()
        invariant
            0 <= i <= s.len(),
            forall|j: int| 0 <= j < i ==> s@[j] != c,
        decreases s.len() - i,
    {
        if s[i] == c {
            return true;
        }
        i += 1;
    }
    false
}

/// The pieces of `s` between the occurrences of `sep`, in order — the pieces
/// `str::split` yields for a single-character pattern. There is always at least
/// one piece, and separators at the ends or side by side give empty pieces.
pub open spec fn split_on(s: Seq<char>, sep: char) -> Seq<Seq<char>>
    decreases s.len(),
{
    if s.len() == 0 {
        seq![Seq::<char>::empty()]
    } else {
        let rest = split_on(s.drop_last(), sep);
        if s.last() == sep {
            rest.push(Seq::<char>::empty())
        } else {
            rest.update(rest.len() - 1, rest.last().push(s.last()))
        }
    }
}

/// `split_on` never yields an empty list of pieces.
pub proof fn lemma_split_on_nonempty(s: Seq<char>, sep: char)
    ensures
        split_on(s, sep).len() >= 1,
    decreases s.len(),
{
    if s.len() > 0 {
        lemma_split_on_nonempty(s.drop_last(), sep);
    }
}

/// The views of a vector of character vectors.
pub open spec fn views(v: Seq<Vec<char>>) -> Seq<Seq<char>> {
    v.map_values(|x: Vec<char>| x@)
}

/// Splits `s` on every `sep` (see [`split_on`]).
pub fn split_chars(s: &Vec<char>, sep: char) -> (r: Vec<Vec<char>>)
    ensures
        views(r@) == split_on(s@, sep),
{
    let mut done: Vec<Vec<char>> = Vec::new();
    let mut cur: Vec<char> = Vec::new();
    let mut i: usize = 0;
    while i < s.len()
        invariant
            0 <= i <= s.len(),
            views(done@).push(cur@) == split_on(s@.take(i as int), sep),
        decreases s.len() - i,
    {
        let ghost prev = s@.take(i as int);
        assert(s@.take(i + 1).drop_last() == prev);
        let c: char = s[i];
        if c == sep {
            let finished: Vec<char> = cur;
            done.push(finished);
            cur = Vec::new();
            assert(views(done@) == views(done@).drop_last().push(finished@));
        } else {
            cur.push(c);
        }
        i += 1;
        assert(views(done@).push(cur@) =~= split_on(s@.take(i as int), sep));
    }
    assert(s@.take(s.len() as int) == s@);
    done.push(cur);
    assert(views(done@) =~= split_on(s@, sep));
    done
}

/// `line` without one trailing carriage return.
pub open spec fn without_cr(line: Seq<char>) -> Seq<char> {
    if line.len() > 0 && line.last() == '\r' {
        line.drop_last()
    } else {
        line
    }
}

/// The lines `str::lines` yields: the pieces between `\n`s, each that ended
/// at a `\n` without one trailing `\r`, and no final empty piece.
pub open spec fn std_lines(s: Seq<char>) -> Seq<Seq<char>> {
    let parts = split_on(s, '\n');
    let body = parts.drop_last().map_values(|l: Seq<char>| without_cr(l));
    if parts.last().len() == 0 {
        body
    } else {
        body.push(parts.last())
    }
}

/// The texts of `v`, each as its characters.
pub open spec fn string_views(v: Seq<String>) -> Seq<Seq<char>> {
    v.map_values(|x: String| x@)
}

/// The lines of `s` (see [`std_lines`]).
pub fn std_lines_of(s: &str) -> (r: Vec<String>)
    ensures
        string_views(r@) == std_lines(s@),
{
    let text: Vec<char> = chars_of(s);
    let parts: Vec<Vec<char>> = split_chars(&text, '\n');
    proof {
        lemma_split_on_nonempty(s@, '\n');
    }
    let ghost all = split_on(s@, '\n');
    let n: usize = parts.len();
    assert(views(parts@) == all);
    assert(n >= 1);
    let mut out: Vec<String> = Vec::new();
    let mut i: usize = 0;
    while i + 1 < n
        invariant
            n == parts@.len(),
            n >= 1,
            views(parts@) == all,
            all == split_on(s@, '\n'),
            0 <= i < n,
            string_views(out@) =~= all.take(i as int).map_values(|l: Seq<char>| without_cr(l)),
        decreases n - i,
    {
        let piece: &Vec<char> = &parts[i];
        assert(views(parts@)[i as int] == piece@);
        let end: usize = if piece.len() > 0 && piece[piece.len() - 1] == '\r' {
            piece.len() - 1
        } else {
            piece.len()
        };
        assert(piece@.take(end as int) =~= without_cr(piece@));
        let line: String = string_of(&piece.as_slice()[0..end]);
        let ghost before = string_views(out@);
        out.push(line);
        assert(string_views(out@) =~= before.push(line@));
        assert(all.take(i + 1) =~= all.take(i as int).push(all[i as int]));
        i += 1;
    }
    assert(all.take(i as int) =~= all.drop_last());
    let last: &Vec<char> = &parts[n - 1];
    assert(views(parts@)[n - 1] == last@);
    if last.len() > 0 {
        let ghost before = string_views(out@);
        out.push(string_of(last.as_slice()));
        assert(string_views(out@) =~= before.push(last@));
    }
    out
}

/// The index of the first `c` in `s` at or after `from`, if any.
pub open spec fn first_index_from(s: Seq<char>, c: char, from: int) -> Option<int>
    decreases s.len() - from,
{
    if from >= s.len() || from < 0 {
        None
    } else if s[from] == c {
        Some(from)
    } else {
        first_index_from(s, c, from + 1)
    }
}

/// Finds the first `c` in `s` at or after `from`.
pub fn find_char_from(s: &Vec<char>, c: char, from: usize) -> (r: Option<usize>)
    ensures
        r matches Some(k) ==> first_index_from(s@, c, from as int) == Some(k as int),
        r matches Some(k) ==> from <= k < s.len() && s@[k as int] == c,
        r is None ==> first_index_from(s@, c, from as int) is None,
{
    let mut i: usize = from;
    if i >= s.len() {
        return None;
    }
    while i < s.len()
        invariant
            from <= i <= s.len(),
            first_index_from(s@, c, from as int) == first_index_from(s@, c, i as int),
        decreases s.len() - i,
    {
        if s[i] == c {
            return Some(i);
        }
        i += 1;
    }
    None
}

/// The number of leading white-space characters of `s`.
pub open spec fn leading_space(s: Seq<char>) -> nat
    decreases s.len(),
{
    if s.len() > 0 && is_space(s[0]) {
        1 + leading_space(s.drop_first())
    } else {
        0
    }
}

/// The number of trailing white-space characters of `s`.
pub open spec fn trailing_space(s: Seq<char>) -> nat
    decreases s.len(),
{
    if s.len() > 0 && is_space(s.last()) {
        1 + trailing_space(s.drop_last())
    } else {
        0
    }
}

/// `s` without its leading white space.
pub open spec fn trim_start(s: Seq<char>) -> Seq<char> {
    s.skip(leading_space(s) as int)
}

/// `s` without its trailing white space.
pub open spec fn trim_end(s: Seq<char>) -> Seq<char> {
    s.take(s.len() - trailing_space(s))
}

/// `s` without leading and trailing white space — `str::trim`.
pub open spec fn trim(s: Seq<char>) -> Seq<char> {
    trim_end(trim_start(s))
}

proof fn lemma_leading_space(s: Seq<char>, i: int)
    requires
        0 <= i <= s.len(),
        forall|j: int| 0 <= j < i ==> is_space(#[trigger] s[j]),
    ensures
        leading_space(s) >= i,
        leading_space(s) == i + leading_space(s.skip(i)),
        leading_space(s) <= s.len(),
    decreases i,
{
    lemma_leading_bound(s);
    if i == 0 {
        assert(s.skip(0) =~= s);
    } else {
        assert(s.drop_first().skip(i - 1) == s.skip(i));
        lemma_leading_space(s.drop_first(), i - 1);
    }
}

proof fn lemma_leading_bound(s: Seq<char>)
    ensures
        leading_space(s) <= s.len(),
    decreases s.len(),
{
    if s.len() > 0 {
        lemma_leading_bound(s.drop_first());
    }
}

proof fn lemma_trailing_space(s: Seq<char>, i: int)
    requires
        0 <= i <= s.len(),
        forall|j: int| s.len() - i <= j < s.len() ==> is_space(#[trigger] s[j]),
    ensures
        trailing_space(s) >= i,
        trailing_space(s) == i + trailing_space(s.take(s.len() - i)),
        trailing_space(s) <= s.len(),
    decreases i,
{
    lemma_trailing_bound(s);
    if i == 0 {
        assert(s.take(s.len() as int) =~= s);
    } else {
        assert(s.drop_last().take(s.len() - i) == s.take(s.len() - i));
        lemma_trailing_space(s.drop_last(), i - 1);
    }
}

proof fn lemma_trailing_bound(s: Seq<char>)
    ensures
        trailing_space(s) <= s.len(),
    decreases s.len(),
{
    if s.len() > 0 {
        lemma_trailing_bound(s.drop_last());
    }
}

/// `s` with leading and trailing white space removed.
pub fn trim_chars(s: &Vec<char>) -> (r: Vec<char>)
    ensures
        r@ == trim(s@),
{
    let mut start: usize = 0;
    while start < s.len() && space(s[start])
        invariant
            0 <= start <= s.len(),
            forall|j: int| 0 <= j < start ==> is_space(#[trigger] s@[j]),
        decreases s.len() - start,
    {
        start += 1;
    }
    proof {
        lemma_leading_space(s@, start as int);
        if start < s.len() {
            assert(!is_space(s@.skip(start as int)[0]));
        }
        assert(leading_space(s@.skip(start as int)) == 0);
    }
    let mut end: usize = s.len();
    while end > start && space(s[end - 1])
        invariant
            start <= end <= s.len(),
            forall|j: int| end <= j < s.len() ==> is_space(#[trigger] s@[j]),
        decreases end,
    {
        end -= 1;
    }
    let ghost t = s@.skip(start as int);
    proof {
        assert forall|j: int| t.len() - (s.len() - end) <= j < t.len() implies is_space(
            #[trigger] t[j],
        ) by {
            assert(t[j] == s@[j + start]);
        }
        lemma_trailing_space(t, s.len() - end);
        let u = t.take(t.len() - (s.len() - end));
        if u.len() > 0 {
            assert(u.last() == s@[end - 1]);
        }
        assert(trailing_space(u) == 0);
        assert(trim_start(s@) == t);
        assert(t.take(t.len() - trailing_space(t)) =~= s@.subrange(start as int, end as int));
    }
    slice(s, start, end)
}

/// The character of the decimal digit `d`.
pub open spec fn digit_char(d: nat) -> char {
    ((d + 48) as u32) as char
}

/// The decimal numeral of `n`, without leading zeros (`0` is `"0"`).
pub open spec fn decimal(n: nat) -> Seq<char>
    decreases n,
{
    if n < 10 {
        seq![digit_char(n)]
    } else {
        decimal(n / 10).push(digit_char(n % 10))
    }
}

/// The character of the digit `d`.
pub fn digit_to_char(d: u8) -> (c: char)
    requires
        d < 10,
    ensures
        c == digit_char(d as nat),
{
    (d + 48) as char
}

/// The decimal numeral of `n`.
pub fn decimal_chars(n: u128) -> (r: Vec<char>)
    ensures
        r@ == decimal(n as nat),
    decreases n,
{
    if n < 10 {
        vec![digit_to_char(n as u8)]
    } else {
        let mut v: Vec<char> = decimal_chars(n / 10);
        v.push(digit_to_char((n % 10) as u8));
        v
    }
}

/// The octal numeral of `n`, without leading zeros (`0` is `"0"`).
pub open spec fn octal(n: nat) -> Seq<char>
    decreases n,
{
    if n < 8 {
        seq![digit_char(n)]
    } else {
        octal(n / 8).push(digit_char(n % 8))
    }
}

/// The octal numeral of `n`.
pub fn octal_chars(n: u32) -> (r: Vec<char>)
    ensures
        r@ == octal(n as nat),
    decreases n,
{
    if n < 8 {
        vec![digit_to_char(n as u8)]
    } else {
        let mut v: Vec<char> = octal_chars(n / 8);
        v.push(digit_to_char((n % 8) as u8));
        v
    }
}

/// `s` left-padded with `fill` to at least `width` characters (Rust's `{:>w}`
/// on a numeral, or `{:0w}` with `'0'`).
pub open spec fn pad_left(s: Seq<char>, width: nat, fill: char) -> Seq<char> {
    if s.len() >= width {
        s
    } else {
        Seq::new((width - s.len()) as nat, |_i: int| fill) + s
    }
}

/// Pads `s` on the left with `fill` to at least `width` characters.
pub fn pad_chars(s: Vec<char>, width: usize, fill: char) -> (r: Vec<char>)
    ensures
        r@ == pad_left(s@, width as nat, fill),
{
    if s.len() >= width {
        return s;
    }
    let mut r: Vec<char> = Vec::new();
    let n: usize = width - s.len();
    let mut i: usize = 0;
    while i < n
        invariant
            0 <= i <= n,
            n == width - s.len(),
            r@ == Seq::new(i as nat, |_i: int| fill),
        decreases n - i,
    {
        r.push(fill);
        i += 1;
        assert(r@ =~= Seq::new(i as nat, |_i: int| fill));
    }
    let mut j: usize = 0;
    let ghost pad = r@;
    while j < s.len()
        invariant
            0 <= j <= s.len(),
            r@ == pad + s@.take(j as int),
        decreases s.len() - j,
    {
        r.push(s[j]);
        j += 1;
        assert(r@ =~= pad + s@.take(j as int));
    }
    assert(s@.take(s.len() as int) == s@);
    r
}

/// Appends the characters of `s` to `out`.
pub fn push_str(out: &mut Vec<char>, s: &str)
    ensures
        final(out)@ == old(out)@ + s@,
{
    let c: Vec<char> = chars_of(s);
    push_all(out, &c);
}

/// Appends the characters `c` to `out`.
pub fn push_all(out: &mut Vec<char>, c: &Vec<char>)
    ensures
        final(out)@ == old(out)@ + c@,
{
    let ghost start = out@;
    let mut j: usize = 0;
    while j < c.len()
        invariant
            0 <= j <= c.len(),
            out@ == start + c@.take(j as int),
        decreases c.len() - j,
    {
        out.push(c[j]);
        j += 1;
        assert(out@ =~= start + c@.take(j as int));
    }
    assert(c@.take(c.len() as int) == c@);
}

/// The numeral of a signed integer, with a leading `-` when negative.
pub open spec fn signed_decimal(n: int) -> Seq<char> {
    if n < 0 {
        seq!['-'] + decimal((-n) as nat)
    } else {
        decimal(n as nat)
    }
}

/// Rust's `{:0w}` of an integer: the sign first, then zeros up to `width`.
pub open spec fn zero_padded(n: int, width: nat) -> Seq<char> {
    if n < 0 {
        seq!['-'] + pad_left(decimal((-n) as nat), if width > 0 { (width - 1) as nat } else { 0 }, '0')
    } else {
        pad_left(decimal(n as nat), width, '0')
    }
}

/// Rust's `{:w}` of an integer: right-aligned in spaces up to `width`.
pub open spec fn space_padded(n: int, width: nat) -> Seq<char> {
    pad_left(signed_decimal(n), width, ' ')
}

/// Formats `n` zero-padded to `width` (Rust's `{:0w}`).
pub fn fmt_zero_padded(n: i64, width: usize) -> (r: Vec<char>)
    ensures
        r@ == zero_padded(n as int, width as nat),
{
    if n < 0 {
        let digits: Vec<char> = decimal_chars((-(n as i128)) as u128);
        let w: usize = if width > 0 { width - 1 } else { 0 };
        let padded: Vec<char> = pad_chars(digits, w, '0');
        let mut r: Vec<char> = vec!['-'];
        push_all(&mut r, &padded);
        assert(r@ =~= seq!['-'] + padded@);
        r
    } else {
        let digits: Vec<char> = decimal_chars(n as u128);
        pad_chars(digits, width, '0')
    }
}

/// Formats `n` right-aligned in spaces to `width` (Rust's `{:w}`).
pub fn fmt_space_padded(n: i64, width: usize) -> (r: Vec<char>)
    ensures
        r@ == space_padded(n as int, width as nat),
{
    let mut s: Vec<char> = Vec::new();
    if n < 0 {
        s.push('-');
        let digits: Vec<char> = decimal_chars((-(n as i128)) as u128);
        push_all(&mut s, &digits);
        assert(s@ =~= seq!['-'] + digits@);
    } else {
        s = decimal_chars(n as u128);
    }
    pad_chars(s, width, ' ')
}

} // verus!
