//! Git identity lines (signatures).
//!
//! The ident parsing in gitweb's `parse_commit_text` / `parse_tag`: an ident
//! line is `"<name> <<email>> <epoch> <tz>"`, with the role keyword already
//! stripped by the caller.

use vstd::prelude::*;
use crate::model::request::digits_value;
use crate::text::{chars_of, digit, find_char_from, first_index_from, is_digit, push_str, slice, string_of, substring};

verus! {

/// Whether the digit run starting at `i` in `s` ends before `j` (every
/// character of `s[i..j]` is a digit).
pub open spec fn digits_between(s: Seq<char>, i: int, j: int) -> bool {
    forall|k: int| i <= k < j ==> is_digit(#[trigger] s[k])
}

/// `s[i]` is a space that begins gitweb's ` <digits> ` time split, the digits
/// running to `j`, which is a space too.
pub open spec fn time_split_at(s: Seq<char>, i: int, j: int) -> bool {
    &&& 0 <= i
    &&& i + 1 < j < s.len()
    &&& s[i] == ' '
    &&& s[j] == ' '
    &&& digits_between(s, i + 1, j)
}

/// `s[i]` begins a time split.
pub open spec fn splits_at(s: Seq<char>, i: int) -> bool {
    exists|j: int| time_split_at(s, i, j)
}

/// gitweb's `^(.*) ([0-9]+) (.*)$` with its greedy lead: the rightmost space
/// that begins a time split.
pub open spec fn rightmost_split(s: Seq<char>) -> Option<int> {
    if exists|i: int| splits_at(s, i) {
        Some(choose|i: int| splits_at(s, i) && forall|k: int| splits_at(s, k) ==> k <= i)
    } else {
        None
    }
}

/// A parsed identity seen through its texts.
pub struct SignatureView {
    pub name: Seq<char>,
    pub email: Option<Seq<char>>,
    pub epoch: i64,
    pub timezone: Seq<char>,
}

/// gitweb's `^([^<]+) <([^>]*)>`: the name and email of an ident, the email
/// between the first `<` (preceded by a space and at least one name
/// character) and the next `>`; without that shape the whole ident is the
/// name.
pub open spec fn name_email(ident: Seq<char>) -> (Seq<char>, Option<Seq<char>>) {
    match first_index_from(ident, '<', 0) {
        None => (ident, None),
        Some(open) => {
            let spaced = open >= 2 && ident[open - 1] == ' ';
            match first_index_from(ident, '>', open + 1) {
                Some(close) => if spaced {
                    (ident.take(open - 1), Some(ident.subrange(open + 1, close)))
                } else {
                    (ident, None)
                },
                None => (ident, None),
            }
        },
    }
}

/// The identity parsed from an ident line, or `None` when no trailing
/// `" <epoch> <tz>"` is present or the epoch does not fit an `i64`.
pub open spec fn parse_signature(line: Seq<char>) -> Option<SignatureView> {
    match rightmost_split(line) {
        None => None,
        Some(i) => {
            let j = choose|j: int| time_split_at(line, i, j);
            let digits = line.subrange(i + 1, j);
            if digits_value(digits) <= i64::MAX {
                let (name, email) = name_email(line.take(i));
                Some(
                    SignatureView {
                        name,
                        email,
                        epoch: digits_value(digits) as i64,
                        timezone: line.skip(j + 1),
                    },
                )
            } else {
                None
            }
        },
    }
}

/// An ident line fails to parse exactly when it holds no ` <digits> `
/// stretch, or the digits of the rightmost one do not fit an `i64`.
pub proof fn lemma_parse_fails_exactly(line: Seq<char>)
    ensures
        parse_signature(line) is None <==> (!(exists|i: int| splits_at(line, i)) || ({
            let i = rightmost_split(line)->0;
            let j = choose|j: int| time_split_at(line, i, j);
            digits_value(line.subrange(i + 1, j)) > i64::MAX
        })),
{
}

/// A parsed git identity: who, optionally their email, and when.
#[derive(Debug, Clone, PartialEq, Eq)]
pub struct Signature {
    name: String,
    email: Option<String>,
    epoch: i64,
    timezone: String,
}

impl View for Signature {
    type V = SignatureView;

    closed spec fn view(&self) -> SignatureView {
        SignatureView {
            name: self.name@,
            email: match self.email {
                Some(e) => Some(e@),
                None => None,
            },
            epoch: self.epoch,
            timezone: self.timezone@,
        }
    }
}

/// `ident` with its email, gitweb's `$co{'author'}`: `name <email>`, or just
/// the name.
pub open spec fn full_ident_of(v: SignatureView) -> Seq<char> {
    match v.email {
        Some(e) => v.name + " <"@ + e + ">"@,
        None => v.name,
    }
}

proof fn lemma_split_unique(s: Seq<char>, i: int, j1: int, j2: int)
    requires
        time_split_at(s, i, j1),
        time_split_at(s, i, j2),
    ensures
        j1 == j2,
{
    if j1 < j2 {
        assert(is_digit(s[j1]));
    } else if j2 < j1 {
        assert(is_digit(s[j2]));
    }
}

fn digit_run_end(s: &Vec<char>, start: usize) -> (r: usize)
    requires
        start <= s.len(),
    ensures
        start <= r <= s.len(),
        digits_between(s@, start as int, r as int),
        r < s.len() ==> !is_digit(s@[r as int]),
{
    let mut j: usize = start;
    while j < s.len() && digit(s[j])
        invariant
            start <= j <= s.len(),
            digits_between(s@, start as int, j as int),
        decreases s.len() - j,
    {
        j += 1;
    }
    j
}

fn split_ident_time(s: &Vec<char>) -> (r: Option<(usize, usize)>)
    ensures
        match rightmost_split(s@) {
            None => r is None,
            Some(i) => r matches Some((a, b)) && a == i && time_split_at(s@, a as int, b as int),
        },
{
    let mut split: Option<(usize, usize)> = None;
    let mut i: usize = 0;
    while i < s.len()
        invariant
            0 <= i <= s.len(),
            match split {
                None => forall|k: int| 0 <= k < i ==> !splits_at(s@, k),
                Some((a, b)) => a < i && time_split_at(s@, a as int, b as int) && forall|k: int|
                    a < k < i ==> !splits_at(s@, k),
            },
        decreases s.len() - i,
    {
        if s[i] == ' ' {
            let j: usize = digit_run_end(s, i + 1);
            let has_digits: bool = j > i + 1;
            let trailing_space: bool = j < s.len() && s[j] == ' ';
            if has_digits && trailing_space {
                assert(time_split_at(s@, i as int, j as int));
                split = Some((i, j));
            } else {
                assert(!splits_at(s@, i as int)) by {
                    if splits_at(s@, i as int) {
                        let j2 = choose|j2: int| time_split_at(s@, i as int, j2);
                        if j2 < j {
                            assert(is_digit(s@[j2]));
                        } else if j2 > j {
                            assert(is_digit(s@[j as int]));
                        }
                    }
                }
            }
        } else {
            assert(!splits_at(s@, i as int));
        }
        i += 1;
    }
    proof {
        match split {
            None => {
                assert(!exists|k: int| splits_at(s@, k)) by {
                    if exists|k: int| splits_at(s@, k) {
                        let k = choose|k: int| splits_at(s@, k);
                        let j = choose|j: int| time_split_at(s@, k, j);
                    }
                }
            },
            Some((a, b)) => {
                assert(splits_at(s@, a as int));
                assert(forall|k: int| splits_at(s@, k) ==> k <= a) by {
                    assert forall|k: int| splits_at(s@, k) implies k <= a by {
                        let j = choose|j: int| time_split_at(s@, k, j);
                    }
                }
                let c = choose|c: int| splits_at(s@, c) && forall|k: int| splits_at(s@, k) ==> k <= c;
                assert(c == a);
            },
        }
    }
    split
}

fn split_name_email(ident: &Vec<char>) -> (r: (String, Option<String>))
    ensures
        r.0@ == name_email(ident@).0,
        match name_email(ident@).1 {
            Some(e) => r.1 matches Some(x) && x@ == e,
            None => r.1 is None,
        },
{
    let whole: String = string_of(ident.as_slice());
    let open: usize = match find_char_from(ident, '<', 0) {
        Some(index) => index,
        None => return (whole, None),
    };
    let has_space_before: bool = open >= 2 && ident[open - 1] == ' ';
    match find_char_from(ident, '>', open + 1) {
        Some(close) => {
            if has_space_before {
                assert(close >= open + 1);
                (substring(ident, 0, open - 1), Some(substring(ident, open + 1, close)))
            } else {
                (whole, None)
            }
        },
        None => (whole, None),
    }
}

proof fn lemma_first_index_bounds(s: Seq<char>, c: char, from: int)
    ensures
        first_index_from(s, c, from) matches Some(k) ==> from <= k < s.len() && s[k] == c,
    decreases s.len() - from,
{
    if from >= 0 && from < s.len() && s[from] != c {
        lemma_first_index_bounds(s, c, from + 1);
    }
}

impl Signature {
    /// Parses an ident line (see [`parse_signature`]).
    pub fn parse(line: &str) -> (r: Option<Self>)
        ensures
            match parse_signature(line@) {
                Some(v) => r matches Some(sig) && sig@ == v,
                None => r is None,
            },
    {
        let s: Vec<char> = chars_of(line);
        let (before, after): (usize, usize) = match split_ident_time(&s) {
            Some(p) => p,
            None => return None,
        };
        proof {
            let j = choose|j: int| time_split_at(s@, before as int, j);
            lemma_split_unique(s@, before as int, j, after as int);
        }
        let digits: Vec<char> = slice(&s, before + 1, after);
        let epoch: u64 = match crate::model::request::digits_to_value(&digits, 0x7fff_ffff_ffff_ffff) {
            Some(v) => v,
            None => return None,
        };
        let ident: Vec<char> = slice(&s, 0, before);
        let (name, email) = split_name_email(&ident);
        let timezone: String = substring(&s, after + 1, s.len());
        proof {
            lemma_first_index_bounds(ident@, '<', 0);
        }
        let r = Signature { name, email, epoch: epoch as i64, timezone };
        assert(r@ == parse_signature(line@)->0);
        Some(r)
    }

    /// The author/committer display name.
    pub fn name(&self) -> (r: &str)
        ensures
            r@ == self@.name,
    {
        self.name.as_str()
    }

    /// The email between the angle brackets, if any (`<>` is `Some("")`).
    pub fn email(&self) -> (r: Option<&str>)
        ensures
            match self@.email {
                Some(e) => r matches Some(x) && x@ == e,
                None => r is None,
            },
    {
        match &self.email {
            Some(e) => Some(e.as_str()),
            None => None,
        }
    }

    /// The whole ident in gitweb's `$co{'author'}` form (see
    /// [`full_ident_of`]).
    pub fn full_ident(&self) -> (r: String)
        ensures
            r@ == full_ident_of(self@),
    {
        match &self.email {
            Some(email) => {
                let mut out: Vec<char> = chars_of(self.name.as_str());
                push_str(&mut out, " <");
                push_str(&mut out, email.as_str());
                push_str(&mut out, ">");
                string_of(out.as_slice())
            },
            None => self.name.clone(),
        }
    }

    /// The author/committer time as a Unix epoch.
    pub fn epoch(&self) -> (r: i64)
        ensures
            r == self@.epoch,
    {
        self.epoch
    }

    /// The raw timezone offset token (e.g. `"+0200"`).
    pub fn timezone(&self) -> (r: &str)
        ensures
            r@ == self@.timezone,
    {
        self.timezone.as_str()
    }
}

} // verus!
