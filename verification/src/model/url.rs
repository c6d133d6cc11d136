//! URL-decoding of request and file tokens (gitweb's `CGI::Util::unescape`):
//! `+` is a space, `%XX` the byte `0xXX`, an escape without two hex digits is
//! kept as written, and the bytes are read back as UTF-8.

use vstd::prelude::*;
use vstd::utf8::{
    char_is_scalar, decode_utf8, encode_scalar, encode_utf8, encode_utf8_decode_utf8, encode_utf8_valid_utf8,
    has_width_1_encoding, valid_utf8,
};

verus! {

/// The value of an ASCII hex digit byte.
pub open spec fn hex_digit_value(b: u8) -> Option<u8> {
    if 48 <= b <= 57 {
        Some((b - 48) as u8)
    } else if 97 <= b <= 102 {
        Some((b - 87) as u8)
    } else if 65 <= b <= 70 {
        Some((b - 55) as u8)
    } else {
        None
    }
}

/// The decoded bytes of a `application/x-www-form-urlencoded` byte string.
pub open spec fn unescaped_bytes(b: Seq<u8>) -> Seq<u8>
    decreases b.len(),
{
    if b.len() == 0 {
        seq![]
    } else if b[0] == 43 {
        seq![32u8] + unescaped_bytes(b.skip(1))
    } else if b[0] == 37 && b.len() >= 3 && hex_digit_value(b[1]) is Some && hex_digit_value(
        b[2],
    ) is Some {
        seq![(hex_digit_value(b[1])->0 * 16 + hex_digit_value(b[2])->0) as u8] + unescaped_bytes(
            b.skip(3),
        )
    } else {
        seq![b[0]] + unescaped_bytes(b.skip(1))
    }
}

/// The text `String::from_utf8_lossy` reads from `bytes`.
pub uninterp spec fn utf8_lossy(bytes: Seq<u8>) -> Seq<char>;

/// `String::from_utf8_lossy`: the bytes read as UTF-8, each ill-formed
/// sequence replaced by U+FFFD. Claimed: the result is a function of the
/// bytes alone, and well-formed UTF-8 decodes to exactly its characters; the
/// replacement of ill-formed sequences is left unstated.
#[verifier::external_body]
pub(crate) fn lossy_utf8(bytes: &[u8]) -> (s: String)
    ensures
        s@ == utf8_lossy(bytes@),
        valid_utf8(bytes@) ==> s@ == decode_utf8(bytes@),
{
    String::from_utf8_lossy(bytes).into_owned()
}

fn hex_value(byte: u8) -> (r: Option<u8>)
    ensures
        r == hex_digit_value(byte),
{
    if 48 <= byte && byte <= 57 {
        Some(byte - 48)
    } else if 97 <= byte && byte <= 102 {
        Some(byte - 87)
    } else if 65 <= byte && byte <= 70 {
        Some(byte - 55)
    } else {
        None
    }
}

/// Decodes one form-encoded token (see [`unescaped_bytes`]), reading the
/// result as UTF-8 lossily.
pub fn unescape(token: &str) -> (r: String)
    ensures
        r@ == utf8_lossy(unescaped_bytes(encode_utf8(token@))),
        valid_utf8(unescaped_bytes(encode_utf8(token@))) ==> r@ == decode_utf8(
            unescaped_bytes(encode_utf8(token@)),
        ),
{
    let bytes: &[u8] = token.as_bytes();
    let mut out: Vec<u8> = Vec::new();
    let mut index: usize = 0;
    assert(bytes@.skip(0) =~= bytes@);
    while index < bytes.len()
        invariant
            0 <= index <= bytes@.len(),
            bytes@ == encode_utf8(token@),
            out@ + unescaped_bytes(bytes@.skip(index as int)) == unescaped_bytes(bytes@),
        decreases bytes.len() - index,
    {
        let ghost rest = bytes@.skip(index as int);
        let b: u8 = bytes[index];
        assert(rest[0] == b);
        if b == 43 {
            assert(rest.skip(1) =~= bytes@.skip(index + 1));
            out.push(32);
            index += 1;
            assert(out@ + unescaped_bytes(bytes@.skip(index as int)) =~= out@.drop_last() + (
            seq![32u8] + unescaped_bytes(rest.skip(1))));
        } else if b == 37 && bytes.len() - index > 2 && hex_value(bytes[index + 1]).is_some()
            && hex_value(bytes[index + 2]).is_some() {
            let high: u8 = hex_value(bytes[index + 1]).unwrap();
            let low: u8 = hex_value(bytes[index + 2]).unwrap();
            assert(rest[1] == bytes@[index + 1] && rest[2] == bytes@[index + 2]);
            assert(rest.skip(3) =~= bytes@.skip(index + 3));
            let v: u8 = high * 16 + low;
            out.push(v);
            index += 3;
            assert(out@ + unescaped_bytes(bytes@.skip(index as int)) =~= out@.drop_last() + (
            seq![v] + unescaped_bytes(rest.skip(3))));
        } else {
            proof {
                if b == 37 && rest.len() >= 3 {
                    assert(rest[1] == bytes@[index + 1] && rest[2] == bytes@[index + 2]);
                }
            }
            assert(rest.skip(1) =~= bytes@.skip(index + 1));
            out.push(b);
            index += 1;
            assert(out@ + unescaped_bytes(bytes@.skip(index as int)) =~= out@.drop_last() + (
            seq![b] + unescaped_bytes(rest.skip(1))));
        }
    }
    assert(bytes@.skip(bytes.len() as int) =~= Seq::<u8>::empty());
    assert(out@ =~= out@ + unescaped_bytes(Seq::<u8>::empty()));
    lossy_utf8(out.as_slice())
}

/// A token without `%` or `+` decodes to itself.
pub proof fn lemma_plain_token_unchanged(b: Seq<u8>)
    requires
        forall|i: int| 0 <= i < b.len() ==> #[trigger] b[i] != 37u8 && b[i] != 43u8,
    ensures
        unescaped_bytes(b) == b,
    decreases b.len(),
{
    if b.len() > 0 {
        let rest = b.skip(1);
        assert forall|i: int| 0 <= i < rest.len() implies #[trigger] rest[i] != 37u8 && rest[i] != 43u8 by {
            assert(rest[i] == b[i + 1]);
        }
        lemma_plain_token_unchanged(rest);
        assert(b[0] != 37u8 && b[0] != 43u8);
        assert(b =~= seq![b[0]] + rest);
    }
}

/// `t` with every `+` read as a space.
pub open spec fn plus_as_space(t: Seq<char>) -> Seq<char> {
    t.map_values(|c: char| if c == '+' { ' ' } else { c })
}

proof fn lemma_ascii_byte(s: u32)
    by (bit_vector)
    requires
        s <= 0x7F,
    ensures
        ((s & 0x7F) as u8) as u32 == s,
{
}

proof fn lemma_high_byte(x: u8)
    by (bit_vector)
    ensures
        (0x80u8 | x) >= 0x80u8,
        (0xC0u8 | x) >= 0x80u8,
        (0xE0u8 | x) >= 0x80u8,
        (0xF0u8 | x) >= 0x80u8,
{
}

/// Bytes outside ASCII pass through the decoding unchanged.
proof fn lemma_unescaped_copy(p: Seq<u8>, tail: Seq<u8>)
    requires
        forall|i: int| 0 <= i < p.len() ==> #[trigger] p[i] >= 0x80,
    ensures
        unescaped_bytes(p + tail) == p + unescaped_bytes(tail),
    decreases p.len(),
{
    if p.len() > 0 {
        let rest = p.skip(1);
        assert forall|i: int| 0 <= i < rest.len() implies #[trigger] rest[i] >= 0x80 by {
            assert(rest[i] == p[i + 1]);
        }
        lemma_unescaped_copy(rest, tail);
        assert((p + tail)[0] == p[0]);
        assert((p + tail).skip(1) =~= rest + tail);
        assert(p[0] >= 0x80);
        assert(p + unescaped_bytes(tail) =~= seq![p[0]] + (rest + unescaped_bytes(tail)));
    }
}

proof fn lemma_unescape_plus(t: Seq<char>)
    requires
        forall|i: int| 0 <= i < t.len() ==> #[trigger] t[i] != '%',
    ensures
        unescaped_bytes(encode_utf8(t)) == encode_utf8(plus_as_space(t)),
    decreases t.len(),
{
    if t.len() > 0 {
        let rest = t.drop_first();
        assert forall|i: int| 0 <= i < rest.len() implies #[trigger] rest[i] != '%' by {
            assert(rest[i] == t[i + 1]);
        }
        lemma_unescape_plus(rest);
        assert(plus_as_space(t).drop_first() =~= plus_as_space(rest));
        let c = t[0];
        let u = c as u32;
        char_is_scalar(c);
        assert(t[0] != '%');
        assert(encode_utf8(t) == encode_scalar(u) + encode_utf8(rest));
        assert(plus_as_space(t)[0] == (if c == '+' { ' ' } else { c }));
        if has_width_1_encoding(u) {
            lemma_ascii_byte(u);
            assert(encode_utf8(t).skip(1) =~= encode_utf8(rest));
            if c == '+' {
                lemma_ascii_byte(32);
                assert(encode_scalar(' ' as u32) =~= seq![32u8]);
                assert(encode_utf8(t)[0] == 43u8);
                assert(encode_utf8(plus_as_space(t)) =~= seq![32u8] + encode_utf8(plus_as_space(rest)));
            } else {
                assert(encode_utf8(t)[0] as u32 == u);
                assert('+' as u32 == 43 && '%' as u32 == 37);
                vstd::utf8::char_u32_cast(c, u);
                vstd::utf8::char_u32_cast('+', 43u32);
                vstd::utf8::char_u32_cast('%', 37u32);
                assert(u != 43 && u != 37);
                assert(encode_utf8(plus_as_space(t)) =~= seq![encode_utf8(t)[0]] + encode_utf8(plus_as_space(rest)));
            }
        } else {
            let e = encode_scalar(u);
            lemma_high_byte(((u >> 6) & 0x1F) as u8);
            lemma_high_byte(((u >> 12) & 0x0F) as u8);
            lemma_high_byte(((u >> 18) & 0x7) as u8);
            lemma_high_byte((u & 0x3F) as u8);
            lemma_high_byte(((u >> 6) & 0x3F) as u8);
            lemma_high_byte(((u >> 12) & 0x3F) as u8);
            assert forall|i: int| 0 <= i < e.len() implies #[trigger] e[i] >= 0x80 by {}
            lemma_unescaped_copy(e, encode_utf8(rest));
            assert(encode_utf8(plus_as_space(t)) == e + encode_utf8(plus_as_space(rest)));
        }
    }
}

/// A token without `%` decodes to itself with every `+` read as a space:
/// every other character is kept, and the bytes stay well-formed UTF-8, so
/// no replacement character appears.
pub proof fn lemma_unescape_plus_only(token: Seq<char>)
    requires
        forall|i: int| 0 <= i < token.len() ==> #[trigger] token[i] != '%',
    ensures
        valid_utf8(unescaped_bytes(encode_utf8(token))),
        decode_utf8(unescaped_bytes(encode_utf8(token))) == plus_as_space(token),
{
    lemma_unescape_plus(token);
    encode_utf8_valid_utf8(plus_as_space(token));
    encode_utf8_decode_utf8(plus_as_space(token));
}

} // verus!
