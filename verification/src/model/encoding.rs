//! Reading a blob's bytes as text (gitweb's `to_utf8`): well-formed UTF-8 is
//! taken as it is, anything else is decoded with the site's fallback
//! encoding.

use vstd::prelude::*;
use vstd::utf8::{decode_utf8, valid_utf8};

use crate::model::url::{lossy_utf8, utf8_lossy};
use crate::text::string_of;

verus! {

/// The encoding text that is not well-formed UTF-8 is read in (gitweb's
/// `$fallback_encoding`).
#[derive(Debug, Clone, Copy, PartialEq, Eq, Structural)]
pub enum FallbackEncoding {
    /// ISO-8859-1: each byte is the character of the same number (gitweb's
    /// default).
    Latin1,
    /// UTF-8 with each ill-formed sequence replaced by U+FFFD.
    Replacement,
}

/// `bytes` read as ISO-8859-1.
pub open spec fn latin1(bytes: Seq<u8>) -> Seq<char> {
    bytes.map_values(|b: u8| (b as u32) as char)
}

/// The text of `bytes`: their UTF-8 decoding when well-formed, else their
/// reading in `fallback`.
pub open spec fn text_of(bytes: Seq<u8>, fallback: FallbackEncoding) -> Seq<char> {
    if valid_utf8(bytes) {
        decode_utf8(bytes)
    } else {
        match fallback {
            FallbackEncoding::Latin1 => latin1(bytes),
            FallbackEncoding::Replacement => utf8_lossy(bytes),
        }
    }
}

/// `std::str::from_utf8`: the text of `bytes` when they are well-formed
/// UTF-8, `None` otherwise. Claimed: success exactly on well-formed UTF-8,
/// and then the decoded characters.
#[verifier::external_body]
fn utf8_text(bytes: &[u8]) -> (r: Option<String>)
    ensures
        r is Some <==> valid_utf8(bytes@),
        r matches Some(s) ==> s@ == decode_utf8(bytes@),
{
    match std::str::from_utf8(bytes) {
        Ok(s) => Some(s.to_owned()),
        Err(_) => None,
    }
}

/// Reads `bytes` as ISO-8859-1 (see [`latin1`]).
pub fn latin1_text(bytes: &[u8]) -> (r: String)
    ensures
        r@ == latin1(bytes@),
{
    let mut chars: Vec<char> = Vec::new();
    let mut i: usize = 0;
    while i < bytes.len()
        invariant
            0 <= i <= bytes@.len(),
            chars@ =~= latin1(bytes@.take(i as int)),
        decreases bytes.len() - i,
    {
        let c: char = bytes[i] as char;
        assert(c == (bytes@[i as int] as u32) as char);
        chars.push(c);
        i += 1;
        assert(chars@ =~= latin1(bytes@.take(i as int)));
    }
    assert(bytes@.take(bytes@.len() as int) =~= bytes@);
    string_of(chars.as_slice())
}

/// The text of `bytes` (see [`text_of`]).
pub fn to_utf8(bytes: &[u8], fallback: FallbackEncoding) -> (r: String)
    ensures
        r@ == text_of(bytes@, fallback),
{
    match utf8_text(bytes) {
        Some(s) => s,
        None => match fallback {
            FallbackEncoding::Latin1 => latin1_text(bytes),
            FallbackEncoding::Replacement => lossy_utf8(bytes),
        },
    }
}

} // verus!
