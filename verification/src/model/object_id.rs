//! Git object ids: the 40-hex-digit names of objects.

use vstd::prelude::*;
use crate::text::{chars_of, hex, is_hex};

verus! {

/// The number of hexadecimal digits in a full object id.
pub const OID_HEX_LEN: usize = 40;

/// `s` is a full object id: exactly forty hexadecimal digits (gitweb's
/// `m/^[0-9a-fA-F]{40}$/`).
pub open spec fn is_object_id(s: Seq<char>) -> bool {
    s.len() == OID_HEX_LEN && all_hex_spec(s)
}

/// Every character of `s` is a hexadecimal digit.
pub open spec fn all_hex_spec(s: Seq<char>) -> bool {
    forall|i: int| 0 <= i < s.len() ==> is_hex(#[trigger] s[i])
}

/// A full git object id, held as its hexadecimal text.
#[derive(Debug, PartialEq, Eq)]
pub struct ObjectId {
    hex: String,
}

impl View for ObjectId {
    type V = Seq<char>;

    closed spec fn view(&self) -> Seq<char> {
        self.hex@
    }
}

impl Clone for ObjectId {
    fn clone(&self) -> (r: Self)
        ensures
            r == *self,
    {
        ObjectId { hex: self.hex.clone() }
    }
}

/// Whether every character of `s` is a hexadecimal digit.
pub fn all_hex(s: &Vec<char>) -> (r: bool)
    ensures
        r == all_hex_spec(s@),
{
    let mut i: usize = 0;
    while i < s.len()
        invariant
            0 <= i <= s.len(),
            forall|j: int| 0 <= j < i ==> is_hex(#[trigger] s@[j]),
        decreases s.len() - i,
    {
        if !hex(s[i]) {
            return false;
        }
        i += 1;
    }
    true
}

impl ObjectId {
    /// Parses a full object id, returning `None` unless `input` is exactly
    /// forty hexadecimal digits.
    pub fn parse(input: &str) -> (r: Option<ObjectId>)
        ensures
            r is Some <==> is_object_id(input@),
            r matches Some(oid) ==> oid@ == input@,
    {
        let chars: Vec<char> = chars_of(input);
        if chars.len() == OID_HEX_LEN && all_hex(&chars) {
            Some(ObjectId { hex: input.to_owned() })
        } else {
            None
        }
    }

    /// The id's hexadecimal text.
    pub fn as_str(&self) -> (r: &str)
        ensures
            r@ == self@,
    {
        self.hex.as_str()
    }

    /// The id abbreviated to its first `len` hex digits (the whole id when
    /// `len` is longer).
    pub fn abbreviated_to(&self, len: usize) -> (r: &str)
        ensures
            r@ == self@.take(if len < self@.len() { len as int } else { self@.len() as int }),
    {
        let s: &str = self.hex.as_str();
        let chars: Vec<char> = chars_of(s);
        let n: usize = if len < chars.len() { len } else { chars.len() };
        s.substring_char(0, n)
    }
}

} // verus!
