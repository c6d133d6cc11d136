//! A blob: the raw bytes of one file version.

use vstd::prelude::*;

use crate::text::{chars_of, ends_with, has_suffix};

verus! {

/// How many leading bytes git inspects to tell a binary blob.
pub const BINARY_PROBE: usize = 8000;

/// git's binary heuristic (`buffer_is_binary`): a NUL byte among the first
/// 8000 bytes.
pub open spec fn looks_binary(bytes: Seq<u8>) -> bool {
    exists|i: int| 0 <= i < bytes.len() && i < BINARY_PROBE && bytes[i] == 0
}

/// The file-name endings of the image types gitweb shows inline (`image/png`,
/// `image/gif`, `image/jpeg`).
pub open spec fn image_name(name: Seq<char>) -> bool {
    has_suffix(name, ".png"@) || has_suffix(name, ".gif"@) || has_suffix(name, ".jpg"@) || has_suffix(
        name,
        ".jpeg"@,
    ) || has_suffix(name, ".jpe"@)
}

/// How a blob is presented: as text lines, as an inline image, or only for
/// download.
#[derive(Debug, Clone, Copy, PartialEq, Eq, Structural)]
pub enum BlobDisplay {
    /// Text, shown line by line.
    Text,
    /// A binary image of a type browsers show inline.
    Image,
    /// Any other binary content: download only.
    Binary,
}

/// How a blob of `bytes` named `name` is presented: text unless binary; a
/// binary with an image name is an image.
pub open spec fn display_of(bytes: Seq<u8>, name: Option<Seq<char>>) -> BlobDisplay {
    if !looks_binary(bytes) {
        BlobDisplay::Text
    } else if name matches Some(n) && image_name(n) {
        BlobDisplay::Image
    } else {
        BlobDisplay::Binary
    }
}

/// Whether `name` has an image ending (see [`image_name`]).
pub fn is_image_name(name: &str) -> (r: bool)
    ensures
        r == image_name(name@),
{
    let n: Vec<char> = chars_of(name);
    let png: Vec<char> = chars_of(".png");
    let gif: Vec<char> = chars_of(".gif");
    let jpg: Vec<char> = chars_of(".jpg");
    let jpeg: Vec<char> = chars_of(".jpeg");
    let jpe: Vec<char> = chars_of(".jpe");
    ends_with(&n, &png) || ends_with(&n, &gif) || ends_with(&n, &jpg) || ends_with(&n, &jpeg) || ends_with(&n, &jpe)
}

/// The content of one file version, as raw bytes.
#[derive(Debug, Clone, PartialEq, Eq)]
pub struct Blob {
    bytes: Vec<u8>,
}

impl View for Blob {
    type V = Seq<u8>;

    closed spec fn view(&self) -> Seq<u8> {
        self.bytes@
    }
}

impl Blob {
    /// A blob holding `bytes`.
    pub fn new(bytes: Vec<u8>) -> (r: Blob)
        ensures
            r@ == bytes@,
    {
        Blob { bytes }
    }

    /// The content.
    pub fn bytes(&self) -> (r: &[u8])
        ensures
            r@ == self@,
    {
        self.bytes.as_slice()
    }

    /// The content's length in bytes.
    pub fn size(&self) -> (r: usize)
        ensures
            r == self@.len(),
    {
        self.bytes.len()
    }

    /// Whether git takes the content for binary (see [`looks_binary`]).
    pub fn is_binary(&self) -> (r: bool)
        ensures
            r == looks_binary(self@),
    {
        let mut i: usize = 0;
        while i < self.bytes.len() && i < BINARY_PROBE
            invariant
                0 <= i <= self.bytes@.len(),
                i <= BINARY_PROBE,
                forall|k: int| 0 <= k < i ==> self.bytes@[k] != 0,
            decreases self.bytes.len() - i,
        {
            if self.bytes[i] == 0 {
                return true;
            }
            i += 1;
        }
        false
    }

    /// How the blob is presented when named `file_name` (see
    /// [`display_of`]).
    pub fn display_kind(&self, file_name: Option<&str>) -> (r: BlobDisplay)
        ensures
            r == display_of(
                self@,
                match file_name {
                    Some(n) => Some(n@),
                    None => None,
                },
            ),
    {
        if !self.is_binary() {
            return BlobDisplay::Text;
        }
        match file_name {
            Some(n) => if is_image_name(n) {
                BlobDisplay::Image
            } else {
                BlobDisplay::Binary
            },
            None => BlobDisplay::Binary,
        }
    }

    /// The content, taking the blob.
    pub fn into_bytes(self) -> (r: Vec<u8>)
        ensures
            r@ == self@,
    {
        self.bytes
    }
}

} // verus!
