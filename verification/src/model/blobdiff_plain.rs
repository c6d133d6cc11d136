//! The `blobdiff_plain` body: one file's patch after gitweb's lone
//! `X-Git-Url:` line.

use vstd::prelude::*;

use crate::text::{push_str, string_of};

verus! {

/// A single-file patch, served after the request's URL.
#[derive(Debug, Clone, PartialEq, Eq)]
pub struct BlobdiffPlain {
    body: String,
}

/// The body served for request URL `url`.
pub open spec fn blobdiff_plain_text(body: Seq<char>, url: Seq<char>) -> Seq<char> {
    "X-Git-Url: "@ + url + "\n\n"@ + body
}

impl View for BlobdiffPlain {
    type V = Seq<char>;

    closed spec fn view(&self) -> Seq<char> {
        self.body@
    }
}

impl BlobdiffPlain {
    /// The body holding the patch text `body`.
    pub fn new(body: String) -> (r: BlobdiffPlain)
        ensures
            r@ == body@,
    {
        BlobdiffPlain { body }
    }

    /// The patch text.
    pub fn body(&self) -> (r: &str)
        ensures
            r@ == self@,
    {
        self.body.as_str()
    }

    /// The body as served for the request URL `url` (see
    /// [`blobdiff_plain_text`]).
    pub fn render(&self, url: &str) -> (r: String)
        ensures
            r@ == blobdiff_plain_text(self@, url@),
    {
        let mut out: Vec<char> = Vec::new();
        push_str(&mut out, "X-Git-Url: ");
        push_str(&mut out, url);
        push_str(&mut out, "\n\n");
        push_str(&mut out, self.body.as_str());
        assert(out@ =~= blobdiff_plain_text(self@, url@));
        string_of(out.as_slice())
    }
}

} // verus!
