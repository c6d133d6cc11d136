//! The headers of a raw blob (gitweb's `git_blob_plain`): its
//! `Content-Type` and `Content-Disposition`.
//!
//! Text is served as `text/plain`, with the site's charset when one is set;
//! a binary image as its image type; anything else as
//! `application/octet-stream`. The save-as name is the file's path, or the
//! blob id (with `.txt` for text) when there is none. With XSS prevention on,
//! content other than text and the inline image types is served as an
//! attachment.

use vstd::prelude::*;

use crate::text::{has_suffix, push_str, string_of};
use crate::model::blob::is_image_name;

verus! {

/// The image type of a file name, by its ending.
pub open spec fn image_type(name: Seq<char>) -> Seq<char> {
    if has_suffix(name, ".png"@) {
        "image/png"@
    } else if has_suffix(name, ".gif"@) {
        "image/gif"@
    } else {
        "image/jpeg"@
    }
}

/// The `Content-Type` of a blob.
pub open spec fn content_type_of(name: Option<Seq<char>>, binary: bool, charset: Option<Seq<char>>) -> Seq<char> {
    if !binary {
        match charset {
            Some(c) => "text/plain; charset="@ + c,
            None => "text/plain"@,
        }
    } else {
        match name {
            Some(n) => if crate::model::blob::image_name(n) {
                image_type(n)
            } else {
                "application/octet-stream"@
            },
            None => "application/octet-stream"@,
        }
    }
}

/// The name a blob is saved as: its path, else its id (`.txt` added for
/// text).
pub open spec fn save_as_of(name: Option<Seq<char>>, binary: bool, id: Seq<char>) -> Seq<char> {
    match name {
        Some(n) => n,
        None => if binary {
            id
        } else {
            id + ".txt"@
        },
    }
}

/// Whether a blob is served as an attachment: XSS prevention is on and its
/// type is neither text nor an inline image.
pub open spec fn sandboxed(name: Option<Seq<char>>, binary: bool, prevent_xss: bool) -> bool {
    prevent_xss && binary && !(name matches Some(n) && crate::model::blob::image_name(n))
}

/// The `Content-Disposition` of a blob.
pub open spec fn disposition_of(name: Option<Seq<char>>, binary: bool, id: Seq<char>, prevent_xss: bool) -> Seq<
    char,
> {
    (if sandboxed(name, binary, prevent_xss) {
        "attachment"@
    } else {
        "inline"@
    }) + "; filename=\""@ + save_as_of(name, binary, id) + "\""@
}

/// The two headers a raw blob is served under.
#[derive(Debug, Clone, PartialEq, Eq)]
pub struct PlainHeaders {
    content_type: String,
    content_disposition: String,
}

/// The text of an optional string slice.
pub open spec fn opt_text(o: Option<&str>) -> Option<Seq<char>> {
    match o {
        Some(s) => Some(s@),
        None => None,
    }
}

impl PlainHeaders {
    /// The `Content-Type` (spec view).
    pub closed spec fn spec_content_type(&self) -> Seq<char> {
        self.content_type@
    }

    /// The `Content-Disposition` (spec view).
    pub closed spec fn spec_content_disposition(&self) -> Seq<char> {
        self.content_disposition@
    }

    /// The headers of the blob `id` named `file_name`, binary or not, under
    /// the site's `charset` and XSS setting (see [`content_type_of`] and
    /// [`disposition_of`]).
    pub fn resolve(
        file_name: Option<&str>,
        is_binary: bool,
        id: &str,
        charset: Option<&str>,
        prevent_xss: bool,
    ) -> (r: PlainHeaders)
        ensures
            r.spec_content_type() == content_type_of(opt_text(file_name), is_binary, opt_text(charset)),
            r.spec_content_disposition() == disposition_of(opt_text(file_name), is_binary, id@, prevent_xss),
    {
        let image: bool = match file_name {
            Some(n) => is_image_name(n),
            None => false,
        };
        let mut kind: Vec<char> = Vec::new();
        if !is_binary {
            match charset {
                Some(c) => {
                    push_str(&mut kind, "text/plain; charset=");
                    push_str(&mut kind, c);
                },
                None => push_str(&mut kind, "text/plain"),
            }
        } else if image {
            match file_name {
                Some(n) => {
                    let chars: Vec<char> = crate::text::chars_of(n);
                    let png: Vec<char> = crate::text::chars_of(".png");
                    let gif: Vec<char> = crate::text::chars_of(".gif");
                    if crate::text::ends_with(&chars, &png) {
                        push_str(&mut kind, "image/png");
                    } else if crate::text::ends_with(&chars, &gif) {
                        push_str(&mut kind, "image/gif");
                    } else {
                        push_str(&mut kind, "image/jpeg");
                    }
                    assert(kind@ =~= image_type(n@));
                },
                None => {},
            }
        } else {
            push_str(&mut kind, "application/octet-stream");
        }
        assert(kind@ =~= content_type_of(opt_text(file_name), is_binary, opt_text(charset)));
        let mut disposition: Vec<char> = Vec::new();
        if prevent_xss && is_binary && !image {
            push_str(&mut disposition, "attachment");
        } else {
            push_str(&mut disposition, "inline");
        }
        push_str(&mut disposition, "; filename=\"");
        match file_name {
            Some(n) => push_str(&mut disposition, n),
            None => {
                push_str(&mut disposition, id);
                if !is_binary {
                    push_str(&mut disposition, ".txt");
                }
            },
        }
        push_str(&mut disposition, "\"");
        assert(disposition@ =~= disposition_of(opt_text(file_name), is_binary, id@, prevent_xss));
        PlainHeaders { content_type: string_of(kind.as_slice()), content_disposition: string_of(disposition.as_slice()) }
    }

    /// The `Content-Type`.
    pub fn content_type(&self) -> (r: &str)
        ensures
            r@ == self.spec_content_type(),
    {
        self.content_type.as_str()
    }

    /// The `Content-Disposition`.
    pub fn content_disposition(&self) -> (r: &str)
        ensures
            r@ == self.spec_content_disposition(),
    {
        self.content_disposition.as_str()
    }
}

} // verus!
