//! Content types for served files: an extension-based media-type lookup
//! with a charset suffix added for the textual types browsers care about.

use vstd::prelude::*;

verus! {

/// The media type the extension lookup assigns to a path: the first
/// known mapping for the path's extension, or `application/octet-stream`
/// when there is none. A pure function of the path's characters.
pub uninterp spec fn mime_essence_of(path: Seq<char>) -> Seq<char>;

/// Relies on `mime_guess::from_path` and
/// `MimeGuess::first_or_octet_stream`: a lookup of the path's extension
/// in a fixed table, falling back to `application/octet-stream`, with no
/// disk access, so the result depends on the path's characters alone.
/// `Mime::to_string` renders that media type.
#[verifier::external_body]
fn guess_mime(path: &str) -> (r: String)
    ensures
        r@ == mime_essence_of(path@),
{
    mime_guess::from_path(path).first_or_octet_stream().to_string()
}

/// The media types that get an explicit charset: HTML, CSS, JavaScript.
pub open spec fn wants_charset(m: Seq<char>) -> bool {
    m == "text/html"@ || m == "text/css"@ || m == "text/javascript"@
}

/// The content type served for media type `m`: `m` itself, with
/// `; charset=utf-8` appended exactly when the type wants a charset.
pub open spec fn spec_content_type(m: Seq<char>) -> Seq<char> {
    if wants_charset(m) {
        m + "; charset=utf-8"@
    } else {
        m
    }
}

/// Append the charset suffix when the media type calls for one.
pub fn with_charset(mime: String) -> (r: String)
    ensures
        r@ == spec_content_type(mime@),
{
    let textual = mime == String::from_str("text/html") || mime == String::from_str("text/css")
        || mime == String::from_str("text/javascript");
    if textual {
        mime.concat("; charset=utf-8")
    } else {
        mime
    }
}

/// The content type for a file at `path`: its guessed media type, with
/// a charset suffix when the type is HTML, CSS or JavaScript.
pub fn get_mime_type(path: &str) -> (r: String)
    ensures
        r@ == spec_content_type(mime_essence_of(path@)),
{
    let mime = guess_mime(path);
    with_charset(mime)
}

} // verus!
