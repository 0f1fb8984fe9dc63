use vstd::prelude::*;
use vstd::utf8::is_ascii_chars;

verus! {

/// A media type, held as the text that the `mime` crate writes for it
/// (for example `image/png`, or `text/plain; charset=utf-8`).
#[derive(Debug, Clone)]
pub struct MediaType {
    pub source: String,
}

impl View for MediaType {
    type V = Seq<char>;

    open spec fn view(&self) -> Seq<char> {
        self.source@
    }
}

/// Whether the `mime` crate parses both texts and finds the two media types equal.
pub uninterp spec fn mime_equal(a: Seq<char>, b: Seq<char>) -> bool;

/// The subtype that the `mime` crate reads from a media type text, if it parses.
pub uninterp spec fn mime_subtype(source: Seq<char>) -> Option<Seq<char>>;

/// Parses both texts with `str::parse::<mime::Mime>` and compares the results with
/// `mime::Mime`'s `==`; a text that does not parse is equal to nothing.
/// Trusted: the result is `mime_equal` of the two texts, and `image/png` and
/// `image/jpeg` each equal themselves (they parse to the same known media type).
/// `==` cuts the second text at the first one's `;` position, which panics inside a
/// multi-byte character: the second text must be ASCII.
#[verifier::external_body]
fn parse_and_compare(a: &str, b: &str) -> (r: bool)
    requires
        is_ascii_chars(b@),
    ensures
        r == mime_equal(a@, b@),
        a@ == b@ && (a@ == "image/png"@ || a@ == "image/jpeg"@) ==> r,
{
    match (a.parse::<mime::Mime>(), b.parse::<mime::Mime>()) {
        (Ok(x), Ok(y)) => x == y,
        _ => false,
    }
}

/// Parses the text with `str::parse::<mime::Mime>` and returns `Mime::subtype`.
/// Trusted: the result is `mime_subtype` of the text.
#[verifier::external_body]
fn parse_subtype(source: &str) -> (r: Option<String>)
    ensures
        match r {
            Some(s) => mime_subtype(source@) == Some(s@),
            None => mime_subtype(source@) is None,
        },
{
    match source.parse::<mime::Mime>() {
        Ok(m) => Some(m.subtype().as_str().to_string()),
        Err(_) => None,
    }
}

impl MediaType {
    /// The media type with this text.
    pub fn new(source: &str) -> (r: MediaType)
        ensures
            r@ == source@,
    {
        MediaType { source: String::from_str(source) }
    }

    /// A copy of the media type.
    pub fn copy(&self) -> (r: MediaType)
        ensures
            r@ == self@,
    {
        MediaType { source: self.source.clone() }
    }

    /// `image/jpeg`, the text of `mime::IMAGE_JPEG`.
    pub fn image_jpeg() -> (r: MediaType)
        ensures
            r@ == "image/jpeg"@,
    {
        MediaType::new("image/jpeg")
    }

    /// `image/png`, the text of `mime::IMAGE_PNG`.
    pub fn image_png() -> (r: MediaType)
        ensures
            r@ == "image/png"@,
    {
        MediaType::new("image/png")
    }

    /// `text/plain`, the text of `mime::TEXT_PLAIN`.
    pub fn text_plain() -> (r: MediaType)
        ensures
            r@ == "text/plain"@,
    {
        MediaType::new("text/plain")
    }

    /// Whether the two media types are equal as `mime::Mime` values (the second
    /// one's text must be ASCII).
    pub fn same_as(&self, other: &MediaType) -> (r: bool)
        requires
            is_ascii_chars(other@),
        ensures
            r == mime_equal(self@, other@),
            self@ == other@ && (self@ == "image/png"@ || self@ == "image/jpeg"@) ==> r,
    {
        parse_and_compare(self.source.as_str(), other.source.as_str())
    }

    /// The subtype, as `mime::Mime::subtype` gives it (`png` for `image/png`).
    pub fn subtype(&self) -> (r: Option<String>)
        ensures
            match r {
                Some(s) => mime_subtype(self@) == Some(s@),
                None => mime_subtype(self@) is None,
            },
    {
        parse_subtype(self.source.as_str())
    }
}

} // verus!
