use vstd::prelude::*;

use crate::infrastructure::media::MediaType;

verus! {

/// The bytes that `base64::decode` (standard alphabet) makes of this text; `None`
/// when the text is not valid base64.
pub uninterp spec fn base64_decoded(input: Seq<char>) -> Option<Seq<u8>>;

/// Decodes with `base64::decode`.
/// Trusted: the result is `base64_decoded` of the text.
#[verifier::external_body]
fn decode_base64(input: &str) -> (r: Option<Vec<u8>>)
    ensures
        match r {
            Some(v) => base64_decoded(input@) == Some(v@),
            None => base64_decoded(input@) is None,
        },
{
    base64::decode(input).ok()
}

/// The media type guessed from the first character of an image's base64 text: a JPEG
/// file starts with `/9j`, a PNG file with `iVBOR`; anything else is taken as text.
pub open spec fn detected_mime(base64_str: Seq<char>) -> Seq<char> {
    if base64_str.len() > 0 && base64_str[0] == '/' {
        "image/jpeg"@
    } else if base64_str.len() > 0 && base64_str[0] == 'i' {
        "image/png"@
    } else {
        "text/plain"@
    }
}

/// Guesses the media type of an image from its base64 text (see `detected_mime`).
pub fn detect_mime(base64_str: &str) -> (r: Option<MediaType>)
    ensures
        r matches Some(m) && m@ == detected_mime(base64_str@),
        base64_str@.len() > 0 && base64_str@[0] == '/' ==> (r matches Some(m) && m@
            == "image/jpeg"@),
        base64_str@.len() > 0 && base64_str@[0] == 'i' ==> (r matches Some(m) && m@
            == "image/png"@),
{
    if base64_str.unicode_len() == 0 {
        return Some(MediaType::text_plain());
    }
    let first: char = base64_str.get_char(0);
    if first == '/' {
        Some(MediaType::image_jpeg())
    } else if first == 'i' {
        Some(MediaType::image_png())
    } else {
        Some(MediaType::text_plain())
    }
}

/// The guess reads the first character alone: two texts that start alike get the same
/// media type, whatever follows, and one that starts with `/` is a JPEG and one that
/// starts with `i` a PNG.
pub proof fn lemma_detected_mime_first_char(s: Seq<char>, t: Seq<char>)
    requires
        s.len() > 0,
        t.len() > 0,
        s[0] == t[0],
    ensures
        detected_mime(s) == detected_mime(t),
        s[0] == '/' ==> detected_mime(s) == "image/jpeg"@,
        s[0] == 'i' ==> detected_mime(s) == "image/png"@,
{
}

/// Every candidate is valid base64.
pub open spec fn all_decode(candidates: Seq<String>) -> bool {
    forall|i: int| 0 <= i < candidates.len() ==> (#[trigger] base64_decoded(candidates[i]@)) is Some
}

/// Turns the base64 texts of a request into images: for each, in order, its decoded
/// bytes and its guessed media type. One text that is not valid base64 rejects them all.
pub fn deserialize(candidates: Vec<String>) -> (r: Result<Vec<(Vec<u8>, MediaType)>, String>)
    ensures
        r is Ok <==> all_decode(candidates@),
        r matches Ok(images) ==> {
            &&& images.len() == candidates.len()
            &&& forall|i: int|
                0 <= i < candidates.len() ==> {
                    &&& Some((#[trigger] images@[i]).0@) == base64_decoded(candidates@[i]@)
                    &&& images@[i].1@ == detected_mime(candidates@[i]@)
                }
        },
        r matches Err(e) ==> e@ == "Broken base64 string"@,
{
    let mut result: Vec<(Vec<u8>, MediaType)> = Vec::new();
    let mut i: usize = 0;
    while i < candidates.len()
        invariant
            i <= candidates.len(),
            result.len() == i,
            all_decode(candidates@.take(i as int)),
            forall|j: int|
                0 <= j < i ==> {
                    &&& Some((#[trigger] result@[j]).0@) == base64_decoded(candidates@[j]@)
                    &&& result@[j].1@ == detected_mime(candidates@[j]@)
                },
        decreases candidates.len() - i,
    {
        let image_candidate = candidates[i].as_str();
        match detect_mime(image_candidate) {
            Some(mime) => match decode_base64(image_candidate) {
                Some(img) => result.push((img, mime)),
                None => {
                    proof {
                        assert(!all_decode(candidates@)) by {
                            assert(base64_decoded(candidates@[i as int]@) is None);
                        }
                    }
                    return Err(String::from_str("Broken base64 string"));
                },
            },
            None => return Err(String::from_str("Unsupported mime type")),
        }
        proof {
            assert forall|j: int| 0 <= j < i + 1 implies (#[trigger] base64_decoded(
                candidates@.take(i + 1)[j]@,
            )) is Some by {
                if j < i {
                    assert(candidates@.take(i + 1)[j] == candidates@.take(i as int)[j]);
                }
            }
        }
        i += 1;
    }
    assert(candidates@.take(candidates.len() as int) =~= candidates@);
    Ok(result)
}

} // verus!
