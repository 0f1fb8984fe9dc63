use vstd::prelude::*;
use vstd::utf8::is_ascii_chars;

use super::media::{MediaType, mime_equal, mime_subtype};
use super::service::{SaveAction, SaveTask};
use super::{concat3, Reason, SaveInfo};
use crate::mat::{Mat, encoded_rgba, last_dot, lemma_last_dot, path_extension, JPEG_QUALITY};

verus! {

/// Why `Writer` could not store an image.
#[derive(Debug, Clone, Copy, PartialEq, Eq)]
pub enum WriterError {
    Opencv,
}

impl Reason for WriterError {
    open spec fn spec_reason(&self) -> Seq<char> {
        "Unknown save error!"@
    }

    fn reason(&self) -> (r: String) {
        String::from_str("Unknown save error!")
    }
}

/// Width of the thumbnail stored beside each image.
pub const RESIZE_WIDTH: i32 = 100;

/// Height of the thumbnail stored beside each image.
pub const RESIZE_HEIGHT: i32 = 100;

/// Stores an image and a thumbnail of it under a directory.
pub struct Writer;

/// A random (version 4) UUID, written lowercase and hyphenated as `uuid::Uuid` writes
/// one: 36 characters, `-` at 8, 13, 18 and 23 and a hexadecimal digit elsewhere, with
/// the version digit `4` at 14 and the variant digit (`8`, `9`, `a` or `b`) at 19.
pub open spec fn is_upload_id(id: Seq<char>) -> bool {
    &&& id.len() == 36
    &&& forall|i: int|
        0 <= i < 36 ==> if i == 8 || i == 13 || i == 18 || i == 23 {
            #[trigger] id[i] == '-'
        } else {
            ('0' <= id[i] <= '9') || ('a' <= id[i] <= 'f')
        }
    &&& id[14] == '4'
    &&& id[19] == '8' || id[19] == '9' || id[19] == 'a' || id[19] == 'b'
}

/// A fresh random identifier from `uuid::Uuid::new_v4`, written with `to_string`.
/// Trusted: the text has the lowercase hyphenated version 4 form (`is_upload_id`:
/// `new_v4` sets the version and the RFC 4122 variant); which
/// identifier comes out is left open, as the random number generator decides it.
#[verifier::external_body]
fn new_upload_id() -> (r: String)
    ensures
        is_upload_id(r@),
{
    uuid::Uuid::new_v4().to_string()
}

/// The file extension used for images of this media type: its subtype
/// (empty when the text does not parse as a media type).
pub open spec fn upload_extension(mime: Seq<char>) -> Seq<char> {
    match mime_subtype(mime) {
        Some(s) => s,
        None => Seq::empty(),
    }
}

/// `dir/<id>.<ext>` for some upload identifier `id`.
pub open spec fn is_upload_path(path: Seq<char>, dir: Seq<char>, ext: Seq<char>) -> bool {
    exists|id: Seq<char>|
        is_upload_id(id) && path == dir + seq!['/'] + (#[trigger] id.add(seq!['.'] + ext))
}

/// The format that an upload path with extension `ext` is encoded in: the text after
/// the last `.` of `.<ext>`.
pub open spec fn upload_format(ext: Seq<char>) -> Seq<char> {
    path_extension(seq!['.'] + ext).unwrap()
}

/// An image with these dimensions and pixels can be stored in format `format`.
pub open spec fn storable(cols: int, rows: int, pixels: Seq<u8>, format: Seq<char>) -> bool {
    &&& cols != 0
    &&& rows != 0
    &&& encoded_rgba(cols as u32, rows as u32, pixels, format, JPEG_QUALITY) is Some
}

proof fn lemma_last_dot_props(s: Seq<char>)
    ensures
        -1 <= last_dot(s) < s.len(),
        last_dot(s) >= 0 ==> s[last_dot(s)] == '.',
        forall|j: int| last_dot(s) < j < s.len() ==> s[j] != '.',
    decreases s.len(),
{
    if s.len() > 0 && s.last() != '.' {
        lemma_last_dot_props(s.drop_last());
        assert forall|j: int| last_dot(s) < j < s.len() implies s[j] != '.' by {
            if j < s.len() - 1 {
                assert(s[j] == s.drop_last()[j]);
            }
        }
    }
}

proof fn lemma_last_dot_concat(a: Seq<char>, b: Seq<char>)
    requires
        last_dot(b) >= 0,
    ensures
        last_dot(a + b) == a.len() + last_dot(b),
    decreases b.len(),
{
    lemma_last_dot_props(b);
    let s = a + b;
    let k: int = a.len() + last_dot(b);
    assert(s[k] == '.');
    assert forall|j: int| k < j < s.len() implies s[j] != '.' by {
        assert(s[j] == b[j - a.len()]);
    }
    lemma_last_dot(s, k);
}

/// The extension of an upload path is that of `.<ext>`, whatever the directory and
/// identifier before it.
pub proof fn lemma_upload_path_format(dir: Seq<char>, id: Seq<char>, ext: Seq<char>)
    ensures
        path_extension(dir + seq!['/'] + id.add(seq!['.'] + ext)) == Some(upload_format(ext)),
{
    let b = seq!['.'] + ext;
    let a = dir + seq!['/'] + id;
    let p = dir + seq!['/'] + id.add(seq!['.'] + ext);
    assert(p =~= a + b);
    lemma_last_dot_props(b);
    assert(b[0] == '.');
    assert(last_dot(b) >= 0);
    lemma_last_dot_concat(a, b);
    let k: int = last_dot(b);
    assert(p.subrange(a.len() + k + 1, p.len() as int) =~= b.subrange(k + 1, b.len() as int));
}

impl Writer {
    /// `<id>.<ext>` for a fresh upload identifier.
    fn generate_fp(ext: &str) -> (r: String)
        ensures
            exists|id: Seq<char>| is_upload_id(id) && r@ == #[trigger] id.add(seq!['.'] + ext@),
    {
        let id = new_upload_id();
        let r = concat3(id.as_str(), ".", ext);
        proof {
            reveal_strlit(".");
            assert(r@ =~= id@.add(seq!['.'] + ext@));
        }
        r
    }

    /// `dir/<id>.<ext>` for a fresh upload identifier.
    fn upload_path(dir: &str, ext: &str) -> (r: String)
        ensures
            is_upload_path(r@, dir@, ext@),
            path_extension(r@) == Some(upload_format(ext@)),
    {
        let name = Writer::generate_fp(ext);
        let r = concat3(dir, "/", name.as_str());
        proof {
            reveal_strlit("/");
            let id = choose|id: Seq<char>| is_upload_id(id) && name@ == id.add(seq!['.'] + ext@);
            assert(r@ =~= dir@ + seq!['/'] + id.add(seq!['.'] + ext@));
            lemma_upload_path_format(dir@, id, ext@);
        }
        r
    }

    /// Starts storing an image of media type `m_type` under `dir`: decodes it, picks a
    /// fresh path `dir/<id>.<subtype>` and encodes the original for it. The task then
    /// asks for the file to be written, or finishes with a failure when the image
    /// cannot be stored in that format (this includes bytes that do not decode).
    pub fn save(data: &[u8], m_type: &MediaType, dir: &str) -> (r: (SaveTask, SaveAction))
        ensures
            r.0.wf(),
            r.0.starts_storing(r.1, data@, m_type@, dir@),
    {
        let ext = match m_type.subtype() {
            Some(s) => s,
            None => String::new(),
        };
        let file_path = Writer::upload_path(dir, ext.as_str());
        let mat = Mat::from_bytes(data);
        match mat.encode_for_path(file_path.as_str()) {
            Ok(bytes) => {
                let action = SaveAction::Write(file_path.clone(), bytes);
                (
                    SaveTask::AwaitingOriginal {
                        dir: String::from_str(dir),
                        ext,
                        mat,
                        original: file_path,
                    },
                    action,
                )
            },
            Err(_) => (
                SaveTask::Done,
                SaveAction::Finish(Ok(SaveInfo::from_error(WriterError::Opencv))),
            ),
        }
    }

    /// Continues once the original is stored: scales the image to the thumbnail size,
    /// picks a fresh path for it and encodes it. The task then asks for the thumbnail
    /// to be written, or finishes with a failure when it cannot be stored.
    pub fn save_thumbnail(dir: String, ext: String, mat: Mat, original: String) -> (r: (
        SaveTask,
        SaveAction,
    ))
        requires
            mat.wf(),
            !mat.is_empty(),
        ensures
            r.0.wf(),
            r.0.stores_thumbnail(r.1, dir@, ext@, mat, original@),
    {
        let file_path = Writer::upload_path(dir.as_str(), ext.as_str());
        match mat.resize(RESIZE_WIDTH, RESIZE_HEIGHT) {
            Ok(resized) => match resized.encode_for_path(file_path.as_str()) {
                Ok(bytes) => {
                    let action = SaveAction::Write(file_path.clone(), bytes);
                    (SaveTask::AwaitingThumbnail { original, resized: file_path }, action)
                },
                Err(_) => (
                    SaveTask::Done,
                    SaveAction::Finish(Ok(SaveInfo::from_error(WriterError::Opencv))),
                ),
            },
            Err(_) => (
                SaveTask::Done,
                SaveAction::Finish(Ok(SaveInfo::from_error(WriterError::Opencv))),
            ),
        }
    }
}

/// The images accepted for upload: `image/jpeg` and `image/png` (these very texts,
/// or texts that the `mime` crate finds equal to them).
pub open spec fn is_supported_image(mime: Seq<char>) -> bool {
    ||| mime == "image/jpeg"@
    ||| mime == "image/png"@
    ||| mime_equal(mime, "image/jpeg"@)
    ||| mime_equal(mime, "image/png"@)
}

/// Some member of `allowed` is equal to `mime`.
pub open spec fn mime_allowed(mime: Seq<char>, allowed: Seq<MediaType>) -> bool {
    exists|i: int| 0 <= i < allowed.len() && mime_equal(mime, #[trigger] allowed[i]@)
}

/// Accepts `mime` when it is equal to one of the `allowed` media types (whose texts
/// must be ASCII).
pub fn guard_mime(mime: &MediaType, allowed_types: Vec<MediaType>) -> (r: Result<(), String>)
    requires
        forall|i: int| 0 <= i < allowed_types.len() ==> is_ascii_chars(#[trigger] allowed_types@[i]@),
    ensures
        r is Ok <==> mime_allowed(mime@, allowed_types@),
        (mime@ == "image/png"@ || mime@ == "image/jpeg"@) && allowed_types@.map_values(
            |m: MediaType| m@,
        ).contains(mime@) ==> r is Ok,
        r matches Err(e) ==> e@ == "Unsupported mime type"@,
{
    let mut i: usize = 0;
    while i < allowed_types.len()
        invariant
            i <= allowed_types.len(),
            forall|j: int| 0 <= j < allowed_types.len() ==> is_ascii_chars(#[trigger] allowed_types@[j]@),
            forall|j: int| 0 <= j < i ==> !mime_equal(mime@, #[trigger] allowed_types@[j]@),
            forall|j: int|
                0 <= j < i ==> !((mime@ == "image/png"@ || mime@ == "image/jpeg"@)
                    && #[trigger] allowed_types@[j]@ == mime@),
        decreases allowed_types.len() - i,
    {
        if mime.same_as(&allowed_types[i]) {
            return Ok(());
        }
        i += 1;
    }
    proof {
        let texts = allowed_types@.map_values(|m: MediaType| m@);
        if (mime@ == "image/png"@ || mime@ == "image/jpeg"@) && texts.contains(mime@) {
            let k = choose|k: int| 0 <= k < texts.len() && #[trigger] texts[k] == mime@;
            assert(allowed_types@[k]@ == mime@);
        }
    }
    Err(String::from_str("Unsupported mime type"))
}

/// Accepts `mime` when it is `image/jpeg` or `image/png`.
pub fn guard_image(mime: &MediaType) -> (r: Result<(), String>)
    ensures
        r is Ok <==> is_supported_image(mime@),
        r matches Err(e) ==> e@ == "Unsupported mime type"@,
{
    let mut allowed: Vec<MediaType> = Vec::new();
    allowed.push(MediaType::image_jpeg());
    allowed.push(MediaType::image_png());
    proof {
        reveal_strlit("image/jpeg");
        reveal_strlit("image/png");
        assert(is_ascii_chars(allowed@[0]@));
        assert(is_ascii_chars(allowed@[1]@));
    }
    let ghost texts = allowed@.map_values(|m: MediaType| m@);
    let r = guard_mime(mime, allowed);
    proof {
        if mime@ == "image/jpeg"@ {
            assert(texts[0] == mime@);
        } else if mime@ == "image/png"@ {
            assert(texts[1] == mime@);
        } else if mime_equal(mime@, "image/jpeg"@) {
            assert(mime_equal(mime@, allowed@[0]@));
        } else if mime_equal(mime@, "image/png"@) {
            assert(mime_equal(mime@, allowed@[1]@));
        }
    }
    r
}

} // verus!
