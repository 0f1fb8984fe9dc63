use vstd::prelude::*;
use vstd::utf8::{decode_utf8, valid_utf8};

use super::BASE_DIR;
use crate::infrastructure::media::MediaType;
use crate::infrastructure::service::{
    save_from_file, save_from_uri, starts_file_save, FileError, SaveAction, SaveTask, UriError,
};
use crate::infrastructure::utils::is_supported_image;
use crate::infrastructure::{concat3, Reason, SaveInfo};

verus! {

/// A form field that the upload form does not take.
#[derive(Debug, Clone, PartialEq, Eq)]
pub enum MultipartFieldError {
    UnknownField { name: String },
    UnknownFieldType,
    NestedField,
}

impl Reason for MultipartFieldError {
    open spec fn spec_reason(&self) -> Seq<char> {
        match self {
            MultipartFieldError::UnknownField { name } => "Only file and url fields supported "@
                + name@ + " !"@,
            MultipartFieldError::UnknownFieldType => "Unknown field type!"@,
            MultipartFieldError::NestedField => "Nested fields unsupported!"@,
        }
    }

    fn reason(&self) -> (r: String) {
        match self {
            MultipartFieldError::UnknownField { name } => concat3(
                "Only file and url fields supported ",
                name.as_str(),
                " !",
            ),
            MultipartFieldError::UnknownFieldType => String::from_str("Unknown field type!"),
            MultipartFieldError::NestedField => String::from_str("Nested fields unsupported!"),
        }
    }
}

/// `pattern` occurs in `s`.
pub open spec fn contains(s: Seq<char>, pattern: Seq<char>) -> bool {
    exists|i: int|
        0 <= i && i + pattern.len() <= s.len() && #[trigger] s.subrange(i, i + pattern.len())
            == pattern
}

/// The characters of `s`.
fn chars_of(s: &str) -> (r: Vec<char>)
    ensures
        r@ == s@,
{
    let n: usize = s.unicode_len();
    let mut r: Vec<char> = Vec::new();
    let mut i: usize = 0;
    while i < n
        invariant
            i <= n,
            n == s@.len(),
            r@ == s@.take(i as int),
        decreases n - i,
    {
        r.push(s.get_char(i));
        i += 1;
        assert(r@ =~= s@.take(i as int));
    }
    assert(s@.take(n as int) =~= s@);
    r
}

/// `pattern` occurs at position `i` of `s`.
fn occurs_at(s: &Vec<char>, pattern: &Vec<char>, i: usize) -> (r: bool)
    requires
        i + pattern.len() <= s.len(),
    ensures
        r == (s@.subrange(i as int, i + pattern.len()) == pattern@),
{
    let mut j: usize = 0;
    while j < pattern.len()
        invariant
            j <= pattern.len(),
            i + pattern.len() <= s.len(),
            forall|k: int| 0 <= k < j ==> s@[i + k] == pattern@[k],
        decreases pattern.len() - j,
    {
        if s[i + j] != pattern[j] {
            assert(s@.subrange(i as int, i + pattern.len())[j as int] != pattern@[j as int]);
            return false;
        }
        j += 1;
    }
    assert(s@.subrange(i as int, i + pattern.len()) =~= pattern@);
    true
}

/// Whether `pattern` occurs in `s`.
fn contains_str(s: &str, pattern: &str) -> (r: bool)
    ensures
        r == contains(s@, pattern@),
{
    let text = chars_of(s);
    let pat = chars_of(pattern);
    if pat.len() > text.len() {
        return false;
    }
    if pat.len() == 0 {
        assert(s@.subrange(0, 0 + pattern@.len() as int) =~= pattern@);
        return true;
    }
    let mut i: usize = 0;
    let last: usize = text.len() - pat.len();
    while i <= last
        invariant
            1 <= pat.len() <= text.len(),
            last == text.len() - pat.len(),
            i <= last + 1,
            text@ == s@,
            pat@ == pattern@,
            forall|k: int|
                0 <= k < i ==> #[trigger] s@.subrange(k, k + pattern@.len()) != pattern@,
        decreases last + 1 - i,
    {
        if occurs_at(&text, &pat, i) {
            return true;
        }
        i += 1;
    }
    false
}

/// Whether a request with this `content-type` header (`None` when it has none) carries
/// a multipart form. Other requests are refused with "method not allowed".
pub fn is_multipart(content_type: Option<&str>) -> (r: bool)
    ensures
        r == (content_type matches Some(c) && contains(c@, "multipart/form-data"@)),
{
    match content_type {
        Some(c) => contains_str(c, "multipart/form-data"),
        None => false,
    }
}

/// One part of a multipart form, as far as the upload reads it.
#[derive(Debug)]
pub enum MultipartItem {
    /// A field, with the name and file name of its content disposition (when given)
    /// and its media type.
    Field { name: Option<String>, filename: Option<String>, content_type: MediaType },
    /// A nested multipart body.
    Nested,
}

/// What to do with one part of the form.
#[derive(Debug)]
pub enum FieldPlan {
    /// Read the field's body and store it as an uploaded file with this name and type.
    File { file_name: String, mime: MediaType },
    /// Read the field's body as the URI of an image.
    Uri,
    /// Refuse the part with this report.
    Rejected(SaveInfo),
}

/// The file name a stored file field is reported under: its own, or `unknown`.
pub open spec fn reported_file_name(filename: Option<String>) -> Seq<char> {
    match filename {
        Some(f) => f@,
        None => "unknown"@,
    }
}

/// Decides what to do with one part of the form: `file[]` fields are uploaded files,
/// `uri[]` fields hold URIs, and anything else is refused.
pub fn create_save_stream(item: MultipartItem) -> (r: FieldPlan)
    ensures
        match item {
            MultipartItem::Nested => r matches FieldPlan::Rejected(info) && info.is_failure(
                "Nested fields unsupported!"@,
            ),
            MultipartItem::Field { name: None, .. } => r matches FieldPlan::Rejected(info)
                && info.is_failure("Unknown field type!"@),
            MultipartItem::Field { name: Some(n), filename, content_type } => if n@ == "file[]"@ {
                &&& r matches FieldPlan::File { file_name, mime }
                &&& file_name@ == reported_file_name(filename)
                &&& mime@ == content_type@
            } else if n@ == "uri[]"@ {
                r is Uri
            } else {
                &&& r matches FieldPlan::Rejected(info)
                &&& info.is_failure("Only file and url fields supported "@ + n@ + " !"@)
            },
        },
        r matches FieldPlan::Rejected(info) ==> info.consistent(),
{
    match item {
        MultipartItem::Field { name, filename, content_type } => match name {
            Some(field_name) => {
                if field_name == String::from_str("file[]") {
                    let file_name = match filename {
                        Some(f) => f,
                        None => String::from_str("unknown"),
                    };
                    FieldPlan::File { file_name, mime: content_type }
                } else if field_name == String::from_str("uri[]") {
                    FieldPlan::Uri
                } else {
                    FieldPlan::Rejected(
                        SaveInfo::from_error(MultipartFieldError::UnknownField { name: field_name }),
                    )
                }
            },
            None => FieldPlan::Rejected(SaveInfo::from_error(MultipartFieldError::UnknownFieldType)),
        },
        MultipartItem::Nested => FieldPlan::Rejected(
            SaveInfo::from_error(MultipartFieldError::NestedField),
        ),
    }
}

/// The file data of a file field: its body (`None` when it could not be read), its
/// media type and its name.
pub open spec fn field_file_data(file_name: String, mime: MediaType, body: Option<Vec<u8>>) -> Result<
    (Vec<u8>, MediaType, String),
    FileError,
> {
    match body {
        Some(b) => Ok((b, mime, file_name)),
        None => Err(FileError::UnknownError { name: file_name }),
    }
}

/// A file field whose body was read is stored: with an image media type, the task
/// that starts from its file data starts storing exactly those bytes under that type,
/// and only a body that could not be read is reported as an unknown error.
pub proof fn lemma_read_file_field_stored(
    file_name: String,
    mime: MediaType,
    body: Option<Vec<u8>>,
    dir: Seq<char>,
    task: SaveTask,
    action: SaveAction,
)
    requires
        starts_file_save(field_file_data(file_name, mime, body), dir, task, action),
    ensures
        body matches Some(b) ==> (is_supported_image(mime@) ==> task.starts_storing(
            action,
            b@,
            mime@,
            dir,
        )),
        body is None ==> (action matches SaveAction::Finish(Ok(info)) && info.is_failure(
            "File unknown error, file "@ + file_name@ + " !"@,
        )),
{
}

/// Starts storing the body of a `file[]` field under `BASE_DIR`.
pub fn create_file_save_stream(file_name: String, mime: MediaType, body: Option<Vec<u8>>) -> (r: (
    SaveTask,
    SaveAction,
))
    ensures
        r.0.wf(),
        r.0 is Done <==> r.1 is Finish,
        starts_file_save(field_file_data(file_name, mime, body), BASE_DIR@, r.0, r.1),
        r.1 matches SaveAction::Finish(Ok(info)) ==> info.consistent(),
        body matches Some(b) ==> (is_supported_image(mime@) ==> r.0.starts_storing(
            r.1,
            b@,
            mime@,
            BASE_DIR@,
        )),
        body is Some && !is_supported_image(mime@) ==> {
            &&& r.0 is Done
            &&& r.1 matches SaveAction::Finish(Ok(info))
            &&& info.is_failure("Unsupported resource type, file "@ + file_name@ + " !"@)
        },
        body is None ==> {
            &&& r.0 is Done
            &&& r.1 matches SaveAction::Finish(Ok(info))
            &&& info.is_failure("File unknown error, file "@ + file_name@ + " !"@)
        },
{
    let file_data = match body {
        Some(bytes) => Ok((bytes, mime, file_name)),
        None => Err(FileError::UnknownError { name: file_name }),
    };
    save_from_file(file_data, BASE_DIR)
}

/// Reads bytes as UTF-8 with `String::from_utf8`.
/// Trusted: it succeeds exactly on valid UTF-8, and the text is what the bytes encode.
#[verifier::external_body]
fn utf8_string(bytes: Vec<u8>) -> (r: Option<String>)
    ensures
        r is Some <==> valid_utf8(bytes@),
        r matches Some(s) ==> s@ == decode_utf8(bytes@),
{
    String::from_utf8(bytes).ok()
}

/// Starts fetching the image whose URI is the body of a `uri[]` field (`None` when the
/// body could not be read), storing it under `BASE_DIR`. A body that cannot be read,
/// or is not UTF-8 text, ends the task at once.
pub fn create_uri_save_stream(body: Option<Vec<u8>>) -> (r: (SaveTask, SaveAction))
    ensures
        r.0.wf(),
        r.0 is Done <==> r.1 is Finish,
        match body {
            Some(bytes) if valid_utf8(bytes@) => {
                &&& r.0 matches SaveTask::AwaitingResponse { uri, dir } && uri@ == decode_utf8(
                    bytes@,
                ) && dir@ == BASE_DIR@
                &&& r.1 matches SaveAction::Request(u) && u@ == decode_utf8(bytes@)
            },
            _ => r.0 is Done && r.1 matches SaveAction::Finish(Err(UriError::UnknownError)),
        },
{
    match body {
        Some(bytes) => match utf8_string(bytes) {
            Some(uri) => save_from_uri(uri, BASE_DIR),
            None => (SaveTask::Done, SaveAction::Finish(Err(UriError::UnknownError))),
        },
        None => (SaveTask::Done, SaveAction::Finish(Err(UriError::UnknownError))),
    }
}

} // verus!
