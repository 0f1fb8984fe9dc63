use vstd::prelude::*;

use super::media::MediaType;
use super::utils::{
    guard_image, is_supported_image, is_upload_path, storable, upload_extension, upload_format,
    Writer,
};
use super::{concat3, Reason, SaveInfo};
use crate::mat::{Mat, encoded_rgba, resized_rgba, JPEG_QUALITY};

verus! {

/// The request body could not be read as a list of images and URIs.
#[derive(Debug, Clone, Copy, PartialEq, Eq)]
pub enum ContentError {
    Decoding,
}

/// An uploaded file could not be taken in.
#[derive(Debug, Clone, PartialEq, Eq)]
pub enum FileError {
    UnknownError { name: String },
    MimeType { name: String },
}

/// An image named by URI could not be fetched.
#[derive(Debug, Clone, PartialEq, Eq)]
pub enum UriError {
    UnknownError,
    InvalidUri { uri: String },
    RemoteRequestFail { uri: String },
    MimeTypeError { uri: String },
}

impl Reason for ContentError {
    open spec fn spec_reason(&self) -> Seq<char> {
        "Decoding or naming error!"@
    }

    fn reason(&self) -> (r: String) {
        String::from_str("Decoding or naming error!")
    }
}

impl Reason for FileError {
    open spec fn spec_reason(&self) -> Seq<char> {
        match self {
            FileError::UnknownError { name } => "File unknown error, file "@ + name@ + " !"@,
            FileError::MimeType { name } => "Unsupported resource type, file "@ + name@ + " !"@,
        }
    }

    fn reason(&self) -> (r: String) {
        match self {
            FileError::UnknownError { name } => concat3(
                "File unknown error, file ",
                name.as_str(),
                " !",
            ),
            FileError::MimeType { name } => concat3(
                "Unsupported resource type, file ",
                name.as_str(),
                " !",
            ),
        }
    }
}

impl Reason for UriError {
    open spec fn spec_reason(&self) -> Seq<char> {
        match self {
            UriError::UnknownError => "Url unknown error!"@,
            UriError::InvalidUri { uri } => "Invalid url "@ + uri@ + " !"@,
            UriError::RemoteRequestFail { uri } => "Unavailable resource "@ + uri@ + " !"@,
            UriError::MimeTypeError { uri } => "Unsupported resource "@ + uri@ + " !"@,
        }
    }

    fn reason(&self) -> (r: String) {
        match self {
            UriError::UnknownError => String::from_str("Url unknown error!"),
            UriError::InvalidUri { uri } => concat3("Invalid url ", uri.as_str(), " !"),
            UriError::RemoteRequestFail { uri } => concat3(
                "Unavailable resource ",
                uri.as_str(),
                " !",
            ),
            UriError::MimeTypeError { uri } => concat3("Unsupported resource ", uri.as_str(), " !"),
        }
    }
}

/// What the outside world reports back to a `SaveTask`, in answer to its last action.
#[derive(Debug)]
pub enum SaveEvent {
    /// No request could be built from the URI.
    InvalidUri,
    /// The request was sent and failed.
    RequestFailed,
    /// The reply arrived; it declares this media type (`None` when it declares none,
    /// or one that cannot be read).
    Response(Option<MediaType>),
    /// The reply's body could not be read.
    BodyFailed,
    /// The reply's body.
    Body(Vec<u8>),
    /// Whether the file was written.
    Written(bool),
}

/// What a `SaveTask` asks the outside world to do next.
#[derive(Debug)]
pub enum SaveAction {
    /// Send a GET request for this URI; answer with `InvalidUri`, `RequestFailed` or
    /// `Response`.
    Request(String),
    /// Read the body of the reply; answer with `BodyFailed` or `Body`.
    ReadBody,
    /// Write these bytes to a new file at this path; answer with `Written`.
    Write(String, Vec<u8>),
    /// The task is over, with this outcome.
    Finish(Result<SaveInfo, UriError>),
}

/// The state of storing one image, fetched by URI or uploaded.
#[derive(Debug)]
pub enum SaveTask {
    AwaitingResponse { uri: String, dir: String },
    AwaitingBody { uri: String, dir: String, mime: MediaType },
    AwaitingOriginal { dir: String, ext: String, mat: Mat, original: String },
    AwaitingThumbnail { original: String, resized: String },
    Done,
}

/// The outcome of a failed store of a decoded image.
pub open spec fn is_store_failure(action: SaveAction) -> bool {
    action matches SaveAction::Finish(Ok(info)) && info.is_failure("Unknown save error!"@)
}

/// The outcome of a URI that could not be fetched as an image.
pub open spec fn is_uri_failure(action: SaveAction, error: UriError) -> bool {
    action matches SaveAction::Finish(Err(e)) && e == error
}

impl SaveTask {
    /// The image held while the original is written can still be scaled.
    pub open spec fn wf(self) -> bool {
        match self {
            SaveTask::AwaitingOriginal { mat, .. } => mat.wf() && !mat.is_empty(),
            _ => true,
        }
    }

    /// How many events the task can still take at most.
    pub open spec fn rank(self) -> nat {
        match self {
            SaveTask::AwaitingResponse { .. } => 4,
            SaveTask::AwaitingBody { .. } => 3,
            SaveTask::AwaitingOriginal { .. } => 2,
            SaveTask::AwaitingThumbnail { .. } => 1,
            SaveTask::Done => 0,
        }
    }

    /// The events that answer the action this state was entered with.
    pub open spec fn spec_accepts(self, event: SaveEvent) -> bool {
        match self {
            SaveTask::AwaitingResponse { .. } => event is InvalidUri || event is RequestFailed
                || event is Response,
            SaveTask::AwaitingBody { .. } => event is BodyFailed || event is Body,
            SaveTask::AwaitingOriginal { .. } => event is Written,
            SaveTask::AwaitingThumbnail { .. } => event is Written,
            SaveTask::Done => false,
        }
    }

    /// `(self, action)` is how storing `data` (of media type `mime`) under `dir` begins:
    /// the original, encoded for a fresh upload path, is to be written; or, when the
    /// image cannot be stored in the upload format, the task has failed.
    pub open spec fn starts_storing(
        self,
        action: SaveAction,
        data: Seq<u8>,
        mime: Seq<char>,
        dir: Seq<char>,
    ) -> bool {
        let ext = upload_extension(mime);
        let (cols, rows, pixels) = Mat::spec_from_bytes(data);
        if storable(cols, rows, pixels, upload_format(ext)) {
            &&& self matches SaveTask::AwaitingOriginal { dir: d, ext: e, mat, original }
            &&& d@ == dir
            &&& e@ == ext
            &&& mat.cols == cols
            &&& mat.rows == rows
            &&& mat.pixels() == pixels
            &&& is_upload_path(original@, dir, ext)
            &&& action matches SaveAction::Write(path, bytes)
            &&& path@ == original@
            &&& encoded_rgba(cols as u32, rows as u32, pixels, upload_format(ext), JPEG_QUALITY)
                == Some(bytes@)
        } else {
            &&& self is Done
            &&& is_store_failure(action)
        }
    }

    /// `(self, action)` is how storing goes on once the original is written: the
    /// 100x100 thumbnail, encoded for a fresh upload path, is to be written; or, when
    /// the image cannot be scaled or the thumbnail cannot be stored in the upload
    /// format, the task has failed.
    pub open spec fn stores_thumbnail(
        self,
        action: SaveAction,
        dir: Seq<char>,
        ext: Seq<char>,
        mat: Mat,
        original: Seq<char>,
    ) -> bool {
        let pixels = resized_rgba(mat.cols as u32, mat.rows as u32, mat.pixels(), 100, 100);
        if mat.can_resize(100, 100) && storable(100, 100, pixels, upload_format(ext)) {
            &&& self matches SaveTask::AwaitingThumbnail { original: o, resized }
            &&& o@ == original
            &&& is_upload_path(resized@, dir, ext)
            &&& action matches SaveAction::Write(path, bytes)
            &&& path@ == resized@
            &&& encoded_rgba(100, 100, pixels, upload_format(ext), JPEG_QUALITY) == Some(bytes@)
        } else {
            &&& self is Done
            &&& is_store_failure(action)
        }
    }

    /// `(next, action)` is what the task does on `event`.
    pub open spec fn steps_to(self, event: SaveEvent, next: SaveTask, action: SaveAction) -> bool {
        match self {
            SaveTask::AwaitingResponse { uri, dir } => match event {
                SaveEvent::InvalidUri => next is Done && is_uri_failure(
                    action,
                    UriError::InvalidUri { uri },
                ),
                SaveEvent::RequestFailed => next is Done && is_uri_failure(
                    action,
                    UriError::RemoteRequestFail { uri },
                ),
                SaveEvent::Response(Some(m)) if is_supported_image(m@) => {
                    &&& next matches SaveTask::AwaitingBody { uri: u, dir: d, mime }
                    &&& u@ == uri@
                    &&& d@ == dir@
                    &&& mime@ == m@
                    &&& action is ReadBody
                },
                SaveEvent::Response(_) => next is Done && is_uri_failure(
                    action,
                    UriError::MimeTypeError { uri },
                ),
                _ => false,
            },
            SaveTask::AwaitingBody { uri, dir, mime } => match event {
                SaveEvent::BodyFailed => next is Done && is_uri_failure(
                    action,
                    UriError::MimeTypeError { uri },
                ),
                SaveEvent::Body(bytes) => next.starts_storing(action, bytes@, mime@, dir@),
                _ => false,
            },
            SaveTask::AwaitingOriginal { dir, ext, mat, original } => match event {
                SaveEvent::Written(true) => next.stores_thumbnail(
                    action,
                    dir@,
                    ext@,
                    mat,
                    original@,
                ),
                SaveEvent::Written(false) => next is Done && is_store_failure(action),
                _ => false,
            },
            SaveTask::AwaitingThumbnail { original, resized } => match event {
                SaveEvent::Written(true) => {
                    &&& next is Done
                    &&& action matches SaveAction::Finish(Ok(info))
                    &&& info.is_success(original@, resized@)
                },
                SaveEvent::Written(false) => next is Done && is_store_failure(action),
                _ => false,
            },
            SaveTask::Done => false,
        }
    }

    /// Whether `step` takes this event now.
    pub fn accepts(&self, event: &SaveEvent) -> (r: bool)
        ensures
            r == self.spec_accepts(*event),
    {
        match self {
            SaveTask::AwaitingResponse { .. } => match event {
                SaveEvent::InvalidUri | SaveEvent::RequestFailed | SaveEvent::Response(_) => true,
                _ => false,
            },
            SaveTask::AwaitingBody { .. } => match event {
                SaveEvent::BodyFailed | SaveEvent::Body(_) => true,
                _ => false,
            },
            SaveTask::AwaitingOriginal { .. } | SaveTask::AwaitingThumbnail { .. } => match event {
                SaveEvent::Written(_) => true,
                _ => false,
            },
            SaveTask::Done => false,
        }
    }

    /// Takes the answer to the last action and decides what to do next.
    pub fn step(self, event: SaveEvent) -> (r: (SaveTask, SaveAction))
        requires
            self.wf(),
            self.spec_accepts(event),
        ensures
            r.0.wf(),
            self.steps_to(event, r.0, r.1),
            r.0.rank() < self.rank(),
            r.0 is Done <==> r.1 is Finish,
            r.1 matches SaveAction::Finish(Ok(info)) ==> info.consistent(),
            self matches SaveTask::AwaitingBody { dir, mime, .. } ==> (event matches SaveEvent::Body(
                bytes,
            ) ==> r.0.starts_storing(r.1, bytes@, mime@, dir@)),
    {
        match self {
            SaveTask::AwaitingResponse { uri, dir } => match event {
                SaveEvent::InvalidUri => (
                    SaveTask::Done,
                    SaveAction::Finish(Err(UriError::InvalidUri { uri })),
                ),
                SaveEvent::RequestFailed => (
                    SaveTask::Done,
                    SaveAction::Finish(Err(UriError::RemoteRequestFail { uri })),
                ),
                SaveEvent::Response(Some(m)) => {
                    match guard_image(&m) {
                        Ok(()) => (SaveTask::AwaitingBody { uri, dir, mime: m }, SaveAction::ReadBody),
                        Err(_) => (
                            SaveTask::Done,
                            SaveAction::Finish(Err(UriError::MimeTypeError { uri })),
                        ),
                    }
                },
                SaveEvent::Response(None) => (
                    SaveTask::Done,
                    SaveAction::Finish(Err(UriError::MimeTypeError { uri })),
                ),
                _ => {
                    assert(false);
                    (SaveTask::Done, SaveAction::Finish(Err(UriError::UnknownError)))
                },
            },
            SaveTask::AwaitingBody { uri, dir, mime } => match event {
                SaveEvent::BodyFailed => (
                    SaveTask::Done,
                    SaveAction::Finish(Err(UriError::MimeTypeError { uri })),
                ),
                SaveEvent::Body(bytes) => Writer::save(bytes.as_slice(), &mime, dir.as_str()),
                _ => {
                    assert(false);
                    (SaveTask::Done, SaveAction::Finish(Err(UriError::UnknownError)))
                },
            },
            SaveTask::AwaitingOriginal { dir, ext, mat, original } => match event {
                SaveEvent::Written(true) => Writer::save_thumbnail(dir, ext, mat, original),
                _ => (
                    SaveTask::Done,
                    SaveAction::Finish(Ok(SaveInfo::from_error(super::utils::WriterError::Opencv))),
                ),
            },
            SaveTask::AwaitingThumbnail { original, resized } => match event {
                SaveEvent::Written(true) => (
                    SaveTask::Done,
                    SaveAction::Finish(Ok(SaveInfo::from_files(original, resized))),
                ),
                _ => (
                    SaveTask::Done,
                    SaveAction::Finish(Ok(SaveInfo::from_error(super::utils::WriterError::Opencv))),
                ),
            },
            SaveTask::Done => {
                assert(false);
                (SaveTask::Done, SaveAction::Finish(Err(UriError::UnknownError)))
            },
        }
    }
}

/// `(task, action)` is how storing an uploaded file under `dir` begins. A file that
/// could not be read, or whose media type is neither `image/jpeg` nor `image/png`,
/// ends the task at once with a failure; otherwise the image is stored as
/// `Writer::save` does.
pub open spec fn starts_file_save(
    file_data: Result<(Vec<u8>, MediaType, String), FileError>,
    dir: Seq<char>,
    task: SaveTask,
    action: SaveAction,
) -> bool {
    match file_data {
        Err(e) => {
            &&& task is Done
            &&& action matches SaveAction::Finish(Ok(info))
            &&& info.is_failure(e.spec_reason())
        },
        Ok((bytes, mime, name)) => if is_supported_image(mime@) {
            task.starts_storing(action, bytes@, mime@, dir)
        } else {
            &&& task is Done
            &&& action matches SaveAction::Finish(Ok(info))
            &&& info.is_failure("Unsupported resource type, file "@ + name@ + " !"@)
        },
    }
}

/// Starts storing an uploaded file under `dir` (see `starts_file_save`).
pub fn save_from_file(
    file_data: Result<(Vec<u8>, MediaType, String), FileError>,
    dir: &str,
) -> (r: (SaveTask, SaveAction))
    ensures
        r.0.wf(),
        r.0 is Done <==> r.1 is Finish,
        starts_file_save(file_data, dir@, r.0, r.1),
        r.1 matches SaveAction::Finish(Ok(info)) ==> info.consistent(),
{
    match file_data {
        Ok((bytes, mime, file_name)) => match guard_image(&mime) {
            Ok(()) => Writer::save(bytes.as_slice(), &mime, dir),
            Err(_) => (
                SaveTask::Done,
                SaveAction::Finish(Ok(SaveInfo::from_error(FileError::MimeType { name: file_name }))),
            ),
        },
        Err(e) => (SaveTask::Done, SaveAction::Finish(Ok(SaveInfo::from_error(e)))),
    }
}

/// A task waits for an answer exactly until it is done: a task that is not done
/// accepts some event, and a done task accepts none. With `step` lowering `rank`
/// each time, every task is done after at most four events.
pub proof fn lemma_task_live_until_done(task: SaveTask)
    ensures
        task is Done <==> forall|e: SaveEvent| !(#[trigger] task.spec_accepts(e)),
        task.rank() <= 4,
{
    if !(task is Done) {
        let e = match task {
            SaveTask::AwaitingResponse { .. } => SaveEvent::InvalidUri,
            SaveTask::AwaitingBody { .. } => SaveEvent::BodyFailed,
            _ => SaveEvent::Written(true),
        };
        assert(task.spec_accepts(e));
    }
}

/// A stored image is reported at exactly the two paths it was written to: when the
/// original's write (to `original_path`) and then the thumbnail's write (to
/// `thumbnail_path`) both succeed, the task finishes with a success that names these
/// two paths, both fresh upload paths under `dir`.
pub proof fn lemma_success_reports_written_paths(
    data: Seq<u8>,
    mime: Seq<char>,
    dir: Seq<char>,
    t0: SaveTask,
    a0: SaveAction,
    t1: SaveTask,
    a1: SaveAction,
    t2: SaveTask,
    a2: SaveAction,
)
    requires
        t0.starts_storing(a0, data, mime, dir),
        t0.steps_to(SaveEvent::Written(true), t1, a1),
        t1.steps_to(SaveEvent::Written(true), t2, a2),
    ensures
        a0 matches SaveAction::Write(original_path, _),
        a1 matches SaveAction::Write(thumbnail_path, _),
        a2 matches SaveAction::Finish(Ok(info)),
        is_upload_path(a0->Write_0@, dir, upload_extension(mime)),
        is_upload_path(a1->Write_0@, dir, upload_extension(mime)),
        a2->Finish_0->Ok_0.is_success(a0->Write_0@, a1->Write_0@),
{
}

/// A fetched image is stored under the media type its reply declared: when the reply
/// to the request declares an image type `m` and the body then arrives, the task
/// starts storing that body as `m` under the task's directory, so that a file it
/// writes is named with the extension of `m`.
pub proof fn lemma_fetched_image_keeps_reply_type(
    uri: String,
    dir: String,
    m: MediaType,
    bytes: Vec<u8>,
    t1: SaveTask,
    a1: SaveAction,
    t2: SaveTask,
    a2: SaveAction,
)
    requires
        is_supported_image(m@),
        (SaveTask::AwaitingResponse { uri, dir }).steps_to(SaveEvent::Response(Some(m)), t1, a1),
        t1.steps_to(SaveEvent::Body(bytes), t2, a2),
    ensures
        a1 is ReadBody,
        t2.starts_storing(a2, bytes@, m@, dir@),
        a2 matches SaveAction::Write(path, _) ==> is_upload_path(
            path@,
            dir@,
            upload_extension(m@),
        ),
{
}

/// The thumbnail is the stored image scaled to 100x100: once the original is written,
/// a thumbnail that the task asks to write holds the image resized to 100x100 and
/// encoded in the upload format, at a fresh upload path under the same directory;
/// otherwise the task ends with a failed save.
pub proof fn lemma_thumbnail_is_scaled_image(
    dir: String,
    ext: String,
    mat: Mat,
    original: String,
    t1: SaveTask,
    a1: SaveAction,
)
    requires
        (SaveTask::AwaitingOriginal { dir, ext, mat, original }).steps_to(
            SaveEvent::Written(true),
            t1,
            a1,
        ),
    ensures
        a1 matches SaveAction::Write(path, bytes) ==> {
            &&& is_upload_path(path@, dir@, ext@)
            &&& encoded_rgba(
                100,
                100,
                resized_rgba(mat.cols as u32, mat.rows as u32, mat.pixels(), 100, 100),
                upload_format(ext@),
                JPEG_QUALITY,
            ) == Some(bytes@)
        },
        !(a1 is Write) ==> t1 is Done && is_store_failure(a1),
{
}

/// Starts fetching the image at `uri` and storing it under `dir`.
pub fn save_from_uri(uri: String, dir: &str) -> (r: (SaveTask, SaveAction))
    ensures
        r.0 matches SaveTask::AwaitingResponse { uri: u, dir: d } && u@ == uri@ && d@ == dir@,
        r.1 matches SaveAction::Request(u) && u@ == uri@,
        r.0.wf(),
{
    let request = uri.clone();
    (SaveTask::AwaitingResponse { uri, dir: String::from_str(dir) }, SaveAction::Request(request))
}

/// The report for a finished URI task: a fetch that failed is reported as a failed save.
pub fn settle_outcome(outcome: Result<SaveInfo, UriError>) -> (r: SaveInfo)
    ensures
        match outcome {
            Ok(info) => r == info,
            Err(e) => r.is_failure(e.spec_reason()) && r.consistent(),
        },
{
    match outcome {
        Ok(info) => info,
        Err(e) => SaveInfo::from_error(e),
    }
}

} // verus!
