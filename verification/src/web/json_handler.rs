use vstd::prelude::*;

use super::BASE_DIR;
use crate::infrastructure::media::MediaType;
use crate::infrastructure::service::{
    save_from_file, save_from_uri, starts_file_save, FileError, SaveAction, SaveTask,
};

pub mod base64_image;

verus! {

/// A JSON upload: images given inline (decoded, with the media type guessed from their
/// base64 text) and images given by URI.
#[derive(Debug)]
pub struct JsonRequest {
    pub file: Vec<(Vec<u8>, MediaType)>,
    pub uri: Vec<String>,
}

/// One image of a request, waiting to be stored.
#[derive(Debug)]
pub enum SaveJob {
    /// An image whose bytes are at hand (or could not be read).
    File(Result<(Vec<u8>, MediaType, String), FileError>),
    /// An image to fetch.
    Uri(String),
}

/// `job` stores this inline image, under the name `base64`.
pub open spec fn is_base64_job(job: SaveJob, bytes: Seq<u8>, mime: Seq<char>) -> bool {
    job matches SaveJob::File(Ok((b, m, n))) && b@ == bytes && m@ == mime && n@ == "base64"@
}

/// `job` fetches this URI.
pub open spec fn is_uri_job(job: SaveJob, uri: Seq<char>) -> bool {
    job matches SaveJob::Uri(u) && u@ == uri
}

impl SaveJob {
    /// Starts the job, storing under `BASE_DIR`.
    pub fn start(self) -> (r: (SaveTask, SaveAction))
        ensures
            r.0.wf(),
            r.0 is Done <==> r.1 is Finish,
            r.1 matches SaveAction::Finish(Ok(info)) ==> info.consistent(),
            match self {
                SaveJob::File(file_data) => starts_file_save(file_data, BASE_DIR@, r.0, r.1),
                SaveJob::Uri(uri) => {
                    &&& r.0 matches SaveTask::AwaitingResponse { uri: u, dir: d } && u@ == uri@ && d@
                        == BASE_DIR@
                    &&& r.1 matches SaveAction::Request(u) && u@ == uri@
                },
            },
    {
        match self {
            SaveJob::File(file_data) => save_from_file(file_data, BASE_DIR),
            SaveJob::Uri(uri) => save_from_uri(uri, BASE_DIR),
        }
    }
}

/// One job per inline image, in order, each stored under the name `base64`.
fn create_base64_save_stream(files: &Vec<(Vec<u8>, MediaType)>) -> (r: Vec<SaveJob>)
    ensures
        r.len() == files.len(),
        forall|i: int|
            0 <= i < files.len() ==> is_base64_job(#[trigger] r@[i], files@[i].0@, files@[i].1@),
{
    let mut r: Vec<SaveJob> = Vec::new();
    let mut i: usize = 0;
    while i < files.len()
        invariant
            i <= files.len(),
            r.len() == i,
            forall|j: int|
                0 <= j < i ==> is_base64_job(#[trigger] r@[j], files@[j].0@, files@[j].1@),
        decreases files.len() - i,
    {
        let bytes = files[i].0.clone();
        let mime = files[i].1.copy();
        r.push(SaveJob::File(Ok((bytes, mime, String::from_str("base64")))));
        i += 1;
    }
    r
}

/// One job per URI, in order.
fn create_uri_save_stream(uris: &Vec<String>) -> (r: Vec<SaveJob>)
    ensures
        r.len() == uris.len(),
        forall|i: int| 0 <= i < uris.len() ==> is_uri_job(#[trigger] r@[i], uris@[i]@),
{
    let mut r: Vec<SaveJob> = Vec::new();
    let mut i: usize = 0;
    while i < uris.len()
        invariant
            i <= uris.len(),
            r.len() == i,
            forall|j: int| 0 <= j < i ==> is_uri_job(#[trigger] r@[j], uris@[j]@),
        decreases uris.len() - i,
    {
        r.push(SaveJob::Uri(uris[i].clone()));
        i += 1;
    }
    r
}

/// The jobs of a request, one per image, in the order the answer lists them: first
/// the inline images, then the URIs, each in the order given.
pub fn create_save_stream(json_request: JsonRequest) -> (r: Vec<SaveJob>)
    ensures
        r.len() == json_request.file.len() + json_request.uri.len(),
        forall|i: int|
            0 <= i < json_request.file.len() ==> is_base64_job(
                #[trigger] r@[i],
                json_request.file@[i].0@,
                json_request.file@[i].1@,
            ),
        forall|i: int|
            0 <= i < json_request.uri.len() ==> is_uri_job(
                #[trigger] r@[json_request.file.len() + i],
                json_request.uri@[i]@,
            ),
{
    let mut r = create_base64_save_stream(&json_request.file);
    let mut uris = create_uri_save_stream(&json_request.uri);
    let ghost files_part = r@;
    let ghost uris_part = uris@;
    r.append(&mut uris);
    proof {
        assert(r@ == files_part + uris_part);
        assert forall|i: int| 0 <= i < json_request.uri.len() implies is_uri_job(
            #[trigger] r@[json_request.file.len() + i],
            json_request.uri@[i]@,
        ) by {
            assert(r@[json_request.file.len() + i] == uris_part[i]);
        }
    }
    r
}

} // verus!
