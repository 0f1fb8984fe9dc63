use image_pool::infrastructure::media::MediaType;
use image_pool::infrastructure::service::{settle_outcome, SaveAction, SaveEvent, UriError};
use image_pool::infrastructure::SaveInfo;
use image_pool::web::json_handler::base64_image::{deserialize, detect_mime};
use image_pool::web::json_handler::{create_save_stream, JsonRequest, SaveJob};

fn png_bytes(width: u32, height: u32) -> Vec<u8> {
    let img = image::RgbaImage::from_fn(width, height, |x, y| {
        image::Rgba([(x % 256) as u8, (y % 256) as u8, 3, 255])
    });
    let mut out = std::io::Cursor::new(Vec::new());
    image::DynamicImage::ImageRgba8(img)
        .write_to(&mut out, image::ImageOutputFormat::Png)
        .unwrap();
    out.into_inner()
}

fn png_base64(width: u32, height: u32) -> String {
    base64::encode(&png_bytes(width, height))
}

/// Runs every job of a request the way the server does, with every request, body
/// read and file write succeeding (a URI answers with `body`), and collects the
/// reports and the written paths.
fn run_jobs(jobs: Vec<SaveJob>, body: &[u8]) -> (Vec<SaveInfo>, Vec<String>) {
    let mut reports = Vec::new();
    let mut written = Vec::new();
    for job in jobs {
        let (mut task, mut action) = job.start();
        let outcome: Result<SaveInfo, UriError> = loop {
            let event = match action {
                SaveAction::Request(_) => SaveEvent::Response(Some(MediaType::image_png())),
                SaveAction::ReadBody => SaveEvent::Body(body.to_vec()),
                SaveAction::Write(path, _) => {
                    written.push(path);
                    SaveEvent::Written(true)
                }
                SaveAction::Finish(outcome) => break outcome,
            };
            let next = task.step(event);
            task = next.0;
            action = next.1;
        };
        reports.push(settle_outcome(outcome));
    }
    (reports, written)
}

fn request(files: Vec<String>, uris: Vec<String>) -> JsonRequest {
    JsonRequest { file: deserialize(files).unwrap(), uri: uris }
}

fn assert_body(reports: &[SaveInfo], written: &[String], expected_file_count: usize) {
    let files: Vec<String> = reports
        .iter()
        .flat_map(|info| match &info.success_info {
            Some(s) => vec![s.original_path.clone(), s.resize_path.clone()],
            None => vec![],
        })
        .collect();
    assert_eq!(expected_file_count, files.len());
    assert_eq!(files, written);
    assert!(files.iter().all(|f| f.starts_with("./uploads/")));
}

#[test]
fn test_empty_payload_ok() {
    let jobs = create_save_stream(request(vec![], vec![]));
    let (reports, written) = run_jobs(jobs, &[]);
    assert!(reports.is_empty());
    assert!(written.is_empty());
}

#[test]
fn test_json_base64_file_ok() {
    let jobs = create_save_stream(request(vec![png_base64(69, 94)], vec![]));
    let (reports, written) = run_jobs(jobs, &[]);
    assert_body(&reports, &written, 2);
}

#[test]
fn test_json_base64_multiple_files_ok() {
    let jobs = create_save_stream(request(vec![png_base64(69, 94), png_base64(10, 12)], vec![]));
    let (reports, written) = run_jobs(jobs, &[]);
    assert_body(&reports, &written, 4);
}

#[test]
fn test_json_uri_ok() {
    let jobs = create_save_stream(request(vec![png_base64(69, 94)], vec![]));
    let (reports, written) = run_jobs(jobs, &[]);
    assert_body(&reports, &written, 2);
}

#[test]
fn json_single_uri_is_stored() {
    let jobs = create_save_stream(request(vec![], vec!["http://example.com/a.png".to_owned()]));
    let (reports, written) = run_jobs(jobs, &png_bytes(8, 8));
    assert_body(&reports, &written, 2);
}

#[test]
fn test_json_uri_and_file_ok() {
    let jobs = create_save_stream(request(
        vec![png_base64(69, 94), png_base64(3, 3)],
        vec!["http://example.com/a.png".to_owned()],
    ));
    let (reports, written) = run_jobs(jobs, &png_bytes(8, 8));
    assert_body(&reports, &written, 6);
}

#[test]
fn jobs_list_files_first_then_uris() {
    let jobs = create_save_stream(request(
        vec![png_base64(2, 2)],
        vec!["u1".to_owned(), "u2".to_owned()],
    ));
    assert_eq!(jobs.len(), 3);
    match &jobs[0] {
        SaveJob::File(Ok((_, mime, name))) => {
            assert_eq!(mime.source, "image/png");
            assert_eq!(name, "base64");
        }
        other => panic!("unexpected job {:?}", other),
    }
    assert!(matches!(&jobs[1], SaveJob::Uri(u) if u == "u1"));
    assert!(matches!(&jobs[2], SaveJob::Uri(u) if u == "u2"));
}

#[test]
fn text_given_as_an_image_is_refused_at_the_guard() {
    let jobs = create_save_stream(request(vec!["aGVsbG8=".to_owned()], vec![]));
    let (reports, written) = run_jobs(jobs, &[]);
    assert!(written.is_empty());
    assert_eq!(
        reports[0].fail_info.as_ref().unwrap().reason,
        "Unsupported resource type, file base64 !"
    );
}

#[test]
fn detect_mime_by_first_character() {
    assert_eq!(detect_mime("/9j/4AAQ").unwrap().source, "image/jpeg");
    assert_eq!(detect_mime("iVBORw0K").unwrap().source, "image/png");
    assert_eq!(detect_mime("R0lGOD").unwrap().source, "text/plain");
    assert_eq!(detect_mime("").unwrap().source, "text/plain");
}

#[test]
fn deserialize_decodes_in_order() {
    let images = deserialize(vec!["aGVsbG8=".to_owned(), "iVBO".to_owned()]).unwrap();
    assert_eq!(images.len(), 2);
    assert_eq!(images[0].0, b"hello".to_vec());
    assert_eq!(images[0].1.source, "text/plain");
    assert_eq!(images[1].1.source, "image/png");
}

#[test]
fn broken_base64_rejects_the_request() {
    let r = deserialize(vec![png_base64(2, 2), "not base64!".to_owned()]);
    assert_eq!(r.unwrap_err(), "Broken base64 string");
}
