use image_pool::infrastructure::media::MediaType;
use image_pool::infrastructure::service::{
    save_from_file, save_from_uri, settle_outcome, FileError, SaveAction, SaveEvent, SaveTask,
    UriError,
};
use image_pool::infrastructure::utils::Writer;
use image_pool::infrastructure::SaveInfo;
use image_pool::mat::Mat;

/// A PNG file of the given size, made with the `image` crate.
fn png_bytes(width: u32, height: u32) -> Vec<u8> {
    let img = image::RgbaImage::from_fn(width, height, |x, y| {
        image::Rgba([(x % 256) as u8, (y % 256) as u8, 7, 255])
    });
    let mut out = std::io::Cursor::new(Vec::new());
    image::DynamicImage::ImageRgba8(img)
        .write_to(&mut out, image::ImageOutputFormat::Png)
        .unwrap();
    out.into_inner()
}

/// Runs a task to its end, answering every write with `written` and recording what
/// was written.
fn drive(
    start: (SaveTask, SaveAction),
    written: bool,
    files: &mut Vec<(String, Vec<u8>)>,
) -> Result<SaveInfo, UriError> {
    let (mut task, mut action) = start;
    loop {
        match action {
            SaveAction::Write(path, bytes) => {
                files.push((path, bytes));
                let next = task.step(SaveEvent::Written(written));
                task = next.0;
                action = next.1;
            }
            SaveAction::Finish(outcome) => {
                assert!(matches!(task, SaveTask::Done));
                return outcome;
            }
            other => panic!("unexpected action {:?}", other),
        }
    }
}

/// `dir/<lowercase hyphenated uuid>.<ext>`.
fn assert_upload_path(path: &str, dir: &str, ext: &str) {
    let prefix = format!("{}/", dir);
    assert!(path.starts_with(&prefix), "{}", path);
    let name = &path[prefix.len()..];
    let suffix = format!(".{}", ext);
    assert!(name.ends_with(&suffix), "{}", path);
    let id = &name[..name.len() - suffix.len()];
    assert_eq!(id.len(), 36);
    for (i, c) in id.chars().enumerate() {
        if i == 8 || i == 13 || i == 18 || i == 23 {
            assert_eq!(c, '-');
        } else {
            assert!(c.is_ascii_hexdigit() && !c.is_ascii_uppercase());
        }
    }
    assert_eq!(id.as_bytes()[14], b'4');
    assert!(matches!(id.as_bytes()[19], b'8' | b'9' | b'a' | b'b'));
}

fn assert_result_files(result: &SaveInfo, files: &[(String, Vec<u8>)]) {
    let success_info = result.success_info.as_ref().unwrap();
    assert_eq!(files.len(), 2);
    assert_eq!(success_info.original_path, files[0].0);
    assert_eq!(success_info.resize_path, files[1].0);
}

#[test]
fn test_raw_file_saving() {
    const TEST_DIR: &str = "./temp_test_dir/service-temp-test1";
    let data = png_bytes(69, 94);
    let mut files = Vec::new();
    let result = drive(
        save_from_file(Ok((data, MediaType::image_png(), "img.png".to_owned())), TEST_DIR),
        true,
        &mut files,
    )
    .unwrap();

    assert!(result.ok);
    assert_result_files(&result, &files);
    assert_upload_path(&files[0].0, TEST_DIR, "png");
    assert_upload_path(&files[1].0, TEST_DIR, "png");
    assert_ne!(files[0].0, files[1].0);
    let original = Mat::from_bytes(&files[0].1);
    assert_eq!((69, 94), (original.cols, original.rows));
    let thumbnail = Mat::from_bytes(&files[1].1);
    assert_eq!((100, 100), (thumbnail.cols, thumbnail.rows));
}

#[test]
fn test_raw_file_fail_info_when_bad_mime() {
    const TEST_DIR: &str = "./temp_test_dir/service-temp-test2";
    let data = png_bytes(69, 94);
    let mut files = Vec::new();
    let result = drive(
        save_from_file(Ok((data, MediaType::new("image/*"), "img.png".to_owned())), TEST_DIR),
        true,
        &mut files,
    )
    .unwrap();

    assert!(!result.ok);
    assert!(result.fail_info.is_some());
    assert_eq!(
        result.fail_info.unwrap().reason,
        "Unsupported resource type, file img.png !"
    );
    assert!(files.is_empty());
}

#[test]
fn test_raw_file_fail_info_when_broken_data() {
    const TEST_DIR: &str = "./temp_test_dir/service-temp-test3";
    let data = vec![1, 2, 3, 4, 5];
    let mut files = Vec::new();
    let result = drive(
        save_from_file(Ok((data, MediaType::image_png(), "img.png".to_owned())), TEST_DIR),
        true,
        &mut files,
    )
    .unwrap();

    assert!(!result.ok);
    assert!(result.fail_info.is_some());
    assert_eq!(result.fail_info.unwrap().reason, "Unknown save error!");
}

#[test]
fn unreadable_file_is_reported() {
    let mut files = Vec::new();
    let result = drive(
        save_from_file(Err(FileError::UnknownError { name: "a.png".to_owned() }), "./d"),
        true,
        &mut files,
    )
    .unwrap();
    assert!(!result.ok && result.success_info.is_none());
    assert_eq!(result.fail_info.unwrap().reason, "File unknown error, file a.png !");
}

#[test]
fn failed_write_of_original_stops_before_thumbnail() {
    let mut files = Vec::new();
    let result = drive(
        save_from_file(Ok((png_bytes(5, 5), MediaType::image_png(), "a".to_owned())), "./d"),
        false,
        &mut files,
    )
    .unwrap();
    assert_eq!(files.len(), 1);
    assert_eq!(result.fail_info.unwrap().reason, "Unknown save error!");
}

#[test]
fn test_uri_saving() {
    const TEST_DIR: &str = "./temp_test_dir/service-temp-test4";
    let uri = "https://www.rust-lang.org/static/images/rust-logo-blk.png";
    let (task, action) = save_from_uri(uri.to_owned(), TEST_DIR);
    match &action {
        SaveAction::Request(u) => assert_eq!(u, uri),
        other => panic!("unexpected action {:?}", other),
    }
    let (task, action) = task.step(SaveEvent::Response(Some(MediaType::image_png())));
    assert!(matches!(action, SaveAction::ReadBody));
    let start = task.step(SaveEvent::Body(png_bytes(64, 32)));
    let mut files = Vec::new();
    let save_response = drive(start, true, &mut files).unwrap();

    assert!(save_response.ok);
    assert_result_files(&save_response, &files);
    assert_upload_path(&files[0].0, TEST_DIR, "png");
}

#[test]
fn test_uri_fail_info_when_broken_uri() {
    const TEST_DIR: &str = "./temp_test_dir/service-temp-test5";
    let (task, _) = save_from_uri("https://qq/rust-logo-blk.png".to_owned(), TEST_DIR);
    let (task, action) = task.step(SaveEvent::RequestFailed);
    assert!(matches!(task, SaveTask::Done));

    let result = match action {
        SaveAction::Finish(outcome) => outcome,
        other => panic!("unexpected action {:?}", other),
    };

    assert!(result.is_err());
    let info = settle_outcome(result);
    assert_eq!(
        info.fail_info.unwrap().reason,
        "Unavailable resource https://qq/rust-logo-blk.png !"
    );
}

fn finish_of(action: SaveAction) -> Result<SaveInfo, UriError> {
    match action {
        SaveAction::Finish(outcome) => outcome,
        other => panic!("unexpected action {:?}", other),
    }
}

#[test]
fn uri_failures() {
    let uri = "http://a/b";
    let (task, _) = save_from_uri(uri.to_owned(), "./d");
    let (_, action) = task.step(SaveEvent::InvalidUri);
    assert_eq!(
        finish_of(action).unwrap_err(),
        UriError::InvalidUri { uri: uri.to_owned() }
    );

    let (task, _) = save_from_uri(uri.to_owned(), "./d");
    let (_, action) = task.step(SaveEvent::Response(None));
    assert_eq!(
        finish_of(action).unwrap_err(),
        UriError::MimeTypeError { uri: uri.to_owned() }
    );

    let (task, _) = save_from_uri(uri.to_owned(), "./d");
    let (_, action) = task.step(SaveEvent::Response(Some(MediaType::new("text/html"))));
    let info = settle_outcome(finish_of(action));
    assert_eq!(info.fail_info.unwrap().reason, "Unsupported resource http://a/b !");

    let (task, _) = save_from_uri(uri.to_owned(), "./d");
    let (task, _) = task.step(SaveEvent::Response(Some(MediaType::image_jpeg())));
    let (_, action) = task.step(SaveEvent::BodyFailed);
    assert_eq!(
        finish_of(action).unwrap_err(),
        UriError::MimeTypeError { uri: uri.to_owned() }
    );
}

#[test]
fn tasks_accept_only_the_expected_events() {
    let (task, _) = save_from_uri("u".to_owned(), "./d");
    assert!(task.accepts(&SaveEvent::RequestFailed));
    assert!(!task.accepts(&SaveEvent::Written(true)));
    assert!(!task.accepts(&SaveEvent::BodyFailed));
    let (task, _) = task.step(SaveEvent::RequestFailed);
    assert!(!task.accepts(&SaveEvent::RequestFailed));
    assert!(!task.accepts(&SaveEvent::Written(true)));
}

#[test]
fn test_create_original_and_resize_image() {
    const TEST_DIR: &str = "./temp_test_dir/writer-temp-test";
    let data = png_bytes(69, 94);
    let mut files = Vec::new();
    let result = drive(
        Writer::save(&data, &MediaType::image_png(), TEST_DIR),
        true,
        &mut files,
    )
    .unwrap();
    assert!(result.ok);

    let original = Mat::from_bytes(&files[0].1);
    assert_eq!((69, 94), (original.cols, original.rows));
    let thumbnail = Mat::from_bytes(&files[1].1);
    assert_eq!((100, 100), (thumbnail.cols, thumbnail.rows));
}

#[test]
fn test_error_throw_on_bad_ext() {
    const TEST_DIR: &str = "./temp_test_dir/writer-temp-test2";
    let data = png_bytes(69, 94);
    let mut files = Vec::new();
    let result = drive(
        Writer::save(&data, &MediaType::new("image/svg+xml"), TEST_DIR),
        true,
        &mut files,
    )
    .unwrap();
    assert!(!result.ok);
    assert!(files.is_empty());
}

#[test]
fn jpeg_uploads_are_stored_as_jpeg() {
    let mut files = Vec::new();
    let result = drive(
        save_from_file(Ok((png_bytes(20, 10), MediaType::image_jpeg(), "x".to_owned())), "./up"),
        true,
        &mut files,
    )
    .unwrap();
    assert!(result.ok);
    assert_upload_path(&files[0].0, "./up", "jpeg");
    assert_eq!(&files[0].1[..2], &[0xff, 0xd8]);
    assert_eq!(&files[1].1[..2], &[0xff, 0xd8]);
}
