use image_pool::infrastructure::media::MediaType;
use image_pool::infrastructure::service::{ContentError, FileError, UriError};
use image_pool::infrastructure::utils::{guard_image, guard_mime, WriterError};
use image_pool::infrastructure::{FailInfo, Reason, SaveInfo};
use image_pool::web::multipart_handler::MultipartFieldError;

#[test]
fn from_files_reports_both_paths() {
    let sr = SaveInfo::from_files("./1.png".to_owned(), "./2.png".to_owned());

    assert_eq!(true, sr.ok);
    assert_eq!(Option::None, sr.fail_info);
    let success = sr.success_info.unwrap();
    assert_eq!("./1.png".to_owned(), success.original_path);
    assert_eq!("./2.png".to_owned(), success.resize_path);
}

#[test]
fn from_error_reports_the_reason() {
    let sr = SaveInfo::from_error(UriError::UnknownError);

    assert_eq!(false, sr.ok);
    assert_eq!(Option::None, sr.success_info);
    assert_ne!(Option::None, sr.fail_info);
    assert_eq!(
        Some(FailInfo { reason: "Url unknown error!".to_owned() }),
        sr.fail_info
    );
}

#[test]
fn error_reasons() {
    assert_eq!(ContentError::Decoding.reason(), "Decoding or naming error!");
    assert_eq!(
        FileError::UnknownError { name: "a.png".to_owned() }.reason(),
        "File unknown error, file a.png !"
    );
    assert_eq!(
        FileError::MimeType { name: "a.png".to_owned() }.reason(),
        "Unsupported resource type, file a.png !"
    );
    assert_eq!(UriError::UnknownError.reason(), "Url unknown error!");
    assert_eq!(
        UriError::InvalidUri { uri: "x".to_owned() }.reason(),
        "Invalid url x !"
    );
    assert_eq!(
        UriError::RemoteRequestFail { uri: "http://a/b".to_owned() }.reason(),
        "Unavailable resource http://a/b !"
    );
    assert_eq!(
        UriError::MimeTypeError { uri: "http://a/b".to_owned() }.reason(),
        "Unsupported resource http://a/b !"
    );
    assert_eq!(WriterError::Opencv.reason(), "Unknown save error!");
    assert_eq!(
        MultipartFieldError::UnknownField { name: "foo".to_owned() }.reason(),
        "Only file and url fields supported foo !"
    );
    assert_eq!(MultipartFieldError::UnknownFieldType.reason(), "Unknown field type!");
    assert_eq!(MultipartFieldError::NestedField.reason(), "Nested fields unsupported!");
}

#[test]
fn guard_mime_accepts_listed_types_only() {
    let res = guard_mime(
        &MediaType::image_jpeg(),
        vec![MediaType::image_jpeg(), MediaType::image_png()],
    );
    assert!(res.is_ok());

    let res = guard_mime(
        &MediaType::new("application/javascript"),
        vec![MediaType::image_jpeg(), MediaType::image_png()],
    );
    assert_eq!(res, Err("Unsupported mime type".to_owned()));

    let res = guard_mime(&MediaType::image_png(), vec![]);
    assert!(res.is_err());
}

#[test]
fn guard_image_compares_as_mime_does() {
    assert!(guard_image(&MediaType::new("image/png")).is_ok());
    assert!(guard_image(&MediaType::new("IMAGE/PNG")).is_ok());
    assert!(guard_image(&MediaType::new("image/jpeg")).is_ok());
    assert!(guard_image(&MediaType::new("image/*")).is_err());
    assert!(guard_image(&MediaType::new("image/svg+xml")).is_err());
    assert!(guard_image(&MediaType::new("text/plain")).is_err());
    assert!(guard_image(&MediaType::new("not a media type")).is_err());
}

#[test]
fn media_type_subtype() {
    assert_eq!(MediaType::image_png().subtype(), Some("png".to_owned()));
    assert_eq!(MediaType::image_jpeg().subtype(), Some("jpeg".to_owned()));
    assert_eq!(MediaType::new("image/svg+xml").subtype(), Some("svg".to_owned()));
    assert_eq!(MediaType::new("garbage").subtype(), None);
    assert!(MediaType::image_png().same_as(&MediaType::new("image/png")));
    assert!(!MediaType::image_png().same_as(&MediaType::image_jpeg()));
}

#[test]
fn guard_image_takes_any_text_of_the_uploaded_type() {
    assert!(guard_image(&MediaType::new("image/pngabcdef; a=b")).is_err());
    assert!(guard_image(&MediaType::new("image/png; x=\"\u{e9}\u{e9}\"")).is_err());
}
