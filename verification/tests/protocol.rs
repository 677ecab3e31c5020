use servo_capi::frame::{read_frame_rect, resize_target};
use servo_capi::protocol::{answer_request, check_request_url, LoadError};

#[test]
fn url_with_nul_is_refused() {
    assert_eq!(check_request_url("servo://x/\0").err(), Some(LoadError::UrlNotCString));
    assert!(check_request_url("servo://x/y").is_ok());
}

#[test]
fn load_error_messages() {
    assert_eq!(LoadError::UrlNotCString.message(), "URL is not a valid C string");
    assert_eq!(LoadError::NoSuchResource.message(), "No such resource");
}

#[test]
fn unanswered_request_fails() {
    assert_eq!(
        answer_request(false, Some(vec![1, 2]), None).err(),
        Some(LoadError::NoSuchResource)
    );
    assert_eq!(
        answer_request(true, None, Some("text/html".to_string())).err(),
        Some(LoadError::NoSuchResource)
    );
}

#[test]
fn answered_request_defaults_to_plain_text() {
    let resource = answer_request(true, Some(vec![104, 105]), None).ok().unwrap();
    assert_eq!(resource.body, vec![104, 105]);
    assert_eq!(resource.content_type, "text/plain");
    assert_eq!(
        resource.content_type_header.unwrap().to_str().unwrap(),
        "text/plain"
    );
}

#[test]
fn invalid_content_type_gives_no_header() {
    let resource = answer_request(true, Some(vec![]), Some("text/\nhtml".to_string()))
        .ok()
        .unwrap();
    assert_eq!(resource.content_type, "text/\nhtml");
    assert!(resource.content_type_header.is_none());
    let resource = answer_request(true, Some(vec![]), Some("image/png".to_string()))
        .ok()
        .unwrap();
    assert_eq!(resource.content_type_header.unwrap().as_bytes(), b"image/png");
    let resource = answer_request(true, Some(vec![]), Some("a\tb".to_string()))
        .ok()
        .unwrap();
    assert!(resource.content_type_header.is_some());
    let resource = answer_request(true, Some(vec![]), Some("a\u{7f}".to_string()))
        .ok()
        .unwrap();
    assert!(resource.content_type_header.is_none());
}

#[test]
fn zero_sized_resize_is_refused() {
    assert_eq!(resize_target(0, 10), None);
    assert_eq!(resize_target(10, 0), None);
    assert_eq!(resize_target(800, 600), Some((800, 600)));
}

#[test]
fn frame_rect_wraps_like_as() {
    assert_eq!(read_frame_rect(640, 480), (640, 480));
    assert_eq!(read_frame_rect(u32::MAX, 1), (-1, 1));
}
