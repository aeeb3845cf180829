use opaper_core::fetch::{
    is_success_status, parse_method, request_method, FetchOptions, FetchResponse, HttpMethod,
};
use opaper_core::naming::{downloaded_wallpaper_file_name, temp_image_file_name};
use opaper_core::paths::{file_name_start_index, filter_image_files, has_file_name, is_image_file};
use opaper_core::stats::bytes_to_mebibytes;
use opaper_core::thumbnail::{bundle_thumbnail_bytes, create_default_thumbnail, decode_thumbnail};
use opaper_core::Error;
use std::collections::HashMap;

#[test]
fn default_thumbnail_is_the_one_pixel_png() {
    let png = create_default_thumbnail();
    assert_eq!(png.len(), 69);
    assert_eq!(png[0..8].to_vec(), vec![0x89, 0x50, 0x4E, 0x47, 0x0D, 0x0A, 0x1A, 0x0A]);
    assert_eq!(png[12..16].to_vec(), vec![0x49, 0x48, 0x44, 0x52]);
    assert_eq!(png[65..69].to_vec(), vec![0xAE, 0x42, 0x60, 0x82]);
}

#[test]
fn thumbnails_are_decoded_from_base64() {
    assert_eq!(decode_thumbnail("AQID"), Ok(vec![1, 2, 3]));
    assert_eq!(decode_thumbnail(""), Ok(vec![]));
    assert_eq!(decode_thumbnail("not base64!"), Err(Error::ThumbnailDecode));
}

#[test]
fn bundle_thumbnail_falls_back_to_the_placeholder() {
    assert_eq!(bundle_thumbnail_bytes(&None), Ok(create_default_thumbnail()));
    assert_eq!(bundle_thumbnail_bytes(&Some(String::new())), Ok(create_default_thumbnail()));
    assert_eq!(bundle_thumbnail_bytes(&Some("AQID".to_string())), Ok(vec![1, 2, 3]));
    assert_eq!(bundle_thumbnail_bytes(&Some("???".to_string())), Err(Error::ThumbnailDecode));
}

#[test]
fn image_files_are_recognized_by_extension() {
    assert!(is_image_file("photo.jpg"));
    assert!(is_image_file("photo.JPG"));
    assert!(is_image_file("a/b/photo.jpeg"));
    assert!(is_image_file("C:\\pics\\photo.PNG"));
    assert!(is_image_file("dir/anim.gif"));
    assert!(!is_image_file("notes.txt"));
    assert!(!is_image_file("noextension"));
    assert!(!is_image_file(".gitignore"));
    assert!(!is_image_file("archive.tar.gz"));
    assert!(!is_image_file("photo.jpg.bak"));
    assert!(!is_image_file("dir.jpg/readme"));
    assert!(!is_image_file("trailing."));
    assert!(!is_image_file(""));
}

#[test]
fn image_filter_keeps_order_and_drops_the_rest() {
    let files = vec![
        "/w/a.png".to_string(),
        "/w/notes.txt".to_string(),
        "/w/b.JPG".to_string(),
        "/w/.hidden".to_string(),
        "/w/c.jpeg".to_string(),
    ];
    let images = filter_image_files(&files);
    assert_eq!(
        images,
        vec!["/w/a.png".to_string(), "/w/b.JPG".to_string(), "/w/c.jpeg".to_string()]
    );
}

#[test]
fn file_names_start_after_the_last_separator() {
    assert_eq!(file_name_start_index("a/b/c.png"), 4);
    assert_eq!(file_name_start_index("c.png"), 0);
    assert_eq!(file_name_start_index("C:\\x\\y.jpg"), 5);
    assert!(has_file_name("a/b"));
    assert!(!has_file_name("a/b/"));
    assert!(!has_file_name(""));
}

#[test]
fn downloaded_image_names_carry_the_timestamp() {
    assert_eq!(temp_image_file_name(0), "wallpaper_0.jpg");
    assert_eq!(temp_image_file_name(1736961234), "wallpaper_1736961234.jpg");
    assert_eq!(temp_image_file_name(-5), "wallpaper_-5.jpg");
    assert_eq!(
        temp_image_file_name(i64::MIN),
        "wallpaper_-9223372036854775808.jpg"
    );
    assert_eq!(temp_image_file_name(i64::MAX), "wallpaper_9223372036854775807.jpg");
    let now_name = downloaded_wallpaper_file_name();
    assert!(now_name.starts_with("wallpaper_"));
    assert!(now_name.ends_with(".jpg"));
}

#[test]
fn http_methods_parse_ignoring_ascii_case() {
    assert_eq!(parse_method("get"), Some(HttpMethod::Get));
    assert_eq!(parse_method("GET"), Some(HttpMethod::Get));
    assert_eq!(parse_method("Post"), Some(HttpMethod::Post));
    assert_eq!(parse_method("put"), Some(HttpMethod::Put));
    assert_eq!(parse_method("DELETE"), Some(HttpMethod::Delete));
    assert_eq!(parse_method("patch"), Some(HttpMethod::Patch));
    assert_eq!(parse_method("HEAD"), None);
    assert_eq!(parse_method(""), None);
}

#[test]
fn request_method_defaults_to_get() {
    assert_eq!(request_method(&None), Some(HttpMethod::Get));
    assert_eq!(request_method(&Some("delete".to_string())), Some(HttpMethod::Delete));
    assert_eq!(request_method(&Some("TRACE".to_string())), None);
}

#[test]
fn success_statuses_are_the_two_hundreds() {
    assert!(is_success_status(200));
    assert!(is_success_status(204));
    assert!(is_success_status(299));
    assert!(!is_success_status(199));
    assert!(!is_success_status(300));
    assert!(!is_success_status(404));
    assert!(!is_success_status(500));
}

#[test]
fn fetch_shapes_hold_their_fields() {
    let mut headers = HashMap::new();
    headers.insert("content-type".to_string(), "text/plain".to_string());
    let response = FetchResponse { status: 200, headers, body: "ok".to_string() };
    assert_eq!(response.status, 200);
    assert_eq!(response.body, "ok");
    assert_eq!(response.headers.get("content-type").map(|s| s.as_str()), Some("text/plain"));

    let options = FetchOptions { method: Some("POST".to_string()), headers: None, body: None };
    assert_eq!(request_method(&options.method), Some(HttpMethod::Post));
}

#[test]
fn memory_sizes_round_down_to_mebibytes() {
    assert_eq!(bytes_to_mebibytes(0), 0);
    assert_eq!(bytes_to_mebibytes(3 * 1024 * 1024 + 5), 3);
    assert_eq!(bytes_to_mebibytes(1024 * 1024), 1);
}
