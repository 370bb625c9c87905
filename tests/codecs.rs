use motionview::{
    bridge_origin, decimal_text, ext_from_mime, image_data_url, mime_for_lowercase_ext,
    mime_from_ext, origin_script, parse_data_url, parse_u32_text, robot_image_file_name,
    settings_source, split_data_url, validate_json_document, DataUrlError, FsPath, SettingsSource,
    StoreFile, WindowRestore, WindowState,
};

#[test]
fn decimal_spelling() {
    assert_eq!(decimal_text(0), "0");
    assert_eq!(decimal_text(9), "9");
    assert_eq!(decimal_text(10), "10");
    assert_eq!(decimal_text(53211), "53211");
    assert_eq!(decimal_text(u64::MAX), "18446744073709551615");
}

#[test]
fn u32_parsing_matches_std() {
    for s in ["0", "00042", "+1", "4294967295", "4294967296", "", "+", "-1", " 1", "1 ", "٣"] {
        assert_eq!(parse_u32_text(s), s.parse::<u32>().ok(), "{:?}", s);
    }
}

#[test]
fn origin_for_port() {
    assert_eq!(bridge_origin(53211), "http://127.0.0.1:53211");
    assert_eq!(origin_script(53211), "window.__BRIDGE_ORIGIN__ = 'http://127.0.0.1:53211';");
}

#[test]
fn mime_by_extension() {
    assert_eq!(mime_for_lowercase_ext("png"), "image/png");
    assert_eq!(mime_for_lowercase_ext("jpg"), "image/jpeg");
    assert_eq!(mime_for_lowercase_ext("jpeg"), "image/jpeg");
    assert_eq!(mime_for_lowercase_ext("gif"), "image/gif");
    assert_eq!(mime_for_lowercase_ext("webp"), "image/webp");
    assert_eq!(mime_for_lowercase_ext("bmp"), "image/bmp");
    assert_eq!(mime_for_lowercase_ext("svg"), "image/svg+xml");
    assert_eq!(mime_for_lowercase_ext("PNG"), "application/octet-stream");
    assert_eq!(mime_for_lowercase_ext("txt"), "application/octet-stream");
}

#[test]
fn mime_ignores_case_and_missing_extension() {
    assert_eq!(mime_from_ext(Some("PNG")), "image/png");
    assert_eq!(mime_from_ext(Some("JpEg")), "image/jpeg");
    assert_eq!(mime_from_ext(Some("tiff")), "application/octet-stream");
    assert_eq!(mime_from_ext(None), "application/octet-stream");
}

#[test]
fn extension_by_mime() {
    assert_eq!(ext_from_mime("image/png"), "png");
    assert_eq!(ext_from_mime("image/jpeg"), "jpg");
    assert_eq!(ext_from_mime("image/gif"), "gif");
    assert_eq!(ext_from_mime("image/webp"), "webp");
    assert_eq!(ext_from_mime("image/bmp"), "bmp");
    assert_eq!(ext_from_mime("image/svg+xml"), "svg");
    assert_eq!(ext_from_mime("text/plain"), "bin");
    assert_eq!(robot_image_file_name("image/svg+xml"), "robot-image.svg");
    assert_eq!(robot_image_file_name("application/x"), "robot-image.bin");
}

#[test]
fn image_becomes_data_url() {
    assert_eq!(image_data_url(Some("PNG"), b"hello"), "data:image/png;base64,aGVsbG8=");
    assert_eq!(image_data_url(None, b""), "data:application/octet-stream;base64,");
}

#[test]
fn data_url_round_trip() {
    let (mime, bytes) = parse_data_url("data:image/png;base64,aGVsbG8=").unwrap();
    assert_eq!(mime, "image/png");
    assert_eq!(bytes, b"hello".to_vec());
    let url = image_data_url(Some("gif"), &[0, 255, 7, 8]);
    let (mime, bytes) = parse_data_url(&url).unwrap();
    assert_eq!(mime, "image/gif");
    assert_eq!(bytes, vec![0, 255, 7, 8]);
}

#[test]
fn data_url_split_keeps_payload_after_first_comma() {
    let (mime, payload) = split_data_url("data:image/jpeg;charset=x;base64,AB,CD").unwrap();
    assert_eq!(mime, "image/jpeg");
    assert_eq!(payload, "AB,CD");
}

#[test]
fn data_url_errors() {
    assert!(matches!(parse_data_url("no comma here"), Err(DataUrlError::NotDataUrl)));
    assert!(matches!(parse_data_url("image/png;base64,AA=="), Err(DataUrlError::BadHeader)));
    assert!(matches!(parse_data_url("data:image/png,AA=="), Err(DataUrlError::BadHeader)));
    assert!(matches!(parse_data_url("data:;base64,AA=="), Err(DataUrlError::MissingMime)));
    assert!(matches!(parse_data_url("data:image/png;base64,!!!"), Err(DataUrlError::Undecodable(_))));
}

#[test]
fn json_documents_are_checked() {
    assert!(validate_json_document("{\"theme\":\"dark\"}").is_ok());
    assert!(validate_json_document("[1, 2, 3]").is_ok());
    assert!(validate_json_document("{").is_err());
    assert!(validate_json_document("").is_err());
}

#[test]
fn settings_prefer_current_file() {
    assert_eq!(settings_source(true, true), SettingsSource::Current);
    assert_eq!(settings_source(true, false), SettingsSource::Current);
    assert_eq!(settings_source(false, true), SettingsSource::Legacy);
    assert_eq!(settings_source(false, false), SettingsSource::Missing);
}

#[test]
fn store_files_live_in_data_dir() {
    let dir = FsPath { root: "/".to_string(), parts: vec!["data".to_string()] };
    let p = StoreFile::Preferences.path_in(&dir);
    assert_eq!(p.parts, vec!["data", "user-preferences.json"]);
    assert_eq!(StoreFile::SavedPaths.file_name(), "saved-paths.json");
    assert_eq!(StoreFile::WindowGeometry.file_name(), "window-state.json");
}

#[test]
fn window_state_restores_fullscreen_or_geometry() {
    let full = WindowState { x: 5, y: 6, width: 800, height: 600, fullscreen: true };
    assert_eq!(full.restore(), WindowRestore::Fullscreen);
    let windowed = WindowState { x: -20, y: 40, width: 1280, height: 720, fullscreen: false };
    assert_eq!(
        windowed.restore(),
        WindowRestore::Geometry { width: 1280, height: 720, x: -20, y: 40 }
    );
}

#[test]
fn greeting_names_the_user() {
    assert_eq!(motionview::greet("Ada"), "Hello, Ada! You've been greeted from Rust!");
}

#[test]
fn data_url_composition() {
    assert_eq!(motionview::compose_data_url("image/png", "AAAA"), "data:image/png;base64,AAAA");
    assert_eq!(motionview::compose_data_url("", ""), "data:;base64,");
}
