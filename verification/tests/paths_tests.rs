use nong_manager::paths::{default_song_path, download_file_path, initial_song_path, search_url};
use nong_manager::report::panic_report;
use nong_manager::text::u64_to_string;

#[test]
fn download_path_is_directory_backslash_id_mp3() {
    assert_eq!(
        download_file_path("C:\\Users\\me\\AppData\\Local\\GeometryDash", "829139"),
        "C:\\Users\\me\\AppData\\Local\\GeometryDash\\829139.mp3"
    );
    assert_eq!(download_file_path("", ""), "\\.mp3");
}

#[test]
fn search_url_appends_the_query() {
    assert_eq!(
        search_url("829139"),
        "https://songfilehub.com/api/v1/nongs?id=829139"
    );
    assert_eq!(search_url(""), "https://songfilehub.com/api/v1/nongs?id=");
}

#[test]
fn default_song_path_places_the_username() {
    assert_eq!(
        default_song_path("me"),
        "C:\\Users\\me\\AppData\\Local\\GeometryDash"
    );
}

#[test]
fn initial_song_path_has_the_default_shape() {
    let p = initial_song_path();
    assert!(p.starts_with("C:\\Users\\"));
    assert!(p.ends_with("\\AppData\\Local\\GeometryDash"));
}

#[test]
fn numbers_print_in_decimal() {
    assert_eq!(u64_to_string(0), "0");
    assert_eq!(u64_to_string(7), "7");
    assert_eq!(u64_to_string(10), "10");
    assert_eq!(u64_to_string(907), "907");
    assert_eq!(u64_to_string(18446744073709551615), "18446744073709551615");
}

#[test]
fn panic_report_with_a_location() {
    let r = panic_report(Some("boom"), "Some(\"boom\")", Some(("src/main.rs", 12, 5)));
    assert_eq!(
        r,
        "Error: boom.\nMessage: Some(\"boom\").\nLocation: src/main.rs.\nLine: 12.\nColumn: 5."
    );
}

#[test]
fn panic_report_without_payload_or_location() {
    let r = panic_report(None, "None", None);
    assert_eq!(
        r,
        "Error: Unknown.\nMessage: None.\nLocation: Unknown.\nLine: Unknown.\nColumn: Unknown."
    );
}
