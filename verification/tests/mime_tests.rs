use srv::mime::{get_mime_type, with_charset};

#[test]
fn test_get_mime_type() {
    // Test various file extensions.
    assert_eq!(get_mime_type("test.html"), "text/html; charset=utf-8");
    assert_eq!(get_mime_type("test.css"), "text/css; charset=utf-8");
    assert_eq!(get_mime_type("test.js"), "text/javascript; charset=utf-8");
    assert_eq!(get_mime_type("test.json"), "application/json");
    assert_eq!(get_mime_type("test.png"), "image/png");
    assert_eq!(get_mime_type("test.jpg"), "image/jpeg");
    assert_eq!(get_mime_type("test.unknown"), "application/octet-stream");
}

#[test]
fn test_get_mime_type_reads_the_extension() {
    // A path with directories and a path without an extension.
    assert_eq!(get_mime_type("/srv/site/pages/about.html"), "text/html; charset=utf-8");
    assert_eq!(get_mime_type("README"), "application/octet-stream");
}

#[test]
fn test_with_charset_only_touches_the_three_textual_types() {
    assert_eq!(with_charset("text/html".to_string()), "text/html; charset=utf-8");
    assert_eq!(with_charset("text/plain".to_string()), "text/plain");
    assert_eq!(with_charset("application/json".to_string()), "application/json");
}
