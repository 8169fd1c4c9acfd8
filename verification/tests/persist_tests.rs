use image_extractor::persist::{derive_filename, ends_with_str};

#[test]
fn recognized_jpg_kept_verbatim() {
    assert_eq!(derive_filename(&"foo.jpg".to_string()), "foo.jpg");
}

#[test]
fn recognized_png_kept_verbatim() {
    assert_eq!(derive_filename(&"c.png".to_string()), "c.png");
}

#[test]
fn uppercase_extension_not_recognized() {
    // The extension check is case-sensitive: ".PNG" is not recognized and the
    // default extension is appended.
    assert_eq!(derive_filename(&"foo.PNG".to_string()), "foo.PNG.jpg");
}

#[test]
fn missing_extension_gets_default() {
    assert_eq!(derive_filename(&"a".to_string()), "a.jpg");
}

#[test]
fn jpeg_extension_not_recognized() {
    assert_eq!(derive_filename(&"scan.jpeg".to_string()), "scan.jpeg.jpg");
}

#[test]
fn empty_name_gets_default() {
    assert_eq!(derive_filename(&"".to_string()), ".jpg");
}

#[test]
fn suffix_check_edges() {
    assert!(ends_with_str("foo.jpg", ".jpg"));
    assert!(ends_with_str(".jpg", ".jpg"));
    assert!(!ends_with_str("jpg", ".jpg"));
    assert!(!ends_with_str("", ".jpg"));
    assert!(ends_with_str("anything", ""));
    assert!(!ends_with_str("foo.jpG", ".jpg"));
}
