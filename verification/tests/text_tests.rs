//! Tests of the text helpers: substring search, the content-type
//! rule, decimal rendering, and URL building with percent-encoding.

use picup::asset_url;
use picup::contains_substring;
use picup::is_image_content_type;
use picup::usize_to_decimal;

#[test]
fn substring_search() {
    assert!(contains_substring("image/png", "image"));
    assert!(contains_substring("x-image", "image"));
    assert!(contains_substring("abc", ""));
    assert!(contains_substring("", ""));
    assert!(!contains_substring("", "image"));
    assert!(!contains_substring("imag", "image"));
    assert!(!contains_substring("text/plain", "image"));
    assert!(contains_substring("aaab", "aab"));
}

#[test]
fn image_content_types() {
    assert!(is_image_content_type("image/gif"));
    assert!(is_image_content_type("image/png"));
    assert!(is_image_content_type("application/x-image"));
    assert!(!is_image_content_type("text/plain"));
    assert!(!is_image_content_type("application/json"));
    assert!(!is_image_content_type(""));
}

#[test]
fn decimal_rendering() {
    assert_eq!(usize_to_decimal(0), "0");
    assert_eq!(usize_to_decimal(7), "7");
    assert_eq!(usize_to_decimal(10), "10");
    assert_eq!(usize_to_decimal(12345), "12345");
    assert_eq!(usize_to_decimal(1000), "1000");
}

#[test]
fn asset_urls() {
    assert_eq!(
        asset_url("https://h/picup/asset", "pic", "demo.gif"),
        "https://h/picup/asset/pic/demo.gif"
    );
    // the filename is percent-encoded, so the helper cannot have
    // handed it back unchanged
    assert_eq!(
        asset_url("https://h/picup/asset", "pic", "a b+c.gif"),
        "https://h/picup/asset/pic/a%20b%2Bc.gif"
    );
    assert_eq!(asset_url("", "pic", "x"), "/pic/x");
}
