use desktop_settings::text::{path_has_extension, push_decimal, str_contains};

#[test]
fn substring_search() {
    assert!(str_contains("C:\\x\\TranscodedWallpaper", "TranscodedWallpaper"));
    assert!(str_contains("abc", ""));
    assert!(str_contains("abc", "abc"));
    assert!(str_contains("abcabd", "abd"));
    assert!(!str_contains("abc", "abcd"));
    assert!(!str_contains("TranscodedWallpape", "TranscodedWallpaper"));
}

#[test]
fn extension_detection() {
    assert!(path_has_extension("C:\\images\\sample.jpg"));
    assert!(path_has_extension("sample.jpg"));
    assert!(path_has_extension("C:\\a.b\\sample.jpg"));
    assert!(path_has_extension("trailing-dot."));
    assert!(!path_has_extension("C:\\x\\TranscodedWallpaper"));
    assert!(!path_has_extension("C:\\a.b\\noext"));
    assert!(!path_has_extension(".hidden"));
    assert!(!path_has_extension("C:\\dir\\.."));
    assert!(!path_has_extension("C:\\dir\\"));
    assert!(!path_has_extension(""));
}

#[test]
fn decimal_formatting() {
    let mut s = String::new();
    push_decimal(&mut s, 0);
    assert_eq!(s, "0");

    let mut s = String::from("t-");
    push_decimal(&mut s, 1700000000);
    assert_eq!(s, "t-1700000000");

    let mut s = String::new();
    push_decimal(&mut s, u64::MAX);
    assert_eq!(s, "18446744073709551615");
}
