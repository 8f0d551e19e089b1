use desktop_settings::errors::Error;
use desktop_settings::utf16::decode_utf16_units;
use desktop_settings::wallpaper::{
    cache_destination, finish_cache_copy, interpret_wallpaper_query, path_needs_cache_fallback,
    reported_path_units, resolve_cache_fallback, wallpaper_update_buffer, SetWallpaperPhase,
    SetWallpaperRun, WallpaperReport,
};

fn units_of(s: &str) -> Vec<u16> {
    s.encode_utf16().collect()
}

fn query_buffer(path: &str) -> Vec<u16> {
    let mut buf = units_of(path);
    while buf.len() < 261 {
        buf.push(0);
    }
    buf
}

#[test]
fn decodes_plain_utf16() {
    let units = units_of("C:\\images\\sample.jpg");
    let decoded = decode_utf16_units(&units).expect("valid UTF-16");
    assert_eq!(decoded, "C:\\images\\sample.jpg");
}

#[test]
fn decodes_surrogate_pair() {
    // U+1F5BC (framed picture) needs a surrogate pair.
    let units: Vec<u16> = "wall\u{1F5BC}.png".encode_utf16().collect();
    let decoded = decode_utf16_units(&units).expect("valid UTF-16");
    assert_eq!(decoded, "wall\u{1F5BC}.png");
}

#[test]
fn rejects_lone_surrogates() {
    assert!(decode_utf16_units(&[0xD83Du16]).is_none());
    assert!(decode_utf16_units(&[0xDC00u16, 0x0041]).is_none());
    assert!(decode_utf16_units(&[0x0041, 0xD83D, 0x0042]).is_none());
}

#[test]
fn reported_units_stop_at_null() {
    let mut buf = units_of("C:\\a.jpg");
    buf.push(0);
    buf.extend_from_slice(&[0x41u16; 10]);
    assert_eq!(reported_path_units(&buf), 8);
}

#[test]
fn reported_units_cap_at_path_convention() {
    let buf = vec![0x41u16; 400];
    assert_eq!(reported_path_units(&buf), 260);
}

#[test]
fn query_failure_is_platform_query_failed() {
    let buf = query_buffer("C:\\a.jpg");
    match interpret_wallpaper_query(false, &buf) {
        Err(Error::PlatformQueryFailed) => {}
        other => panic!("unexpected interpretation: {:?}", other.is_ok()),
    }
}

#[test]
fn plain_path_is_returned_as_is() {
    let buf = query_buffer("C:\\images\\sample.jpg");
    match interpret_wallpaper_query(true, &buf) {
        Ok(WallpaperReport::Path(p)) => assert_eq!(p, "C:\\images\\sample.jpg"),
        _ => panic!("expected the path unchanged"),
    }
}

#[test]
fn transcoded_entry_without_extension_needs_fallback() {
    let reported = "C:\\Users\\u\\AppData\\Roaming\\Microsoft\\Windows\\Themes\\TranscodedWallpaper";
    let buf = query_buffer(reported);
    match interpret_wallpaper_query(true, &buf) {
        Ok(WallpaperReport::TranscodedCache(p)) => assert_eq!(p, reported),
        _ => panic!("expected the cache-fallback report"),
    }
}

#[test]
fn transcoded_entry_with_extension_is_kept() {
    let reported = "C:\\Users\\u\\TranscodedWallpaper.jpg";
    let buf = query_buffer(reported);
    match interpret_wallpaper_query(true, &buf) {
        Ok(WallpaperReport::Path(p)) => assert_eq!(p, reported),
        _ => panic!("expected the path unchanged"),
    }
}

#[test]
fn invalid_utf16_report_is_invalid_encoding() {
    let mut buf = vec![0x0043u16, 0xD800, 0x0044];
    while buf.len() < 261 {
        buf.push(0);
    }
    match interpret_wallpaper_query(true, &buf) {
        Err(Error::InvalidEncoding) => {}
        _ => panic!("expected InvalidEncoding"),
    }
}

#[test]
fn fallback_detection() {
    assert!(path_needs_cache_fallback("C:\\x\\TranscodedWallpaper"));
    assert!(!path_needs_cache_fallback("C:\\x\\TranscodedWallpaper.jpg"));
    assert!(!path_needs_cache_fallback("C:\\x\\wallpaper"));
}

#[test]
fn cache_destination_formula() {
    let dest = cache_destination("C:\\Users\\u\\AppData\\Roaming", 1700000000);
    assert_eq!(dest, "C:\\Users\\u\\AppData\\Roaming\\1700000000.jpg");
    let zero = cache_destination("D:\\data", 0);
    assert_eq!(zero, "D:\\data\\0.jpg");
}

#[test]
fn cache_destination_always_jpg() {
    // The fallback copy is always named `*.jpg`, whatever the inputs.
    for secs in [0u64, 7, 59, 1700000000, u64::MAX] {
        let dest = cache_destination("C:\\Users\\u\\AppData\\Roaming", secs);
        assert!(dest.ends_with(".jpg"));
    }
}

#[test]
fn missing_appdata_is_environment_lookup_failed() {
    match resolve_cache_fallback(None, 123) {
        Err(Error::EnvironmentLookupFailed) => {}
        _ => panic!("expected EnvironmentLookupFailed"),
    }
}

#[test]
fn resolved_fallback_names_the_destination() {
    let dest = resolve_cache_fallback(Some("C:\\roaming"), 42).expect("directory known");
    assert_eq!(dest, "C:\\roaming\\42.jpg");
}

#[test]
fn failed_copy_is_cache_copy_failed() {
    match finish_cache_copy(String::from("C:\\roaming\\42.jpg"), false) {
        Err(Error::CacheCopyFailed) => {}
        _ => panic!("expected CacheCopyFailed"),
    }
    let kept = finish_cache_copy(String::from("C:\\roaming\\42.jpg"), true).expect("copy ok");
    assert_eq!(kept, "C:\\roaming\\42.jpg");
}

#[test]
fn update_buffer_is_null_terminated() {
    let buf = wallpaper_update_buffer("C:\\images\\sample.jpg").expect("valid path");
    let mut expected = b"C:\\images\\sample.jpg".to_vec();
    expected.push(0);
    assert_eq!(buf, expected);
}

#[test]
fn embedded_null_is_invalid_path() {
    match wallpaper_update_buffer("C:\\bad\0path.jpg") {
        Err(Error::InvalidPath) => {}
        _ => panic!("expected InvalidPath"),
    }
}

#[test]
fn null_path_run_makes_no_platform_request() {
    let run = SetWallpaperRun::begin("C:\\bad\0path.jpg");
    match run.phase() {
        SetWallpaperPhase::Done(Err(Error::InvalidPath)) => {}
        _ => panic!("expected the run to end at once"),
    }
    assert_eq!(run.outcome(), Some(Err(Error::InvalidPath)));
}

#[test]
fn set_then_get_round_trip() {
    // Set the wallpaper, with the platform reporting success...
    let mut run = SetWallpaperRun::begin("C:\\images\\sample.jpg");
    match run.phase() {
        SetWallpaperPhase::Updating(buf) => {
            let mut expected = b"C:\\images\\sample.jpg".to_vec();
            expected.push(0);
            assert_eq!(buf, &expected);
        }
        _ => panic!("expected the update request"),
    }
    run.report_update(true);
    assert_eq!(run.outcome(), Some(Ok(())));

    // ... then read it back from the buffer the platform now reports.
    let buf = query_buffer("C:\\images\\sample.jpg");
    match interpret_wallpaper_query(true, &buf) {
        Ok(WallpaperReport::Path(p)) => assert_eq!(p, "C:\\images\\sample.jpg"),
        _ => panic!("expected the same path back"),
    }
}

#[test]
fn failed_update_is_platform_update_failed() {
    let mut run = SetWallpaperRun::begin("C:\\images\\sample.jpg");
    run.report_update(false);
    assert_eq!(run.outcome(), Some(Err(Error::PlatformUpdateFailed)));
}
