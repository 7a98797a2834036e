use tiktok_downloader::extractor::debug_file_name;
use tiktok_downloader::extractor::extract_video_url;
use tiktok_downloader::extractor::unescape_slashes;
use tiktok_downloader::DownloadError;

#[test]
fn extract_single_occurrence() {
    let html = "{\"playAddr\":\"https:\\u002F\\u002Fcdn.example\\u002Fv.mp4\"}";
    let url = extract_video_url(html).unwrap();
    assert_eq!(url, "https://cdn.example/v.mp4");
}

#[test]
fn extract_plain_url() {
    let html = "<script>window.state = {\"playAddr\":\"https://host/video/123.mp4\"};</script>";
    let url = extract_video_url(html).unwrap();
    assert_eq!(url, "https://host/video/123.mp4");
}

#[test]
fn extract_uses_first_occurrence() {
    let html = "{\"playAddr\":\"first\",\"playAddr\":\"second\"}";
    let url = extract_video_url(html).unwrap();
    assert_eq!(url, "first");
}

#[test]
fn extract_skips_empty_capture() {
    let html = "{\"playAddr\":\"\"} later {\"playAddr\":\"real\"}";
    let url = extract_video_url(html).unwrap();
    assert_eq!(url, "real");
}

#[test]
fn extract_fails_without_pattern() {
    let html = "<html><body>no video here</body></html>";
    let err = extract_video_url(html).unwrap_err();
    assert_eq!(err, DownloadError::ExtractionNotFound);
}

#[test]
fn extract_fails_on_empty_html() {
    let err = extract_video_url("").unwrap_err();
    assert_eq!(err, DownloadError::ExtractionNotFound);
}

#[test]
fn extract_fails_on_unclosed_value() {
    let html = "{\"playAddr\":\"https://host/unterminated";
    let err = extract_video_url(html).unwrap_err();
    assert_eq!(err, DownloadError::ExtractionNotFound);
}

#[test]
fn unescape_replaces_every_escape() {
    assert_eq!(unescape_slashes("a\\u002Fb\\u002Fc"), "a/b/c");
    assert_eq!(unescape_slashes("\\u002F"), "/");
    assert_eq!(unescape_slashes(""), "");
}

#[test]
fn unescape_is_case_sensitive() {
    assert_eq!(unescape_slashes("a\\u002fb"), "a\\u002fb");
}

#[test]
fn unescape_leaves_partial_escapes() {
    assert_eq!(unescape_slashes("\\u002"), "\\u002");
    assert_eq!(unescape_slashes("u002F"), "u002F");
}

#[test]
fn debug_name_uses_last_segment() {
    assert_eq!(
        debug_file_name("https://www.tiktok.com/@user/video/123"),
        "tiktok_debug_123.html"
    );
}

#[test]
fn debug_name_of_url_without_slash() {
    assert_eq!(debug_file_name("page"), "tiktok_debug_page.html");
}

#[test]
fn debug_name_of_url_with_trailing_slash() {
    assert_eq!(debug_file_name("https://host/path/"), "tiktok_debug_.html");
}

#[test]
fn extract_handles_non_ascii_html() {
    let html = "<p>\u{4e2d}\u{6587} \u{1f600}</p>{\"playAddr\":\"https:\\u002F\\u002Fcdn.example\\u002Fv\u{00e9}.mp4\"}";
    let url = extract_video_url(html).unwrap();
    assert_eq!(url, "https://cdn.example/v\u{00e9}.mp4");
}
