use tiktok_downloader::ConfigError;
use tiktok_downloader::HeaderSet;
use tiktok_downloader::TikTokDownloader;
use tiktok_downloader::TikTokDownloaderBuilder;
use tiktok_downloader::CHUNK_SIZE;

#[test]
fn default_builder_carries_stock_headers() {
    let b = TikTokDownloaderBuilder::new();
    assert_eq!(b.headers.entries.len(), 3);
    assert_eq!(b.headers.entries[0].0, "User-Agent");
    assert_eq!(
        b.headers.entries[1],
        ("Accept".to_string(), "*/*".to_string())
    );
    assert_eq!(
        b.headers.entries[2],
        (
            "Referer".to_string(),
            "https://www.tiktok.com/explore".to_string()
        )
    );
    assert!(b.cookie.is_none());
}

#[test]
fn builder_comes_from_downloader_too() {
    let b = TikTokDownloader::builder();
    assert_eq!(b.headers.entries.len(), 3);
    assert!(b.cookie.is_none());
}

#[test]
fn with_header_appends_entry() {
    let b = TikTokDownloaderBuilder::new().with_header("Accept", "text/html");
    assert_eq!(b.headers.entries.len(), 4);
    assert_eq!(
        b.headers.entries[3],
        ("Accept".to_string(), "text/html".to_string())
    );
}

#[test]
fn with_headers_replaces_wholesale() {
    let mut custom = HeaderSet::new();
    custom.insert("X-Only", "1");
    let b = TikTokDownloaderBuilder::new().with_headers(custom);
    assert_eq!(b.headers.entries.len(), 1);
    assert_eq!(b.headers.entries[0], ("X-Only".to_string(), "1".to_string()));
}

#[test]
fn build_without_cookie_fails() {
    let err = TikTokDownloaderBuilder::new().build().unwrap_err();
    assert_eq!(err, ConfigError::MissingCookie);
}

#[test]
fn build_with_cookie_succeeds() {
    let d = TikTokDownloaderBuilder::new()
        .with_cookie("sessionid=1234")
        .build()
        .unwrap();
    assert_eq!(d.cookie, "sessionid=1234");
    assert_eq!(d.headers.entries.len(), 3);
}

#[test]
fn internal_config_mirrors_downloader() {
    let d = TikTokDownloaderBuilder::new()
        .with_header("Accept-Language", "en")
        .with_cookie("c=1")
        .build()
        .unwrap();
    let config = d.create_internal_config("out/clip.mp4");
    assert_eq!(config.http.headers.entries, d.headers.entries);
    assert_eq!(config.http.cookie, "c=1");
    assert_eq!(config.http.chunk_size, CHUNK_SIZE);
    assert_eq!(config.http.output_dir, "out/clip.mp4");
}

#[test]
fn chunk_size_is_two_megabytes() {
    assert_eq!(CHUNK_SIZE, 2097152);
}

#[test]
fn with_header_overrides_in_map_view() {
    let b = TikTokDownloaderBuilder::new().with_header("Accept", "text/html");
    assert_eq!(b.headers.get("Accept"), Some("text/html".to_string()));
    assert_eq!(
        b.headers.get("Referer"),
        Some("https://www.tiktok.com/explore".to_string())
    );
}
