use tiktok_downloader::downloader::derive_temp_path;
use tiktok_downloader::downloader::Transfer;
use tiktok_downloader::downloader::TransferPhase;

#[test]
fn temp_path_with_extension() {
    assert_eq!(derive_temp_path("a/b/video.mp4"), "a/b/video.part.mp4");
}

#[test]
fn temp_path_without_extension() {
    assert_eq!(derive_temp_path("a/b/video"), "a/b/video.part");
}

#[test]
fn temp_path_of_bare_file_name() {
    assert_eq!(derive_temp_path("video.mp4"), "video.part.mp4");
}

#[test]
fn temp_path_keeps_earlier_dots() {
    assert_eq!(derive_temp_path("dir/archive.tar.gz"), "dir/archive.tar.part.gz");
}

#[test]
fn temp_path_of_dot_file() {
    assert_eq!(derive_temp_path(".hidden"), ".hidden.part");
}

#[test]
fn temp_path_falls_back_without_file_name() {
    assert_eq!(derive_temp_path("a/b/"), "a/b/video.part.mp4");
}

#[test]
fn transfer_accumulates_chunks() {
    // Ten bytes across uneven chunk boundaries: the counter equals the sum
    // of the chunk lengths, and the simulated temporary file holds their
    // exact concatenation in arrival order.
    let chunks: Vec<Vec<u8>> = vec![vec![1, 2, 3], vec![4, 5, 6, 7], vec![8, 9, 10]];
    let mut temp_file: Vec<u8> = Vec::new();
    let mut t = Transfer::new();
    assert_eq!(t.phase, TransferPhase::Idle);
    t.headers_sent(Some(10));
    assert_eq!(t.total, Some(10));
    for chunk in &chunks {
        temp_file.extend_from_slice(chunk);
        t.record_chunk(chunk);
        assert_eq!(t.downloaded as usize, temp_file.len());
    }
    assert_eq!(t.phase, TransferPhase::Streaming);
    t.finish_stream();
    assert_eq!(t.phase, TransferPhase::Flushed);
    let n = t.publish();
    assert_eq!(n, 10);
    assert_eq!(t.phase, TransferPhase::Published);
    assert_eq!(temp_file, vec![1, 2, 3, 4, 5, 6, 7, 8, 9, 10]);
}

#[test]
fn transfer_without_known_total() {
    let mut t = Transfer::new();
    t.headers_sent(None);
    assert_eq!(t.total, None);
    t.record_chunk(&[7, 7]);
    t.finish_stream();
    assert_eq!(t.publish(), 2);
}

#[test]
fn transfer_of_empty_body() {
    let mut t = Transfer::new();
    t.headers_sent(Some(0));
    t.finish_stream();
    assert_eq!(t.publish(), 0);
    assert_eq!(t.phase, TransferPhase::Published);
}

#[test]
fn transfer_failure_keeps_partial_bytes() {
    // A fetch expected to carry ten bytes fails after three: the attempt is
    // terminal, the counter still reports the three bytes the temporary
    // file holds, and nothing was published.
    let mut temp_file: Vec<u8> = Vec::new();
    let mut t = Transfer::new();
    t.headers_sent(Some(10));
    temp_file.extend_from_slice(&[1, 2, 3]);
    t.record_chunk(&[1, 2, 3]);
    t.fail();
    assert_eq!(t.phase, TransferPhase::Failed);
    assert_eq!(t.downloaded, 3);
    assert_eq!(temp_file.len(), 3);
}

#[test]
fn transfer_failure_before_headers() {
    let mut t = Transfer::new();
    t.fail();
    assert_eq!(t.phase, TransferPhase::Failed);
    assert_eq!(t.downloaded, 0);
}

#[test]
fn end_to_end_scenario() {
    // The page yields escaped slashes; extraction unescapes them, and a
    // subsequent ten-byte fetch to `out/clip.mp4` streams through the
    // temporary path and publishes exactly those bytes.
    let html = "{\"playAddr\":\"https:\\u002F\\u002Fcdn.example\\u002Fv.mp4\"}";
    let media_url = tiktok_downloader::extractor::extract_video_url(html).unwrap();
    assert_eq!(media_url, "https://cdn.example/v.mp4");

    let dest = "out/clip.mp4";
    let temp = derive_temp_path(dest);
    assert_eq!(temp, "out/clip.part.mp4");

    // Simulated filesystem: the body arrives in two chunks of 6 and 4 bytes.
    let mut temp_file: Vec<u8> = Vec::new();
    let mut dest_file: Option<Vec<u8>> = None;
    let body: Vec<u8> = vec![0, 1, 2, 3, 4, 5, 6, 7, 8, 9];
    let mut t = Transfer::new();
    t.headers_sent(Some(body.len() as u64));
    for chunk in body.chunks(6) {
        temp_file.extend_from_slice(chunk);
        t.record_chunk(chunk);
    }
    t.finish_stream();
    let n = t.publish();
    // The publish point is the rename: the destination appears, the
    // temporary name stops existing.
    dest_file = Some(std::mem::take(&mut temp_file));
    assert_eq!(n, 10);
    assert_eq!(dest_file.unwrap(), body);
    assert!(temp_file.is_empty());
}
