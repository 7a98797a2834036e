//! Verified core of a single-target video downloader.
//!
//! The library covers the two procedures with real design weight: extracting
//! a direct media URL from a page's HTML, and the bookkeeping of a streaming
//! download that is published atomically (temporary file, then one rename).
//! Network and filesystem access live outside the library; callers hand in
//! plain values (HTML text, header entries, paths, body chunks) and take the
//! verified results back.

use vstd::prelude::*;

pub mod config;
pub mod downloader;
pub mod errors;
pub mod extractor;
pub mod headers;
pub mod text;

pub use errors::ConfigError;
pub use errors::DownloadError;
pub use headers::HeaderSet;

use crate::config::Config;
use crate::config::HttpConfig;

verus! {

/// Constant chunk size for video downloads (2 MB). Forward-compatible
/// metadata: streaming uses the transport's natural chunking.
pub const CHUNK_SIZE: usize = 2097152;

/// The header entries every fresh builder starts from.
pub open spec fn spec_default_entries() -> Seq<(Seq<char>, Seq<char>)> {
    seq![
        (
            "User-Agent"@,
            "Mozilla/5.0 (Windows NT 10.0; Win64; x64) AppleWebKit/537.36 (KHTML, like Gecko) Chrome/136.0.0.0 Safari/537.36"@,
        ),
        ("Accept"@, "*/*"@),
        ("Referer"@, "https://www.tiktok.com/explore"@),
    ]
}

/// A video downloader: the headers and the authentication cookie it applies
/// to both the page request and the media request.
#[derive(Debug, Clone)]
pub struct TikTokDownloader {
    /// Header entries applied to every outgoing request.
    pub headers: HeaderSet,
    /// The authentication cookie, sent as the `Cookie` header.
    pub cookie: String,
}

/// Builder for [`TikTokDownloader`]: accumulates headers and the required
/// cookie before use.
#[derive(Debug, Clone)]
pub struct TikTokDownloaderBuilder {
    /// Header entries accumulated so far.
    pub headers: HeaderSet,
    /// The cookie, once supplied; building fails without one.
    pub cookie: Option<String>,
}

impl TikTokDownloaderBuilder {
    /// The cookie's character sequence, when one was supplied.
    pub open spec fn spec_cookie(&self) -> Option<Seq<char>> {
        match self.cookie {
            Some(c) => Some(c@),
            None => None,
        }
    }
}

impl Default for TikTokDownloaderBuilder {
    /// A builder with the default header entries and no cookie.
    fn default() -> (b: Self)
        ensures
            b.headers.entry_views() == spec_default_entries(),
            b.cookie is None,
    {
        let mut headers = HeaderSet::new();
        headers.insert(
            "User-Agent",
            "Mozilla/5.0 (Windows NT 10.0; Win64; x64) AppleWebKit/537.36 (KHTML, like Gecko) Chrome/136.0.0.0 Safari/537.36",
        );
        headers.insert("Accept", "*/*");
        headers.insert("Referer", "https://www.tiktok.com/explore");
        proof {
            assert(headers.entry_views() =~= spec_default_entries());
        }
        TikTokDownloaderBuilder { headers, cookie: None }
    }
}

impl TikTokDownloaderBuilder {
    /// Create a new builder with default settings.
    pub fn new() -> (b: Self)
        ensures
            b.headers.entry_views() == spec_default_entries(),
            b.cookie is None,
    {
        Self::default()
    }

    /// Replace the accumulated headers wholesale.
    pub fn with_headers(self, headers: HeaderSet) -> (b: Self)
        ensures
            b.headers == headers,
            b.cookie == self.cookie,
    {
        TikTokDownloaderBuilder { headers, cookie: self.cookie }
    }

    /// Set a specific header; an existing entry of the same name is
    /// overridden in the map view.
    pub fn with_header(self, key: &str, value: &str) -> (b: Self)
        ensures
            b.headers.entry_views() == self.headers.entry_views().push((key@, value@)),
            b.headers@ == self.headers@.insert(key@, value@),
            b.cookie == self.cookie,
    {
        let mut headers = self.headers;
        headers.insert(key, value);
        TikTokDownloaderBuilder { headers, cookie: self.cookie }
    }

    /// Set the cookie for authentication.
    pub fn with_cookie(self, cookie: &str) -> (b: Self)
        ensures
            b.headers == self.headers,
            b.spec_cookie() == Some(cookie@),
    {
        TikTokDownloaderBuilder { headers: self.headers, cookie: Some(cookie.to_owned()) }
    }

    /// Build the downloader. Fails with [`ConfigError::MissingCookie`]
    /// exactly when no cookie was supplied: downloads require one.
    pub fn build(self) -> (r: Result<TikTokDownloader, ConfigError>)
        ensures
            match r {
                Ok(d) => self.cookie is Some && d.headers == self.headers && d.cookie
                    == self.cookie.unwrap(),
                Err(e) => e == ConfigError::MissingCookie && self.cookie is None,
            },
    {
        match self.cookie {
            Some(cookie) => Ok(TikTokDownloader { headers: self.headers, cookie }),
            None => Err(ConfigError::MissingCookie),
        }
    }
}

impl TikTokDownloader {
    /// Create a new builder.
    pub fn builder() -> (b: TikTokDownloaderBuilder)
        ensures
            b.headers.entry_views() == spec_default_entries(),
            b.cookie is None,
    {
        TikTokDownloaderBuilder::new()
    }

    /// The internal configuration a transfer driver works from: this
    /// downloader's headers and cookie, the constant chunk size, and the
    /// destination path.
    pub fn create_internal_config(&self, output_path: &str) -> (c: Config)
        ensures
            c.http.headers.entry_views() == self.headers.entry_views(),
            c.http.headers@ == self.headers@,
            c.http.cookie@ == self.cookie@,
            c.http.chunk_size == CHUNK_SIZE,
            c.http.output_dir@ == output_path@,
    {
        let http = HttpConfig {
            headers: self.headers.duplicate(),
            cookie: self.cookie.clone(),
            chunk_size: CHUNK_SIZE,
            output_dir: output_path.to_owned(),
        };
        Config { http }
    }
}

} // verus!
