//! Internal transfer configuration handed from the downloader to a transfer
//! driver: the headers and cookie to apply, the chunk-size metadata, and the
//! destination path.

use vstd::prelude::*;

use crate::headers::HeaderSet;

verus! {

/// HTTP-level settings of one transfer.
#[derive(Debug)]
pub struct HttpConfig {
    /// Header entries applied to every outgoing request.
    pub headers: HeaderSet,
    /// The authentication cookie; empty means no cookie is sent.
    pub cookie: String,
    /// Configured chunk size. Present as forward-compatible metadata only:
    /// streaming uses the transport's natural chunking.
    pub chunk_size: usize,
    /// The destination path of the downloaded file.
    pub output_dir: String,
}

/// The downloader's internal configuration.
#[derive(Debug)]
pub struct Config {
    /// The HTTP-level settings.
    pub http: HttpConfig,
}

} // verus!
