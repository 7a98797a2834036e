//! The error taxonomy of the downloader.
//!
//! Every failure of the extraction or transfer pipeline is one of these four
//! kinds. None is retried anywhere in the library; each aborts the current
//! operation and is surfaced to the caller unchanged.

use vstd::prelude::*;

verus! {

/// Why an extraction or transfer failed.
#[derive(Clone, Copy, Debug, PartialEq, Eq, Structural)]
pub enum DownloadError {
    /// A caller-supplied header name or value is not valid HTTP header syntax.
    Header,
    /// A request could not be sent or the transport failed, including
    /// mid-stream read errors.
    Fetch,
    /// The page HTML holds no extractable media URL.
    ExtractionNotFound,
    /// Directory creation, file creation, a write, or the final rename failed.
    Io,
}

/// Why building a downloader failed.
#[derive(Clone, Copy, Debug, PartialEq, Eq, Structural)]
pub enum ConfigError {
    /// No authentication cookie was supplied; downloads require one.
    MissingCookie,
}

} // verus!
