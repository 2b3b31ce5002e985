//! Muninn error types.
//!
//! `MuninnError` is a scan-level failure that affects control flow (a
//! missing scan root, an invalid pattern). `ExtractionError` is a
//! per-document problem recorded as data in the report; the scan continues.
use vstd::prelude::*;

verus! {

/// Compilation error of a regular expression (`regex::Error`).
#[verifier::external_type_specification]
#[verifier::external_body]
pub struct ExRegexError(regex::Error);

/// Compilation error of a glob pattern or glob set (`globset::Error`).
#[verifier::external_type_specification]
#[verifier::external_body]
pub struct ExGlobError(globset::Error);

/// Convenience alias used throughout the crate.
pub type Result<T> = core::result::Result<T, MuninnError>;

#[derive(Debug)]
pub enum MuninnError {
    /// A scan root path doesn't exist or isn't accessible.
    ScanRootNotFound { path: String },
    /// Permission denied on a file or directory.
    PermissionDenied { path: String },
    /// A file exceeded the configured max size threshold.
    FileTooLarge { path: String, size_bytes: u64 },
    /// A format-specific parser failed on a single document.
    ParseError { path: String, stage: String, message: String },
    /// Underlying I/O error, by its message.
    Io { message: String },
    /// JSON serialization error (output writing), by its message.
    Json { message: String },
    /// Regex compilation error (user-provided cross-reference patterns).
    Regex(regex::Error),
    /// Glob pattern error (user-provided exclusion patterns).
    Glob(globset::Error),
    /// Directory traversal error, by its message.
    WalkDir { message: String },
}

/// Per-document extraction error, stored in the output report.
#[derive(Debug, Clone)]
pub struct ExtractionError {
    pub stage: String,
    pub message: String,
}

} // verus!
