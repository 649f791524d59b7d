//! Failures of a download and the classification of a tool's diagnostics.

use vstd::prelude::*;
use crate::text::{chars_of, contains, includes, joined};

verus! {

/// What can go wrong while a download is prepared or runs.
#[derive(Debug, Clone)]
pub enum DownloadError {
    InvalidUrl(String),
    InvalidInput(String),
    Network(String),
    ProcessFailed(String),
    Io(String),
    Sidecar(String),
    /// The tool could not be started.
    Spawn(String),
    Authentication(String),
    RateLimit(String),
    Cancelled,
    QualityNotAvailable(String),
    BrowserNotFound(String),
    ParseError(String),
    Unknown(String),
}

/// The text shown for an error: a fixed label, then the detail it carries.
pub open spec fn message_text(error: DownloadError) -> Seq<char> {
    match error {
        DownloadError::InvalidUrl(d) => "Invalid URL: "@ + d@,
        DownloadError::InvalidInput(d) => "Invalid input: "@ + d@,
        DownloadError::Network(d) => "Network error: "@ + d@,
        DownloadError::ProcessFailed(d) => "Process failed: "@ + d@,
        DownloadError::Io(d) => "IO error: "@ + d@,
        DownloadError::Sidecar(d) => "Sidecar error: "@ + d@,
        DownloadError::Spawn(d) => "Spawn error: "@ + d@,
        DownloadError::Authentication(d) => "Authentication error: "@ + d@,
        DownloadError::RateLimit(d) => "Rate limit exceeded: "@ + d@,
        DownloadError::Cancelled => "Download cancelled by user"@,
        DownloadError::QualityNotAvailable(d) => "Quality not available: "@ + d@,
        DownloadError::BrowserNotFound(d) => "Browser not found: "@ + d@,
        DownloadError::ParseError(d) => "Failed to parse output: "@ + d@,
        DownloadError::Unknown(d) => "Unknown error: "@ + d@,
    }
}

impl DownloadError {
    /// The text shown for this error.
    pub fn message(&self) -> (out: String)
        ensures
            out@ == message_text(*self),
    {
        match self {
            DownloadError::InvalidUrl(d) => joined("Invalid URL: ", d.as_str()),
            DownloadError::InvalidInput(d) => joined("Invalid input: ", d.as_str()),
            DownloadError::Network(d) => joined("Network error: ", d.as_str()),
            DownloadError::ProcessFailed(d) => joined("Process failed: ", d.as_str()),
            DownloadError::Io(d) => joined("IO error: ", d.as_str()),
            DownloadError::Sidecar(d) => joined("Sidecar error: ", d.as_str()),
            DownloadError::Spawn(d) => joined("Spawn error: ", d.as_str()),
            DownloadError::Authentication(d) => joined("Authentication error: ", d.as_str()),
            DownloadError::RateLimit(d) => joined("Rate limit exceeded: ", d.as_str()),
            DownloadError::Cancelled => "Download cancelled by user".to_owned(),
            DownloadError::QualityNotAvailable(d) => joined("Quality not available: ", d.as_str()),
            DownloadError::BrowserNotFound(d) => joined("Browser not found: ", d.as_str()),
            DownloadError::ParseError(d) => joined("Failed to parse output: ", d.as_str()),
            DownloadError::Unknown(d) => joined("Unknown error: ", d.as_str()),
        }
    }
}

/// An error after which the same operation may be tried again.
pub open spec fn retryable(error: DownloadError) -> bool {
    error is Network || error is RateLimit || error is ProcessFailed
}

/// Whether the operation that failed with `error` may be tried again.
pub fn is_retryable_error(error: &DownloadError) -> (yes: bool)
    ensures
        yes == retryable(*error),
{
    match error {
        DownloadError::Network(_) => true,
        DownloadError::RateLimit(_) => true,
        DownloadError::ProcessFailed(_) => true,
        _ => false,
    }
}

/// Diagnostics that speak of a failed transfer.
pub open spec fn network_text(stderr: Seq<char>) -> bool {
    ||| contains(stderr, "Unable to download"@)
    ||| contains(stderr, "HTTP Error"@)
    ||| contains(stderr, "Connection"@)
    ||| contains(stderr, "timeout"@)
    ||| contains(stderr, "network"@)
}

/// Diagnostics that speak of a request quota.
pub open spec fn rate_limit_text(stderr: Seq<char>) -> bool {
    ||| contains(stderr, "rate limit"@)
    ||| contains(stderr, "429"@)
    ||| contains(stderr, "Too Many Requests"@)
}

/// Diagnostics that ask for a login.
pub open spec fn auth_text(stderr: Seq<char>) -> bool {
    ||| contains(stderr, "Sign in"@)
    ||| contains(stderr, "Private video"@)
    ||| contains(stderr, "members-only"@)
    ||| contains(stderr, "This video is only available"@)
    ||| contains(stderr, "login required"@)
}

/// Diagnostics of a browser whose cookie store could not be decrypted.
pub open spec fn dpapi_text(stderr: Seq<char>) -> bool {
    ||| contains(stderr, "Failed to decrypt with DPAPI"@)
    ||| contains(stderr, "DPAPI"@)
    ||| (contains(stderr, "decrypt"@) && contains(stderr, "cookie"@))
}

/// Diagnostics of a missing or failing media post-processor.
pub open spec fn ffmpeg_text(stderr: Seq<char>) -> bool {
    &&& (contains(stderr, "ffmpeg"@) || contains(stderr, "Merger"@) || contains(
        stderr,
        "merge"@,
    ))
    &&& (contains(stderr, "not found"@) || contains(stderr, "does not exist"@) || contains(
        stderr,
        "NoneType"@,
    ) || contains(stderr, "'lower'"@) || contains(stderr, "FFmpeg"@))
}

/// Whether the diagnostics speak of a failed transfer.
pub fn is_network_error(stderr: &str) -> (yes: bool)
    ensures
        yes == network_text(stderr@),
{
    let s = chars_of(stderr);
    includes(&s, "Unable to download") || includes(&s, "HTTP Error") || includes(&s, "Connection") || includes(
        &s,
        "timeout",
    ) || includes(&s, "network")
}

/// Whether the diagnostics speak of a request quota.
pub fn is_rate_limit_error(stderr: &str) -> (yes: bool)
    ensures
        yes == rate_limit_text(stderr@),
{
    let s = chars_of(stderr);
    includes(&s, "rate limit") || includes(&s, "429") || includes(&s, "Too Many Requests")
}

/// Whether the diagnostics ask for a login.
pub fn is_auth_error(stderr: &str) -> (yes: bool)
    ensures
        yes == auth_text(stderr@),
{
    let s = chars_of(stderr);
    includes(&s, "Sign in") || includes(&s, "Private video") || includes(&s, "members-only") || includes(
        &s,
        "This video is only available",
    ) || includes(&s, "login required")
}

/// Whether the diagnostics report a cookie store that could not be decrypted.
pub fn is_dpapi_error(stderr: &str) -> (yes: bool)
    ensures
        yes == dpapi_text(stderr@),
{
    let s = chars_of(stderr);
    includes(&s, "Failed to decrypt with DPAPI") || includes(&s, "DPAPI") || (includes(&s, "decrypt") && includes(
        &s,
        "cookie",
    ))
}

/// Whether the diagnostics report a missing or failing media post-processor.
pub fn is_ffmpeg_error(stderr: &str) -> (yes: bool)
    ensures
        yes == ffmpeg_text(stderr@),
{
    let s = chars_of(stderr);
    (includes(&s, "ffmpeg") || includes(&s, "Merger") || includes(&s, "merge")) && (includes(&s, "not found") || includes(
        &s,
        "does not exist",
    ) || includes(&s, "NoneType") || includes(&s, "'lower'") || includes(&s, "FFmpeg"))
}

/// Why a binary could not be fetched or installed from one source.
#[derive(Debug, Clone)]
pub enum FetchError {
    /// The transfer failed, or the server answered with an error status.
    Network(String),
    /// The download is no archive that can be read.
    InvalidArchive(String),
    /// An entry of the archive cannot be read.
    ArchiveEntry(String),
    /// The archive holds no file of the wanted name.
    NotFoundInArchive(String),
    /// The release offers no file of the wanted name.
    AssetMissing(String),
    /// The checksum manifest has no line for the wanted file.
    ChecksumUnavailable(String),
    /// The digest of the download is not the one in the manifest.
    ChecksumMismatch { expected: String, actual: String },
    /// The installed file could not be saved aside.
    Backup(String),
    /// The file could not be written to its place.
    Write(String),
    /// The file could not be made executable.
    Permission(String),
    /// The record of the installation could not be written.
    Record(String),
}

/// A fetch error over plain text.
pub ghost enum FetchErrorView {
    Network(Seq<char>),
    InvalidArchive(Seq<char>),
    ArchiveEntry(Seq<char>),
    NotFoundInArchive(Seq<char>),
    AssetMissing(Seq<char>),
    ChecksumUnavailable(Seq<char>),
    ChecksumMismatch { expected: Seq<char>, actual: Seq<char> },
    Backup(Seq<char>),
    Write(Seq<char>),
    Permission(Seq<char>),
    Record(Seq<char>),
}

impl View for FetchError {
    type V = FetchErrorView;

    open spec fn view(&self) -> FetchErrorView {
        match *self {
            FetchError::Network(d) => FetchErrorView::Network(d@),
            FetchError::InvalidArchive(d) => FetchErrorView::InvalidArchive(d@),
            FetchError::ArchiveEntry(d) => FetchErrorView::ArchiveEntry(d@),
            FetchError::NotFoundInArchive(d) => FetchErrorView::NotFoundInArchive(d@),
            FetchError::AssetMissing(d) => FetchErrorView::AssetMissing(d@),
            FetchError::ChecksumUnavailable(d) => FetchErrorView::ChecksumUnavailable(d@),
            FetchError::ChecksumMismatch { expected, actual } => FetchErrorView::ChecksumMismatch {
                expected: expected@,
                actual: actual@,
            },
            FetchError::Backup(d) => FetchErrorView::Backup(d@),
            FetchError::Write(d) => FetchErrorView::Write(d@),
            FetchError::Permission(d) => FetchErrorView::Permission(d@),
            FetchError::Record(d) => FetchErrorView::Record(d@),
        }
    }
}

/// The outcome of a step that yields bytes, over plain values.
pub open spec fn payload_view(result: Result<Vec<u8>, FetchError>) -> Result<
    Seq<u8>,
    FetchErrorView,
> {
    match result {
        Ok(bytes) => Ok(bytes@),
        Err(e) => Err(e@),
    }
}

/// The outcome of a check, over plain values.
pub open spec fn verdict_view(result: Result<(), FetchError>) -> Result<(), FetchErrorView> {
    match result {
        Ok(_) => Ok(()),
        Err(e) => Err(e@),
    }
}

/// The text shown for a fetch error.
pub open spec fn fetch_error_text(error: FetchError) -> Seq<char> {
    match error {
        FetchError::Network(d) => d@,
        FetchError::InvalidArchive(d) => "Invalid zip: "@ + d@,
        FetchError::ArchiveEntry(d) => d@,
        FetchError::NotFoundInArchive(d) => d@ + " not found in zip"@,
        FetchError::AssetMissing(d) => "No asset found for "@ + d@,
        FetchError::ChecksumUnavailable(d) => "Checksum not found for "@ + d@,
        FetchError::ChecksumMismatch { expected, actual } => "Checksum mismatch! Expected: "@
            + expected@ + ", Got: "@ + actual@,
        FetchError::Backup(d) => "Failed to create backup: "@ + d@,
        FetchError::Write(d) => "Failed to save: "@ + d@,
        FetchError::Permission(d) => "Failed to set permissions: "@ + d@,
        FetchError::Record(d) => d@,
    }
}

/// A fetch error after which the same source may be tried again: only a
/// failed transfer is one.
pub open spec fn fetch_retryable(error: FetchError) -> bool {
    error is Network
}

impl FetchError {
    /// The text shown for this error.
    pub fn message(&self) -> (out: String)
        ensures
            out@ == fetch_error_text(*self),
    {
        match self {
            FetchError::Network(d) => d.clone(),
            FetchError::InvalidArchive(d) => joined("Invalid zip: ", d.as_str()),
            FetchError::ArchiveEntry(d) => d.clone(),
            FetchError::NotFoundInArchive(d) => joined(d.as_str(), " not found in zip"),
            FetchError::AssetMissing(d) => joined("No asset found for ", d.as_str()),
            FetchError::ChecksumUnavailable(d) => joined("Checksum not found for ", d.as_str()),
            FetchError::ChecksumMismatch { expected, actual } => {
                let a = joined("Checksum mismatch! Expected: ", expected.as_str());
                let b = joined(a.as_str(), ", Got: ");
                joined(b.as_str(), actual.as_str())
            },
            FetchError::Backup(d) => joined("Failed to create backup: ", d.as_str()),
            FetchError::Write(d) => joined("Failed to save: ", d.as_str()),
            FetchError::Permission(d) => joined("Failed to set permissions: ", d.as_str()),
            FetchError::Record(d) => d.clone(),
        }
    }

    /// Whether the same source may be tried again after this error.
    pub fn is_retryable(&self) -> (yes: bool)
        ensures
            yes == fetch_retryable(*self),
    {
        match self {
            FetchError::Network(_) => true,
            _ => false,
        }
    }
}

} // verus!
