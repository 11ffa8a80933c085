//! Terminal outcomes of a transfer and their stable caller-facing encoding.

use vstd::prelude::*;

verus! {

/// Reason codes reported to callers. The numeric encoding (see
/// [`ECode::value`]) is a compatibility contract and must not change.
pub enum ECode {
    ContentLengthMatchFileSize,
    ContentLengthIsNotSupported,
    ChecksumVerificationFailed,
    Unknown,
}

impl ECode {
    /// The numeric reason code a caller sees for this variant.
    pub open spec fn spec_value(self) -> u32 {
        match self {
            ECode::ContentLengthMatchFileSize => 0,
            ECode::ContentLengthIsNotSupported => 1,
            ECode::ChecksumVerificationFailed => 2,
            ECode::Unknown => 3,
        }
    }

    /// Encode the reason as its stable numeric code.
    pub fn value(&self) -> (v: u32)
        ensures
            v == self.spec_value(),
    {
        match self {
            ECode::ContentLengthMatchFileSize => 0,
            ECode::ContentLengthIsNotSupported => 1,
            ECode::ChecksumVerificationFailed => 2,
            ECode::Unknown => 3,
        }
    }
}

/// The single result of one download attempt.
pub enum DownloadOutcome {
    /// The local file already has exactly the remote length; nothing to do.
    AlreadyComplete,
    /// The probe response carried no `Content-Length`, so neither a resume
    /// point nor completion can be determined.
    RangesUnsupported,
    /// The local bytes cannot belong to the remote resource (oversized local
    /// file, or the tail-overlap comparison failed).
    ChecksumMismatch,
    /// The transfer ran to the end of the stream; carries the final local
    /// size in bytes.
    Success(u64),
    /// The connection or stream failed; carries the underlying message.
    /// Bytes already flushed remain valid for a later resume.
    TransportError(String),
}

/// One progress report, handed to the caller's observer after each write.
pub struct ProgressEvent {
    /// Bytes of the remote resource present in the local file so far.
    pub downloaded_bytes: u64,
    /// Total remote size when the server reported one.
    pub total_bytes: Option<u64>,
}

/// The caller-facing response triple: a success flag, a stable numeric
/// reason code, and a human-readable message.
pub struct HttpFileDownloaderResponse {
    pub status: bool,
    pub ecode: u32,
    pub message: String,
}

impl DownloadOutcome {
    /// The success flag reported for this outcome.
    pub open spec fn spec_status(self) -> bool {
        match self {
            DownloadOutcome::AlreadyComplete => true,
            DownloadOutcome::RangesUnsupported => false,
            DownloadOutcome::ChecksumMismatch => false,
            DownloadOutcome::Success(_) => true,
            DownloadOutcome::TransportError(_) => false,
        }
    }

    /// The reason code reported for this outcome.
    pub open spec fn spec_ecode(self) -> ECode {
        match self {
            DownloadOutcome::AlreadyComplete => ECode::ContentLengthMatchFileSize,
            DownloadOutcome::RangesUnsupported => ECode::ContentLengthIsNotSupported,
            DownloadOutcome::ChecksumMismatch => ECode::ChecksumVerificationFailed,
            DownloadOutcome::Success(_) => ECode::Unknown,
            DownloadOutcome::TransportError(_) => ECode::Unknown,
        }
    }

    /// The message reported for this outcome.
    pub open spec fn spec_message(self) -> Seq<char> {
        match self {
            DownloadOutcome::AlreadyComplete => "File size equals content-length"@,
            DownloadOutcome::RangesUnsupported => "Server does not support Content-Length"@,
            DownloadOutcome::ChecksumMismatch => (
                "Unable to verify checksum. File on server is changed"@
            ),
            DownloadOutcome::Success(_) => "OK"@,
            DownloadOutcome::TransportError(detail) => detail@,
        }
    }

    /// Encode this outcome as the stable response triple.
    pub fn response(&self) -> (r: HttpFileDownloaderResponse)
        ensures
            r.status == self.spec_status(),
            r.ecode == self.spec_ecode().spec_value(),
            r.message@ == self.spec_message(),
    {
        match self {
            DownloadOutcome::AlreadyComplete => HttpFileDownloaderResponse {
                status: true,
                ecode: ECode::ContentLengthMatchFileSize.value(),
                message: String::from_str("File size equals content-length"),
            },
            DownloadOutcome::RangesUnsupported => HttpFileDownloaderResponse {
                status: false,
                ecode: ECode::ContentLengthIsNotSupported.value(),
                message: String::from_str("Server does not support Content-Length"),
            },
            DownloadOutcome::ChecksumMismatch => HttpFileDownloaderResponse {
                status: false,
                ecode: ECode::ChecksumVerificationFailed.value(),
                message: String::from_str("Unable to verify checksum. File on server is changed"),
            },
            DownloadOutcome::Success(_) => HttpFileDownloaderResponse {
                status: true,
                ecode: ECode::Unknown.value(),
                message: String::from_str("OK"),
            },
            DownloadOutcome::TransportError(detail) => HttpFileDownloaderResponse {
                status: false,
                ecode: ECode::Unknown.value(),
                message: detail.clone(),
            },
        }
    }
}

/// Whether a probe response status is rejected outright. The engine treats
/// 404 and 403 as transport failures before any header inspection.
pub open spec fn spec_status_blocked(code: u16) -> bool {
    code == 404 || code == 403
}

/// Decide whether an HTTP status code blocks the transfer.
pub fn status_is_blocked(code: u16) -> (r: bool)
    ensures
        r == spec_status_blocked(code),
{
    code == 404 || code == 403
}

} // verus!
