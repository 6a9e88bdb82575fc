//! The safe-download rules: a download is accepted only for a successful
//! response whose declared size — and, independently, whose actual body —
//! stays within the 50 MiB bound. The checks are pure; the transfer and the
//! file write happen outside this crate and hand their observations in.

use vstd::prelude::*;

use crate::text::{dec_digits, u64_to_dec};
use crate::MAX_DOWNLOAD_SIZE;

verus! {

/// Seconds a download request may run before it is abandoned.
pub const DOWNLOAD_TIMEOUT_SECS: u64 = 30;

/// Why a download was rejected.
#[derive(Debug)]
pub enum DownloadError {
    /// The request itself failed; carries the transport's description.
    Transport { detail: String },
    /// A response arrived but its status was not 2xx.
    HttpStatus { status: u16 },
    /// The response declared a `Content-Length` beyond the bound; the body
    /// was never read.
    TooLargeDeclared { declared: u64 },
    /// The body actually read was beyond the bound, whatever any header
    /// claimed; nothing is written to disk.
    TooLargeActual { actual: u64 },
    /// The validated bytes could not be written to the temp directory.
    FileWrite { detail: String },
}

/// The megabyte count reported for an oversize rejection (integer division,
/// as the size is only for explanation).
pub open spec fn spec_mib(bytes: int) -> int {
    bytes / (1024int * 1024)
}

/// The human-readable message of each download error.
pub open spec fn spec_download_message(e: DownloadError) -> Seq<char> {
    match e {
        DownloadError::Transport { detail } => "download failed: "@ + detail@,
        DownloadError::HttpStatus { status } => "download failed: HTTP "@ + dec_digits(
            status as nat,
        ),
        DownloadError::TooLargeDeclared { declared } => "file too large: "@ + dec_digits(
            spec_mib(declared as int) as nat,
        ) + " MB (max 50 MB)"@,
        DownloadError::TooLargeActual { actual } => "file too large: "@ + dec_digits(
            spec_mib(actual as int) as nat,
        ) + " MB (max 50 MB)"@,
        DownloadError::FileWrite { detail } => "failed to write file: "@ + detail@,
    }
}

impl DownloadError {
    /// The human-readable message carried to the caller.
    pub fn message(&self) -> (r: String)
        ensures
            r@ == spec_download_message(*self),
    {
        let r = match self {
            DownloadError::Transport { detail } => {
                let mut s = String::from_str("download failed: ");
                s.append(detail.as_str());
                s
            },
            DownloadError::HttpStatus { status } => {
                let mut s = String::from_str("download failed: HTTP ");
                let digits = u64_to_dec(*status as u64);
                s.append(digits.as_str());
                s
            },
            DownloadError::TooLargeDeclared { declared } => {
                let mut s = String::from_str("file too large: ");
                let digits = u64_to_dec(*declared / (1024 * 1024));
                s.append(digits.as_str());
                s.append(" MB (max 50 MB)");
                s
            },
            DownloadError::TooLargeActual { actual } => {
                let mut s = String::from_str("file too large: ");
                let digits = u64_to_dec(*actual / (1024 * 1024));
                s.append(digits.as_str());
                s.append(" MB (max 50 MB)");
                s
            },
            DownloadError::FileWrite { detail } => {
                let mut s = String::from_str("failed to write file: ");
                s.append(detail.as_str());
                s
            },
        };
        proof {
            assert(r@ =~= spec_download_message(*self));
        }
        r
    }
}

/// Accept or reject a response before its body is read, in the contractual
/// order: a non-2xx status is rejected first; then a declared
/// `Content-Length` beyond the bound. A missing declaration passes — the
/// later body check still guards it.
pub fn validate_response_meta(status: u16, content_length: Option<u64>) -> (r: Result<
    (),
    DownloadError,
>)
    ensures
        r is Ok <==> (200 <= status < 300 && (content_length is None || content_length->0
            <= MAX_DOWNLOAD_SIZE)),
        !(200 <= status < 300) ==> r == Result::<(), DownloadError>::Err(
            DownloadError::HttpStatus { status },
        ),
        (200 <= status < 300 && content_length is Some && content_length->0 > MAX_DOWNLOAD_SIZE)
            ==> r == Result::<(), DownloadError>::Err(
            DownloadError::TooLargeDeclared { declared: content_length->0 },
        ),
{
    if !(200 <= status && status < 300) {
        return Err(DownloadError::HttpStatus { status });
    }
    if let Some(declared) = content_length {
        if declared > MAX_DOWNLOAD_SIZE {
            return Err(DownloadError::TooLargeDeclared { declared });
        }
    }
    Ok(())
}

/// Accept or reject the body once it has actually been read: the real
/// length must stay within the bound, whatever any header claimed. On
/// rejection nothing may be written to disk.
pub fn validate_body_size(actual: u64) -> (r: Result<(), DownloadError>)
    ensures
        r is Ok <==> actual <= MAX_DOWNLOAD_SIZE,
        actual > MAX_DOWNLOAD_SIZE ==> r == Result::<(), DownloadError>::Err(
            DownloadError::TooLargeActual { actual },
        ),
{
    if actual > MAX_DOWNLOAD_SIZE {
        Err(DownloadError::TooLargeActual { actual })
    } else {
        Ok(())
    }
}

} // verus!
