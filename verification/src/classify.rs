//! Failure taxonomy for link probes: maps an HTTP status code or a transport
//! failure to a stable category and a remediation hint.

use vstd::prelude::*;

verus! {

/// The closed set of probe outcomes a caller can observe.
#[derive(Clone, Copy, Debug, PartialEq, Eq, Structural)]
pub enum ErrorType {
    Success,
    Http4xx,
    Http5xx,
    Timeout,
    Network,
}

/// What the transport reported when a probe produced no HTTP response.
/// Mirrors the two predicates the HTTP client exposes on its errors:
/// a timed-out request, a failed connection, or anything else.
#[derive(Clone, Copy, Debug, PartialEq, Eq, Structural)]
pub enum TransportErrorKind {
    TimedOut,
    ConnectFailed,
    Other,
}

/// The wire label of each category, as stored in a check result.
pub open spec fn spec_label(t: ErrorType) -> Seq<char> {
    match t {
        ErrorType::Success => "success"@,
        ErrorType::Http4xx => "http_4xx"@,
        ErrorType::Http5xx => "http_5xx"@,
        ErrorType::Timeout => "timeout"@,
        ErrorType::Network => "network"@,
    }
}

/// The category of a probe outcome. Status rules come first: 2xx is success,
/// 4xx a client error, 5xx and above a server error. Any other status — and
/// any outcome with no status at all — is decided by the transport failure,
/// falling back to `Network`.
pub open spec fn spec_error_type(status: Option<u16>, err: Option<TransportErrorKind>) -> ErrorType {
    if status is Some && 200 <= status->0 < 300 {
        ErrorType::Success
    } else if status is Some && 400 <= status->0 < 500 {
        ErrorType::Http4xx
    } else if status is Some && status->0 >= 500 {
        ErrorType::Http5xx
    } else if err == Some(TransportErrorKind::TimedOut) {
        ErrorType::Timeout
    } else {
        ErrorType::Network
    }
}

/// The remediation hint attached to each category: absent for success,
/// present for every failure.
pub open spec fn spec_suggestion(status: Option<u16>, err: Option<TransportErrorKind>) -> Option<
    Seq<char>,
> {
    match spec_error_type(status, err) {
        ErrorType::Success => None,
        ErrorType::Http4xx => Some(
            "image likely deleted or access-restricted; re-upload from a different valid host"@,
        ),
        ErrorType::Http5xx => Some("host temporarily unavailable; retry later"@),
        ErrorType::Timeout => Some("request timed out; possible network latency or slow host"@),
        ErrorType::Network => if err == Some(TransportErrorKind::ConnectFailed) {
            Some("connection failed; check network or firewall settings"@)
        } else {
            Some("unknown error"@)
        },
    }
}

/// The wire label of a category.
pub fn error_type_label(t: ErrorType) -> (r: String)
    ensures
        r@ == spec_label(t),
{
    match t {
        ErrorType::Success => String::from_str("success"),
        ErrorType::Http4xx => String::from_str("http_4xx"),
        ErrorType::Http5xx => String::from_str("http_5xx"),
        ErrorType::Timeout => String::from_str("timeout"),
        ErrorType::Network => String::from_str("network"),
    }
}

/// Classify one probe outcome: the status code received, if any, and the
/// transport failure observed, if any. Returns the category's wire label and
/// the remediation hint.
pub fn classify_error(status_code: Option<u16>, error: Option<TransportErrorKind>) -> (r: (
    String,
    Option<String>,
))
    ensures
        r.0@ == spec_label(spec_error_type(status_code, error)),
        r.1 is Some <==> spec_suggestion(status_code, error) is Some,
        r.1 is Some ==> r.1->0@ == spec_suggestion(status_code, error)->0,
{
    let t = classify_error_type(status_code, error);
    let suggestion = match t {
        ErrorType::Success => None,
        ErrorType::Http4xx => Some(
            String::from_str(
                "image likely deleted or access-restricted; re-upload from a different valid host",
            ),
        ),
        ErrorType::Http5xx => Some(String::from_str("host temporarily unavailable; retry later")),
        ErrorType::Timeout => Some(
            String::from_str("request timed out; possible network latency or slow host"),
        ),
        ErrorType::Network => if error == Some(TransportErrorKind::ConnectFailed) {
            Some(String::from_str("connection failed; check network or firewall settings"))
        } else {
            Some(String::from_str("unknown error"))
        },
    };
    (error_type_label(t), suggestion)
}

/// Classify one probe outcome as a category value.
pub fn classify_error_type(status_code: Option<u16>, error: Option<TransportErrorKind>) -> (r:
    ErrorType)
    ensures
        r == spec_error_type(status_code, error),
{
    if let Some(code) = status_code {
        if 200 <= code && code < 300 {
            return ErrorType::Success;
        } else if 400 <= code && code < 500 {
            return ErrorType::Http4xx;
        } else if code >= 500 {
            return ErrorType::Http5xx;
        }
    }
    if error == Some(TransportErrorKind::TimedOut) {
        ErrorType::Timeout
    } else {
        ErrorType::Network
    }
}

/// Law: every status in `[200, 300)` classifies as success, with no
/// suggestion, whatever the transport reported.
pub proof fn lemma_classify_success_range(status: u16, err: Option<TransportErrorKind>)
    requires
        200 <= status < 300,
    ensures
        spec_error_type(Some(status), err) == ErrorType::Success,
        spec_suggestion(Some(status), err) is None,
{
}

/// Law: every status in `[400, 500)` classifies as a client error, with a
/// suggestion, whatever the transport reported.
pub proof fn lemma_classify_client_error_range(status: u16, err: Option<TransportErrorKind>)
    requires
        400 <= status < 500,
    ensures
        spec_error_type(Some(status), err) == ErrorType::Http4xx,
        spec_suggestion(Some(status), err) is Some,
{
}

/// Law: every status at or above 500 classifies as a server error, with a
/// suggestion, whatever the transport reported.
pub proof fn lemma_classify_server_error_range(status: u16, err: Option<TransportErrorKind>)
    requires
        status >= 500,
    ensures
        spec_error_type(Some(status), err) == ErrorType::Http5xx,
        spec_suggestion(Some(status), err) is Some,
{
}

/// Law: a suggestion is attached exactly when the outcome is not a success.
pub proof fn lemma_suggestion_iff_failure(status: Option<u16>, err: Option<TransportErrorKind>)
    ensures
        spec_suggestion(status, err) is Some <==> spec_error_type(status, err)
            != ErrorType::Success,
{
}

} // verus!
