//! Building the structured result of one link probe. Every outcome — blank
//! input, an HTTP response, or a transport failure — becomes a populated
//! `CheckLinkResult`; nothing here ever fails or touches the network.

use vstd::prelude::*;

use crate::classify::{
    classify_error, spec_error_type, spec_label, spec_suggestion, ErrorType, TransportErrorKind,
};
use crate::text::{dec_digits, is_blank, str_is_blank, u64_to_dec};

verus! {

/// Outcome of probing one image link.
#[derive(Debug)]
pub struct CheckLinkResult {
    /// The link exactly as the caller supplied it.
    pub link: String,
    /// True exactly when the probe yielded a 2xx response.
    pub is_valid: bool,
    /// The status received, when any response arrived at all.
    pub status_code: Option<u16>,
    /// A short description of the failure, absent on success.
    pub error: Option<String>,
    /// The wire label of the outcome's category.
    pub error_type: String,
    /// A remediation hint, present exactly when the probe failed.
    pub suggestion: Option<String>,
    /// Elapsed milliseconds; absent only when the probe never started.
    pub response_time: Option<u64>,
}

/// What one probe attempt came back with: a response's status code, or a
/// transport failure and the transport's own description of it.
pub enum ProbeOutcome {
    Response { status: u16 },
    Failed { kind: TransportErrorKind, detail: String },
}

/// The error text recorded for a transport failure: a fixed phrase for the
/// two recognised kinds, the transport's own words otherwise.
pub open spec fn spec_failure_text(kind: TransportErrorKind, detail: Seq<char>) -> Seq<char> {
    match kind {
        TransportErrorKind::TimedOut => "request timed out"@,
        TransportErrorKind::ConnectFailed => "connection failed"@,
        TransportErrorKind::Other => detail,
    }
}

/// The result recorded for a blank link, which is rejected without any
/// network access: invalid, `network`-classified, and — as the probe never
/// started — without a response time.
pub open spec fn blank_result_spec(link: Seq<char>, r: CheckLinkResult) -> bool {
    &&& r.link@ == link
    &&& !r.is_valid
    &&& r.status_code is None
    &&& r.error is Some
    &&& r.error->0@ == "link is empty"@
    &&& r.error_type@ == spec_label(ErrorType::Network)
    &&& r.suggestion is Some
    &&& r.suggestion->0@ == "link is empty"@
    &&& r.response_time is None
}

/// The result recorded for a probe that ran: field by field, how it follows
/// from the observed outcome and the measured elapsed time.
pub open spec fn probe_result_spec(
    link: Seq<char>,
    outcome: ProbeOutcome,
    elapsed_ms: u64,
    r: CheckLinkResult,
) -> bool {
    match outcome {
        ProbeOutcome::Response { status } => {
            &&& r.link@ == link
            &&& r.is_valid == (200 <= status < 300)
            &&& r.status_code == Some(status)
            &&& (if 200 <= status < 300 {
                r.error is None
            } else {
                r.error is Some && r.error->0@ == "HTTP "@ + dec_digits(status as nat)
            })
            &&& r.error_type@ == spec_label(spec_error_type(Some(status), None))
            &&& (r.suggestion is Some <==> spec_suggestion(Some(status), None) is Some)
            &&& (r.suggestion is Some ==> r.suggestion->0@ == spec_suggestion(
                Some(status),
                None,
            )->0)
            &&& r.response_time == Some(elapsed_ms)
        },
        ProbeOutcome::Failed { kind, detail } => {
            &&& r.link@ == link
            &&& !r.is_valid
            &&& r.status_code is None
            &&& r.error is Some
            &&& r.error->0@ == spec_failure_text(kind, detail@)
            &&& r.error_type@ == spec_label(spec_error_type(None, Some(kind)))
            &&& r.suggestion is Some
            &&& r.suggestion->0@ == spec_suggestion(None, Some(kind))->0
            &&& r.response_time == Some(elapsed_ms)
        },
    }
}

/// Reject a blank link before any network access: a link that is empty or
/// all whitespace comes back as a finished result, and one with content
/// comes back unchanged, to be probed.
pub fn precheck_blank_link(link: String) -> (r: Result<String, CheckLinkResult>)
    ensures
        r is Err <==> is_blank(link@),
        r matches Err(res) ==> blank_result_spec(link@, res),
        r matches Ok(l) ==> l == link,
{
    if str_is_blank(link.as_str()) {
        Err(
            CheckLinkResult {
                link,
                is_valid: false,
                status_code: None,
                error: Some(String::from_str("link is empty")),
                error_type: String::from_str("network"),
                suggestion: Some(String::from_str("link is empty")),
                response_time: None,
            },
        )
    } else {
        Ok(link)
    }
}

/// Assemble the result of a probe that ran for `elapsed_ms` milliseconds and
/// ended in `outcome`.
pub fn build_check_result(link: String, outcome: ProbeOutcome, elapsed_ms: u64) -> (r:
    CheckLinkResult)
    ensures
        probe_result_spec(link@, outcome, elapsed_ms, r),
{
    match outcome {
        ProbeOutcome::Response { status } => {
            let is_valid = 200 <= status && status < 300;
            let pair = classify_error(Some(status), None);
            let error = if !is_valid {
                let mut e = String::from_str("HTTP ");
                e.append(u64_to_dec(status as u64).as_str());
                Some(e)
            } else {
                None
            };
            CheckLinkResult {
                link,
                is_valid,
                status_code: Some(status),
                error,
                error_type: pair.0,
                suggestion: pair.1,
                response_time: Some(elapsed_ms),
            }
        },
        ProbeOutcome::Failed { kind, detail } => {
            let error_msg = match kind {
                TransportErrorKind::TimedOut => String::from_str("request timed out"),
                TransportErrorKind::ConnectFailed => String::from_str("connection failed"),
                TransportErrorKind::Other => detail,
            };
            let pair = classify_error(None, Some(kind));
            CheckLinkResult {
                link,
                is_valid: false,
                status_code: None,
                error: Some(error_msg),
                error_type: pair.0,
                suggestion: pair.1,
                response_time: Some(elapsed_ms),
            }
        },
    }
}

/// Law: the five category labels are pairwise distinct, so a label names its
/// category unambiguously.
pub proof fn lemma_labels_injective(a: ErrorType, b: ErrorType)
    ensures
        spec_label(a) == spec_label(b) <==> a == b,
{
    reveal_strlit("success");
    reveal_strlit("http_4xx");
    reveal_strlit("http_5xx");
    reveal_strlit("timeout");
    reveal_strlit("network");
    if a != b {
        let sa = spec_label(a);
        let sb = spec_label(b);
        if (a == ErrorType::Http4xx && b == ErrorType::Http5xx) || (a == ErrorType::Http5xx && b
            == ErrorType::Http4xx) {
            assert(sa[5] != sb[5]);
        } else {
            assert(sa[0] != sb[0]);
        }
    }
}

/// Law: however a result was produced — blank-link rejection or a finished
/// probe — it is valid exactly when its category label is `success`.
pub proof fn lemma_valid_iff_success(
    link: Seq<char>,
    outcome: ProbeOutcome,
    elapsed_ms: u64,
    r: CheckLinkResult,
)
    requires
        blank_result_spec(link, r) || probe_result_spec(link, outcome, elapsed_ms, r),
    ensures
        r.is_valid <==> r.error_type@ == spec_label(ErrorType::Success),
{
    if blank_result_spec(link, r) {
        lemma_labels_injective(ErrorType::Network, ErrorType::Success);
    } else {
        match outcome {
            ProbeOutcome::Response { status } => {
                lemma_labels_injective(spec_error_type(Some(status), None), ErrorType::Success);
            },
            ProbeOutcome::Failed { kind, detail } => {
                lemma_labels_injective(spec_error_type(None, Some(kind)), ErrorType::Success);
            },
        }
    }
}

/// Law: a result built from a blank link is invalid, `network`-classified,
/// and carries no response time, the mark of a probe that never started.
pub proof fn lemma_blank_link_rejected(link: Seq<char>, r: CheckLinkResult)
    requires
        is_blank(link),
        blank_result_spec(link, r),
    ensures
        !r.is_valid,
        r.error_type@ == spec_label(ErrorType::Network),
        r.suggestion is Some,
        r.response_time is None,
{
}

} // verus!
