//! Probe strategy: pick the cheapest request shape able to validate a link.
//! The default is `HEAD`; hosts known to reject it get a ranged `GET` for a
//! single byte. The choice is a pure function of the link text — no network
//! access happens here.

use vstd::prelude::*;

use crate::text::{contains_seq, contains_substr};

verus! {

/// Seconds a validation probe may run before it is abandoned.
pub const PROBE_TIMEOUT_SECS: u64 = 10;

/// The shape of the request used to probe a link.
#[derive(Clone, Copy, Debug, PartialEq, Eq, Structural)]
pub enum ProbeMethod {
    /// A plain `HEAD` request.
    Head,
    /// A `GET` request for the first byte only (`Range: bytes=0-0`).
    RangedGet,
}

/// The host marker of the Baidu image proxy, which rejects `HEAD` requests.
pub open spec fn spec_baidu_marker() -> Seq<char> {
    "image.baidu.com"@
}

/// The probe shape chosen for a link: a ranged `GET` for links served
/// through the Baidu image proxy, `HEAD` for everything else.
pub open spec fn spec_probe_method(link: Seq<char>) -> ProbeMethod {
    if contains_seq(link, spec_baidu_marker()) {
        ProbeMethod::RangedGet
    } else {
        ProbeMethod::Head
    }
}

/// Whether a link is served through the Baidu image proxy.
pub fn is_baidu_proxy_link(link: &str) -> (r: bool)
    ensures
        r == contains_seq(link@, spec_baidu_marker()),
{
    contains_substr(link, "image.baidu.com")
}

/// Choose the probe shape for a link.
pub fn choose_probe_method(link: &str) -> (r: ProbeMethod)
    ensures
        r == spec_probe_method(link@),
{
    if is_baidu_proxy_link(link) {
        ProbeMethod::RangedGet
    } else {
        ProbeMethod::Head
    }
}

} // verus!
