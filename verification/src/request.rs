//! The one request that a probe makes.
//!
//! Endpoint and time limit are fixed: the backend is expected on this
//! machine, on one port, under one path.

use vstd::prelude::*;

verus! {

/// The time allowed for the whole exchange, in seconds. An exchange that
/// takes longer ends as a timeout.
pub const PROBE_TIMEOUT_SECS: u64 = 2;

/// The address of the backend's health endpoint.
pub open spec fn health_url_text() -> Seq<char> {
    "http://localhost:8000/api/v1/health"@
}

/// What the caller is to send: a GET on `url`, with no body and no headers
/// of its own, given up after `timeout_secs` seconds.
#[derive(Clone, Copy, Debug, PartialEq, Eq)]
pub struct ProbeRequest {
    pub url: &'static str,
    pub timeout_secs: u64,
}

/// The request of every probe, at launch and on demand alike.
pub fn probe_request() -> (request: ProbeRequest)
    ensures
        request.url@ == health_url_text(),
        request.timeout_secs == PROBE_TIMEOUT_SECS,
        request.timeout_secs == 2,
{
    ProbeRequest { url: "http://localhost:8000/api/v1/health", timeout_secs: PROBE_TIMEOUT_SECS }
}

} // verus!
