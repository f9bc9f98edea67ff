//! Judging a health probe of the server.

use vstd::prelude::*;

verus! {

/// Seconds after which a probe that has not been answered counts as failed.
pub const PROBE_TIMEOUT_SECS: u64 = 5;

/// What a probe of the health endpoint came to.
#[derive(Debug, Clone, Copy, PartialEq, Eq, Structural)]
pub enum ProbeOutcome {
    /// A response arrived in time, with this status code.
    Responded(u16),
    /// The request failed before any response.
    Unreachable,
    /// No response arrived within the timeout.
    TimedOut,
}

/// A probe shows a healthy server exactly when a response arrived with a status
/// code from 200 to 299.
pub open spec fn is_healthy(outcome: ProbeOutcome) -> bool {
    outcome matches ProbeOutcome::Responded(code) && 200 <= code < 300
}

/// `reqwest::StatusCode::from_u16` followed by `StatusCode::is_success`. The
/// conversion accepts exactly the codes from 100 to 999, and `is_success` holds
/// of those from 200 to 299. `None` stands for a code that the conversion
/// rejects.
#[verifier::external_body]
fn status_is_success(code: u16) -> (success: Option<bool>)
    ensures
        success == (if 100 <= code <= 999 {
            Some(200 <= code < 300)
        } else {
            None
        }),
{
    match reqwest::StatusCode::from_u16(code) {
        Ok(status) => Some(status.is_success()),
        Err(_) => None,
    }
}

/// Address that the probe requests.
pub fn health_endpoint() -> (url: &'static str)
    ensures
        url@ == "http://localhost:3000/api/health"@,
{
    "http://localhost:3000/api/health"
}

/// The answer to a status query. A probe that failed or timed out gives `false`,
/// never an error.
pub fn server_status(outcome: ProbeOutcome) -> (status: Result<bool, String>)
    ensures
        status matches Ok(healthy) && healthy == is_healthy(outcome),
{
    match outcome {
        ProbeOutcome::Responded(code) => match status_is_success(code) {
            Some(success) => Ok(success),
            None => Ok(false),
        },
        ProbeOutcome::Unreachable => Ok(false),
        ProbeOutcome::TimedOut => Ok(false),
    }
}

} // verus!
