//! Addressing the backend's RPC server: the addresses to call, taken from the
//! published port, and the verdict on what came back.

use vstd::prelude::*;
use crate::sidecar::{
    backend_address, backend_base, backend_healthy, check_backend_health, is_success,
    is_success_status, ProbeOutcome,
};

verus! {

/// The base address of the backend, or the reason why there is none yet.
pub fn get_backend_url(port: u16) -> (r: Result<String, String>)
    ensures
        match r {
            Ok(url) => port != 0 && url@ == backend_base(port),
            Err(e) => port == 0 && e@ == "Backend not started yet"@,
        },
{
    if port == 0 {
        return Err(String::from_str("Backend not started yet"));
    }
    let url: String = backend_address(port, "");
    proof {
        reveal_strlit("");
    }
    assert(url@ =~= backend_base(port));
    Ok(url)
}

/// The address to post a call of `method` to.
pub fn orpc_call_url(port: u16, method: &str) -> (r: Result<String, String>)
    ensures
        match r {
            Ok(url) => port != 0 && url@ == backend_base(port) + "/orpc/"@ + method@,
            Err(e) => port == 0 && e@ == "Backend not started yet"@,
        },
{
    match get_backend_url(port) {
        Ok(base) => {
            let mut url: String = base;
            url.append("/orpc/");
            url.append(method);
            Ok(url)
        },
        Err(e) => Err(e),
    }
}

/// Whether the RPC server is there: the port is known and a probe of the
/// health endpoint was answered with a success status.
pub fn check_orpc_server(port: u16, outcome: Option<ProbeOutcome>) -> (available: bool)
    ensures
        available == backend_healthy(port, outcome),
{
    check_backend_health(port, outcome)
}

/// The text to report for a call that the server answered with a failure
/// status: the status, then the body of the answer where it could be read.
pub open spec fn call_failure_text(status: Seq<char>, body: Option<String>) -> Seq<char> {
    "oRPC server returned error "@ + status + ": "@ + (match body {
        Some(text) => text@,
        None => "Unable to read error response"@,
    })
}

/// What to make of an answer before its body is read.
#[derive(Clone, Copy, Debug, PartialEq, Eq, Structural)]
pub enum ReplyVerdict {
    /// A success status: the body holds the result.
    ReadResult,
    /// Any other status: the body holds the reason.
    ReadFailure,
}

/// Sorts an answer by its HTTP status.
pub fn reply_verdict(code: u16) -> (verdict: ReplyVerdict)
    ensures
        verdict == (if is_success(code) {
            ReplyVerdict::ReadResult
        } else {
            ReplyVerdict::ReadFailure
        }),
{
    if is_success_status(code) {
        ReplyVerdict::ReadResult
    } else {
        ReplyVerdict::ReadFailure
    }
}

/// The failure to report for an answer with a failure status.
pub fn call_failure(status: &str, body: Option<String>) -> (text: String)
    ensures
        text@ == call_failure_text(status@, body),
{
    let mut text: String = String::from_str("oRPC server returned error ");
    text.append(status);
    text.append(": ");
    match body {
        Some(reason) => text.append(reason.as_str()),
        None => text.append("Unable to read error response"),
    }
    text
}

} // verus!
