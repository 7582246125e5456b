//! The Trigger Listener's decision rule: one accepted local connection hands
//! over the text it received, and this module decides whether that text is a
//! trigger request, what to answer, and whether to ask the host for an
//! update check and fan out a broadcast.
//!
//! The host reads the bytes (one read into a fixed buffer, no framing — a
//! longer request is truncated), decodes them to text, and sends back
//! exactly the response chosen here; the connection is then closed.

use vstd::prelude::*;
use crate::text::{contains_seq, str_contains};

verus! {

/// The route marker a trigger request must contain, as it appears in the
/// request line of a plain HTTP request for the trigger route.
pub open spec fn trigger_route() -> Seq<char> {
    " /trigger-update "@
}

/// A request is a trigger request exactly when its text contains the route
/// marker.
pub open spec fn is_trigger_request(request: Seq<char>) -> bool {
    contains_seq(request, trigger_route())
}

/// The fixed success response to a recognized trigger request.
pub open spec fn trigger_ok_response() -> Seq<char> {
    "HTTP/1.1 200 OK\r\nContent-Type: application/json\r\nAccess-Control-Allow-Origin: *\r\n\r\n{\"status\":\"update_triggered\"}"@
}

/// The fixed response to anything else.
pub open spec fn not_found_response() -> Seq<char> {
    "HTTP/1.1 404 Not Found\r\n\r\n404 Not Found"@
}

/// What one accepted trigger connection leads to: whether to signal the
/// host that a manual update check was requested, whether to fan out a
/// reload broadcast, and the exact bytes to answer with.
pub struct TriggerDecision {
    pub request_update: bool,
    pub broadcast: bool,
    pub response: String,
}

/// Decide one trigger connection.  A recognized request asks the host for an
/// update check, asks for a broadcast (a no-op when no client is registered)
/// and is answered with the fixed success payload; any other content is
/// answered with the fixed not-found payload and has no further effect.
pub fn handle_trigger_request(request: &str) -> (d: TriggerDecision)
    ensures
        d.request_update == is_trigger_request(request@),
        d.broadcast == is_trigger_request(request@),
        is_trigger_request(request@) ==> d.response@ == trigger_ok_response(),
        !is_trigger_request(request@) ==> d.response@ == not_found_response(),
{
    if str_contains(request, " /trigger-update ") {
        TriggerDecision {
            request_update: true,
            broadcast: true,
            response: "HTTP/1.1 200 OK\r\nContent-Type: application/json\r\nAccess-Control-Allow-Origin: *\r\n\r\n{\"status\":\"update_triggered\"}".to_owned(),
        }
    } else {
        TriggerDecision {
            request_update: false,
            broadcast: false,
            response: "HTTP/1.1 404 Not Found\r\n\r\n404 Not Found".to_owned(),
        }
    }
}

} // verus!
