//! The decisions of the update ingress: what to answer, and what to publish.

use crate::models::UpdatePayload;
use vstd::prelude::*;
use vstd::string::*;

verus! {

/// Path of the one endpoint.
pub const UPDATE_ROUTE: &'static str = "/update";

/// Name under which an update is published on the event bus.
pub const UPDATE_EVENT: &'static str = "markdown-update";

/// Status of the answer to a request that was decoded.
pub const STATUS_OK: u16 = 200;

/// Status of the answer to a request that was refused with no client error
/// of its own.
pub const STATUS_BAD_REQUEST: u16 = 400;

/// What decoding a request body came to.
#[derive(Debug, PartialEq, Eq)]
pub enum Decoded {
    /// The body held an update.
    Payload(UpdatePayload),
    /// The body was refused; holds the status that the decoder proposes.
    Rejected(u16),
}

/// The answer to one request, and the event to publish for it, if any.
#[derive(Debug, PartialEq, Eq)]
pub struct IngressReply {
    pub status: u16,
    pub event: Option<UpdatePayload>,
}

/// True of the statuses 400 to 499.
pub open spec fn is_client_error(status: u16) -> bool {
    400 <= status <= 499
}

/// The status for a refused body: the decoder's, where that is a client
/// error, and 400 otherwise.
pub open spec fn rejection_status(proposed: u16) -> u16 {
    if is_client_error(proposed) {
        proposed
    } else {
        STATUS_BAD_REQUEST
    }
}

/// The reply that a decoded request gets.
pub open spec fn reply_to(decoded: Decoded) -> IngressReply {
    match decoded {
        Decoded::Payload(payload) => IngressReply { status: STATUS_OK, event: Some(payload) },
        Decoded::Rejected(proposed) => IngressReply {
            status: rejection_status(proposed),
            event: None,
        },
    }
}

/// Decides the answer to one request. A decoded update is published
/// unchanged and answered with 200, whatever becomes of the publication; a
/// refused body is answered with a client error and nothing is published.
pub fn update_handler(decoded: Decoded) -> (r: IngressReply)
    ensures
        r == reply_to(decoded),
{
    match decoded {
        Decoded::Payload(payload) => IngressReply { status: STATUS_OK, event: Some(payload) },
        Decoded::Rejected(proposed) => {
            let status: u16 = if 400 <= proposed && proposed <= 499 {
                proposed
            } else {
                STATUS_BAD_REQUEST
            };
            IngressReply { status, event: None }
        },
    }
}

/// The line to log where the event bus refused an update.
pub fn publish_diagnostic(reason: &str) -> (r: String)
    ensures
        r@ == "Failed to emit update event: "@ + reason@,
{
    let mut line = String::from_str("Failed to emit update event: ");
    line.append(reason);
    line
}

/// The line to log where the listener stopped with an error.
pub fn serve_diagnostic(reason: &str) -> (r: String)
    ensures
        r@ == "Server error: "@ + reason@,
{
    let mut line = String::from_str("Server error: ");
    line.append(reason);
    line
}

/// A reply is either 200 with one event, the decoded update itself, or a
/// client error with none.
pub proof fn lemma_reply_shape(decoded: Decoded)
    ensures
        decoded is Payload ==> reply_to(decoded).status == 200 && reply_to(decoded).event == Some(
            decoded->Payload_0,
        ),
        decoded is Rejected ==> is_client_error(reply_to(decoded).status) && reply_to(
            decoded,
        ).event is None,
        reply_to(decoded).event is Some <==> reply_to(decoded).status == 200,
{
}

} // verus!
