//! The decision of the webhook front door: whether one inbound request
//! is refused, answered with the confirmation token, or handed to the
//! dispatch engine. The HTTP transport itself is the (unverified)
//! server layer's work.

use vstd::prelude::*;
use crate::text::str_eq;

verus! {

/// What the front door does with one inbound request.
#[derive(Debug, Copy, Clone, PartialEq, Eq, Structural)]
pub enum RequestDisposition {
    /// Wrong secret or wrong group id: refused with a forbidden status.
    Forbidden,
    /// A confirmation request: answered with the confirmation token.
    Confirmation,
    /// A callback event: handed to the dispatch engine, answered `ok`.
    Dispatch,
}

/// Equality of two optional secrets: both absent, or both present and
/// equal.
pub open spec fn spec_opt_str_eq(a: Option<String>, b: Option<String>) -> bool {
    match (a, b) {
        (Some(x), Some(y)) => x@ == y@,
        (None, None) => true,
        _ => false,
    }
}

/// Decides what to do with one inbound request: refuse it when its
/// secret or its group id differs from the bot's, answer the
/// confirmation handshake, and dispatch everything else.
pub fn route_request(
    req_secret: &Option<String>,
    bot_secret: &Option<String>,
    req_group_id: i32,
    bot_group_id: i32,
    req_type: &str,
) -> (r: RequestDisposition)
    ensures
        r == (if !spec_opt_str_eq(*req_secret, *bot_secret) {
            RequestDisposition::Forbidden
        } else if req_group_id != bot_group_id {
            RequestDisposition::Forbidden
        } else if req_type@ == "confirmation"@ {
            RequestDisposition::Confirmation
        } else {
            RequestDisposition::Dispatch
        }),
{
    let secrets_match = match (req_secret, bot_secret) {
        (Some(x), Some(y)) => str_eq(x.as_str(), y.as_str()),
        (None, None) => true,
        _ => false,
    };
    if !secrets_match {
        return RequestDisposition::Forbidden;
    }
    if req_group_id != bot_group_id {
        return RequestDisposition::Forbidden;
    }
    if str_eq(req_type, "confirmation") {
        return RequestDisposition::Confirmation;
    }
    RequestDisposition::Dispatch
}

} // verus!
