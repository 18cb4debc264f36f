//! The inbound delivery decision: what a parsed (or unparseable) webhook
//! body does to the shared state, and which response it earns.

use crate::models::WebhookPayload;
use crate::state::{commit, AppState};
use vstd::prelude::*;

verus! {

/// The response the endpoint gives to one inbound delivery. A recognized
/// event and an unrecognized one are both accepted, distinguishably, so that
/// new event vocabularies never fail the request; only a body that did not
/// parse is a client error.
#[derive(Debug, Clone, Copy, PartialEq, Eq, Structural)]
pub enum WebhookResponse {
    Accepted,
    AcceptedUnknown,
    BadRequest,
}

/// Apply one inbound delivery to the shared state. The caller parses the
/// raw body outside the library and hands in `Some(payload)` on success and
/// `None` on a malformed body. A parsed delivery always commits (never a
/// silent no-op); a malformed one leaves the state exactly as it was.
pub fn handle_delivery(app: &mut AppState, parsed: Option<WebhookPayload>) -> (r: WebhookResponse)
    ensures
        parsed is None ==> *final(app) == *old(app) && r == WebhookResponse::BadRequest,
        parsed matches Some(p) ==> {
            &&& *final(app) == commit(*old(app), p.event)
            &&& r == (if p.event is Unknown {
                WebhookResponse::AcceptedUnknown
            } else {
                WebhookResponse::Accepted
            })
        },
{
    match parsed {
        None => WebhookResponse::BadRequest,
        Some(p) => {
            let unknown = p.event.is_unknown();
            app.set(p.event);
            if unknown {
                WebhookResponse::AcceptedUnknown
            } else {
                WebhookResponse::Accepted
            }
        },
    }
}

} // verus!
