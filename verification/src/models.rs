//! Canonical event model and the payload shapes exchanged with the remote
//! controller server.

use crate::text::str_eq;
use vstd::prelude::*;

verus! {

/// The text token that encodes the open circuit state.
pub open spec fn open_token() -> Seq<char> {
    "open"@
}

/// The text token that encodes the closed circuit state.
pub open spec fn closed_token() -> Seq<char> {
    "closed"@
}

/// A webhook event: the binary circuit state, or any unrecognized token
/// carried through verbatim so that decoding never fails.
#[derive(Debug, Clone, PartialEq, Eq)]
pub enum WebhookEvent {
    Open,
    Closed,
    Unknown(String),
}

/// The exact text that `encode` and `as_str` emit for an event.
pub open spec fn event_text(e: &WebhookEvent) -> Seq<char> {
    match e {
        WebhookEvent::Open => open_token(),
        WebhookEvent::Closed => closed_token(),
        WebhookEvent::Unknown(s) => s@,
    }
}

/// The decoding relation: `e` is the event that the token `s` denotes.
/// The two canonical tokens map to their variants; every other string is
/// preserved verbatim under `Unknown`.
pub open spec fn decodes_to(s: Seq<char>, e: WebhookEvent) -> bool {
    if s == open_token() {
        e == WebhookEvent::Open
    } else if s == closed_token() {
        e == WebhookEvent::Closed
    } else {
        e matches WebhookEvent::Unknown(t) && t@ == s
    }
}

impl WebhookEvent {
    /// The canonical text of this event; `Unknown` re-emits its raw token.
    pub fn as_str(&self) -> (r: &str)
        ensures
            r@ == event_text(self),
    {
        match self {
            WebhookEvent::Open => "open",
            WebhookEvent::Closed => "closed",
            WebhookEvent::Unknown(s) => s.as_str(),
        }
    }

    /// Owned form of `as_str`.
    pub fn encode(&self) -> (r: String)
        ensures
            r@ == event_text(self),
    {
        self.as_str().to_owned()
    }

    /// True exactly when this event carries an unrecognized token.
    pub fn is_unknown(&self) -> (b: bool)
        ensures
            b == (self is Unknown),
    {
        match self {
            WebhookEvent::Unknown(_) => true,
            _ => false,
        }
    }
}

/// Total decoder: the two canonical tokens become their variants, any other
/// string is preserved verbatim under `Unknown`. Decoding never fails.
pub fn decode(s: &str) -> (e: WebhookEvent)
    ensures
        decodes_to(s@, e),
{
    if str_eq(s, "open") {
        WebhookEvent::Open
    } else if str_eq(s, "closed") {
        WebhookEvent::Closed
    } else {
        WebhookEvent::Unknown(s.to_owned())
    }
}

/// Unknown round trip: a token equal to neither canonical token decodes to
/// `Unknown` carrying that very token, so re-encoding yields the input
/// unchanged.
pub proof fn lemma_unknown_round_trip(s: Seq<char>, e: WebhookEvent)
    requires
        s != open_token(),
        s != closed_token(),
        decodes_to(s, e),
    ensures
        e matches WebhookEvent::Unknown(t) && t@ == s,
        event_text(&e) == s,
{
}

/// One inbound delivery: the event together with its metadata. Created per
/// inbound call, committed to the shared state, then discarded.
#[derive(Debug, Clone, PartialEq, Eq)]
pub struct WebhookPayload {
    pub event: WebhookEvent,
    pub timestamp: String,
    pub source: String,
}

/// The remote server's reply to a status poll.
#[derive(Debug, Clone, PartialEq, Eq)]
pub struct StatusResponse {
    pub status: String,
    pub data: StatusData,
}

/// The payload of a status poll: the remote circuit state as text.
#[derive(Debug, Clone, PartialEq, Eq)]
pub struct StatusData {
    pub state: String,
}

/// The remote server's reply to a health poll. The data part is opaque to
/// this library and is carried as its raw text.
#[derive(Debug, Clone, PartialEq, Eq)]
pub struct HealthResponse {
    pub status: String,
    pub data: String,
}

/// The remote server's reply to a webhook listing.
#[derive(Debug, Clone, PartialEq, Eq)]
pub struct WebhookListResponse {
    pub status: String,
    pub data: WebhookListData,
}

/// The payload of a webhook listing.
#[derive(Debug, Clone, PartialEq, Eq)]
pub struct WebhookListData {
    pub webhooks: Vec<WebhookInfo>,
}

/// One registered callback as the remote server reports it.
#[derive(Debug, Clone, PartialEq, Eq)]
pub struct WebhookInfo {
    pub url: String,
    pub created_at: String,
}

/// Canonical round trip: "open" decodes to `Open` and "closed" to `Closed`,
/// and encoding those two variants yields exactly those tokens back, so the
/// codec is an exact inverse pair on the canonical variants.
pub proof fn lemma_canonical_round_trip(e_open: WebhookEvent, e_closed: WebhookEvent)
    requires
        decodes_to(open_token(), e_open),
        decodes_to(closed_token(), e_closed),
    ensures
        e_open == WebhookEvent::Open,
        e_closed == WebhookEvent::Closed,
        event_text(&WebhookEvent::Open) == open_token(),
        event_text(&WebhookEvent::Closed) == closed_token(),
        decodes_to(event_text(&WebhookEvent::Open), WebhookEvent::Open),
        decodes_to(event_text(&WebhookEvent::Closed), WebhookEvent::Closed),
{
    reveal_strlit("open");
    reveal_strlit("closed");
    assert(open_token().len() == 4);
    assert(closed_token().len() == 6);
}

} // verus!
