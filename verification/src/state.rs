//! The shared state cell: the single most-recently-committed event.
//!
//! Exactly one instance exists per process; the process wraps it in its
//! mutual-exclusion lock of choice and never touches it without holding
//! that lock. The library models only the serialized history of commits.

use crate::models::WebhookEvent;
use vstd::prelude::*;

verus! {

/// The process-wide mutable slot holding the current event.
pub struct AppState {
    pub current_state: WebhookEvent,
}

/// The state after one delivery commits: an unconditional overwrite.
pub open spec fn commit(s: AppState, e: WebhookEvent) -> AppState {
    AppState { current_state: e }
}

/// The state after a serialized sequence of commits, oldest first.
pub open spec fn replay(init: AppState, events: Seq<WebhookEvent>) -> AppState
    decreases events.len(),
{
    if events.len() == 0 {
        init
    } else {
        commit(replay(init, events.drop_last()), events.last())
    }
}

impl AppState {
    /// The state at process start, before any delivery arrived.
    pub fn new() -> (s: Self)
        ensures
            s.current_state matches WebhookEvent::Unknown(t) && t@ == "unknown"@,
    {
        AppState { current_state: WebhookEvent::Unknown("unknown".to_owned()) }
    }

    /// Commit a delivery: replace the content unconditionally.
    pub fn set(&mut self, e: WebhookEvent)
        ensures
            *final(self) == commit(*old(self), e),
    {
        self.current_state = e;
    }

    /// Read the current event.
    pub fn get(&self) -> (e: &WebhookEvent)
        ensures
            e == &self.current_state,
    {
        &self.current_state
    }
}

/// Last write wins: after any nonempty serialized sequence of committed
/// deliveries, the state holds exactly the event of the last delivery,
/// whatever events preceded it and whatever the state held before.
pub proof fn lemma_last_write_wins(init: AppState, events: Seq<WebhookEvent>)
    requires
        events.len() >= 1,
    ensures
        replay(init, events).current_state == events.last(),
{
}

} // verus!
