use noisebell_client::models::{WebhookEvent, WebhookPayload};
use noisebell_client::state::AppState;
use noisebell_client::webhook::{handle_delivery, WebhookResponse};

fn payload(event: WebhookEvent) -> WebhookPayload {
    WebhookPayload {
        event,
        timestamp: "2024-01-01T00:00:00Z".to_string(),
        source: "sensor".to_string(),
    }
}

#[test]
fn initial_state_is_unknown() {
    let state = AppState::new();
    assert_eq!(
        *state.get(),
        WebhookEvent::Unknown("unknown".to_string())
    );
}

#[test]
fn last_write_wins_after_many_open_deliveries() {
    let mut state = AppState::new();
    for _ in 0..5 {
        let r = handle_delivery(&mut state, Some(payload(WebhookEvent::Open)));
        assert_eq!(r, WebhookResponse::Accepted);
    }
    let r = handle_delivery(&mut state, Some(payload(WebhookEvent::Closed)));
    assert_eq!(r, WebhookResponse::Accepted);
    assert_eq!(*state.get(), WebhookEvent::Closed);
}

#[test]
fn interleaved_deliveries_keep_the_last_commit() {
    let mut state = AppState::new();
    handle_delivery(&mut state, Some(payload(WebhookEvent::Open)));
    handle_delivery(&mut state, Some(payload(WebhookEvent::Closed)));
    assert_eq!(*state.get(), WebhookEvent::Closed);
    handle_delivery(&mut state, Some(payload(WebhookEvent::Closed)));
    handle_delivery(&mut state, Some(payload(WebhookEvent::Open)));
    assert_eq!(*state.get(), WebhookEvent::Open);
}

#[test]
fn every_parsed_delivery_commits() {
    let mut state = AppState::new();
    let r = handle_delivery(&mut state, Some(payload(WebhookEvent::Open)));
    assert_eq!(r, WebhookResponse::Accepted);
    assert_eq!(*state.get(), WebhookEvent::Open);

    let r = handle_delivery(
        &mut state,
        Some(payload(WebhookEvent::Unknown("brownout".to_string()))),
    );
    assert_eq!(r, WebhookResponse::AcceptedUnknown);
    assert_eq!(
        *state.get(),
        WebhookEvent::Unknown("brownout".to_string())
    );
}

#[test]
fn malformed_body_leaves_state_unchanged() {
    let mut state = AppState::new();
    handle_delivery(&mut state, Some(payload(WebhookEvent::Closed)));
    let r = handle_delivery(&mut state, None);
    assert_eq!(r, WebhookResponse::BadRequest);
    assert_eq!(*state.get(), WebhookEvent::Closed);
}

#[test]
fn set_and_get_roundtrip() {
    let mut state = AppState::new();
    state.set(WebhookEvent::Closed);
    assert_eq!(*state.get(), WebhookEvent::Closed);
    state.set(WebhookEvent::Unknown("x".to_string()));
    assert_eq!(*state.get(), WebhookEvent::Unknown("x".to_string()));
}
