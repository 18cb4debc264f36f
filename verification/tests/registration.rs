use noisebell_client::registration::{
    classify_response, AttemptOutcome, RegisterResult, RegisterRun,
};

const DEADLINE_MS: u64 = 300_000;
const DELAY_MS: u64 = 5_000;

#[test]
fn success_status_is_accepted() {
    let r = classify_response(true, "");
    assert_eq!(r, AttemptOutcome::Accepted);
    assert!(r.is_success());
    let r = classify_response(true, "Webhook endpoint already exists");
    assert_eq!(r, AttemptOutcome::Accepted);
}

#[test]
fn already_exists_body_is_idempotent_success() {
    let r = classify_response(false, "Webhook endpoint already exists");
    assert_eq!(r, AttemptOutcome::AlreadyRegistered);
    assert!(r.is_success());
    let r = classify_response(
        false,
        "error: Webhook endpoint already exists for this url",
    );
    assert_eq!(r, AttemptOutcome::AlreadyRegistered);
}

#[test]
fn other_failures_keep_the_body_as_reason() {
    let r = classify_response(false, "internal server error");
    assert_eq!(
        r,
        AttemptOutcome::Rejected("internal server error".to_string())
    );
    assert!(!r.is_success());
    let r = classify_response(false, "webhook endpoint already exists");
    assert!(!r.is_success(), "marker matching is case-sensitive");
}

#[test]
fn already_exists_on_first_call_registers_without_retry() {
    let mut run = RegisterRun::new(DEADLINE_MS, DELAY_MS);
    assert!(run.should_attempt());
    let outcome = classify_response(false, "Webhook endpoint already exists");
    run.record_attempt(outcome.is_success());
    assert!(!run.should_attempt());
    assert_eq!(run.outcome(), RegisterResult::Registered);
    assert_eq!(run.attempts, 1);
    assert_eq!(run.waited_ms, 0);
}

#[test]
fn two_failures_then_success_takes_exactly_two_delays() {
    let mut run = RegisterRun::new(DEADLINE_MS, DELAY_MS);
    let outcomes = [false, false, true];
    let mut fed: usize = 0;
    while run.should_attempt() {
        run.record_attempt(outcomes[fed]);
        fed += 1;
    }
    assert_eq!(fed, 3);
    assert_eq!(run.attempts, 3);
    assert_eq!(run.waited_ms, 2 * DELAY_MS);
    assert_eq!(run.outcome(), RegisterResult::Registered);
}

#[test]
fn constant_failure_times_out_within_the_attempt_budget() {
    let mut run = RegisterRun::new(DEADLINE_MS, DELAY_MS);
    let mut attempts = 0u64;
    while run.should_attempt() {
        run.record_attempt(false);
        attempts += 1;
    }
    assert_eq!(run.outcome(), RegisterResult::TimedOut);
    assert_eq!(attempts, DEADLINE_MS / DELAY_MS);
    assert!(run.attempts <= DEADLINE_MS / DELAY_MS + 1);
    assert_eq!(run.waited_ms, DEADLINE_MS);
}

#[test]
fn deadline_not_divisible_by_delay_still_bounded() {
    let mut run = RegisterRun::new(12_000, 5_000);
    let mut attempts = 0u64;
    while run.should_attempt() {
        run.record_attempt(false);
        attempts += 1;
    }
    assert_eq!(run.outcome(), RegisterResult::TimedOut);
    assert_eq!(attempts, 3);
    assert!(attempts <= 12_000 / 5_000 + 1);
}
