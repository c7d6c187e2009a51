use holochain_runtime::error::Error;
use holochain_runtime::poll::{
    poll_step, run_readiness_poll, PollDecision, RETRY_INTERVAL_MS, RETRY_LIMIT,
};

#[test]
fn polling_that_never_succeeds_stops_at_the_bound() {
    // No attempt ever connects: the run must end with BackendUnreachable
    // after exactly the retry bound, having waited bound * interval.
    let outcomes: Vec<bool> = Vec::new();
    let run = run_readiness_poll(&outcomes);
    assert_eq!(run.result, Err(Error::BackendUnreachable));
    assert_eq!(run.waited_ms, (RETRY_LIMIT as u64) * RETRY_INTERVAL_MS);
    assert_eq!(run.waited_ms, 40_000);
}

#[test]
fn polling_stops_at_the_bound_even_with_explicit_failures() {
    let outcomes = vec![false; 1000];
    let run = run_readiness_poll(&outcomes);
    assert_eq!(run.result, Err(Error::BackendUnreachable));
    assert_eq!(run.waited_ms, 40_000);
}

#[test]
fn polling_stops_at_first_success() {
    let mut outcomes = vec![false; 10];
    outcomes[3] = true;
    outcomes[7] = true;
    let run = run_readiness_poll(&outcomes);
    assert_eq!(run.result, Ok(3));
    assert_eq!(run.waited_ms, 3 * RETRY_INTERVAL_MS);
}

#[test]
fn success_past_the_bound_is_unreachable() {
    let mut outcomes = vec![false; RETRY_LIMIT + 1];
    outcomes[RETRY_LIMIT] = true;
    let run = run_readiness_poll(&outcomes);
    assert_eq!(run.result, Err(Error::BackendUnreachable));
}

#[test]
fn immediate_success_waits_not_at_all() {
    let outcomes = vec![true];
    let run = run_readiness_poll(&outcomes);
    assert_eq!(run.result, Ok(0));
    assert_eq!(run.waited_ms, 0);
}

#[test]
fn poll_step_decisions() {
    assert_eq!(poll_step(0, true), PollDecision::Ready);
    assert_eq!(poll_step(0, false), PollDecision::RetryAfterDelay);
    assert_eq!(poll_step(RETRY_LIMIT - 2, false), PollDecision::RetryAfterDelay);
    assert_eq!(poll_step(RETRY_LIMIT - 1, false), PollDecision::GiveUp);
    assert_eq!(poll_step(RETRY_LIMIT - 1, true), PollDecision::Ready);
}

#[test]
fn backend_unreachable_has_a_message() {
    let msg = Error::BackendUnreachable.message();
    assert_eq!(msg, "Can't connect to holochain");
}
