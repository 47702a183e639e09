use treasury_ingest::router::{route, RetryPolicy, RouteDecision, StorageResult};

fn policy() -> RetryPolicy {
    RetryPolicy { max_attempts: 3, backoff_ms: 250 }
}

fn retry_of(decision: RouteDecision) -> (u32, u64) {
    match decision {
        RouteDecision::Retry { attempt, delay_ms } => (attempt, delay_ms),
        other => panic!("a retry was expected, not {:?}", other),
    }
}

fn failure_of(decision: RouteDecision) -> String {
    match decision {
        RouteDecision::Failed(text) => text,
        other => panic!("a failure was expected, not {:?}", other),
    }
}

#[test]
fn stored_batch_is_done() {
    assert!(matches!(route(policy(), 1, StorageResult::Stored), RouteDecision::Done));
    assert!(matches!(route(policy(), 3, StorageResult::Stored), RouteDecision::Done));
}

#[test]
fn fatal_answer_is_never_retried() {
    for attempt in [1u32, 2, 3, 4] {
        let text = failure_of(route(policy(), attempt, StorageResult::Fatal("schema clash".to_string())));
        assert_eq!(text, "storage error: schema clash");
    }
}

#[test]
fn retryable_answer_is_retried_with_growing_pauses() {
    let busy = || StorageResult::Retryable("busy".to_string());
    assert_eq!(retry_of(route(policy(), 1, busy())), (2, 250));
    assert_eq!(retry_of(route(policy(), 2, busy())), (3, 500));
}

#[test]
fn retries_end_with_the_last_attempt() {
    let busy = || StorageResult::Retryable("busy".to_string());
    assert_eq!(failure_of(route(policy(), 3, busy())), "storage unavailable: busy");
    assert_eq!(failure_of(route(policy(), 4, busy())), "storage unavailable: busy");
    let never = RetryPolicy { max_attempts: 0, backoff_ms: 250 };
    assert_eq!(failure_of(route(never, 1, busy())), "storage unavailable: busy");
    let once = RetryPolicy { max_attempts: 1, backoff_ms: 250 };
    assert_eq!(failure_of(route(once, 1, busy())), "storage unavailable: busy");
}

#[test]
fn pause_stops_at_the_largest_number() {
    let slow = RetryPolicy { max_attempts: u32::MAX, backoff_ms: u64::MAX / 2 };
    let busy = || StorageResult::Retryable("busy".to_string());
    assert_eq!(retry_of(route(slow, 1, busy())), (2, u64::MAX / 2));
    assert_eq!(retry_of(route(slow, 2, busy())), (3, u64::MAX - 1));
    assert_eq!(retry_of(route(slow, 3, busy())), (4, u64::MAX));
    let none = RetryPolicy { max_attempts: 5, backoff_ms: 0 };
    assert_eq!(retry_of(route(none, 4, busy())), (5, 0));
}
