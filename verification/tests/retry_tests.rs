use hutao_installer::retry::{run_segment_attempts, RetryDecision, RetryPolicy, RetryState};

#[test]
fn default_policy_is_three_attempts_half_second() {
    let p = RetryPolicy::segment_default();
    assert_eq!(p.max_attempts, 3);
    assert_eq!(p.base_delay_ms, 500);
}

#[test]
fn failing_every_attempt_retries_exactly_three_times() {
    let policy = RetryPolicy::segment_default();
    let outcomes = vec![false, false, false];
    let report = run_segment_attempts(&policy, &outcomes);
    assert!(!report.succeeded);
    assert_eq!(report.attempts, 3);
    assert_eq!(report.delays_ms, vec![500, 1000]);
}

#[test]
fn success_on_first_attempt_needs_no_backoff() {
    let policy = RetryPolicy::segment_default();
    let outcomes = vec![true, false, false];
    let report = run_segment_attempts(&policy, &outcomes);
    assert!(report.succeeded);
    assert_eq!(report.attempts, 1);
    assert!(report.delays_ms.is_empty());
}

#[test]
fn success_on_second_attempt_waits_once() {
    let policy = RetryPolicy::segment_default();
    let outcomes = vec![false, true, false];
    let report = run_segment_attempts(&policy, &outcomes);
    assert!(report.succeeded);
    assert_eq!(report.attempts, 2);
    assert_eq!(report.delays_ms, vec![500]);
}

#[test]
fn success_on_final_attempt_counts_all_delays() {
    let policy = RetryPolicy::segment_default();
    let outcomes = vec![false, false, true];
    let report = run_segment_attempts(&policy, &outcomes);
    assert!(report.succeeded);
    assert_eq!(report.attempts, 3);
    assert_eq!(report.delays_ms, vec![500, 1000]);
}

#[test]
fn state_machine_backs_off_linearly_then_gives_up() {
    let policy = RetryPolicy::segment_default();
    let mut state = RetryState::new();
    assert_eq!(
        state.on_failure(&policy),
        RetryDecision::Retry { delay_ms: 500 }
    );
    assert_eq!(
        state.on_failure(&policy),
        RetryDecision::Retry { delay_ms: 1000 }
    );
    assert_eq!(state.on_failure(&policy), RetryDecision::GiveUp);
}
