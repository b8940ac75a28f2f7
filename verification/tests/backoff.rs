use rust_thread_system::backoff::{BackoffStrategy, CompositeBackoff, ConstantBackoff, LinearBackoff, RetryPolicy};

#[test]
fn test_constant_backoff() {
    let strategy = ConstantBackoff::new(100, 3);

    assert_eq!(strategy.next_backoff(1), Some(100));
    assert_eq!(strategy.next_backoff(2), Some(100));
    assert_eq!(strategy.next_backoff(3), Some(100));
    assert_eq!(strategy.next_backoff(4), None);
}

#[test]
fn test_linear_backoff() {
    let strategy = LinearBackoff::new(100, 50, 3);

    assert_eq!(strategy.next_backoff(1), Some(100));
    assert_eq!(strategy.next_backoff(2), Some(150));
    assert_eq!(strategy.next_backoff(3), Some(200));
    assert_eq!(strategy.next_backoff(4), None);
}

#[test]
fn test_composite_backoff() {
    let strategies: Vec<Box<dyn BackoffStrategy>> = vec![
        Box::new(ConstantBackoff::new(100, 2)),
        Box::new(LinearBackoff::new(200, 50, 2)),
    ];

    let strategy = CompositeBackoff::new(strategies);

    // First strategy (constant)
    assert_eq!(strategy.next_backoff(1), Some(100));
    assert_eq!(strategy.next_backoff(2), Some(100));

    // Second strategy (linear)
    assert_eq!(strategy.next_backoff(3), Some(200));
    assert_eq!(strategy.next_backoff(4), Some(250));

    // Beyond max attempts
    assert_eq!(strategy.next_backoff(5), None);
}

#[test]
fn test_retry_policy() {
    let mut policy = RetryPolicy::constant(100, 3);

    assert_eq!(policy.current_attempt(), 0);

    // First failure
    assert!(policy.record_failure());
    assert_eq!(policy.current_attempt(), 1);

    // Second failure
    assert!(policy.record_failure());
    assert_eq!(policy.current_attempt(), 2);

    // Third failure
    assert!(policy.record_failure());
    assert_eq!(policy.current_attempt(), 3);

    // Fourth failure (exceeds max)
    assert!(!policy.record_failure());
    assert_eq!(policy.current_attempt(), 4);

    // Reset
    policy.reset();
    assert_eq!(policy.current_attempt(), 0);
}

#[test]
fn linear_wait_grows_between_retries() {
    let strategy = LinearBackoff::new(10, 5, 100);
    let mut previous = strategy.next_backoff(1).unwrap();
    for attempt in 2..=100u32 {
        let wait = strategy.next_backoff(attempt).unwrap();
        assert!(wait >= previous);
        previous = wait;
    }
    assert_eq!(previous, 10 + 5 * 99);
}

#[test]
fn linear_wait_saturates_at_the_maximum() {
    let strategy = LinearBackoff::new(u64::MAX - 1, 10, 5);
    assert_eq!(strategy.next_backoff(1), Some(u64::MAX - 1));
    assert_eq!(strategy.next_backoff(2), Some(u64::MAX));
}

#[test]
fn retry_policy_schedules_from_the_given_time() {
    let mut policy = RetryPolicy::linear(100, 50, 2);
    assert_eq!(policy.time_remaining_at(0), None);
    assert!(policy.record_failure_at(1_000));
    assert!(!policy.is_ready_at(1_099));
    assert!(policy.is_ready_at(1_100));
    assert_eq!(policy.time_remaining_at(1_040), Some(60));
    assert!(policy.record_failure_at(2_000));
    assert_eq!(policy.time_remaining_at(2_000), Some(150));
    assert!(!policy.record_failure_at(3_000));
    assert_eq!(policy.time_remaining_at(3_000), None);
    assert_eq!(policy.max_attempts(), 2);
}

#[test]
fn composite_backoff_counts_all_phases() {
    let strategies: Vec<Box<dyn BackoffStrategy>> = vec![
        Box::new(ConstantBackoff::new(7, 1)),
        Box::new(ConstantBackoff::new(9, 3)),
    ];
    let strategy = CompositeBackoff::new(strategies);
    assert_eq!(strategy.max_attempts(), 4);
    assert_eq!(strategy.next_backoff(1), Some(7));
    assert_eq!(strategy.next_backoff(4), Some(9));
    assert_eq!(strategy.next_backoff(5), None);
}

#[test]
fn retry_policy_follows_the_given_strategy() {
    let mut policy = RetryPolicy::new(Box::new(LinearBackoff::new(100, 50, 2)));
    assert_eq!(policy.max_attempts(), 2);
    assert!(policy.record_failure_at(1000));
    assert_eq!(policy.time_remaining_at(1000), Some(100));
    assert!(policy.record_failure_at(1000));
    assert_eq!(policy.time_remaining_at(1000), Some(150));
    assert!(!policy.record_failure_at(1000));
}

#[test]
fn composite_backoff_reset_keeps_its_phases() {
    let strategies: Vec<Box<dyn BackoffStrategy>> = vec![
        Box::new(ConstantBackoff::new(100, 2)),
        Box::new(LinearBackoff::new(200, 50, 2)),
    ];
    let mut strategy = CompositeBackoff::new(strategies);
    strategy.reset();
    assert_eq!(strategy.max_attempts(), 4);
    assert_eq!(strategy.next_backoff(2), Some(100));
    assert_eq!(strategy.next_backoff(4), Some(250));
    assert_eq!(strategy.next_backoff(5), None);
}

#[test]
fn retry_policy_reset_keeps_its_strategy() {
    let mut policy = RetryPolicy::constant(100, 3);
    for _ in 0..3 {
        assert!(policy.record_failure_at(0));
    }
    assert!(!policy.record_failure_at(0));
    policy.reset();
    assert_eq!(policy.current_attempt(), 0);
    assert_eq!(policy.time_remaining_at(0), None);
    assert!(!policy.is_ready_at(u64::MAX));
    assert_eq!(policy.max_attempts(), 3);
    assert!(policy.record_failure_at(1_000));
    assert_eq!(policy.time_remaining_at(1_000), Some(100));
    assert_eq!(policy.time_remaining_at(1_040), Some(60));
    assert!(policy.is_ready_at(1_100));
}
