use rust_thread_system::core_types::cancellation::cancellation_check;
use rust_thread_system::core_types::{
    CancellationReason, ClosureJob, Job, Priority, PriorityJob, PriorityQueue, ThreadError,
};

#[test]
fn test_error_creation() {
    let err = ThreadError::already_running("main_pool", 8);
    assert!(matches!(err, ThreadError::AlreadyRunning { .. }));

    let err = ThreadError::queue_full(100, 100);
    assert!(matches!(err, ThreadError::QueueFull { .. }));

    let err = ThreadError::execution("job_123", "Panic in task");
    assert!(matches!(err, ThreadError::ExecutionError { .. }));
}

#[test]
fn test_error_display() {
    let err = ThreadError::already_running("worker_pool", 4);
    assert_eq!(
        err.to_string(),
        "Thread pool 'worker_pool' is already running with 4 workers"
    );

    let err = ThreadError::job_timeout("job_456", 5000);
    assert_eq!(err.to_string(), "Job timeout after 5000ms (job_id: job_456)");

    let err = ThreadError::pool_exhausted(8, 8);
    assert_eq!(err.to_string(), "Thread pool exhausted: 8/8 threads busy");
}

#[test]
fn test_spawn_error_with_source() {
    let io_err = std::io::Error::new(std::io::ErrorKind::PermissionDenied, "access denied");
    let err = ThreadError::spawn_with_source(5, "Cannot create thread", io_err);

    assert!(matches!(err, ThreadError::SpawnError { .. }));
    assert!(err.to_string().contains("worker thread #5"));
}

#[test]
fn every_thread_error_has_its_message() {
    assert_eq!(ThreadError::not_running("p").to_string(), "Thread pool 'p' is not running");
    assert_eq!(
        ThreadError::shutting_down(3).to_string(),
        "Thread pool is shutting down (3 jobs pending)"
    );
    assert_eq!(
        ThreadError::queue_full(7, 10).to_string(),
        "Job queue is full: 7/10 jobs queued"
    );
    assert_eq!(
        ThreadError::submission_timeout(250).to_string(),
        "Job submission timed out after 250ms"
    );
    assert_eq!(
        ThreadError::cancelled("j1", "stop").to_string(),
        "Job cancelled (job_id: j1): stop"
    );
    assert_eq!(ThreadError::other("plain").to_string(), "plain");
}

#[test]
fn test_closure_job() {
    let mut job = ClosureJob::new(|| {
        println!("Test job executed");
        Ok(())
    });

    assert_eq!(job.job_type(), "ClosureJob");
    assert!(job.execute().is_ok());
}

#[test]
fn test_closure_job_with_name() {
    let job = ClosureJob::with_name(|| Ok(()), "TestJob");
    assert_eq!(job.job_type(), "TestJob");
}

#[test]
fn closure_job_runs_only_once() {
    let mut job = ClosureJob::new(|| Ok(()));
    assert!(job.execute().is_ok());
    let second = job.execute();
    match second {
        Err(ThreadError::Other(message)) => {
            assert_eq!(message, "ClosureJob already executed - cannot execute twice")
        }
        _ => panic!("a second execution must fail"),
    }
}

#[test]
fn priority_test_priority_ordering() {
    assert!(Priority::Critical > Priority::High);
    assert!(Priority::High > Priority::Normal);
    assert!(Priority::Normal > Priority::Low);
}

#[test]
fn test_priority_value() {
    assert_eq!(Priority::Low.value(), 1);
    assert_eq!(Priority::Normal.value(), 5);
    assert_eq!(Priority::High.value(), 8);
    assert_eq!(Priority::Critical.value(), 10);
}

#[test]
fn test_priority_default() {
    assert_eq!(Priority::default(), Priority::Normal);
}

#[test]
fn test_priority_queue_ordering() {
    let mut queue = PriorityQueue::new();

    // Add jobs with different priorities
    queue.push(PriorityJob::new(Priority::Low, Box::new(ClosureJob::new(|| Ok(()))), 0));
    queue.push(PriorityJob::new(Priority::High, Box::new(ClosureJob::new(|| Ok(()))), 1));
    queue.push(PriorityJob::new(Priority::Normal, Box::new(ClosureJob::new(|| Ok(()))), 2));
    queue.push(PriorityJob::new(Priority::Critical, Box::new(ClosureJob::new(|| Ok(()))), 3));

    // Pop should return in priority order
    assert_eq!(queue.pop().unwrap().priority(), Priority::Critical);
    assert_eq!(queue.pop().unwrap().priority(), Priority::High);
    assert_eq!(queue.pop().unwrap().priority(), Priority::Normal);
    assert_eq!(queue.pop().unwrap().priority(), Priority::Low);
    assert!(queue.pop().is_none());
}

#[test]
fn test_priority_queue_fifo_within_priority() {
    let mut queue = PriorityQueue::new();

    // Add multiple jobs with same priority
    queue.push(PriorityJob::new(Priority::Normal, Box::new(ClosureJob::new(|| Ok(()))), 1));
    queue.push(PriorityJob::new(Priority::Normal, Box::new(ClosureJob::new(|| Ok(()))), 2));
    queue.push(PriorityJob::new(Priority::Normal, Box::new(ClosureJob::new(|| Ok(()))), 3));

    // Should come out in FIFO order (sequence 1, 2, 3)
    assert_eq!(queue.pop().unwrap().sequence(), 1);
    assert_eq!(queue.pop().unwrap().sequence(), 2);
    assert_eq!(queue.pop().unwrap().sequence(), 3);
}

#[test]
fn test_priority_queue_operations() {
    let mut queue = PriorityQueue::new();

    assert!(queue.is_empty());
    assert_eq!(queue.len(), 0);

    queue.push(PriorityJob::new(Priority::Normal, Box::new(ClosureJob::new(|| Ok(()))), 1));

    assert!(!queue.is_empty());
    assert_eq!(queue.len(), 1);

    queue.clear();

    assert!(queue.is_empty());
    assert_eq!(queue.len(), 0);
}

#[test]
fn priority_queue_mixes_levels_and_arrival_order() {
    let mut queue = PriorityQueue::with_capacity(8);
    queue.push(PriorityJob::new(Priority::Low, Box::new(ClosureJob::new(|| Ok(()))), 10));
    queue.push(PriorityJob::new(Priority::High, Box::new(ClosureJob::new(|| Ok(()))), 11));
    queue.push(PriorityJob::new(Priority::Low, Box::new(ClosureJob::new(|| Ok(()))), 12));
    queue.push(PriorityJob::new(Priority::High, Box::new(ClosureJob::new(|| Ok(()))), 13));
    let order: Vec<u64> = (0..4).map(|_| queue.pop().unwrap().sequence()).collect();
    assert_eq!(order, vec![11, 13, 10, 12]);
}

#[test]
fn test_reason_display() {
    assert_eq!(CancellationReason::Manual.to_string(), "manually cancelled");
    assert_eq!(CancellationReason::Timeout(5000).to_string(), "timeout after 5s");
    assert_eq!(CancellationReason::ParentCancelled.to_string(), "parent was cancelled");
    assert_eq!(CancellationReason::Error("test".to_string()).to_string(), "error: test");
    assert_eq!(CancellationReason::Custom("custom msg".to_string()).to_string(), "custom msg");
}

#[test]
fn cancellation_check_reports_the_reason() {
    assert!(cancellation_check(false, &None).is_ok());
    match cancellation_check(true, &Some(CancellationReason::Error("test error".to_string()))) {
        Err(ThreadError::Cancelled { job_id, reason }) => {
            assert_eq!(job_id, "job");
            assert_eq!(reason, "error: test error");
        }
        _ => panic!("a cancelled token must fail the check"),
    }
    match cancellation_check(true, &None) {
        Err(ThreadError::Cancelled { reason, .. }) => assert_eq!(reason, "unknown"),
        _ => panic!("a cancelled token must fail the check"),
    }
}
