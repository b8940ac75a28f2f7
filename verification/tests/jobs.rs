use rust_thread_system::error::{Error, OptionalStringExt};
use rust_thread_system::job::{BasicJobQueue, CallbackJob, Job, JobBatch, JobQueue, RetryableJob};
use rust_thread_system::backoff::RetryPolicy;

#[test]
fn error_test_error_creation() {
    let err = Error::thread_error("test error");
    assert!(matches!(err, Error::ThreadError(_)));

    let err = Error::from("string error");
    assert!(matches!(err, Error::Other(_)));

    let io_err = std::io::Error::new(std::io::ErrorKind::Other, "io error");
    let err = Error::from(io_err);
    assert!(matches!(err, Error::IoError(_)));
}

#[test]
fn test_option_string_ext() {
    let none: Option<String> = None;
    assert!(none.to_result("default error").is_ok());

    let some = Some("error message".to_string());
    assert!(some.to_result("default error").is_err());
}

#[test]
fn error_messages() {
    assert_eq!(Error::thread_error("x").to_string(), "Thread error: x");
    assert_eq!(Error::job_error("x").to_string(), "Job execution failed: x");
    assert_eq!(Error::JobCancelled.to_string(), "Job was cancelled");
    assert_eq!(Error::queue_error("x").to_string(), "Job queue error: x");
    assert_eq!(Error::thread_pool_error("x").to_string(), "Thread pool error: x");
    assert_eq!(Error::lock_error("x").to_string(), "Lock error: x");
    assert_eq!(Error::logger_error("x").to_string(), "Logger error: x");
    assert_eq!(Error::channel_error("x").to_string(), "Channel error: x");
    assert_eq!(Error::other("x").to_string(), "x");
    let io = Error::from(std::io::Error::new(std::io::ErrorKind::Other, "disk"));
    assert_eq!(io.to_string(), "I/O error: disk");
    assert!(matches!(Error::from(String::from("s")), Error::Other(m) if m == "s"));
}

#[test]
fn test_callback_job() {
    let mut job = CallbackJob::new(|| Ok(()), "test job");
    assert_eq!(job.description(), "test job");
    assert!(job.execute().is_ok());

    let mut job = CallbackJob::new(|| Err(Error::job_error("error")), "failing job");
    assert!(job.execute().is_err());
}

#[test]
fn test_basic_job_queue() {
    let mut queue = BasicJobQueue::new();
    assert!(queue.is_empty());

    let job: Box<dyn Job> = Box::new(CallbackJob::new(|| Ok(()), "test job"));
    assert!(queue.enqueue(job).is_ok());

    assert_eq!(queue.len(), 1);
    assert!(!queue.is_empty());

    let dequeued = queue.dequeue();
    assert!(dequeued.is_some());
    assert!(queue.is_empty());
}

#[test]
fn test_job_batch() {
    let mut batch = JobBatch::new("test batch");
    assert!(batch.is_empty());

    batch
        .add(CallbackJob::new(|| Ok(()), "job 1"))
        .add(CallbackJob::new(|| Ok(()), "job 2"));

    assert_eq!(batch.len(), 2);
    assert!(!batch.is_empty());
    assert_eq!(batch.description(), "test batch");
}

#[test]
fn retry_queue_releases_jobs_when_due() {
    let mut queue = BasicJobQueue::new();
    let early: Box<dyn Job> = Box::new(CallbackJob::new(|| Ok(()), "early"));
    let late: Box<dyn Job> = Box::new(CallbackJob::new(|| Ok(()), "late"));
    let later: Box<dyn Job> = Box::new(CallbackJob::new(|| Ok(()), "later"));
    assert!(queue.enqueue_retry(early, 100).is_ok());
    assert!(queue.enqueue_retry(late, 500).is_ok());
    assert!(queue.enqueue_retry(later, 900).is_ok());
    assert_eq!(queue.retry_queue_len(), 3);
    assert_eq!(queue.len(), 3);

    assert!(queue.dequeue_at(50).is_none());
    assert_eq!(queue.retry_queue_len(), 3);

    let first = queue.dequeue_at(500).expect("two jobs are due");
    assert_eq!(queue.retry_queue_len(), 1);
    assert!(first.description() == "early" || first.description() == "late");
    assert!(queue.dequeue_at(500).is_some());
    assert!(queue.dequeue_at(500).is_none());

    queue.clear();
    assert!(queue.is_empty());
}

#[test]
fn retryable_job_counts_attempts() {
    let job = CallbackJob::new(|| Err(Error::job_error("boom")), "flaky");
    let mut retryable = RetryableJob::new(job, RetryPolicy::constant(10, 2));
    assert_eq!(retryable.current_attempt(), 0);
    assert!(!retryable.is_exhausted());
    assert_eq!(retryable.description(), "Retryable(flaky)");

    match retryable.execute_attempt() {
        Err(Error::JobError(message)) => {
            assert!(message.starts_with("Job 'Retryable(flaky)' failed on attempt 1/2, will retry after "));
            assert!(message.ends_with(": Job execution failed: boom"));
        }
        _ => panic!("the attempt must fail"),
    }
    assert_eq!(retryable.current_attempt(), 1);
    match retryable.execute_attempt() {
        Err(Error::JobError(message)) => assert_eq!(
            message,
            "Job 'Retryable(flaky)' failed after 2 attempts: Job execution failed: boom"
        ),
        _ => panic!("the attempt must fail"),
    }
    assert!(retryable.is_exhausted());
    retryable.reset();
    assert_eq!(retryable.current_attempt(), 0);
    assert!(!retryable.is_exhausted());
}

#[test]
fn retryable_job_reports_the_inner_creation_time() {
    let job = CallbackJob::new_at(|| Ok(()), "dated", 42);
    assert_eq!(job.creation_time(), 42);
    let retryable = RetryableJob::new(job, RetryPolicy::constant(10, 2));
    assert_eq!(retryable.creation_time(), 42);
}

#[test]
fn retryable_job_settles_attempts() {
    let job = CallbackJob::new(|| Err(Error::job_error("boom")), "flaky");
    let mut retryable = RetryableJob::new(job, RetryPolicy::constant(10, 2));
    assert!(!retryable.is_ready_for_retry());
    match retryable.settle_attempt_at(Err(Error::job_error("boom")), 1_000) {
        Err(Error::JobError(m)) => assert_eq!(
            m,
            "Job 'Retryable(flaky)' failed on attempt 0/2, will retry after 10ms: Job execution failed: boom"
        ),
        _ => panic!("a failed attempt is reported"),
    }
    assert!(retryable.settle_attempt_at(Ok(()), 1_000).is_ok());
}

#[test]
fn retryable_job_runs_as_a_job() {
    let job = CallbackJob::new(|| Ok(()), "steady");
    let retryable = RetryableJob::new(job, RetryPolicy::constant(10, 2));
    let mut batch = JobBatch::new("retries");
    batch.add(retryable);
    let mut jobs = batch.into_jobs();
    assert_eq!(jobs[0].description(), "Retryable(steady)");
    assert!(jobs[0].execute().is_ok());
}
