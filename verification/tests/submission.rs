use rust_thread_system::pool::thread_pool::{
    count_submission, custom_handled_step, custom_sent_step, drop_newest_outcome, resend_outcome, submission_allowed,
};
use std::sync::atomic::{AtomicBool, Ordering};
use std::sync::{Arc, Mutex};

use rust_thread_system::core_types::{BoxedJob, ClosureJob, Job, Result, ThreadError};

use rust_thread_system::pool::thread_pool::submit_with_backpressure;
use rust_thread_system::queue::{
    require_capabilities, BackpressureHandler, BackpressureStrategy, BoxedJobHolder,
    CapabilityFlags, JobQueue, QueueCapabilities, QueueError, QueueResult,
};

/// A queue for the tests: bounded by `capacity` (0 for unbounded), never
/// blocking; a send to a full queue fails at once.
struct TestQueue {
    jobs: Mutex<Vec<BoxedJob>>,
    capacity: usize,
    closed: AtomicBool,
}

impl TestQueue {
    fn new(capacity: usize) -> Self {
        TestQueue { jobs: Mutex::new(Vec::new()), capacity, closed: AtomicBool::new(false) }
    }

    fn push(&self, job: BoxedJob, full: fn(BoxedJobHolder) -> QueueError) -> QueueResult<()> {
        if self.closed.load(Ordering::SeqCst) {
            return Err(QueueError::Closed(BoxedJobHolder::new(job)));
        }
        let mut jobs = self.jobs.lock().unwrap();
        if self.capacity > 0 && jobs.len() >= self.capacity {
            return Err(full(BoxedJobHolder::new(job)));
        }
        jobs.push(job);
        Ok(())
    }

    fn pop(&self) -> QueueResult<BoxedJob> {
        let mut jobs = self.jobs.lock().unwrap();
        if jobs.is_empty() {
            if self.closed.load(Ordering::SeqCst) {
                Err(QueueError::Disconnected)
            } else {
                Err(QueueError::Empty)
            }
        } else {
            Ok(jobs.remove(0))
        }
    }
}

impl JobQueue for TestQueue {
    fn sends(&self, _r: QueueResult<()>) -> bool {
        true
    }

    fn try_sends(&self, _r: QueueResult<()>) -> bool {
        true
    }

    fn sends_within(&self, _timeout: u64, _r: QueueResult<()>) -> bool {
        true
    }

    fn spec_capabilities(&self) -> QueueCapabilities {
        self.capabilities()
    }

    fn send(&self, job: BoxedJob) -> QueueResult<()> {
        self.push(job, QueueError::Full)
    }

    fn try_send(&self, job: BoxedJob) -> QueueResult<()> {
        self.push(job, QueueError::Full)
    }

    fn send_timeout(&self, job: BoxedJob, _timeout: u64) -> QueueResult<()> {
        self.push(job, QueueError::Timeout)
    }

    fn recv(&self) -> QueueResult<BoxedJob> {
        self.pop()
    }

    fn try_recv(&self) -> QueueResult<BoxedJob> {
        self.pop()
    }

    fn recv_timeout(&self, _timeout: u64) -> QueueResult<BoxedJob> {
        self.pop()
    }

    fn close(&self) {
        self.closed.store(true, Ordering::SeqCst);
    }

    fn is_closed(&self) -> bool {
        self.closed.load(Ordering::SeqCst)
    }

    fn len(&self) -> usize {
        self.jobs.lock().unwrap().len()
    }

    fn capabilities(&self) -> QueueCapabilities {
        if self.capacity > 0 {
            QueueCapabilities::bounded_channel(self.capacity)
        } else {
            QueueCapabilities::unbounded_channel()
        }
    }
}

fn job(name: &str) -> BoxedJob {
    Box::new(ClosureJob::with_name(|| Ok(()), name))
}

#[test]
fn block_reports_a_full_queue() {
    let queue = TestQueue::new(1);
    assert!(submit_with_backpressure(&queue, &BackpressureStrategy::Block, 1, job("a")).is_ok());
    match submit_with_backpressure(&queue, &BackpressureStrategy::Block, 1, job("b")) {
        Err(ThreadError::QueueFull { current, max }) => {
            assert_eq!(current, 1);
            assert_eq!(max, 1);
        }
        _ => panic!("a full queue is reported"),
    }
}

#[test]
fn reject_immediately_reports_a_full_queue() {
    let queue = TestQueue::new(1);
    assert!(submit_with_backpressure(&queue, &BackpressureStrategy::RejectImmediately, 1, job("a")).is_ok());
    let r = submit_with_backpressure(&queue, &BackpressureStrategy::RejectImmediately, 1, job("b"));
    assert!(matches!(r, Err(ThreadError::QueueFull { current: 1, max: 1 })));
}

#[test]
fn drop_newest_drops_silently() {
    let queue = TestQueue::new(1);
    assert!(submit_with_backpressure(&queue, &BackpressureStrategy::DropNewest, 1, job("a")).is_ok());
    assert!(submit_with_backpressure(&queue, &BackpressureStrategy::DropNewest, 1, job("b")).is_ok());
    assert_eq!(queue.len(), 1);
    assert_eq!(queue.try_recv().ok().unwrap().job_type(), "a");
}

#[test]
fn block_with_timeout_reports_the_timeout() {
    let queue = TestQueue::new(1);
    let strategy = BackpressureStrategy::BlockWithTimeout(50);
    assert!(submit_with_backpressure(&queue, &strategy, 1, job("a")).is_ok());
    let r = submit_with_backpressure(&queue, &strategy, 1, job("b"));
    assert!(matches!(r, Err(ThreadError::SubmissionTimeout { timeout_ms: 50 })));
}

#[test]
fn closed_queue_reports_shutdown() {
    let queue = TestQueue::new(0);
    queue.close();
    let r = submit_with_backpressure(&queue, &BackpressureStrategy::Block, 0, job("a"));
    assert!(matches!(r, Err(ThreadError::ShuttingDown { pending_jobs: 0 })));
    let r = submit_with_backpressure(&queue, &BackpressureStrategy::DropNewest, 0, job("a"));
    assert!(matches!(r, Err(ThreadError::ShuttingDown { pending_jobs: 0 })));
}

struct Refuse;

impl BackpressureHandler for Refuse {
    fn handles(&self, _r: Result<Option<BoxedJob>>) -> bool {
        true
    }

    fn handle_backpressure(&self, _job: BoxedJob) -> Result<Option<BoxedJob>> {
        Err(ThreadError::queue_full(0, 0))
    }
}

struct Retry;

impl BackpressureHandler for Retry {
    fn handles(&self, _r: Result<Option<BoxedJob>>) -> bool {
        true
    }

    fn handle_backpressure(&self, job: BoxedJob) -> Result<Option<BoxedJob>> {
        Ok(Some(job))
    }
}

struct Discard;

impl BackpressureHandler for Discard {
    fn handles(&self, _r: Result<Option<BoxedJob>>) -> bool {
        true
    }

    fn handle_backpressure(&self, _job: BoxedJob) -> Result<Option<BoxedJob>> {
        Ok(None)
    }
}

fn custom(handler: Box<dyn BackpressureHandler>) -> BackpressureStrategy {
    BackpressureStrategy::Custom(Arc::new(handler))
}

#[test]
fn custom_handler_decides() {
    let queue = TestQueue::new(1);
    assert!(submit_with_backpressure(&queue, &custom(Box::new(Discard)), 1, job("a")).is_ok());
    assert!(submit_with_backpressure(&queue, &custom(Box::new(Discard)), 1, job("b")).is_ok());
    assert_eq!(queue.len(), 1);

    let r = submit_with_backpressure(&queue, &custom(Box::new(Refuse)), 1, job("c"));
    assert!(matches!(r, Err(ThreadError::QueueFull { current: 0, max: 0 })));

    let r = submit_with_backpressure(&queue, &custom(Box::new(Retry)), 1, job("d"));
    assert!(matches!(r, Err(ThreadError::QueueSendError)));
}

#[test]
fn test_require_capabilities_success() {
    let queue = TestQueue::new(0);
    assert!(require_capabilities(&queue, CapabilityFlags::LOCK_FREE).is_ok());
    assert!(require_capabilities(&queue, CapabilityFlags::UNBOUNDED).is_ok());
    assert!(require_capabilities(&queue, CapabilityFlags::MPMC).is_ok());
}

#[test]
fn test_require_capabilities_failure() {
    let queue = TestQueue::new(0);
    let result = require_capabilities(&queue, CapabilityFlags::PRIORITY);
    assert!(result.is_err());

    let err = result.unwrap_err();
    assert!(err.to_string().contains("priority"));
    assert!(err.to_string().contains("crossbeam::channel::unbounded"));
}

#[test]
fn test_job_queue_supports() {
    let queue = TestQueue::new(0);
    assert!(queue.supports(CapabilityFlags::LOCK_FREE));
    assert!(queue.supports(CapabilityFlags::MPMC));
    assert!(!queue.supports(CapabilityFlags::PRIORITY));
    assert!(!queue.supports(CapabilityFlags::BOUNDED));
}

fn holder_job() -> BoxedJob {
    Box::new(ClosureJob::with_name(|| Ok(()), "held"))
}

#[test]
fn drop_newest_outcomes_follow_the_send() {
    assert!(drop_newest_outcome(Ok(())).is_ok());
    assert!(drop_newest_outcome(Err(QueueError::Full(BoxedJobHolder::new(holder_job())))).is_ok());
    assert!(matches!(
        drop_newest_outcome(Err(QueueError::Closed(BoxedJobHolder::new(holder_job())))),
        Err(ThreadError::ShuttingDown { pending_jobs: 0 })
    ));
    assert!(matches!(drop_newest_outcome(Err(QueueError::Disconnected)), Err(ThreadError::QueueSendError)));
}

#[test]
fn custom_steps_follow_the_results() {
    match custom_sent_step(Err(QueueError::Full(BoxedJobHolder::new(holder_job())))) {
        Ok(job) => assert_eq!(job.job_type(), "held"),
        Err(_) => panic!("a full queue that gives the job back asks the handler"),
    }
    assert!(matches!(custom_sent_step(Ok(())), Err(Ok(()))));
    assert!(matches!(
        custom_sent_step(Err(QueueError::Closed(BoxedJobHolder::new(holder_job())))),
        Err(Err(ThreadError::ShuttingDown { pending_jobs: 0 }))
    ));
    assert!(matches!(custom_handled_step(Ok(None)), Err(Ok(()))));
    assert!(matches!(custom_handled_step(Ok(Some(holder_job()))), Ok(_)));
    assert!(matches!(custom_handled_step(Err(ThreadError::QueueSendError)), Err(Err(ThreadError::QueueSendError))));
    assert!(resend_outcome(Ok(()), 5).is_ok());
    assert!(matches!(
        resend_outcome(Err(QueueError::Full(BoxedJobHolder::new(holder_job()))), 5),
        Err(ThreadError::QueueSendError)
    ));
}

#[test]
fn holder_gives_back_its_job() {
    let holder = BoxedJobHolder::new(holder_job());
    assert_eq!(holder.as_ref().unwrap().job_type(), "held");
    assert_eq!(holder.take().unwrap().job_type(), "held");
}

#[test]
fn submissions_need_a_running_pool() {
    assert!(submission_allowed(true, "pool").is_ok());
    match submission_allowed(false, "pool") {
        Err(ThreadError::NotRunning { pool_name }) => assert_eq!(pool_name, "pool"),
        _ => panic!("a stopped pool refuses submissions"),
    }
}

#[test]
fn accepted_submissions_are_counted() {
    assert_eq!(count_submission(5, &Ok(())), 6);
    assert_eq!(count_submission(5, &Err(ThreadError::QueueSendError)), 5);
    assert_eq!(count_submission(u64::MAX, &Ok(())), 0);
}
