//! Thread pool configuration and the rules that turn queue outcomes into
//! the results of submissions.
use vstd::prelude::*;
use vstd::string::*;
use std::sync::Arc;
use crate::core_types::error::{Result, ThreadError};
use crate::core_types::job::BoxedJob;
use crate::core_types::priority::Priority;
use crate::queue::backpressure::BackpressureStrategy;
use crate::queue::capabilities::{JobQueue, QueueError, QueueResult};
use crate::queue::factory::QueueSelection;

verus! {

/// Reads the number of available CPUs through `num_cpus::get`, which is
/// documented to return at least 1; that is all that is claimed.
#[verifier::external_body]
fn available_cpus() -> (n: usize)
    ensures
        n >= 1,
{
    num_cpus::get()
}

/// Configuration of a thread pool. The poll interval is in milliseconds.
#[derive(Clone)]
pub struct ThreadPoolConfig {
    /// Number of worker threads.
    pub num_threads: usize,
    /// Maximum queue size (0 = unbounded).
    pub max_queue_size: usize,
    /// Prefix of worker thread names.
    pub thread_name_prefix: String,
    /// How often workers check for jobs and shutdown, in milliseconds.
    pub poll_interval: u64,
    /// A custom queue, used instead of the one the pool would create.
    pub queue: Option<Arc<Box<dyn JobQueue>>>,
    /// What a submission does when the queue is full.
    pub backpressure_strategy: BackpressureStrategy,
    /// Whether a priority queue is used.
    pub enable_priority: bool,
}

impl ThreadPoolConfig {
    /// Whether a custom queue was supplied.
    pub open spec fn has_custom_queue(self) -> bool {
        self.queue.is_some()
    }

    /// The custom queue, if one was supplied.
    pub fn queue(&self) -> (q: Option<Arc<Box<dyn JobQueue>>>)
        ensures
            q.is_some() == self.has_custom_queue(),
    {
        match &self.queue {
            Some(q) => Some(Arc::clone(q)),
            None => None,
        }
    }
}

impl Default for ThreadPoolConfig {
    fn default() -> (c: Self)
        ensures
            c.num_threads >= 1,
            c.max_queue_size == 10_000,
            c.thread_name_prefix@ == "worker"@,
            c.poll_interval == 100,
            !c.has_custom_queue(),
            c.backpressure_strategy is Block,
            !c.enable_priority,
    {
        ThreadPoolConfig {
            num_threads: available_cpus(),
            max_queue_size: 10_000,
            thread_name_prefix: String::from_str("worker"),
            poll_interval: 100,
            queue: None,
            backpressure_strategy: BackpressureStrategy::Block,
            enable_priority: false,
        }
    }
}

impl ThreadPoolConfig {
    /// Configuration with `num_threads` workers (the number of CPUs when 0)
    /// and default settings otherwise.
    pub fn new(num_threads: usize) -> (c: Self)
        ensures
            num_threads > 0 ==> c.num_threads == num_threads,
            c.num_threads >= 1,
            c.max_queue_size == 10_000,
            c.thread_name_prefix@ == "worker"@,
            c.poll_interval == 100,
            !c.has_custom_queue(),
            c.backpressure_strategy is Block,
            !c.enable_priority,
    {
        let mut c = Self::default();
        if num_threads != 0 {
            c.num_threads = num_threads;
        }
        c
    }

    /// Set the maximum queue size (0 = unbounded).
    pub fn with_max_queue_size(self, size: usize) -> (c: Self)
        ensures
            c == (ThreadPoolConfig { max_queue_size: size, ..self }),
    {
        ThreadPoolConfig { max_queue_size: size, ..self }
    }

    /// Set the worker thread name prefix.
    pub fn with_thread_name_prefix(self, prefix: &str) -> (c: Self)
        ensures
            c.thread_name_prefix@ == prefix@,
            c == (ThreadPoolConfig { thread_name_prefix: c.thread_name_prefix, ..self }),
    {
        ThreadPoolConfig { thread_name_prefix: String::from_str(prefix), ..self }
    }

    /// Set the poll interval in milliseconds; it must be non-zero.
    pub fn with_poll_interval(self, interval: u64) -> (c: Self)
        requires
            interval > 0,
        ensures
            c == (ThreadPoolConfig { poll_interval: interval, ..self }),
    {
        ThreadPoolConfig { poll_interval: interval, ..self }
    }

    /// Set the backpressure strategy.
    pub fn with_backpressure_strategy(self, strategy: BackpressureStrategy) -> (c: Self)
        ensures
            c == (ThreadPoolConfig { backpressure_strategy: strategy, ..self }),
    {
        ThreadPoolConfig { backpressure_strategy: strategy, ..self }
    }

    /// Reject submissions immediately when the queue is full.
    pub fn reject_when_full(self) -> (c: Self)
        ensures
            c == (ThreadPoolConfig { backpressure_strategy: BackpressureStrategy::RejectImmediately, ..self }),
    {
        self.with_backpressure_strategy(BackpressureStrategy::RejectImmediately)
    }

    /// Block at most `timeout` milliseconds when the queue is full.
    pub fn block_with_timeout(self, timeout: u64) -> (c: Self)
        ensures
            c == (ThreadPoolConfig { backpressure_strategy: BackpressureStrategy::BlockWithTimeout(timeout), ..self }),
    {
        self.with_backpressure_strategy(BackpressureStrategy::BlockWithTimeout(timeout))
    }

    /// Use a custom queue.
    pub fn with_queue(self, queue: Arc<Box<dyn JobQueue>>) -> (c: Self)
        ensures
            c.has_custom_queue(),
            c.num_threads == self.num_threads,
            c.max_queue_size == self.max_queue_size,
            c.thread_name_prefix == self.thread_name_prefix,
            c.poll_interval == self.poll_interval,
            c.backpressure_strategy == self.backpressure_strategy,
            c.enable_priority == self.enable_priority,
    {
        ThreadPoolConfig { queue: Some(queue), ..self }
    }

    /// Enable or disable the priority queue.
    pub fn enable_priority(self, enable: bool) -> (c: Self)
        ensures
            c == (ThreadPoolConfig { enable_priority: enable, ..self }),
    {
        ThreadPoolConfig { enable_priority: enable, ..self }
    }

    /// Check the configuration: the number of threads must be positive.
    pub fn validate(&self) -> (r: Result<()>)
        ensures
            self.num_threads == 0 <==> r.is_err(),
            r matches Err(ThreadError::InvalidConfig { parameter: p, message: m })
                ==> p@ == "num_threads"@ && m@ == "Number of threads must be greater than 0"@,
            r is Err ==> r matches Err(ThreadError::InvalidConfig { .. }),
    {
        if self.num_threads == 0 {
            return Err(ThreadError::invalid_config(
                "num_threads",
                "Number of threads must be greater than 0",
            ));
        }
        Ok(())
    }

    /// The queue a pool without a custom queue creates when it starts: a
    /// priority queue when priority is enabled, else a bounded queue of
    /// `max_queue_size` when that is positive, else an unbounded queue.
    pub fn queue_selection(&self) -> (s: QueueSelection)
        ensures
            s == (if self.enable_priority {
                QueueSelection::Priority
            } else if self.max_queue_size > 0 {
                QueueSelection::Bounded(self.max_queue_size)
            } else {
                QueueSelection::Unbounded
            }),
    {
        if self.enable_priority {
            QueueSelection::Priority
        } else if self.max_queue_size > 0 {
            QueueSelection::Bounded(self.max_queue_size)
        } else {
            QueueSelection::Unbounded
        }
    }
}

/// How a failed queue send is reported to the submitter. `full_reported`
/// says whether a full queue is reported as `QueueFull` (otherwise as a send
/// error), and `timeout` is the timeout of a timed send, if any.
pub open spec fn reported_error(
    err: QueueError, queue_len: usize, max_queue_size: usize, full_reported: bool, timeout: Option<u64>,
) -> ThreadError {
    match err {
        QueueError::Closed(_) => ThreadError::ShuttingDown { pending_jobs: 0 },
        QueueError::Full(_) => if full_reported {
            ThreadError::QueueFull { current: queue_len, max: max_queue_size }
        } else {
            ThreadError::QueueSendError
        },
        QueueError::Timeout(_) => match timeout {
            Some(t) => ThreadError::SubmissionTimeout { timeout_ms: t },
            None => ThreadError::QueueSendError,
        },
        _ => ThreadError::QueueSendError,
    }
}

/// Report a failed queue send to the submitter.
pub fn report_send_error(
    err: QueueError, queue_len: usize, max_queue_size: usize, full_reported: bool, timeout: Option<u64>,
) -> (e: ThreadError)
    ensures
        e == reported_error(err, queue_len, max_queue_size, full_reported, timeout),
{
    match err {
        QueueError::Closed(_) => ThreadError::shutting_down(0),
        QueueError::Full(_) => if full_reported {
            ThreadError::queue_full(queue_len, max_queue_size)
        } else {
            ThreadError::QueueSendError
        },
        QueueError::Timeout(_) => match timeout {
            Some(t) => ThreadError::submission_timeout(t),
            None => ThreadError::QueueSendError,
        },
        _ => ThreadError::QueueSendError,
    }
}

/// The result of a submission whose send gave `sent`, with `queue_len`
/// jobs queued when it failed: success, or the report of the queue error.
pub open spec fn sent_result(
    sent: QueueResult<()>, queue_len: usize, max_queue_size: usize, full_reported: bool, timeout: Option<u64>,
) -> Result<()> {
    match sent {
        Ok(_) => Ok(()),
        Err(e) => Err(reported_error(e, queue_len, max_queue_size, full_reported, timeout)),
    }
}

/// Whether `r` is the result of a send whose failure is reported with
/// `full_reported` and `timeout`, for some result of the queue's send and
/// some queue length at the time.
pub open spec fn send_result(r: Result<()>, max_queue_size: usize, full_reported: bool, timeout: Option<u64>) -> bool {
    exists|sent: QueueResult<()>, n: usize| r == #[trigger] sent_result(sent, n, max_queue_size, full_reported, timeout)
}

/// The result of a submission that drops the new job when the queue is
/// full, given the result `sent` of the non-blocking send: a full queue
/// counts as success, a closed one as shutting down, any other failure as a
/// send error.
pub open spec fn drop_newest_result(sent: QueueResult<()>) -> Result<()> {
    match sent {
        Ok(_) => Ok(()),
        Err(QueueError::Full(_)) => Ok(()),
        Err(QueueError::Closed(_)) => Err(ThreadError::ShuttingDown { pending_jobs: 0 }),
        Err(_) => Err(ThreadError::QueueSendError),
    }
}

/// The result of a drop-newest submission whose send gave `sent`.
pub fn drop_newest_outcome(sent: QueueResult<()>) -> (r: Result<()>)
    ensures
        r == drop_newest_result(sent),
{
    match sent {
        Ok(()) => Ok(()),
        Err(QueueError::Full(_)) => Ok(()),
        Err(QueueError::Closed(_)) => Err(ThreadError::shutting_down(0)),
        Err(_) => Err(ThreadError::QueueSendError),
    }
}

/// The first step of a custom-handled submission, given the result `sent`
/// of the non-blocking send: `None` when the queue was full and gave the
/// job back, so that the handler is asked; otherwise the submission's
/// result: success, shutting down for a closed queue, a send error for any
/// other failure (a full queue that kept the job among them).
pub open spec fn custom_sent(sent: QueueResult<()>) -> Option<Result<()>> {
    match sent {
        Ok(_) => Some(Ok(())),
        Err(QueueError::Full(holder)) => if holder.job is Some {
            None
        } else {
            Some(Err(ThreadError::QueueSendError))
        },
        Err(QueueError::Closed(_)) => Some(Err(ThreadError::ShuttingDown { pending_jobs: 0 })),
        Err(_) => Some(Err(ThreadError::QueueSendError)),
    }
}

/// The second step of a custom-handled submission, given the handler's
/// result `handled`: `None` when it hands back a job to send again;
/// success when it drops the job; its error when it fails.
pub open spec fn custom_handled(handled: Result<Option<BoxedJob>>) -> Option<Result<()>> {
    match handled {
        Ok(Some(_)) => None,
        Ok(None) => Some(Ok(())),
        Err(e) => Some(Err(e)),
    }
}

/// The result of sending again the job a handler handed back, given the
/// send's result `resent`: success, or the report of the queue error.
pub open spec fn resend_result(resent: QueueResult<()>, max_queue_size: usize) -> Result<()> {
    match resent {
        Ok(_) => Ok(()),
        Err(e) => Err(reported_error(e, 0, max_queue_size, false, None)),
    }
}

/// The result of a custom-handled submission whose non-blocking send gave
/// `sent`, whose handler gave `handled` and whose second send gave
/// `resent`, each step taken only where the one before calls for it.
pub open spec fn custom_result(
    sent: QueueResult<()>, handled: Result<Option<BoxedJob>>, resent: QueueResult<()>, max_queue_size: usize,
) -> Result<()> {
    match custom_sent(sent) {
        Some(done) => done,
        None => match custom_handled(handled) {
            Some(done) => done,
            None => resend_result(resent, max_queue_size),
        },
    }
}

/// The first step of a custom-handled submission (see `custom_sent`): the
/// job given back by a full queue, or the submission's result.
pub fn custom_sent_step(sent: QueueResult<()>) -> (step: std::result::Result<BoxedJob, Result<()>>)
    ensures
        match custom_sent(sent) {
            Some(done) => step == Err::<BoxedJob, Result<()>>(done),
            None => step is Ok,
        },
{
    match sent {
        Ok(()) => Err(Ok(())),
        Err(QueueError::Full(holder)) => match holder.take() {
            Some(job) => Ok(job),
            None => Err(Err(ThreadError::QueueSendError)),
        },
        Err(QueueError::Closed(_)) => Err(Err(ThreadError::shutting_down(0))),
        Err(_) => Err(Err(ThreadError::QueueSendError)),
    }
}

/// The second step of a custom-handled submission (see `custom_handled`):
/// the job to send again, or the submission's result.
pub fn custom_handled_step(handled: Result<Option<BoxedJob>>) -> (step: std::result::Result<BoxedJob, Result<()>>)
    ensures
        match custom_handled(handled) {
            Some(done) => step == Err::<BoxedJob, Result<()>>(done),
            None => step is Ok,
        },
{
    match handled {
        Ok(Some(job)) => Ok(job),
        Ok(None) => Err(Ok(())),
        Err(e) => Err(Err(e)),
    }
}

/// The result of sending again a job a handler handed back (see
/// `resend_result`).
pub fn resend_outcome(resent: QueueResult<()>, max_queue_size: usize) -> (r: Result<()>)
    ensures
        r == resend_result(resent, max_queue_size),
{
    match resent {
        Ok(()) => Ok(()),
        Err(e) => Err(report_send_error(e, 0, max_queue_size, false, None)),
    }
}

/// The check a submission passes first: success while the pool runs, the
/// not-running error naming the pool otherwise.
pub fn submission_allowed(running: bool, pool_name: &str) -> (r: Result<()>)
    ensures
        running ==> r is Ok,
        !running ==> (r matches Err(ThreadError::NotRunning { pool_name: p }) && p@ == pool_name@),
{
    if running {
        Ok(())
    } else {
        Err(ThreadError::not_running(pool_name))
    }
}

/// The count of accepted submissions after one whose result is `result`:
/// one more when it succeeded (wrapping, as the counter does), the same
/// otherwise.
pub fn count_submission(total: u64, result: &Result<()>) -> (n: u64)
    ensures
        n == (if result is Ok { if total == u64::MAX { 0 } else { (total + 1) as u64 } } else { total }),
{
    if result.is_ok() {
        if total == u64::MAX { 0 } else { total + 1 }
    } else {
        total
    }
}

/// Submit a job to `queue` following `strategy` when the queue is full:
/// block (`Block`, and `DropOldest`, which falls back to blocking), block at
/// most a timeout, reject at once, silently drop the new job, or ask a
/// custom handler. `max_queue_size` is the size reported in `QueueFull`.
pub fn submit_with_backpressure(
    queue: &dyn JobQueue,
    strategy: &BackpressureStrategy,
    max_queue_size: usize,
    job: BoxedJob,
) -> (r: Result<()>)
    ensures
        match *strategy {
            BackpressureStrategy::Block => exists|sent: QueueResult<()>, n: usize| queue.sends(sent)
                && r == #[trigger] sent_result(sent, n, max_queue_size, true, None),
            BackpressureStrategy::DropOldest => exists|sent: QueueResult<()>, n: usize| queue.sends(sent)
                && r == #[trigger] sent_result(sent, n, max_queue_size, true, None),
            BackpressureStrategy::RejectImmediately => exists|sent: QueueResult<()>, n: usize| queue.try_sends(sent)
                && r == #[trigger] sent_result(sent, n, max_queue_size, true, None),
            BackpressureStrategy::BlockWithTimeout(t) => exists|sent: QueueResult<()>, n: usize| queue.sends_within(t, sent)
                && r == #[trigger] sent_result(sent, n, max_queue_size, true, Some(t)),
            BackpressureStrategy::DropNewest => exists|sent: QueueResult<()>| queue.try_sends(sent)
                && r == #[trigger] drop_newest_result(sent),
            BackpressureStrategy::Custom(handler) => exists|sent: QueueResult<()>, handled: Result<Option<BoxedJob>>, resent: QueueResult<()>|
                queue.try_sends(sent)
                && (custom_sent(sent) is None ==> handler.handles(handled))
                && (custom_sent(sent) is None && custom_handled(handled) is None ==> queue.sends(resent))
                && r == #[trigger] custom_result(sent, handled, resent, max_queue_size),
        },
{
    match strategy {
        BackpressureStrategy::Block => send_blocking(queue, max_queue_size, job),
        BackpressureStrategy::DropOldest => send_blocking(queue, max_queue_size, job),
        BackpressureStrategy::BlockWithTimeout(timeout) => send_timeout_to(queue, max_queue_size, job, *timeout),
        BackpressureStrategy::RejectImmediately => try_send_to(queue, max_queue_size, job),
        BackpressureStrategy::DropNewest => {
            let sent = queue.try_send(job);
            let r = drop_newest_outcome(sent);
            proof { assert(queue.try_sends(sent) && r == drop_newest_result(sent)); }
            r
        },
        BackpressureStrategy::Custom(handler) => {
            let sent = queue.try_send(job);
            match custom_sent_step(sent) {
                Err(done) => {
                    proof {
                        let handled: Result<Option<BoxedJob>> = Ok(None);
                        let resent: QueueResult<()> = Ok(());
                        assert(queue.try_sends(sent) && done == custom_result(sent, handled, resent, max_queue_size));
                    }
                    done
                },
                Ok(job) => {
                    let handled = handler.handle_backpressure(job);
                    match custom_handled_step(handled) {
                        Err(done) => {
                            proof {
                                let resent: QueueResult<()> = Ok(());
                                assert(handler.handles(handled));
                                assert(done == custom_result(sent, handled, resent, max_queue_size));
                            }
                            done
                        },
                        Ok(retry_job) => {
                            let resent = queue.send(retry_job);
                            let r = resend_outcome(resent, max_queue_size);
                            proof { assert(r == custom_result(sent, handled, resent, max_queue_size)); }
                            r
                        },
                    }
                },
            }
        },
    }
}

/// The result of a send that gave `sent`, with `queue_len` jobs queued when
/// it failed (see `sent_result`).
pub fn sent_outcome(
    sent: QueueResult<()>, queue_len: usize, max_queue_size: usize, full_reported: bool, timeout: Option<u64>,
) -> (r: Result<()>)
    ensures
        r == sent_result(sent, queue_len, max_queue_size, full_reported, timeout),
{
    match sent {
        Ok(()) => Ok(()),
        Err(e) => Err(report_send_error(e, queue_len, max_queue_size, full_reported, timeout)),
    }
}

/// The number of jobs in `queue` after a send that gave `sent`; 0 after a
/// successful one, whose result does not report it.
fn length_after<Q: JobQueue + ?Sized>(queue: &Q, sent: &QueueResult<()>) -> usize {
    match sent {
        Ok(()) => 0,
        Err(_) => queue.len(),
    }
}

/// Send a job with a blocking send, reporting a full queue as `QueueFull`.
pub fn send_blocking<Q: JobQueue + ?Sized>(queue: &Q, max_queue_size: usize, job: BoxedJob) -> (r: Result<()>)
    ensures
        exists|sent: QueueResult<()>, n: usize| queue.sends(sent)
            && r == #[trigger] sent_result(sent, n, max_queue_size, true, None),
{
    let sent = queue.send(job);
    let n = length_after(queue, &sent);
    sent_outcome(sent, n, max_queue_size, true, None)
}

/// Send a job without blocking, reporting a full queue as `QueueFull`.
pub fn try_send_to<Q: JobQueue + ?Sized>(queue: &Q, max_queue_size: usize, job: BoxedJob) -> (r: Result<()>)
    ensures
        exists|sent: QueueResult<()>, n: usize| queue.try_sends(sent)
            && r == #[trigger] sent_result(sent, n, max_queue_size, true, None),
{
    let sent = queue.try_send(job);
    let n = length_after(queue, &sent);
    sent_outcome(sent, n, max_queue_size, true, None)
}

/// Send a job waiting at most `timeout` milliseconds, reporting a timeout as
/// `SubmissionTimeout` and a full queue as `QueueFull`.
pub fn send_timeout_to<Q: JobQueue + ?Sized>(queue: &Q, max_queue_size: usize, job: BoxedJob, timeout: u64) -> (r: Result<()>)
    ensures
        exists|sent: QueueResult<()>, n: usize| queue.sends_within(timeout, sent)
            && r == #[trigger] sent_result(sent, n, max_queue_size, true, Some(timeout)),
{
    let sent = queue.send_timeout(job, timeout);
    let n = length_after(queue, &sent);
    sent_outcome(sent, n, max_queue_size, true, Some(timeout))
}

/// Send a job with a priority, reporting a full queue as `QueueFull`.
/// `send_with_priority` is a method that queues may override, so the result
/// of the queue's call is not described.
pub fn send_with_priority_to<Q: JobQueue + ?Sized>(queue: &Q, max_queue_size: usize, job: BoxedJob, priority: Priority) -> (r: Result<()>)
    ensures
        send_result(r, max_queue_size, true, None),
{
    let sent = queue.send_with_priority(job, priority);
    let n = length_after(queue, &sent);
    sent_outcome(sent, n, max_queue_size, true, None)
}

} // verus!
