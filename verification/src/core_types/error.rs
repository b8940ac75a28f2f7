//! Error type of the thread system.
use vstd::prelude::*;
use vstd::string::*;
use crate::text::{decimal, decimal_text};

verus! {

#[verifier::external_type_specification]
#[verifier::external_body]
pub struct ExIoError(std::io::Error);

/// Result type for thread system operations.
pub type Result<T> = std::result::Result<T, ThreadError>;

/// Errors that can occur in the thread system.
#[derive(Debug)]
#[non_exhaustive]
pub enum ThreadError {
    /// Thread pool is already running.
    AlreadyRunning { pool_name: String, worker_count: usize },
    /// Thread pool is not running.
    NotRunning { pool_name: String },
    /// Thread pool is shutting down.
    ShuttingDown { pending_jobs: usize },
    /// Failed to spawn a worker thread.
    SpawnError { thread_id: usize, message: String, source: Option<std::io::Error> },
    /// Failed to join a worker thread.
    JoinError { thread_id: usize, message: String },
    /// Job execution failed.
    ExecutionError { job_id: String, message: String },
    /// Job was cancelled.
    Cancelled { job_id: String, reason: String },
    /// Job timed out.
    JobTimeout { job_id: String, timeout_ms: u64 },
    /// Queue is full.
    QueueFull { current: usize, max: usize },
    /// Sending to the queue failed.
    QueueSendError,
    /// Job submission timed out waiting for queue space.
    SubmissionTimeout { timeout_ms: u64 },
    /// Invalid configuration.
    InvalidConfig { parameter: String, message: String },
    /// A worker panicked.
    WorkerPanic { thread_id: usize, message: String },
    /// All threads are busy.
    PoolExhausted { active: usize, total: usize },
    /// General error.
    Other(String),
}

/// The human-readable message of an error.
pub open spec fn thread_error_text(e: ThreadError) -> Seq<char> {
    match e {
        ThreadError::AlreadyRunning { pool_name, worker_count } =>
            "Thread pool '"@ + pool_name@ + "' is already running with "@
                + decimal_text(worker_count as nat) + " workers"@,
        ThreadError::NotRunning { pool_name } =>
            "Thread pool '"@ + pool_name@ + "' is not running"@,
        ThreadError::ShuttingDown { pending_jobs } =>
            "Thread pool is shutting down ("@ + decimal_text(pending_jobs as nat) + " jobs pending)"@,
        ThreadError::SpawnError { thread_id, message, source } =>
            "Failed to spawn worker thread #"@ + decimal_text(thread_id as nat) + ": "@ + message@,
        ThreadError::JoinError { thread_id, message } =>
            "Failed to join worker thread #"@ + decimal_text(thread_id as nat) + ": "@ + message@,
        ThreadError::ExecutionError { job_id, message } =>
            "Job execution failed (job_id: "@ + job_id@ + "): "@ + message@,
        ThreadError::Cancelled { job_id, reason } =>
            "Job cancelled (job_id: "@ + job_id@ + "): "@ + reason@,
        ThreadError::JobTimeout { job_id, timeout_ms } =>
            "Job timeout after "@ + decimal_text(timeout_ms as nat) + "ms (job_id: "@ + job_id@ + ")"@,
        ThreadError::QueueFull { current, max } =>
            "Job queue is full: "@ + decimal_text(current as nat) + "/"@ + decimal_text(max as nat)
                + " jobs queued"@,
        ThreadError::QueueSendError => "Failed to send job to queue"@,
        ThreadError::SubmissionTimeout { timeout_ms } =>
            "Job submission timed out after "@ + decimal_text(timeout_ms as nat) + "ms"@,
        ThreadError::InvalidConfig { parameter, message } =>
            "Invalid configuration for '"@ + parameter@ + "': "@ + message@,
        ThreadError::WorkerPanic { thread_id, message } =>
            "Worker thread #"@ + decimal_text(thread_id as nat) + " panicked: "@ + message@,
        ThreadError::PoolExhausted { active, total } =>
            "Thread pool exhausted: "@ + decimal_text(active as nat) + "/"@ + decimal_text(total as nat)
                + " threads busy"@,
        ThreadError::Other(msg) => msg@,
    }
}

impl ThreadError {
    /// Create an already running error.
    pub fn already_running(pool_name: &str, worker_count: usize) -> (e: Self)
        ensures
            e matches ThreadError::AlreadyRunning { pool_name: p, worker_count: w }
                && p@ == pool_name@ && w == worker_count,
    {
        ThreadError::AlreadyRunning { pool_name: String::from_str(pool_name), worker_count }
    }

    /// Create a not running error.
    pub fn not_running(pool_name: &str) -> (e: Self)
        ensures
            e matches ThreadError::NotRunning { pool_name: p } && p@ == pool_name@,
    {
        ThreadError::NotRunning { pool_name: String::from_str(pool_name) }
    }

    /// Create a shutting down error.
    pub fn shutting_down(pending_jobs: usize) -> (e: Self)
        ensures
            e matches ThreadError::ShuttingDown { pending_jobs: n } && n == pending_jobs,
    {
        ThreadError::ShuttingDown { pending_jobs }
    }

    /// Create a spawn error.
    pub fn spawn(thread_id: usize, message: &str) -> (e: Self)
        ensures
            e matches ThreadError::SpawnError { thread_id: t, message: m, source: s }
                && t == thread_id && m@ == message@ && s.is_none(),
    {
        ThreadError::SpawnError { thread_id, message: String::from_str(message), source: None }
    }

    /// Create a spawn error with its I/O cause.
    pub fn spawn_with_source(thread_id: usize, message: &str, source: std::io::Error) -> (e: Self)
        ensures
            e matches ThreadError::SpawnError { thread_id: t, message: m, source: s }
                && t == thread_id && m@ == message@ && s == Some(source),
    {
        ThreadError::SpawnError { thread_id, message: String::from_str(message), source: Some(source) }
    }

    /// Create a join error.
    pub fn join(thread_id: usize, message: &str) -> (e: Self)
        ensures
            e matches ThreadError::JoinError { thread_id: t, message: m }
                && t == thread_id && m@ == message@,
    {
        ThreadError::JoinError { thread_id, message: String::from_str(message) }
    }

    /// Create an execution error.
    pub fn execution(job_id: &str, message: &str) -> (e: Self)
        ensures
            e matches ThreadError::ExecutionError { job_id: j, message: m }
                && j@ == job_id@ && m@ == message@,
    {
        ThreadError::ExecutionError { job_id: String::from_str(job_id), message: String::from_str(message) }
    }

    /// Create a cancelled error.
    pub fn cancelled(job_id: &str, reason: &str) -> (e: Self)
        ensures
            e matches ThreadError::Cancelled { job_id: j, reason: r }
                && j@ == job_id@ && r@ == reason@,
    {
        ThreadError::Cancelled { job_id: String::from_str(job_id), reason: String::from_str(reason) }
    }

    /// Create a job timeout error.
    pub fn job_timeout(job_id: &str, timeout_ms: u64) -> (e: Self)
        ensures
            e matches ThreadError::JobTimeout { job_id: j, timeout_ms: t }
                && j@ == job_id@ && t == timeout_ms,
    {
        ThreadError::JobTimeout { job_id: String::from_str(job_id), timeout_ms }
    }

    /// Create a queue full error.
    pub fn queue_full(current: usize, max: usize) -> (e: Self)
        ensures
            e matches ThreadError::QueueFull { current: c, max: m } && c == current && m == max,
    {
        ThreadError::QueueFull { current, max }
    }

    /// Create an invalid configuration error.
    pub fn invalid_config(parameter: &str, message: &str) -> (e: Self)
        ensures
            e matches ThreadError::InvalidConfig { parameter: p, message: m }
                && p@ == parameter@ && m@ == message@,
    {
        ThreadError::InvalidConfig { parameter: String::from_str(parameter), message: String::from_str(message) }
    }

    /// Create a submission timeout error.
    pub fn submission_timeout(timeout_ms: u64) -> (e: Self)
        ensures
            e matches ThreadError::SubmissionTimeout { timeout_ms: t } && t == timeout_ms,
    {
        ThreadError::SubmissionTimeout { timeout_ms }
    }

    /// Create a worker panic error.
    pub fn worker_panic(thread_id: usize, message: &str) -> (e: Self)
        ensures
            e matches ThreadError::WorkerPanic { thread_id: t, message: m }
                && t == thread_id && m@ == message@,
    {
        ThreadError::WorkerPanic { thread_id, message: String::from_str(message) }
    }

    /// Create a pool exhausted error.
    pub fn pool_exhausted(active: usize, total: usize) -> (e: Self)
        ensures
            e matches ThreadError::PoolExhausted { active: a, total: t } && a == active && t == total,
    {
        ThreadError::PoolExhausted { active, total }
    }

    /// Create a generic error.
    pub fn other(msg: &str) -> (e: Self)
        ensures
            e matches ThreadError::Other(m) && m@ == msg@,
    {
        ThreadError::Other(String::from_str(msg))
    }

    /// The human-readable message of this error.
    pub fn to_string(&self) -> (s: String)
        ensures
            s@ == thread_error_text(*self),
    {
        let mut s = String::new();
        match self {
            ThreadError::AlreadyRunning { pool_name, worker_count } => {
                s.append("Thread pool '");
                s.append(pool_name.as_str());
                s.append("' is already running with ");
                s.append(decimal(*worker_count as u64).as_str());
                s.append(" workers");
            },
            ThreadError::NotRunning { pool_name } => {
                s.append("Thread pool '");
                s.append(pool_name.as_str());
                s.append("' is not running");
            },
            ThreadError::ShuttingDown { pending_jobs } => {
                s.append("Thread pool is shutting down (");
                s.append(decimal(*pending_jobs as u64).as_str());
                s.append(" jobs pending)");
            },
            ThreadError::SpawnError { thread_id, message, source } => {
                s.append("Failed to spawn worker thread #");
                s.append(decimal(*thread_id as u64).as_str());
                s.append(": ");
                s.append(message.as_str());
            },
            ThreadError::JoinError { thread_id, message } => {
                s.append("Failed to join worker thread #");
                s.append(decimal(*thread_id as u64).as_str());
                s.append(": ");
                s.append(message.as_str());
            },
            ThreadError::ExecutionError { job_id, message } => {
                s.append("Job execution failed (job_id: ");
                s.append(job_id.as_str());
                s.append("): ");
                s.append(message.as_str());
            },
            ThreadError::Cancelled { job_id, reason } => {
                s.append("Job cancelled (job_id: ");
                s.append(job_id.as_str());
                s.append("): ");
                s.append(reason.as_str());
            },
            ThreadError::JobTimeout { job_id, timeout_ms } => {
                s.append("Job timeout after ");
                s.append(decimal(*timeout_ms).as_str());
                s.append("ms (job_id: ");
                s.append(job_id.as_str());
                s.append(")");
            },
            ThreadError::QueueFull { current, max } => {
                s.append("Job queue is full: ");
                s.append(decimal(*current as u64).as_str());
                s.append("/");
                s.append(decimal(*max as u64).as_str());
                s.append(" jobs queued");
            },
            ThreadError::QueueSendError => {
                s.append("Failed to send job to queue");
            },
            ThreadError::SubmissionTimeout { timeout_ms } => {
                s.append("Job submission timed out after ");
                s.append(decimal(*timeout_ms).as_str());
                s.append("ms");
            },
            ThreadError::InvalidConfig { parameter, message } => {
                s.append("Invalid configuration for '");
                s.append(parameter.as_str());
                s.append("': ");
                s.append(message.as_str());
            },
            ThreadError::WorkerPanic { thread_id, message } => {
                s.append("Worker thread #");
                s.append(decimal(*thread_id as u64).as_str());
                s.append(" panicked: ");
                s.append(message.as_str());
            },
            ThreadError::PoolExhausted { active, total } => {
                s.append("Thread pool exhausted: ");
                s.append(decimal(*active as u64).as_str());
                s.append("/");
                s.append(decimal(*total as u64).as_str());
                s.append(" threads busy");
            },
            ThreadError::Other(msg) => {
                s.append(msg.as_str());
            },
        }
        s
    }
}

} // verus!
