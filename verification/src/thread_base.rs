//! Worker threads: their conditions, the worker trait, and the state of a
//! basic worker. The thread that runs a worker's loop is started by the
//! runtime once `start` has accepted; the loop asks `after_failure` what
//! to do with a job that failed.
use vstd::prelude::*;
use vstd::string::*;
use crate::error::{Error, Result};
use crate::text::{concat2, has_infix};

verus! {

/// The conditions of a worker thread.
#[derive(Debug, Clone, Copy, PartialEq, Eq, Structural)]
pub enum ThreadCondition {
    /// Thread is not started
    NotStarted,
    /// Thread is running
    Running,
    /// Thread is stopping
    Stopping,
    /// Thread is stopped
    Stopped,
}

/// The text of a condition.
pub open spec fn condition_text(c: ThreadCondition) -> Seq<char> {
    match c {
        ThreadCondition::NotStarted => "Not Started"@,
        ThreadCondition::Running => "Running"@,
        ThreadCondition::Stopping => "Stopping"@,
        ThreadCondition::Stopped => "Stopped"@,
    }
}

impl ThreadCondition {
    /// The text of the condition, such as `"Not Started"`.
    pub fn to_string(&self) -> (s: String)
        ensures
            s@ == condition_text(*self),
    {
        let s = match self {
            ThreadCondition::NotStarted => "Not Started",
            ThreadCondition::Running => "Running",
            ThreadCondition::Stopping => "Stopping",
            ThreadCondition::Stopped => "Stopped",
        };
        String::from_str(s)
    }
}

/// A worker thread that a pool starts and stops.
pub trait ThreadWorker: Send + Sync {
    /// Whether the worker is running, as `is_running` reports it.
    spec fn active(&self) -> bool;

    /// Start the worker. It runs afterwards, also when the start fails
    /// because it was running already; a worker that is not running starts
    /// without error.
    fn start(&mut self) -> (r: Result<()>)
        ensures
            final(self).active(),
            !old(self).active() ==> r is Ok;

    /// Stop the worker; with `wait_for_completion` the call returns once the
    /// worker has stopped. It does not run afterwards.
    fn stop(&mut self, wait_for_completion: bool)
        ensures
            !final(self).active();

    /// Whether the worker is running.
    fn is_running(&self) -> (b: bool)
        ensures
            b == self.active();

    /// A text describing the worker.
    fn to_string(&self) -> String;
}

/// The text that marks the message of a failed job that asks to be retried.
pub open spec fn retry_marker() -> Seq<char> {
    "will retry after"@
}

/// How long a worker waits before queueing again a job that asked to be
/// retried, in milliseconds.
pub const RETRY_DELAY_MS: u64 = 5000;

/// What a worker does with a job that failed with the message `message`:
/// queue it again after the returned delay in milliseconds when the message
/// asks for a retry, drop it otherwise.
pub fn after_failure(message: &str) -> (d: Option<u64>)
    ensures
        d == (if has_infix(message@, retry_marker()) { Some(RETRY_DELAY_MS) } else { None::<u64> }),
{
    proof { reveal_strlit("will retry after"); }
    if crate::text::contains_text(message, "will retry after") {
        Some(RETRY_DELAY_MS)
    } else {
        None
    }
}

/// The state of a basic worker: its title, whether it runs, how long it
/// sleeps when the queue is empty (milliseconds) and its condition.
pub struct BasicThreadWorker {
    title: String,
    running: bool,
    check_interval: u64,
    condition: ThreadCondition,
}

/// The description of a basic worker.
pub open spec fn basic_worker_text(title: Seq<char>, running: bool) -> Seq<char> {
    "BasicThreadWorker '"@ + title + "' ("@ + (if running { "running"@ } else { "stopped"@ }) + ")"@
}

impl BasicThreadWorker {
    /// The title of the worker.
    pub closed spec fn titled(self) -> Seq<char> {
        self.title@
    }

    /// Whether the worker runs.
    pub closed spec fn runs(self) -> bool {
        self.running
    }

    /// The sleep when the queue is empty, in milliseconds.
    pub closed spec fn interval(self) -> u64 {
        self.check_interval
    }

    /// The condition of the worker.
    pub closed spec fn cond(self) -> ThreadCondition {
        self.condition
    }

    /// A worker that has not started.
    pub fn new(title: &str, check_interval: u64) -> (w: Self)
        ensures
            w.titled() == title@,
            !w.runs(),
            w.interval() == check_interval,
            w.cond() == ThreadCondition::NotStarted,
    {
        BasicThreadWorker {
            title: String::from_str(title),
            running: false,
            check_interval,
            condition: ThreadCondition::NotStarted,
        }
    }

    /// Set the sleep when the queue is empty.
    pub fn set_check_interval(&mut self, interval: u64)
        ensures
            final(self).interval() == interval,
            final(self).titled() == old(self).titled(),
            final(self).runs() == old(self).runs(),
            final(self).cond() == old(self).cond(),
    {
        self.check_interval = interval;
    }

    /// The sleep when the queue is empty, in milliseconds.
    pub fn check_interval(&self) -> (ms: u64)
        ensures
            ms == self.interval(),
    {
        self.check_interval
    }

    /// The title of the worker.
    pub fn title(&self) -> (t: &str)
        ensures
            t@ == self.titled(),
    {
        self.title.as_str()
    }

    /// The condition of the worker.
    pub fn condition(&self) -> (c: ThreadCondition)
        ensures
            c == self.cond(),
    {
        self.condition
    }
}

impl ThreadWorker for BasicThreadWorker {
    open spec fn active(&self) -> bool {
        self.runs()
    }

    /// Start the worker: an error naming the worker if it already runs.
    fn start(&mut self) -> (r: Result<()>)
        ensures
            old(self).runs() ==> (r matches Err(Error::ThreadError(m))
                && m@ == "Worker '"@ + old(self).titled() + "' is already running"@)
                && *final(self) == *old(self),
            !old(self).runs() ==> r is Ok && final(self).runs()
                && final(self).cond() == ThreadCondition::Running,
            final(self).titled() == old(self).titled(),
            final(self).interval() == old(self).interval(),
    {
        if self.running {
            let m = concat2("Worker '", self.title.as_str());
            let m = concat2(m.as_str(), "' is already running");
            proof {
                reveal_strlit("Worker '");
                reveal_strlit("' is already running");
            }
            return Err(Error::thread_error(m.as_str()));
        }
        self.running = true;
        self.condition = ThreadCondition::Running;
        Ok(())
    }

    /// Stop the worker if it runs.
    fn stop(&mut self, wait_for_completion: bool)
        ensures
            !old(self).runs() ==> *final(self) == *old(self),
            old(self).runs() ==> !final(self).runs() && final(self).cond() == ThreadCondition::Stopped,
            final(self).titled() == old(self).titled(),
            final(self).interval() == old(self).interval(),
    {
        if !self.running {
            return;
        }
        self.condition = ThreadCondition::Stopping;
        self.running = false;
        self.condition = ThreadCondition::Stopped;
    }

    fn is_running(&self) -> (b: bool)
        ensures
            b == self.runs(),
    {
        self.running
    }

    fn to_string(&self) -> (s: String)
        ensures
            s@ == basic_worker_text(self.titled(), self.runs()),
    {
        let s = concat2("BasicThreadWorker '", self.title.as_str());
        let s = concat2(s.as_str(), "' (");
        let s = concat2(s.as_str(), if self.running { "running" } else { "stopped" });
        let s = concat2(s.as_str(), ")");
        proof {
            reveal_strlit("BasicThreadWorker '");
            reveal_strlit("' (");
            reveal_strlit("running");
            reveal_strlit("stopped");
            reveal_strlit(")");
        }
        s
    }
}

} // verus!
