//! Backpressure strategies for full bounded queues, and their statistics.
use vstd::prelude::*;
use vstd::string::*;
use std::sync::Arc;
use crate::core_types::error::Result;
use crate::core_types::job::BoxedJob;
use crate::text::{span, span_text};

verus! {

/// What a submission does when a bounded queue is full. Timeouts are in
/// milliseconds.
pub enum BackpressureStrategy {
    /// Block until space is available.
    Block,
    /// Block at most the given number of milliseconds.
    BlockWithTimeout(u64),
    /// Return an error immediately.
    RejectImmediately,
    /// Drop the oldest job to make room (falls back to blocking).
    DropOldest,
    /// Drop the new job, keeping the queue intact.
    DropNewest,
    /// Call a user-provided handler (shared, hence the `Arc`).
    Custom(Arc<Box<dyn BackpressureHandler>>),
}

impl Clone for BackpressureStrategy {
    fn clone(&self) -> (s: Self) {
        match self {
            BackpressureStrategy::Block => BackpressureStrategy::Block,
            BackpressureStrategy::BlockWithTimeout(ms) => BackpressureStrategy::BlockWithTimeout(*ms),
            BackpressureStrategy::RejectImmediately => BackpressureStrategy::RejectImmediately,
            BackpressureStrategy::DropOldest => BackpressureStrategy::DropOldest,
            BackpressureStrategy::DropNewest => BackpressureStrategy::DropNewest,
            BackpressureStrategy::Custom(h) => BackpressureStrategy::Custom(Arc::clone(h)),
        }
    }
}

impl Default for BackpressureStrategy {
    fn default() -> (s: Self)
        ensures
            s is Block,
    {
        BackpressureStrategy::Block
    }
}

/// The debug text of a strategy.
pub open spec fn strategy_text(s: BackpressureStrategy) -> Seq<char> {
    match s {
        BackpressureStrategy::Block => "Block"@,
        BackpressureStrategy::BlockWithTimeout(ms) => "BlockWithTimeout("@ + span_text(ms as nat) + ")"@,
        BackpressureStrategy::RejectImmediately => "RejectImmediately"@,
        BackpressureStrategy::DropOldest => "DropOldest"@,
        BackpressureStrategy::DropNewest => "DropNewest"@,
        BackpressureStrategy::Custom(_) => "Custom(<handler>)"@,
    }
}

impl BackpressureStrategy {
    /// The debug text of the strategy, such as `"BlockWithTimeout(1s)"`.
    pub fn to_debug_string(&self) -> (s: String)
        ensures
            s@ == strategy_text(*self),
    {
        match self {
            BackpressureStrategy::Block => String::from_str("Block"),
            BackpressureStrategy::BlockWithTimeout(ms) => {
                let mut s = String::from_str("BlockWithTimeout(");
                s.append(span(*ms).as_str());
                s.append(")");
                s
            },
            BackpressureStrategy::RejectImmediately => String::from_str("RejectImmediately"),
            BackpressureStrategy::DropOldest => String::from_str("DropOldest"),
            BackpressureStrategy::DropNewest => String::from_str("DropNewest"),
            BackpressureStrategy::Custom(_) => String::from_str("Custom(<handler>)"),
        }
    }
}

/// Custom logic for a full queue.
pub trait BackpressureHandler: Send + Sync {
    /// Called with the job that did not fit: `Ok(Some(job))` retries with a
    /// blocking send, `Ok(None)` drops the job, `Err(_)` is handed to the
    /// submitter.
    fn handle_backpressure(&self, job: BoxedJob) -> (r: Result<Option<BoxedJob>>)
        ensures
            self.handles(r);

    /// Whether `r` is a result that `handle_backpressure` can give.
    spec fn handles(&self, r: Result<Option<BoxedJob>>) -> bool;
}

/// Counters of backpressure events.
#[derive(Debug, Default)]
pub struct BackpressureStats {
    jobs_submitted: u64,
    jobs_rejected: u64,
    jobs_dropped_oldest: u64,
    jobs_dropped_newest: u64,
    backpressure_events: u64,
    timeout_events: u64,
}

/// A snapshot of backpressure statistics.
#[derive(Debug, Clone, Copy, PartialEq, Eq, Structural)]
pub struct BackpressureStatsSnapshot {
    /// Total jobs submitted.
    pub jobs_submitted: u64,
    /// Jobs rejected.
    pub jobs_rejected: u64,
    /// Jobs dropped to make room.
    pub jobs_dropped_oldest: u64,
    /// New jobs dropped.
    pub jobs_dropped_newest: u64,
    /// Total backpressure events.
    pub backpressure_events: u64,
    /// Timeout events.
    pub timeout_events: u64,
}

/// A counter after one more event; counters wrap around at `u64::MAX`.
pub open spec fn bumped(n: u64) -> u64 {
    if n == u64::MAX { 0 } else { (n + 1) as u64 }
}

fn bump(n: u64) -> (m: u64)
    ensures
        m == bumped(n),
{
    if n == u64::MAX { 0 } else { n + 1 }
}

impl View for BackpressureStats {
    type V = BackpressureStatsSnapshot;

    closed spec fn view(&self) -> BackpressureStatsSnapshot {
        BackpressureStatsSnapshot {
            jobs_submitted: self.jobs_submitted,
            jobs_rejected: self.jobs_rejected,
            jobs_dropped_oldest: self.jobs_dropped_oldest,
            jobs_dropped_newest: self.jobs_dropped_newest,
            backpressure_events: self.backpressure_events,
            timeout_events: self.timeout_events,
        }
    }
}

/// The snapshot with every counter at zero.
pub open spec fn zero_snapshot() -> BackpressureStatsSnapshot {
    BackpressureStatsSnapshot {
        jobs_submitted: 0,
        jobs_rejected: 0,
        jobs_dropped_oldest: 0,
        jobs_dropped_newest: 0,
        backpressure_events: 0,
        timeout_events: 0,
    }
}

impl BackpressureStats {
    /// Create statistics with every counter at zero.
    pub fn new() -> (s: Self)
        ensures
            s@ == zero_snapshot(),
    {
        BackpressureStats {
            jobs_submitted: 0,
            jobs_rejected: 0,
            jobs_dropped_oldest: 0,
            jobs_dropped_newest: 0,
            backpressure_events: 0,
            timeout_events: 0,
        }
    }

    /// Record a job submission.
    pub fn record_submission(&mut self)
        ensures
            final(self)@ == (BackpressureStatsSnapshot { jobs_submitted: bumped(old(self)@.jobs_submitted), ..old(self)@ }),
    {
        self.jobs_submitted = bump(self.jobs_submitted);
    }

    /// Record a rejected job; it is also a backpressure event.
    pub fn record_rejection(&mut self)
        ensures
            final(self)@ == (BackpressureStatsSnapshot {
                jobs_rejected: bumped(old(self)@.jobs_rejected),
                backpressure_events: bumped(old(self)@.backpressure_events),
                ..old(self)@
            }),
    {
        self.jobs_rejected = bump(self.jobs_rejected);
        self.backpressure_events = bump(self.backpressure_events);
    }

    /// Record a job dropped to make room; it is also a backpressure event.
    pub fn record_dropped_oldest(&mut self)
        ensures
            final(self)@ == (BackpressureStatsSnapshot {
                jobs_dropped_oldest: bumped(old(self)@.jobs_dropped_oldest),
                backpressure_events: bumped(old(self)@.backpressure_events),
                ..old(self)@
            }),
    {
        self.jobs_dropped_oldest = bump(self.jobs_dropped_oldest);
        self.backpressure_events = bump(self.backpressure_events);
    }

    /// Record a dropped new job; it is also a backpressure event.
    pub fn record_dropped_newest(&mut self)
        ensures
            final(self)@ == (BackpressureStatsSnapshot {
                jobs_dropped_newest: bumped(old(self)@.jobs_dropped_newest),
                backpressure_events: bumped(old(self)@.backpressure_events),
                ..old(self)@
            }),
    {
        self.jobs_dropped_newest = bump(self.jobs_dropped_newest);
        self.backpressure_events = bump(self.backpressure_events);
    }

    /// Record a timeout; it is also a backpressure event.
    pub fn record_timeout(&mut self)
        ensures
            final(self)@ == (BackpressureStatsSnapshot {
                timeout_events: bumped(old(self)@.timeout_events),
                backpressure_events: bumped(old(self)@.backpressure_events),
                ..old(self)@
            }),
    {
        self.timeout_events = bump(self.timeout_events);
        self.backpressure_events = bump(self.backpressure_events);
    }

    /// Record a backpressure event of a custom handler.
    pub fn record_backpressure(&mut self)
        ensures
            final(self)@ == (BackpressureStatsSnapshot {
                backpressure_events: bumped(old(self)@.backpressure_events),
                ..old(self)@
            }),
    {
        self.backpressure_events = bump(self.backpressure_events);
    }

    /// Total jobs submitted.
    pub fn jobs_submitted(&self) -> (n: u64)
        ensures
            n == self@.jobs_submitted,
    {
        self.jobs_submitted
    }

    /// Jobs rejected.
    pub fn jobs_rejected(&self) -> (n: u64)
        ensures
            n == self@.jobs_rejected,
    {
        self.jobs_rejected
    }

    /// Jobs dropped to make room.
    pub fn jobs_dropped_oldest(&self) -> (n: u64)
        ensures
            n == self@.jobs_dropped_oldest,
    {
        self.jobs_dropped_oldest
    }

    /// New jobs dropped.
    pub fn jobs_dropped_newest(&self) -> (n: u64)
        ensures
            n == self@.jobs_dropped_newest,
    {
        self.jobs_dropped_newest
    }

    /// Total backpressure events.
    pub fn backpressure_events(&self) -> (n: u64)
        ensures
            n == self@.backpressure_events,
    {
        self.backpressure_events
    }

    /// Timeout events.
    pub fn timeout_events(&self) -> (n: u64)
        ensures
            n == self@.timeout_events,
    {
        self.timeout_events
    }

    /// A snapshot of all counters.
    pub fn snapshot(&self) -> (s: BackpressureStatsSnapshot)
        ensures
            s == self@,
    {
        BackpressureStatsSnapshot {
            jobs_submitted: self.jobs_submitted,
            jobs_rejected: self.jobs_rejected,
            jobs_dropped_oldest: self.jobs_dropped_oldest,
            jobs_dropped_newest: self.jobs_dropped_newest,
            backpressure_events: self.backpressure_events,
            timeout_events: self.timeout_events,
        }
    }
}

} // verus!
