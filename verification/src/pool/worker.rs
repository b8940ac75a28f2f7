//! Per-worker statistics.
use vstd::prelude::*;
use crate::queue::backpressure::bumped;

verus! {

/// The counters of a worker, as plain numbers.
#[derive(Debug, Clone, Copy, PartialEq, Eq, Structural)]
pub struct WorkerStatSnapshot {
    /// Jobs completed successfully.
    pub jobs_processed: u64,
    /// Jobs that returned an error.
    pub jobs_failed: u64,
    /// Jobs that panicked.
    pub jobs_panicked: u64,
    /// Total processing time in microseconds.
    pub total_processing_time_us: u64,
}

/// Statistics of one worker. Counters wrap around at `u64::MAX`.
#[derive(Debug, Default)]
pub struct WorkerStats {
    jobs_processed: u64,
    jobs_failed: u64,
    jobs_panicked: u64,
    total_processing_time_us: u64,
}

impl View for WorkerStats {
    type V = WorkerStatSnapshot;

    closed spec fn view(&self) -> WorkerStatSnapshot {
        WorkerStatSnapshot {
            jobs_processed: self.jobs_processed,
            jobs_failed: self.jobs_failed,
            jobs_panicked: self.jobs_panicked,
            total_processing_time_us: self.total_processing_time_us,
        }
    }
}

/// `a + b` wrapped around at `u64::MAX`.
pub open spec fn wrapped_sum(a: u64, b: u64) -> u64 {
    if a + b > u64::MAX { (a + b - u64::MAX - 1) as u64 } else { (a + b) as u64 }
}

impl WorkerStats {
    /// Statistics with every counter at zero.
    pub fn new() -> (s: Self)
        ensures
            s@ == (WorkerStatSnapshot { jobs_processed: 0, jobs_failed: 0, jobs_panicked: 0, total_processing_time_us: 0 }),
    {
        WorkerStats { jobs_processed: 0, jobs_failed: 0, jobs_panicked: 0, total_processing_time_us: 0 }
    }

    /// Count a successfully processed job.
    pub fn increment_processed(&mut self)
        ensures
            final(self)@ == (WorkerStatSnapshot { jobs_processed: bumped(old(self)@.jobs_processed), ..old(self)@ }),
    {
        self.jobs_processed = if self.jobs_processed == u64::MAX { 0 } else { self.jobs_processed + 1 };
    }

    /// Count a failed job.
    pub fn increment_failed(&mut self)
        ensures
            final(self)@ == (WorkerStatSnapshot { jobs_failed: bumped(old(self)@.jobs_failed), ..old(self)@ }),
    {
        self.jobs_failed = if self.jobs_failed == u64::MAX { 0 } else { self.jobs_failed + 1 };
    }

    /// Count a panicked job.
    pub fn increment_panicked(&mut self)
        ensures
            final(self)@ == (WorkerStatSnapshot { jobs_panicked: bumped(old(self)@.jobs_panicked), ..old(self)@ }),
    {
        self.jobs_panicked = if self.jobs_panicked == u64::MAX { 0 } else { self.jobs_panicked + 1 };
    }

    /// Add processing time in microseconds.
    pub fn add_processing_time(&mut self, microseconds: u64)
        ensures
            final(self)@ == (WorkerStatSnapshot {
                total_processing_time_us: wrapped_sum(old(self)@.total_processing_time_us, microseconds),
                ..old(self)@
            }),
    {
        self.total_processing_time_us = self.total_processing_time_us.wrapping_add(microseconds);
    }

    /// Jobs processed successfully.
    pub fn get_jobs_processed(&self) -> (n: u64)
        ensures
            n == self@.jobs_processed,
    {
        self.jobs_processed
    }

    /// Jobs that failed.
    pub fn get_jobs_failed(&self) -> (n: u64)
        ensures
            n == self@.jobs_failed,
    {
        self.jobs_failed
    }

    /// Jobs that panicked.
    pub fn get_jobs_panicked(&self) -> (n: u64)
        ensures
            n == self@.jobs_panicked,
    {
        self.jobs_panicked
    }

    /// Total processing time in microseconds.
    pub fn get_total_processing_time_us(&self) -> (n: u64)
        ensures
            n == self@.total_processing_time_us,
    {
        self.total_processing_time_us
    }
}

} // verus!
