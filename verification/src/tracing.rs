//! Jobs that carry their submitter's tracing context to the worker that
//! runs them. The context itself belongs to the runtime; a traced job runs
//! and reports as the job it wraps.
use vstd::prelude::*;
use crate::core_types::{Job, Result};

verus! {

/// A job wrapped so that it runs inside the context it was submitted from.
pub struct TracedJob<J: Job> {
    inner: J,
}

impl<J: Job> TracedJob<J> {
    /// The wrapped job.
    pub closed spec fn wrapped(self) -> J {
        self.inner
    }

    /// Wrap `job`.
    pub fn new(job: J) -> (t: Self)
        ensures
            t.wrapped() == job,
    {
        TracedJob { inner: job }
    }
}

impl<J: Job> Job for TracedJob<J> {
    /// What the wrapped job can give.
    open spec fn can_give(&self, r: Result<()>) -> bool {
        self.wrapped().can_give(r)
    }

    /// Run the wrapped job.
    fn execute(&mut self) -> (r: Result<()>)
        ensures
            old(self).wrapped().can_give(r),
    {
        self.inner.execute()
    }

    /// The type name of the wrapped job.
    fn job_type(&self) -> &str {
        self.inner.job_type()
    }

    /// Whether the wrapped job can be cancelled.
    fn is_cancellable(&self) -> bool {
        self.inner.is_cancellable()
    }
}

} // verus!
