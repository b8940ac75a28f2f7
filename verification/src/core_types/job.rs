//! The job trait and the closure job.
use vstd::prelude::*;
use vstd::string::*;
use crate::core_types::error::{Result, ThreadError};

verus! {

/// A unit of work to be executed by the thread pool.
pub trait Job: Send {
    /// Whether `r` is a result that running the job, as it now stands, can
    /// give.
    spec fn can_give(&self, r: Result<()>) -> bool;

    /// Execute the job.
    fn execute(&mut self) -> (r: Result<()>)
        ensures
            old(self).can_give(r);

    /// The job's type name, for debugging and statistics.
    fn job_type(&self) -> &str {
        "Job"
    }

    /// Whether the job can be cancelled.
    fn is_cancellable(&self) -> bool {
        false
    }
}

/// A boxed job that can be sent across threads.
pub type BoxedJob = Box<dyn Job>;

/// The message of a closure job that is executed a second time.
pub open spec fn already_executed_text() -> Seq<char> {
    "ClosureJob already executed - cannot execute twice"@
}

/// A job made from a closure; it runs the closure at most once.
pub struct ClosureJob<F> where F: FnOnce() -> Result<()> + Send {
    closure: Option<F>,
    name: String,
}

impl<F> ClosureJob<F> where F: FnOnce() -> Result<()> + Send {
    #[verifier::type_invariant]
    spec fn closure_callable(self) -> bool {
        self.closure matches Some(f) ==> f.requires(())
    }

    /// The closure still to run, if it has not run yet.
    pub closed spec fn pending(self) -> Option<F> {
        self.closure
    }

    /// The name reported by `job_type`.
    pub closed spec fn name(self) -> Seq<char> {
        self.name@
    }

    /// Create a new closure job named "ClosureJob".
    pub fn new(closure: F) -> (job: Self)
        requires
            closure.requires(()),
        ensures
            job.pending() == Some(closure),
            job.name() == "ClosureJob"@,
    {
        ClosureJob { closure: Some(closure), name: String::from_str("ClosureJob") }
    }

    /// Create a new closure job with a custom name.
    pub fn with_name(closure: F, name: &str) -> (job: Self)
        requires
            closure.requires(()),
        ensures
            job.pending() == Some(closure),
            job.name() == name@,
    {
        ClosureJob { closure: Some(closure), name: String::from_str(name) }
    }
}

impl<F> Job for ClosureJob<F> where F: FnOnce() -> Result<()> + Send {
    /// What the closure can return, if it has not run yet; the error of a
    /// second run otherwise.
    open spec fn can_give(&self, r: Result<()>) -> bool {
        match self.pending() {
            Some(f) => f.ensures((), r),
            None => r matches Err(ThreadError::Other(m)) && m@ == already_executed_text(),
        }
    }

    fn execute(&mut self) -> (r: Result<()>)
        ensures
            final(self).pending().is_none(),
            final(self).name() == old(self).name(),
            match old(self).pending() {
                Some(f) => f.ensures((), r),
                None => r matches Err(ThreadError::Other(m)) && m@ == already_executed_text(),
            },
    {
        proof { use_type_invariant(&*self); }
        let mut taken: Option<F> = None;
        std::mem::swap(&mut taken, &mut self.closure);
        match taken {
            Some(f) => f(),
            None => Err(ThreadError::other("ClosureJob already executed - cannot execute twice")),
        }
    }

    fn job_type(&self) -> (t: &str)
        ensures
            t@ == self.name(),
    {
        self.name.as_str()
    }
}

} // verus!
