//! A pool of workers sharing a first-in first-out job queue, which can shut
//! itself down once its queue stays empty. The pool decides; the runtime
//! runs one thread per worker, each asking `next_job` for work, and, with
//! auto-shutdown, a monitor thread that calls `auto_shutdown_tick` every
//! check interval.
use vstd::prelude::*;
use vstd::string::*;
use crate::error::{Error, Result};
use crate::job::{released_at, BasicJobQueue, Job, JobBatch, JobQueue};
use crate::pauseable_thread_pool::{framed, pool_message, stop_all};
use crate::text::{concat2, decimal, decimal_text};
use crate::thread_base::{BasicThreadWorker, ThreadWorker};

verus! {

/// The description of a pool.
pub open spec fn basic_pool_text(title: Seq<char>, running: bool, workers: nat, auto_shutdown: bool) -> Seq<char> {
    "ThreadPool '"@ + title + "' (running: "@ + (if running { "yes"@ } else { "no"@ })
        + ", workers: "@ + decimal_text(workers) + ", auto-shutdown: "@
        + (if auto_shutdown { "enabled"@ } else { "disabled"@ }) + ")"@
}

/// The number of consecutive checks that find the queue empty before the
/// pool shuts itself down.
pub const IDLE_CHECKS_BEFORE_SHUTDOWN: u32 = 3;

/// What the auto-shutdown monitor does after a check.
#[derive(Debug, Clone, Copy, PartialEq, Eq, Structural)]
pub enum MonitorStep {
    /// The pool is stopped: the monitor ends.
    Finished,
    /// Check again after the interval, with this many consecutive checks
    /// that found the queue empty.
    Continue(u32),
}

/// Start every worker, going on past those that fail to start; every
/// worker runs afterwards.
fn start_each(workers: &mut Vec<Box<dyn ThreadWorker>>)
    ensures
        final(workers)@.len() == old(workers)@.len(),
        forall|k: int| 0 <= k < final(workers)@.len() ==> #[trigger] final(workers)@[k].active(),
{
    let n = workers.len();
    let mut done: Vec<Box<dyn ThreadWorker>> = Vec::new();
    while workers.len() > 0
        invariant
            done@.len() + workers@.len() == n,
            forall|k: int| 0 <= k < done@.len() ==> #[trigger] done@[k].active(),
        decreases workers@.len(),
    {
        let mut w = workers.remove(0);
        let _ = w.start();
        let ghost started = w;
        let mut one = vec![w];
        proof { assert(one@[0] == started); }
        let ghost before = done@;
        done.append(&mut one);
        proof {
            assert forall|k: int| 0 <= k < done@.len() implies #[trigger] done@[k].active() by {
                if k < before.len() {
                    assert(done@[k] == before[k]);
                } else {
                    assert(done@[k] == started);
                }
            }
        }
    }
    std::mem::swap(workers, &mut done);
}

/// A pool of workers sharing a first-in first-out job queue.
pub struct ThreadPool {
    title: String,
    running: bool,
    job_queue: BasicJobQueue,
    workers: Vec<Box<dyn ThreadWorker>>,
    check_interval: u64,
    auto_shutdown: bool,
    all_workers_idle: bool,
}

impl ThreadPool {
    /// The title of the pool.
    pub closed spec fn titled(self) -> Seq<char> {
        self.title@
    }

    /// Whether the pool runs.
    pub closed spec fn runs(self) -> bool {
        self.running
    }

    /// The jobs of the pool.
    pub closed spec fn jobs(self) -> BasicJobQueue {
        self.job_queue
    }

    /// The number of workers.
    pub closed spec fn worker_total(self) -> nat {
        self.workers@.len()
    }

    /// How long an idle worker or the monitor sleeps, in milliseconds.
    pub closed spec fn interval(self) -> u64 {
        self.check_interval
    }

    /// Whether the pool shuts itself down once its queue stays empty.
    pub closed spec fn auto(self) -> bool {
        self.auto_shutdown
    }

    /// Whether the pool shut itself down because every worker was idle.
    pub closed spec fn idle(self) -> bool {
        self.all_workers_idle
    }

    /// A stopped pool named `title`, with no worker and no job, a check
    /// interval of 50 milliseconds and auto-shutdown disabled.
    pub fn new(title: &str) -> (p: Self)
        ensures
            p.titled() == title@,
            !p.runs(),
            p.jobs().ready() == 0,
            p.jobs().retry_times() == Seq::<u64>::empty(),
            p.worker_total() == 0,
            p.interval() == 50,
            !p.auto(),
            !p.idle(),
    {
        ThreadPool {
            title: String::from_str(title),
            running: false,
            job_queue: BasicJobQueue::new(),
            workers: Vec::new(),
            check_interval: 50,
            auto_shutdown: false,
            all_workers_idle: false,
        }
    }

    /// A stopped pool named `"thread_pool"` with `num_workers` workers.
    pub fn with_workers(num_workers: usize) -> (p: Self)
        requires
            2 * num_workers <= usize::MAX,
        ensures
            p.titled() == "thread_pool"@,
            !p.runs(),
            p.jobs().ready() == 0,
            p.jobs().retry_times() == Seq::<u64>::empty(),
            p.worker_total() == num_workers,
            p.interval() == 50,
            !p.auto(),
            !p.idle(),
    {
        let mut pool = Self::new("thread_pool");
        let _ = pool.add_workers(num_workers);
        pool
    }

    /// A stopped pool with `num_workers` workers and auto-shutdown enabled.
    pub fn with_auto_shutdown(num_workers: usize) -> (p: Self)
        requires
            2 * num_workers <= usize::MAX,
        ensures
            p.titled() == "thread_pool"@,
            !p.runs(),
            p.jobs().ready() == 0,
            p.worker_total() == num_workers,
            p.auto(),
            !p.idle(),
    {
        let mut pool = Self::with_workers(num_workers);
        pool.enable_auto_shutdown();
        pool
    }

    /// Add `count` workers, titled after the pool and numbered by the count
    /// of workers already there plus their position in this call. In a
    /// running pool each is started.
    pub fn add_workers(&mut self, count: usize) -> (r: Result<()>)
        requires
            old(self).worker_total() + 2 * count <= usize::MAX,
        ensures
            r is Ok,
            final(self).worker_total() == old(self).worker_total() + count,
            final(self).titled() == old(self).titled(),
            final(self).runs() == old(self).runs(),
            final(self).jobs() == old(self).jobs(),
            final(self).interval() == old(self).interval(),
            final(self).auto() == old(self).auto(),
            final(self).idle() == old(self).idle(),
    {
        let ghost n0 = self.workers@.len();
        let mut i: usize = 0;
        while i < count
            invariant
                i <= count,
                self.workers@.len() == n0 + i,
                n0 + 2 * count <= usize::MAX,
                self.title@ == old(self).title@,
                self.running == old(self).running,
                self.job_queue == old(self).job_queue,
                self.check_interval == old(self).check_interval,
                self.auto_shutdown == old(self).auto_shutdown,
                self.all_workers_idle == old(self).all_workers_idle,
            decreases count - i,
        {
            let index = self.workers.len() + i;
            let number = decimal(index as u64);
            let name = framed(self.title.as_str(), "_worker_", number.as_str());
            let mut worker = BasicThreadWorker::new(name.as_str(), self.check_interval);
            if self.running {
                let _ = worker.start();
            }
            let boxed: Box<dyn ThreadWorker> = Box::new(worker);
            let mut one = vec![boxed];
            self.workers.append(&mut one);
            i = i + 1;
        }
        Ok(())
    }

    /// Add a worker of the caller's own. In a running pool it is started
    /// first, and a worker that fails to start is not added.
    pub fn add_worker(&mut self, worker: Box<dyn ThreadWorker>) -> (r: Result<()>)
        ensures
            !old(self).runs() ==> r is Ok,
            final(self).worker_total() == old(self).worker_total() + if r is Ok { 1nat } else { 0nat },
            final(self).titled() == old(self).titled(),
            final(self).runs() == old(self).runs(),
            final(self).jobs() == old(self).jobs(),
            final(self).interval() == old(self).interval(),
            final(self).auto() == old(self).auto(),
            final(self).idle() == old(self).idle(),
    {
        let mut worker = worker;
        if self.running {
            let r = worker.start();
            if r.is_err() {
                return r;
            }
        }
        let mut one = vec![worker];
        self.workers.append(&mut one);
        Ok(())
    }

    /// The error of an operation that needs the pool in the other state.
    fn state_error(&self, tail: &str) -> (e: Error)
        ensures
            e matches Error::ThreadPoolError(m) && m@ == pool_message("Thread pool '"@, self.titled(), tail@),
    {
        let m = framed("Thread pool '", self.title.as_str(), tail);
        proof { reveal_strlit("Thread pool '"); }
        Error::thread_pool_error(m.as_str())
    }

    /// Start the pool and every worker (going on past workers that fail to
    /// start); an error if it already runs.
    pub fn start(&mut self) -> (r: Result<()>)
        ensures
            old(self).runs() ==> (r matches Err(Error::ThreadPoolError(m))
                && m@ == pool_message("Thread pool '"@, old(self).titled(), "' is already running"@))
                && final(self).idle() == old(self).idle(),
            !old(self).runs() ==> r is Ok && !final(self).idle(),
            final(self).runs(),
            final(self).titled() == old(self).titled(),
            final(self).jobs() == old(self).jobs(),
            final(self).worker_total() == old(self).worker_total(),
            final(self).interval() == old(self).interval(),
            final(self).auto() == old(self).auto(),
    {
        if self.running {
            proof { reveal_strlit("' is already running"); }
            return Err(self.state_error("' is already running"));
        }
        self.running = true;
        self.all_workers_idle = false;
        start_each(&mut self.workers);
        Ok(())
    }

    /// One check of the auto-shutdown monitor, after `idle_checks`
    /// consecutive checks that found the queue empty. A stopped pool ends
    /// the monitor; with auto-shutdown disabled nothing changes; a queue
    /// with jobs starts the count again; the third consecutive empty check
    /// marks the workers idle and stops the pool.
    pub fn auto_shutdown_tick(&mut self, idle_checks: u32) -> (s: MonitorStep)
        ensures
            !old(self).runs() ==> s == MonitorStep::Finished && *final(self) == *old(self),
            old(self).runs() && !old(self).auto() ==> s == MonitorStep::Continue(idle_checks) && *final(self) == *old(self),
            old(self).runs() && old(self).auto() && !old(self).jobs().holds_nothing() ==>
                s == MonitorStep::Continue(0) && *final(self) == *old(self),
            old(self).runs() && old(self).auto() && old(self).jobs().holds_nothing() && idle_checks + 1 < IDLE_CHECKS_BEFORE_SHUTDOWN ==>
                s == MonitorStep::Continue((idle_checks + 1) as u32) && *final(self) == *old(self),
            old(self).runs() && old(self).auto() && old(self).jobs().holds_nothing() && idle_checks + 1 >= IDLE_CHECKS_BEFORE_SHUTDOWN ==>
                s == MonitorStep::Finished && !final(self).runs() && final(self).idle()
                && final(self).titled() == old(self).titled() && final(self).jobs() == old(self).jobs()
                && final(self).worker_total() == old(self).worker_total() && final(self).auto() == old(self).auto(),
    {
        if !self.running {
            return MonitorStep::Finished;
        }
        if !self.auto_shutdown {
            return MonitorStep::Continue(idle_checks);
        }
        if !self.job_queue.is_empty() {
            return MonitorStep::Continue(0);
        }
        if idle_checks < IDLE_CHECKS_BEFORE_SHUTDOWN - 1 {
            return MonitorStep::Continue(idle_checks + 1);
        }
        self.all_workers_idle = true;
        self.running = false;
        MonitorStep::Finished
    }

    /// Queue `job` in a running pool; an error in a stopped one.
    pub fn submit<J: Job + 'static>(&mut self, job: J) -> (r: Result<()>)
        ensures
            !old(self).runs() ==> (r matches Err(Error::ThreadPoolError(m))
                && m@ == pool_message("Thread pool '"@, old(self).titled(), "' is not running"@))
                && final(self).jobs() == old(self).jobs(),
            old(self).runs() ==> r is Ok && final(self).jobs().ready() == old(self).jobs().ready() + 1
                && final(self).jobs().retry_times() == old(self).jobs().retry_times(),
            final(self).titled() == old(self).titled(),
            final(self).runs() == old(self).runs(),
            final(self).worker_total() == old(self).worker_total(),
            final(self).interval() == old(self).interval(),
            final(self).auto() == old(self).auto(),
            final(self).idle() == old(self).idle(),
    {
        if !self.running {
            proof { reveal_strlit("' is not running"); }
            return Err(self.state_error("' is not running"));
        }
        let boxed: Box<dyn Job> = Box::new(job);
        self.job_queue.enqueue(boxed)
    }

    /// Queue the jobs of `batch`, in order, in a running pool; an error in
    /// a stopped one.
    pub fn submit_batch(&mut self, batch: JobBatch) -> (r: Result<()>)
        ensures
            !old(self).runs() ==> (r matches Err(Error::ThreadPoolError(m))
                && m@ == pool_message("Thread pool '"@, old(self).titled(), "' is not running"@))
                && final(self).jobs() == old(self).jobs(),
            old(self).runs() ==> r is Ok && final(self).jobs().ready() == old(self).jobs().ready() + batch.size()
                && final(self).jobs().retry_times() == old(self).jobs().retry_times(),
            final(self).titled() == old(self).titled(),
            final(self).runs() == old(self).runs(),
            final(self).worker_total() == old(self).worker_total(),
            final(self).interval() == old(self).interval(),
            final(self).auto() == old(self).auto(),
            final(self).idle() == old(self).idle(),
    {
        if !self.running {
            proof { reveal_strlit("' is not running"); }
            return Err(self.state_error("' is not running"));
        }
        let mut jobs = batch.into_jobs();
        let ghost n = jobs@.len();
        while jobs.len() > 0
            invariant
                jobs@.len() <= n,
                n == batch.size(),
                self.job_queue.ready() == old(self).job_queue.ready() + (n - jobs@.len()),
                self.job_queue.retry_times() == old(self).job_queue.retry_times(),
                self.title@ == old(self).title@,
                self.running == old(self).running,
                self.workers@.len() == old(self).workers@.len(),
                self.check_interval == old(self).check_interval,
                self.auto_shutdown == old(self).auto_shutdown,
                self.all_workers_idle == old(self).all_workers_idle,
            decreases jobs@.len(),
        {
            let job = jobs.remove(0);
            let _ = self.job_queue.enqueue(job);
        }
        Ok(())
    }

    /// The next job for a worker: the next ready job of the queue while the
    /// pool runs, none when it is stopped.
    pub fn next_job(&mut self) -> (j: Option<Box<dyn Job>>)
        ensures
            !old(self).runs() ==> j is None && final(self).jobs() == old(self).jobs(),
            old(self).runs() ==> exists|now: u64|
                #[trigger] released_at(old(self).jobs().retry_times(), final(self).jobs().retry_times(), now),
            old(self).runs() ==> ({
                let became_ready = old(self).jobs().ready() + old(self).jobs().retry_times().len()
                    - final(self).jobs().retry_times().len();
                &&& j is Some <==> became_ready > 0
                &&& final(self).jobs().ready() == if became_ready > 0 { became_ready - 1 } else { 0 }
            }),
            final(self).titled() == old(self).titled(),
            final(self).runs() == old(self).runs(),
            final(self).worker_total() == old(self).worker_total(),
            final(self).interval() == old(self).interval(),
            final(self).auto() == old(self).auto(),
            final(self).idle() == old(self).idle(),
    {
        if !self.running {
            return None;
        }
        let ghost before = self.job_queue;
        let j = self.job_queue.dequeue();
        proof {
            let now = choose|now: u64| released_at(before.retry_times(), self.job_queue.retry_times(), now);
            assert(released_at(old(self).jobs().retry_times(), final(self).jobs().retry_times(), now));
        }
        j
    }

    /// Stop the pool and every worker.
    pub fn stop(&mut self, wait_for_completion: bool)
        ensures
            !final(self).runs(),
            final(self).titled() == old(self).titled(),
            final(self).jobs() == old(self).jobs(),
            final(self).worker_total() == old(self).worker_total(),
            final(self).interval() == old(self).interval(),
            final(self).auto() == old(self).auto(),
            final(self).idle() == old(self).idle(),
    {
        self.running = false;
        stop_all(&mut self.workers, wait_for_completion);
    }

    /// Whether the pool runs.
    pub fn is_running(&self) -> (b: bool)
        ensures
            b == self.runs(),
    {
        self.running
    }

    /// The number of workers.
    pub fn worker_count(&self) -> (n: usize)
        ensures
            n == self.worker_total(),
    {
        self.workers.len()
    }

    /// The jobs of the pool.
    pub fn job_queue(&self) -> (q: &BasicJobQueue)
        ensures
            *q == self.jobs(),
    {
        &self.job_queue
    }

    /// Set how long an idle worker or the monitor sleeps, in milliseconds.
    pub fn set_check_interval(&mut self, interval: u64)
        ensures
            final(self).interval() == interval,
            final(self).titled() == old(self).titled(),
            final(self).runs() == old(self).runs(),
            final(self).jobs() == old(self).jobs(),
            final(self).worker_total() == old(self).worker_total(),
            final(self).auto() == old(self).auto(),
            final(self).idle() == old(self).idle(),
    {
        self.check_interval = interval;
    }

    /// How long an idle worker or the monitor sleeps, in milliseconds.
    pub fn check_interval(&self) -> (ms: u64)
        ensures
            ms == self.interval(),
    {
        self.check_interval
    }

    /// Let the pool shut itself down once its queue stays empty.
    pub fn enable_auto_shutdown(&mut self)
        ensures
            final(self).auto(),
            final(self).titled() == old(self).titled(),
            final(self).runs() == old(self).runs(),
            final(self).jobs() == old(self).jobs(),
            final(self).worker_total() == old(self).worker_total(),
            final(self).interval() == old(self).interval(),
            final(self).idle() == old(self).idle(),
    {
        self.auto_shutdown = true;
    }

    /// Keep the pool running however long its queue stays empty.
    pub fn disable_auto_shutdown(&mut self)
        ensures
            !final(self).auto(),
            final(self).titled() == old(self).titled(),
            final(self).runs() == old(self).runs(),
            final(self).jobs() == old(self).jobs(),
            final(self).worker_total() == old(self).worker_total(),
            final(self).interval() == old(self).interval(),
            final(self).idle() == old(self).idle(),
    {
        self.auto_shutdown = false;
    }

    /// Whether auto-shutdown is enabled.
    pub fn is_auto_shutdown_enabled(&self) -> (b: bool)
        ensures
            b == self.auto(),
    {
        self.auto_shutdown
    }

    /// A text describing the pool, such as
    /// `"ThreadPool 'p' (running: no, workers: 0, auto-shutdown: disabled)"`.
    pub fn to_string(&self) -> (s: String)
        ensures
            s@ == basic_pool_text(self.titled(), self.runs(), self.worker_total(), self.auto()),
    {
        let s = concat2("ThreadPool '", self.title.as_str());
        let s = concat2(s.as_str(), "' (running: ");
        let s = concat2(s.as_str(), if self.running { "yes" } else { "no" });
        let s = concat2(s.as_str(), ", workers: ");
        let count = decimal(self.workers.len() as u64);
        let s = concat2(s.as_str(), count.as_str());
        let s = concat2(s.as_str(), ", auto-shutdown: ");
        let s = concat2(s.as_str(), if self.auto_shutdown { "enabled" } else { "disabled" });
        let s = concat2(s.as_str(), ")");
        proof {
            reveal_strlit("ThreadPool '");
            reveal_strlit("' (running: ");
            reveal_strlit("yes");
            reveal_strlit("no");
            reveal_strlit(", workers: ");
            reveal_strlit(", auto-shutdown: ");
            reveal_strlit("enabled");
            reveal_strlit("disabled");
            reveal_strlit(")");
        }
        s
    }
}

} // verus!
