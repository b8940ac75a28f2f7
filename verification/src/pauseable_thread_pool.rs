//! A pool whose processing can be paused and resumed without stopping its
//! workers. The pool decides; the runtime runs one thread per worker, each
//! of which asks `next_job` for work and sleeps the check interval when it
//! gets none.
use vstd::prelude::*;
use vstd::string::*;
use crate::error::{Error, Result};
use crate::job::{Job, JobBatch};
use crate::text::{concat2, decimal, decimal_text};
use crate::thread_base::{BasicThreadWorker, ThreadWorker};

verus! {

/// The message of an operation refused because the pool named `title` is
/// not in the state it needs.
pub open spec fn pool_message(head: Seq<char>, title: Seq<char>, tail: Seq<char>) -> Seq<char> {
    head + title + tail
}

/// The description of a pool.
pub open spec fn pauseable_pool_text(title: Seq<char>, running: bool, paused: bool, workers: nat) -> Seq<char> {
    "PauseableThreadPool '"@ + title + "' (running: "@ + (if running { "yes"@ } else { "no"@ })
        + ", paused: "@ + (if paused { "yes"@ } else { "no"@ }) + ", workers: "@ + decimal_text(workers)
        + ")"@
}

/// The title of the worker that a pool named `title` adds when it already
/// has `n` workers and is adding its `i`-th new one.
pub open spec fn worker_title(title: Seq<char>, index: nat) -> Seq<char> {
    title + "_worker_"@ + decimal_text(index)
}

/// `head`, the title and `tail` as one string.
pub(crate) fn framed(head: &str, title: &str, tail: &str) -> (s: String)
    ensures
        s@ == head@ + title@ + tail@,
{
    let s = concat2(head, title);
    concat2(s.as_str(), tail)
}

/// Whether `after` is `before` with the workers up to index `k` running
/// and those after it untouched.
pub open spec fn started_up_to(before: Seq<Box<dyn ThreadWorker>>, after: Seq<Box<dyn ThreadWorker>>, k: int) -> bool {
    &&& 0 <= k < before.len()
    &&& forall|j: int| 0 <= j <= k ==> #[trigger] after[j].active()
    &&& forall|j: int| k < j < before.len() ==> #[trigger] after[j] == before[j]
}

/// Start each worker in turn, stopping at the first that fails; every
/// worker keeps its place. When none fails, every worker runs; when one
/// fails, the workers up to it run and those after it are left untouched.
pub(crate) fn start_all(workers: &mut Vec<Box<dyn ThreadWorker>>) -> (r: Result<()>)
    ensures
        final(workers)@.len() == old(workers)@.len(),
        r is Ok ==> forall|k: int| 0 <= k < final(workers)@.len() ==> #[trigger] final(workers)@[k].active(),
        r is Err ==> exists|k: int| #[trigger] started_up_to(old(workers)@, final(workers)@, k),
        all_idle(old(workers)@) ==> r is Ok,
{
    let n = workers.len();
    let ghost orig = workers@;
    let mut done: Vec<Box<dyn ThreadWorker>> = Vec::new();
    let mut result: Result<()> = Ok(());
    while workers.len() > 0 && result.is_ok()
        invariant
            done@.len() + workers@.len() == n,
            orig.len() == n,
            forall|k: int| 0 <= k < done@.len() ==> #[trigger] done@[k].active(),
            forall|k: int| 0 <= k < workers@.len() ==> workers@[k] == orig[done@.len() + k],
            all_idle(orig) ==> result is Ok,
            result is Err ==> done@.len() > 0,
        decreases workers@.len(),
    {
        let ghost rest = workers@;
        let mut w = workers.remove(0);
        proof {
            assert(w == orig[done@.len() as int]);
            assert forall|k: int| 0 <= k < workers@.len() implies workers@[k] == orig[done@.len() + 1 + k] by {
                assert(workers@[k] == rest[k + 1]);
            }
        }
        let r = w.start();
        let ghost started = w;
        let mut one = vec![w];
        proof { assert(one@[0] == started); }
        let ghost before = done@;
        done.append(&mut one);
        proof {
            assert forall|k: int| 0 <= k < done@.len() implies #[trigger] done@[k].active() by {
                if k < before.len() {
                    assert(done@[k] == before[k]);
                } else {
                    assert(done@[k] == started);
                }
            }
        }
        if r.is_err() {
            result = r;
        }
    }
    let ghost started = done@;
    let ghost untouched = workers@;
    done.append(workers);
    std::mem::swap(workers, &mut done);
    proof {
        assert(workers@ == started + untouched);
        if result is Err {
            let k = started.len() - 1;
            assert forall|j: int| 0 <= j <= k implies #[trigger] workers@[j].active() by {
                assert(workers@[j] == started[j]);
            }
            assert forall|j: int| k < j < orig.len() implies #[trigger] workers@[j] == orig[j] by {
                assert(workers@[j] == untouched[j - started.len()]);
            }
            assert(started_up_to(orig, workers@, k));
        } else {
            assert forall|j: int| 0 <= j < workers@.len() implies #[trigger] workers@[j].active() by {
                assert(untouched.len() == 0);
                assert(workers@[j] == started[j]);
            }
        }
    }
    result
}

/// Whether none of `workers` runs.
pub open spec fn all_idle(workers: Seq<Box<dyn ThreadWorker>>) -> bool {
    forall|k: int| 0 <= k < workers.len() ==> !(#[trigger] workers[k].active())
}

/// A list of workers with one more at its end is idle exactly when the
/// list was idle and the new worker does not run.
pub proof fn lemma_idle_after_push(before: Seq<Box<dyn ThreadWorker>>, after: Seq<Box<dyn ThreadWorker>>)
    requires
        after.len() == before.len() + 1,
        forall|k: int| 0 <= k < before.len() ==> after[k] == before[k],
    ensures
        all_idle(after) <==> all_idle(before) && !after[before.len() as int].active(),
{
    if all_idle(before) && !after[before.len() as int].active() {
        assert forall|k: int| 0 <= k < after.len() implies !(#[trigger] after[k].active()) by {
            if k < before.len() { assert(after[k] == before[k]); }
        }
    }
    if all_idle(after) {
        assert forall|k: int| 0 <= k < before.len() implies !(#[trigger] before[k].active()) by {
            assert(after[k] == before[k]);
        }
        assert(!after[before.len() as int].active());
    }
}

/// Stop every worker; none runs afterwards.
pub(crate) fn stop_all(workers: &mut Vec<Box<dyn ThreadWorker>>, wait_for_completion: bool)
    ensures
        final(workers)@.len() == old(workers)@.len(),
        forall|k: int| 0 <= k < final(workers)@.len() ==> !(#[trigger] final(workers)@[k].active()),
{
    let n = workers.len();
    let mut done: Vec<Box<dyn ThreadWorker>> = Vec::new();
    while workers.len() > 0
        invariant
            done@.len() + workers@.len() == n,
            forall|k: int| 0 <= k < done@.len() ==> !(#[trigger] done@[k].active()),
        decreases workers@.len(),
    {
        let mut w = workers.remove(0);
        w.stop(wait_for_completion);
        let ghost stopped = w;
        let mut one = vec![w];
        proof { assert(one@[0] == stopped); }
        let ghost before = done@;
        done.append(&mut one);
        proof {
            assert forall|k: int| 0 <= k < done@.len() implies !(#[trigger] done@[k].active()) by {
                if k < before.len() {
                    assert(done@[k] == before[k]);
                } else {
                    assert(done@[k] == stopped);
                }
            }
        }
    }
    std::mem::swap(workers, &mut done);
}

/// A pool of workers that can be paused: while it is paused, or stopped,
/// no job is handed out; submitted jobs wait in first-in first-out order.
pub struct PauseableThreadPool {
    title: String,
    running: bool,
    paused: bool,
    jobs: Vec<Box<dyn Job>>,
    workers: Vec<Box<dyn ThreadWorker>>,
    check_interval: u64,
}

impl PauseableThreadPool {
    /// The title of the pool.
    pub closed spec fn titled(self) -> Seq<char> {
        self.title@
    }

    /// Whether the pool runs.
    pub closed spec fn runs(self) -> bool {
        self.running
    }

    /// Whether the pool is paused.
    pub closed spec fn pauses(self) -> bool {
        self.paused
    }

    /// The number of jobs waiting.
    pub closed spec fn pending(self) -> nat {
        self.jobs@.len()
    }

    /// The jobs waiting, oldest first.
    pub closed spec fn waiting(self) -> Seq<Box<dyn Job>> {
        self.jobs@
    }

    /// The number of workers.
    pub closed spec fn worker_total(self) -> nat {
        self.workers@.len()
    }

    /// Whether no worker runs.
    pub closed spec fn workers_idle(self) -> bool {
        all_idle(self.workers@)
    }

    /// How long an idle worker sleeps, in milliseconds.
    pub closed spec fn interval(self) -> u64 {
        self.check_interval
    }

    /// A pool named `title`, stopped and not paused, with no worker, no job
    /// and a check interval of 50 milliseconds.
    pub fn new(title: &str) -> (p: Self)
        ensures
            p.titled() == title@,
            !p.runs(),
            !p.pauses(),
            p.pending() == 0,
            p.worker_total() == 0,
            p.workers_idle(),
            p.interval() == 50,
    {
        PauseableThreadPool {
            title: String::from_str(title),
            running: false,
            paused: false,
            jobs: Vec::new(),
            workers: Vec::new(),
            check_interval: 50,
        }
    }

    /// A pool named `"pauseable_thread_pool"` with `num_workers` workers.
    pub fn with_workers(num_workers: usize) -> (p: Self)
        requires
            2 * num_workers <= usize::MAX,
        ensures
            p.titled() == "pauseable_thread_pool"@,
            !p.runs(),
            !p.pauses(),
            p.pending() == 0,
            p.worker_total() == num_workers,
            p.workers_idle(),
            p.interval() == 50,
    {
        let mut pool = Self::new("pauseable_thread_pool");
        let _ = pool.add_workers(num_workers);
        pool
    }

    /// Add `count` workers, titled after the pool and numbered by the count
    /// of workers already there plus their position in this call. In a
    /// running pool each is started.
    pub fn add_workers(&mut self, count: usize) -> (r: Result<()>)
        requires
            old(self).worker_total() + 2 * count <= usize::MAX,
        ensures
            r is Ok,
            final(self).worker_total() == old(self).worker_total() + count,
            !old(self).runs() ==> final(self).workers_idle() == old(self).workers_idle(),
            final(self).titled() == old(self).titled(),
            final(self).runs() == old(self).runs(),
            final(self).pauses() == old(self).pauses(),
            final(self).pending() == old(self).pending(),
            final(self).interval() == old(self).interval(),
    {
        let ghost n0 = self.workers@.len();
        let mut i: usize = 0;
        while i < count
            invariant
                i <= count,
                self.workers@.len() == n0 + i,
                n0 + 2 * count <= usize::MAX,
                self.title@ == old(self).title@,
                self.running == old(self).running,
                self.paused == old(self).paused,
                self.jobs@.len() == old(self).jobs@.len(),
                self.check_interval == old(self).check_interval,
                !self.running ==> (all_idle(self.workers@) == all_idle(old(self).workers@)),
            decreases count - i,
        {
            let index = self.workers.len() + i;
            let number = decimal(index as u64);
            let name = framed(self.title.as_str(), "_worker_", number.as_str());
            let mut worker = BasicThreadWorker::new(name.as_str(), self.check_interval);
            if self.running {
                let _ = worker.start();
            }
            let boxed: Box<dyn ThreadWorker> = Box::new(worker);
            let ghost before = self.workers@;
            let ghost held = boxed;
            let mut one = vec![boxed];
            proof { assert(one@.len() == 1 && one@[0] == held); }
            self.workers.append(&mut one);
            proof {
                assert(self.workers@.len() == before.len() + 1);
                assert(self.workers@[before.len() as int] == held);
                assert(forall|k: int| 0 <= k < before.len() ==> self.workers@[k] == before[k]);
                lemma_idle_after_push(before, self.workers@);
            }
            i = i + 1;
        }
        Ok(())
    }

    /// Add a worker of the caller's own. In a running pool it is started
    /// first, and a worker that fails to start is not added.
    pub fn add_worker(&mut self, worker: Box<dyn ThreadWorker>) -> (r: Result<()>)
        ensures
            !old(self).runs() ==> r is Ok,
            final(self).worker_total() == old(self).worker_total() + if r is Ok { 1nat } else { 0nat },
            !old(self).runs() ==> (final(self).workers_idle() <==> old(self).workers_idle() && !worker.active()),
            final(self).titled() == old(self).titled(),
            final(self).runs() == old(self).runs(),
            final(self).pauses() == old(self).pauses(),
            final(self).pending() == old(self).pending(),
            final(self).interval() == old(self).interval(),
    {
        let mut worker = worker;
        if self.running {
            let r = worker.start();
            if r.is_err() {
                return r;
            }
        }
        let ghost before = self.workers@;
        let ghost held = worker;
        let mut one = vec![worker];
        proof { assert(one@.len() == 1 && one@[0] == held); }
        self.workers.append(&mut one);
        proof {
            assert(self.workers@.len() == before.len() + 1);
            assert(self.workers@[before.len() as int] == held);
            assert(forall|k: int| 0 <= k < before.len() ==> self.workers@[k] == before[k]);
            lemma_idle_after_push(before, self.workers@);
        }
        Ok(())
    }

    /// Start the pool and then each worker; an error if it already runs,
    /// or the error of the first worker that fails to start.
    pub fn start(&mut self) -> (r: Result<()>)
        ensures
            old(self).runs() ==> (r matches Err(Error::ThreadPoolError(m))
                && m@ == pool_message("Thread pool '"@, old(self).titled(), "' is already running"@)),
            !old(self).runs() && old(self).workers_idle() ==> r is Ok,
            final(self).runs(),
            final(self).titled() == old(self).titled(),
            final(self).pauses() == old(self).pauses(),
            final(self).pending() == old(self).pending(),
            final(self).worker_total() == old(self).worker_total(),
            final(self).interval() == old(self).interval(),
    {
        if self.running {
            let m = framed("Thread pool '", self.title.as_str(), "' is already running");
            proof {
                reveal_strlit("Thread pool '");
                reveal_strlit("' is already running");
            }
            return Err(Error::thread_pool_error(m.as_str()));
        }
        self.running = true;
        start_all(&mut self.workers)
    }

    /// Queue `job` in a running pool; an error in a stopped one.
    pub fn submit<J: Job + 'static>(&mut self, job: J) -> (r: Result<()>)
        ensures
            !old(self).runs() ==> (r matches Err(Error::ThreadPoolError(m))
                && m@ == pool_message("Thread pool '"@, old(self).titled(), "' is not running"@))
                && final(self).pending() == old(self).pending(),
            old(self).runs() ==> r is Ok && final(self).pending() == old(self).pending() + 1
                && final(self).waiting().drop_last() == old(self).waiting(),
            !old(self).runs() ==> final(self).waiting() == old(self).waiting(),
            final(self).titled() == old(self).titled(),
            final(self).runs() == old(self).runs(),
            final(self).pauses() == old(self).pauses(),
            final(self).worker_total() == old(self).worker_total(),
            final(self).workers_idle() == old(self).workers_idle(),
            final(self).interval() == old(self).interval(),
    {
        if !self.running {
            return Err(self.not_running());
        }
        let boxed: Box<dyn Job> = Box::new(job);
        let mut one = vec![boxed];
        self.jobs.append(&mut one);
        Ok(())
    }

    /// The error of a submission to a stopped pool.
    fn not_running(&self) -> (e: Error)
        ensures
            e matches Error::ThreadPoolError(m) && m@ == pool_message("Thread pool '"@, self.titled(), "' is not running"@),
    {
        let m = framed("Thread pool '", self.title.as_str(), "' is not running");
        proof {
            reveal_strlit("Thread pool '");
            reveal_strlit("' is not running");
        }
        Error::thread_pool_error(m.as_str())
    }

    /// Queue the jobs of `batch`, in order, in a running pool; an error in
    /// a stopped one.
    pub fn submit_batch(&mut self, batch: JobBatch) -> (r: Result<()>)
        ensures
            !old(self).runs() ==> (r matches Err(Error::ThreadPoolError(m))
                && m@ == pool_message("Thread pool '"@, old(self).titled(), "' is not running"@))
                && final(self).pending() == old(self).pending(),
            old(self).runs() ==> r is Ok && final(self).waiting() == old(self).waiting() + batch.members(),
            !old(self).runs() ==> final(self).waiting() == old(self).waiting(),
            final(self).pending() == final(self).waiting().len(),
            final(self).titled() == old(self).titled(),
            final(self).runs() == old(self).runs(),
            final(self).pauses() == old(self).pauses(),
            final(self).worker_total() == old(self).worker_total(),
            final(self).workers_idle() == old(self).workers_idle(),
            final(self).interval() == old(self).interval(),
    {
        if !self.running {
            return Err(self.not_running());
        }
        let mut jobs = batch.into_jobs();
        self.jobs.append(&mut jobs);
        Ok(())
    }

    /// The next job for a worker: the oldest waiting job, unless the pool
    /// is stopped or paused, or no job waits.
    pub fn next_job(&mut self) -> (j: Option<Box<dyn Job>>)
        ensures
            (j is Some) == (old(self).runs() && !old(self).pauses() && old(self).pending() > 0),
            final(self).pending() == old(self).pending() - if j is Some { 1int } else { 0int },
            j is Some ==> j == Some(old(self).waiting()[0]) && final(self).waiting() == old(self).waiting().drop_first(),
            j is None ==> final(self).waiting() == old(self).waiting(),
            final(self).titled() == old(self).titled(),
            final(self).runs() == old(self).runs(),
            final(self).pauses() == old(self).pauses(),
            final(self).worker_total() == old(self).worker_total(),
            final(self).workers_idle() == old(self).workers_idle(),
            final(self).interval() == old(self).interval(),
    {
        if !self.running || self.paused || self.jobs.len() == 0 {
            None
        } else {
            let job = self.jobs.remove(0);
            proof { assert(self.jobs@ =~= old(self).jobs@.drop_first()); }
            // Handed out through a one-element vector, whose `pop` is known
            // to give back the very job that was put in.
            let mut one = vec![job];
            one.pop()
        }
    }

    /// Stop the pool and every worker.
    pub fn stop(&mut self, wait_for_completion: bool)
        ensures
            !final(self).runs(),
            final(self).workers_idle(),
            final(self).titled() == old(self).titled(),
            final(self).pauses() == old(self).pauses(),
            final(self).pending() == old(self).pending(),
            final(self).worker_total() == old(self).worker_total(),
            final(self).interval() == old(self).interval(),
    {
        self.running = false;
        stop_all(&mut self.workers, wait_for_completion);
    }

    /// Pause a running pool (nothing changes if it is paused already); an
    /// error if it is stopped.
    pub fn pause(&mut self) -> (r: Result<()>)
        ensures
            !old(self).runs() ==> (r matches Err(Error::ThreadPoolError(m))
                && m@ == pool_message("Cannot pause thread pool '"@, old(self).titled(), "' as it is not running"@))
                && final(self).pauses() == old(self).pauses(),
            old(self).runs() ==> r is Ok && final(self).pauses(),
            final(self).titled() == old(self).titled(),
            final(self).runs() == old(self).runs(),
            final(self).pending() == old(self).pending(),
            final(self).worker_total() == old(self).worker_total(),
            final(self).workers_idle() == old(self).workers_idle(),
            final(self).interval() == old(self).interval(),
    {
        if !self.running {
            let m = framed("Cannot pause thread pool '", self.title.as_str(), "' as it is not running");
            proof {
                reveal_strlit("Cannot pause thread pool '");
                reveal_strlit("' as it is not running");
            }
            return Err(Error::thread_pool_error(m.as_str()));
        }
        self.paused = true;
        Ok(())
    }

    /// Resume a running pool (nothing changes if it is not paused); an
    /// error if it is stopped.
    pub fn resume(&mut self) -> (r: Result<()>)
        ensures
            !old(self).runs() ==> (r matches Err(Error::ThreadPoolError(m))
                && m@ == pool_message("Cannot resume thread pool '"@, old(self).titled(), "' as it is not running"@))
                && final(self).pauses() == old(self).pauses(),
            old(self).runs() ==> r is Ok && !final(self).pauses(),
            final(self).titled() == old(self).titled(),
            final(self).runs() == old(self).runs(),
            final(self).pending() == old(self).pending(),
            final(self).worker_total() == old(self).worker_total(),
            final(self).workers_idle() == old(self).workers_idle(),
            final(self).interval() == old(self).interval(),
    {
        if !self.running {
            let m = framed("Cannot resume thread pool '", self.title.as_str(), "' as it is not running");
            proof {
                reveal_strlit("Cannot resume thread pool '");
                reveal_strlit("' as it is not running");
            }
            return Err(Error::thread_pool_error(m.as_str()));
        }
        self.paused = false;
        Ok(())
    }

    /// Whether the pool runs.
    pub fn is_running(&self) -> (b: bool)
        ensures
            b == self.runs(),
    {
        self.running
    }

    /// Whether the pool is paused.
    pub fn is_paused(&self) -> (b: bool)
        ensures
            b == self.pauses(),
    {
        self.paused
    }

    /// The number of workers.
    pub fn worker_count(&self) -> (n: usize)
        ensures
            n == self.worker_total(),
    {
        self.workers.len()
    }

    /// The jobs waiting, oldest first.
    pub fn job_queue(&self) -> (q: &[Box<dyn Job>])
        ensures
            q@ == self.waiting(),
    {
        self.jobs.as_slice()
    }

    /// How long an idle worker sleeps, in milliseconds.
    pub fn check_interval(&self) -> (ms: u64)
        ensures
            ms == self.interval(),
    {
        self.check_interval
    }

    /// Set how long an idle worker sleeps, in milliseconds.
    pub fn set_check_interval(&mut self, interval: u64)
        ensures
            final(self).interval() == interval,
            final(self).titled() == old(self).titled(),
            final(self).runs() == old(self).runs(),
            final(self).pauses() == old(self).pauses(),
            final(self).pending() == old(self).pending(),
            final(self).worker_total() == old(self).worker_total(),
            final(self).workers_idle() == old(self).workers_idle(),
    {
        self.check_interval = interval;
    }

    /// The title of the pool.
    pub fn title(&self) -> (t: &str)
        ensures
            t@ == self.titled(),
    {
        self.title.as_str()
    }

    /// A text describing the pool, such as
    /// `"PauseableThreadPool 'p' (running: no, paused: no, workers: 0)"`.
    pub fn to_string(&self) -> (s: String)
        ensures
            s@ == pauseable_pool_text(self.titled(), self.runs(), self.pauses(), self.worker_total()),
    {
        let s = concat2("PauseableThreadPool '", self.title.as_str());
        let s = concat2(s.as_str(), "' (running: ");
        let s = concat2(s.as_str(), if self.running { "yes" } else { "no" });
        let s = concat2(s.as_str(), ", paused: ");
        let s = concat2(s.as_str(), if self.paused { "yes" } else { "no" });
        let s = concat2(s.as_str(), ", workers: ");
        let count = decimal(self.workers.len() as u64);
        let s = concat2(s.as_str(), count.as_str());
        let s = concat2(s.as_str(), ")");
        proof {
            reveal_strlit("PauseableThreadPool '");
            reveal_strlit("' (running: ");
            reveal_strlit("yes");
            reveal_strlit("no");
            reveal_strlit(", paused: ");
            reveal_strlit(", workers: ");
            reveal_strlit(")");
        }
        s
    }
}

} // verus!
