//! Job priorities and jobs that carry one, for pools that schedule the
//! most urgent work first.
use vstd::prelude::*;
use vstd::string::*;
use std::cmp::Ordering;
use crate::error::{Error, Result};
use crate::job::{Job, JobQueue};
use crate::pauseable_thread_pool::{all_idle, framed, lemma_idle_after_push, pool_message, start_all, stop_all};
use crate::text::{concat2, decimal, decimal_text};
use crate::thread_base::{BasicThreadWorker, ThreadWorker};

verus! {

/// Job priority levels, from least to most urgent.
#[derive(Debug, Clone, Copy, PartialEq, Eq, PartialOrd, Ord, Hash, Structural)]
pub enum JobPriority {
    /// Lowest priority
    Lowest,
    /// Low priority
    Low,
    /// Normal priority
    Normal,
    /// High priority
    High,
    /// Highest priority
    Highest,
}

/// The rank of a priority: 0 for `Lowest` up to 4 for `Highest`.
pub open spec fn priority_rank(p: JobPriority) -> nat {
    match p {
        JobPriority::Lowest => 0,
        JobPriority::Low => 1,
        JobPriority::Normal => 2,
        JobPriority::High => 3,
        JobPriority::Highest => 4,
    }
}

/// The name of a priority.
pub open spec fn priority_name(p: JobPriority) -> Seq<char> {
    match p {
        JobPriority::Lowest => "Lowest"@,
        JobPriority::Low => "Low"@,
        JobPriority::Normal => "Normal"@,
        JobPriority::High => "High"@,
        JobPriority::Highest => "Highest"@,
    }
}

/// The description of a prioritized job whose inner job is described by
/// `inner`.
pub open spec fn priority_job_text(p: JobPriority, inner: Seq<char>) -> Seq<char> {
    "PriorityJob["@ + priority_name(p) + "]: "@ + inner
}

impl JobPriority {
    /// The rank of the priority, 0 (`Lowest`) to 4 (`Highest`).
    pub fn rank(&self) -> (r: u8)
        ensures
            r == priority_rank(*self),
    {
        match self {
            JobPriority::Lowest => 0,
            JobPriority::Low => 1,
            JobPriority::Normal => 2,
            JobPriority::High => 3,
            JobPriority::Highest => 4,
        }
    }

    /// The name of the priority, such as `"High"`.
    pub fn to_string(&self) -> (s: String)
        ensures
            s@ == priority_name(*self),
    {
        let s = match self {
            JobPriority::Lowest => "Lowest",
            JobPriority::Low => "Low",
            JobPriority::Normal => "Normal",
            JobPriority::High => "High",
            JobPriority::Highest => "Highest",
        };
        String::from_str(s)
    }
}

/// The description of a prioritized job: `"PriorityJob[<priority>]: "`
/// followed by the description of the inner job.
pub fn priority_job_description(p: JobPriority, inner: &str) -> (s: String)
    ensures
        s@ == priority_job_text(p, inner@),
{
    let name = p.to_string();
    let head = crate::text::concat2("PriorityJob[", name.as_str());
    let head = crate::text::concat2(head.as_str(), "]: ");
    let s = crate::text::concat2(head.as_str(), inner);
    proof {
        reveal_strlit("PriorityJob[");
        reveal_strlit("]: ");
    }
    s
}

/// A job with a priority level. Jobs compare by priority alone, and a more
/// urgent job orders before a less urgent one.
pub struct PriorityJob {
    job: Box<dyn Job>,
    priority: JobPriority,
}

impl PriorityJob {
    /// The priority of the job.
    pub closed spec fn level(self) -> JobPriority {
        self.priority
    }

    /// Wrap `job` with `priority`.
    pub fn new<J: Job + 'static>(job: J, priority: JobPriority) -> (p: Self)
        ensures
            p.level() == priority,
    {
        PriorityJob { job: Box::new(job), priority }
    }

    /// The priority of the job.
    pub fn priority(&self) -> (p: JobPriority)
        ensures
            p == self.level(),
    {
        self.priority
    }
}

impl Job for PriorityJob {
    /// The creation time of the wrapped job.
    closed spec fn created_at(&self) -> u64 {
        self.job.created_at()
    }

    /// What the wrapped job can give.
    closed spec fn can_give(&self, r: Result<()>) -> bool {
        self.job.can_give(r)
    }

    /// The wrapped job's description, tagged with the priority.
    closed spec fn description_text(&self) -> Seq<char> {
        priority_job_text(self.priority, self.job.description_text())
    }

    /// Run the wrapped job.
    fn execute(&mut self) -> (r: Result<()>)
        ensures
            old(self).can_give(r),
            final(self).level() == old(self).level(),
    {
        self.job.execute()
    }

    fn description(&self) -> (d: String) {
        let inner = self.job.description();
        let d = priority_job_description(self.priority, inner.as_str());
        assert(d@ == priority_job_text(self.level(), inner@));
        d
    }

    fn creation_time(&self) -> (t: u64) {
        self.job.creation_time()
    }
}

impl PartialEq for PriorityJob {
    fn eq(&self, other: &Self) -> (r: bool) {
        self.priority == other.priority
    }
}

impl vstd::std_specs::cmp::PartialEqSpecImpl for PriorityJob {
    open spec fn obeys_eq_spec() -> bool {
        true
    }

    open spec fn eq_spec(&self, other: &Self) -> bool {
        self.level() == other.level()
    }
}

impl Eq for PriorityJob {}

/// How `a` orders against `b` when more urgent jobs come first.
pub open spec fn urgency_order(a: JobPriority, b: JobPriority) -> Ordering {
    if priority_rank(a) > priority_rank(b) {
        Ordering::Less
    } else if priority_rank(a) == priority_rank(b) {
        Ordering::Equal
    } else {
        Ordering::Greater
    }
}

impl PartialOrd for PriorityJob {
    fn partial_cmp(&self, other: &Self) -> (r: Option<Ordering>) {
        let a = self.priority.rank();
        let b = other.priority.rank();
        if a > b {
            Some(Ordering::Less)
        } else if a == b {
            Some(Ordering::Equal)
        } else {
            Some(Ordering::Greater)
        }
    }
}

impl vstd::std_specs::cmp::PartialOrdSpecImpl for PriorityJob {
    open spec fn obeys_partial_cmp_spec() -> bool {
        true
    }

    open spec fn partial_cmp_spec(&self, other: &Self) -> Option<Ordering> {
        Some(urgency_order(self.level(), other.level()))
    }
}


/// The priorities of a list of prioritized jobs.
pub open spec fn levels(s: Seq<PriorityJob>) -> Seq<JobPriority> {
    s.map_values(|j: PriorityJob| j.level())
}

/// Whether no priority of `s` is more urgent than one before it.
pub open spec fn most_urgent_first(s: Seq<JobPriority>) -> bool {
    forall|i: int, j: int| 0 <= i < j < s.len() ==> priority_rank(#[trigger] s[i]) >= priority_rank(#[trigger] s[j])
}

/// Ranks follow the declared order of the priorities: each is more urgent
/// than the one declared before it.
pub proof fn lemma_rank_follows_declared_order()
    ensures
        priority_rank(JobPriority::Lowest) < priority_rank(JobPriority::Low),
        priority_rank(JobPriority::Low) < priority_rank(JobPriority::Normal),
        priority_rank(JobPriority::Normal) < priority_rank(JobPriority::High),
        priority_rank(JobPriority::High) < priority_rank(JobPriority::Highest),
        forall|p: JobPriority, q: JobPriority| priority_rank(p) == priority_rank(q) ==> p == q,
{
}

/// In a buffer served most urgent first, a `Highest` job, if there is one,
/// comes first, and every job before a less urgent one is at least as
/// urgent as it; in particular no `High` job is served before a `Highest`
/// one.
pub proof fn lemma_highest_served_first(s: Seq<JobPriority>)
    requires
        most_urgent_first(s),
    ensures
        s.contains(JobPriority::Highest) ==> s[0] == JobPriority::Highest,
        forall|i: int, j: int| 0 <= i < j < s.len() && s[j] == JobPriority::Highest ==> s[i] == JobPriority::Highest,
{
    if s.contains(JobPriority::Highest) {
        let k = choose|k: int| 0 <= k < s.len() && s[k] == JobPriority::Highest;
        if k > 0 {
            assert(priority_rank(s[0]) >= priority_rank(s[k]));
        }
    }
    assert forall|i: int, j: int| 0 <= i < j < s.len() && s[j] == JobPriority::Highest implies s[i] == JobPriority::Highest by {
        assert(priority_rank(s[i]) >= priority_rank(s[j]));
    }
}

/// Whether `i` is where a job of priority `p` joins `s`: after every job
/// at least as urgent, before every less urgent one.
pub open spec fn insertion_point(s: Seq<JobPriority>, p: JobPriority, i: int) -> bool {
    &&& 0 <= i <= s.len()
    &&& forall|k: int| 0 <= k < i ==> priority_rank(#[trigger] s[k]) >= priority_rank(p)
    &&& forall|k: int| i <= k < s.len() ==> priority_rank(#[trigger] s[k]) < priority_rank(p)
}

/// A job buffered with priority `p` at `i` goes behind every buffered job
/// of the same priority (first sent, first served) and keeps the buffer
/// most urgent first.
pub proof fn lemma_insertion_keeps_order(s: Seq<JobPriority>, p: JobPriority, i: int)
    requires
        most_urgent_first(s),
        insertion_point(s, p, i),
    ensures
        forall|k: int| 0 <= k < s.len() && s[k] == p ==> k < i,
        most_urgent_first(s.insert(i, p)),
{
    let t = s.insert(i, p);
    assert forall|a: int, b: int| 0 <= a < b < t.len() implies priority_rank(#[trigger] t[a]) >= priority_rank(#[trigger] t[b]) by {
        if a < i && b < i {
            assert(t[a] == s[a] && t[b] == s[b]);
        } else if a < i && b == i {
            assert(t[a] == s[a]);
        } else if a < i {
            assert(t[a] == s[a] && t[b] == s[b - 1]);
        } else if a == i {
            assert(t[b] == s[b - 1]);
        } else {
            assert(t[a] == s[a - 1] && t[b] == s[b - 1]);
        }
    }
}

/// The jobs of a priority pool. Jobs sent with a priority wait in a buffer,
/// the most urgent first and, among equally urgent ones, the first sent
/// first. Jobs sent through `JobQueue::enqueue` get priority `Normal` and
/// wait, in the order sent, until the buffer is empty.
pub struct PriorityJobQueue {
    buffer: Vec<PriorityJob>,
    backlog: Vec<PriorityJob>,
}

impl PriorityJobQueue {
    #[verifier::type_invariant]
    spec fn ordered(self) -> bool {
        most_urgent_first(levels(self.buffer@))
    }

    /// The priorities of the buffered jobs, in the order they are served.
    pub closed spec fn buffered(self) -> Seq<JobPriority> {
        levels(self.buffer@)
    }

    /// The number of jobs sent without a priority and still waiting.
    pub closed spec fn backlogged(self) -> nat {
        self.backlog@.len()
    }

    /// An empty queue.
    pub fn new() -> (q: Self)
        ensures
            q.buffered() == Seq::<JobPriority>::empty(),
            q.backlogged() == 0,
    {
        let q = PriorityJobQueue { buffer: Vec::new(), backlog: Vec::new() };
        assert(q.buffered() =~= Seq::<JobPriority>::empty());
        q
    }

    /// Buffer `job` with `priority`, behind every job at least as urgent
    /// and ahead of every less urgent one.
    pub fn enqueue_with_priority<J: Job + 'static>(&mut self, job: J, priority: JobPriority) -> (r: Result<()>)
        ensures
            r is Ok,
            exists|i: int| insertion_point(old(self).buffered(), priority, i)
                && final(self).buffered() == old(self).buffered().insert(i, priority),
            final(self).backlogged() == old(self).backlogged(),
    {
        proof { use_type_invariant(&*self); }
        let mut buf: Vec<PriorityJob> = Vec::new();
        std::mem::swap(&mut buf, &mut self.buffer);
        let ghost before = levels(buf@);
        let rank = priority.rank();
        let mut i: usize = 0;
        while i < buf.len() && buf[i].priority.rank() >= rank
            invariant
                i <= buf@.len(),
                levels(buf@) == before,
                most_urgent_first(before),
                rank == priority_rank(priority),
                forall|k: int| 0 <= k < i ==> priority_rank(#[trigger] before[k]) >= priority_rank(priority),
            decreases buf@.len() - i,
        {
            proof { assert(before[i as int] == buf@[i as int].level()); }
            i = i + 1;
        }
        proof {
            if i < buf@.len() {
                assert(before[i as int] == buf@[i as int].level());
                assert forall|k: int| i <= k < before.len() implies priority_rank(#[trigger] before[k]) < priority_rank(priority) by {
                    if k > i {
                        assert(priority_rank(before[i as int]) >= priority_rank(before[k]));
                    }
                }
            }
        }
        let pj = PriorityJob::new(job, priority);
        buf.insert(i, pj);
        proof {
            assert(levels(buf@) =~= before.insert(i as int, priority));
            lemma_insertion_keeps_order(before, priority, i as int);
        }
        self.buffer = buf;
        assert(before == old(self).buffered());
        assert(insertion_point(before, priority, i as int));
        assert(self.buffered() == before.insert(i as int, priority));
        Ok(())
    }
}

impl JobQueue for PriorityJobQueue {
    /// Send `job` with priority `Normal` to the backlog.
    fn enqueue(&mut self, job: Box<dyn Job>) -> (r: Result<()>)
        ensures
            r is Ok,
            final(self).buffered() == old(self).buffered(),
            final(self).backlogged() == old(self).backlogged() + 1,
    {
        proof { use_type_invariant(&*self); }
        let mut waiting: Vec<PriorityJob> = Vec::new();
        std::mem::swap(&mut waiting, &mut self.backlog);
        let mut one = vec![PriorityJob { job, priority: JobPriority::Normal }];
        waiting.append(&mut one);
        self.backlog = waiting;
        Ok(())
    }

    /// The first buffered job or, when the buffer is empty, the oldest job
    /// of the backlog.
    fn dequeue(&mut self) -> (j: Option<Box<dyn Job>>)
        ensures
            (j is Some) == (old(self).buffered().len() + old(self).backlogged() > 0),
            old(self).buffered().len() > 0 ==> final(self).buffered() == old(self).buffered().drop_first()
                && final(self).backlogged() == old(self).backlogged(),
            old(self).buffered().len() == 0 ==> final(self).buffered() == old(self).buffered()
                && final(self).backlogged() == if old(self).backlogged() > 0 { old(self).backlogged() - 1 } else { 0 },
    {
        proof { use_type_invariant(&*self); }
        if self.buffer.len() > 0 {
            let mut buf: Vec<PriorityJob> = Vec::new();
            std::mem::swap(&mut buf, &mut self.buffer);
            let ghost before = levels(buf@);
            let first = buf.remove(0);
            proof {
                assert(levels(buf@) =~= before.drop_first());
            }
            self.buffer = buf;
            let boxed: Box<dyn Job> = Box::new(first);
            Some(boxed)
        } else if self.backlog.len() > 0 {
            let mut waiting: Vec<PriorityJob> = Vec::new();
            std::mem::swap(&mut waiting, &mut self.backlog);
            let first = waiting.remove(0);
            self.backlog = waiting;
            let boxed: Box<dyn Job> = Box::new(first);
            Some(boxed)
        } else {
            None
        }
    }

    fn is_empty(&self) -> (b: bool)
        ensures
            b == (self.buffered().len() == 0 && self.backlogged() == 0),
    {
        self.buffer.len() == 0 && self.backlog.len() == 0
    }

    /// The number of waiting jobs (saturating at `usize::MAX`).
    fn len(&self) -> (n: usize)
        ensures
            n == if self.buffered().len() + self.backlogged() > usize::MAX { usize::MAX as int } else { (self.buffered().len() + self.backlogged()) as int },
    {
        self.buffer.len().saturating_add(self.backlog.len())
    }

    fn clear(&mut self)
        ensures
            final(self).buffered() == Seq::<JobPriority>::empty(),
            final(self).backlogged() == 0,
    {
        self.buffer = Vec::new();
        self.backlog = Vec::new();
        assert(self.buffered() =~= Seq::<JobPriority>::empty());
    }
}

impl Default for PriorityJobQueue {
    fn default() -> (q: Self)
        ensures
            q.buffered() == Seq::<JobPriority>::empty(),
            q.backlogged() == 0,
    {
        PriorityJobQueue::new()
    }
}

/// The description of a priority pool.
pub open spec fn priority_pool_text(title: Seq<char>, running: bool, workers: nat) -> Seq<char> {
    "PriorityThreadPool '"@ + title + "' (running: "@ + (if running { "yes"@ } else { "no"@ })
        + ", workers: "@ + decimal_text(workers) + ")"@
}

/// A pool whose workers take the most urgent job first. The pool decides;
/// the runtime runs one thread per worker, each of which asks `next_job`
/// for work and sleeps the check interval when it gets none.
pub struct PriorityThreadPool {
    title: String,
    running: bool,
    job_queue: PriorityJobQueue,
    workers: Vec<Box<dyn ThreadWorker>>,
    check_interval: u64,
}

impl PriorityThreadPool {
    /// The title of the pool.
    pub closed spec fn titled(self) -> Seq<char> {
        self.title@
    }

    /// Whether the pool runs.
    pub closed spec fn runs(self) -> bool {
        self.running
    }

    /// The jobs of the pool.
    pub closed spec fn jobs(self) -> PriorityJobQueue {
        self.job_queue
    }

    /// Whether no worker runs.
    pub closed spec fn workers_idle(self) -> bool {
        all_idle(self.workers@)
    }

    /// The number of workers.
    pub closed spec fn worker_total(self) -> nat {
        self.workers@.len()
    }

    /// How long an idle worker sleeps, in milliseconds.
    pub closed spec fn interval(self) -> u64 {
        self.check_interval
    }

    /// A stopped pool named `title`, with no worker, no job and a check
    /// interval of 50 milliseconds.
    pub fn new(title: &str) -> (p: Self)
        ensures
            p.titled() == title@,
            !p.runs(),
            p.jobs().buffered() == Seq::<JobPriority>::empty(),
            p.jobs().backlogged() == 0,
            p.worker_total() == 0,
            p.workers_idle(),
            p.interval() == 50,
    {
        PriorityThreadPool {
            title: String::from_str(title),
            running: false,
            job_queue: PriorityJobQueue::new(),
            workers: Vec::new(),
            check_interval: 50,
        }
    }

    /// A stopped pool named `"priority_thread_pool"` with `num_workers`
    /// workers.
    pub fn with_workers(num_workers: usize) -> (p: Self)
        requires
            2 * num_workers <= usize::MAX,
        ensures
            p.titled() == "priority_thread_pool"@,
            !p.runs(),
            p.jobs().buffered() == Seq::<JobPriority>::empty(),
            p.jobs().backlogged() == 0,
            p.worker_total() == num_workers,
            p.workers_idle(),
            p.interval() == 50,
    {
        let mut pool = Self::new("priority_thread_pool");
        let _ = pool.add_workers(num_workers);
        pool
    }

    /// Add `count` workers, titled after the pool and numbered by the count
    /// of workers already there plus their position in this call. In a
    /// running pool each is started (a new worker always starts).
    pub fn add_workers(&mut self, count: usize) -> (r: Result<()>)
        requires
            old(self).worker_total() + 2 * count <= usize::MAX,
        ensures
            r is Ok,
            final(self).worker_total() == old(self).worker_total() + count,
            !old(self).runs() ==> final(self).workers_idle() == old(self).workers_idle(),
            final(self).titled() == old(self).titled(),
            final(self).runs() == old(self).runs(),
            final(self).jobs() == old(self).jobs(),
            final(self).interval() == old(self).interval(),
    {
        let ghost n0 = self.workers@.len();
        let mut i: usize = 0;
        while i < count
            invariant
                i <= count,
                self.workers@.len() == n0 + i,
                n0 == old(self).workers@.len(),
                n0 + 2 * count <= usize::MAX,
                self.title@ == old(self).title@,
                self.running == old(self).running,
                self.job_queue == old(self).job_queue,
                self.check_interval == old(self).check_interval,
                !self.running ==> (all_idle(self.workers@) == all_idle(old(self).workers@)),
            decreases count - i,
        {
            let index = self.workers.len() + i;
            let number = decimal(index as u64);
            let name = framed(self.title.as_str(), "_worker_", number.as_str());
            let mut worker = BasicThreadWorker::new(name.as_str(), self.check_interval);
            if self.running {
                let r = worker.start();
                if r.is_err() {
                    return r;
                }
            }
            let boxed: Box<dyn ThreadWorker> = Box::new(worker);
            let ghost before = self.workers@;
            let ghost held = boxed;
            let mut one = vec![boxed];
            proof { assert(one@.len() == 1 && one@[0] == held); }
            self.workers.append(&mut one);
            proof {
                assert(self.workers@.len() == before.len() + 1);
                assert(self.workers@[before.len() as int] == held);
                assert(forall|k: int| 0 <= k < before.len() ==> self.workers@[k] == before[k]);
                lemma_idle_after_push(before, self.workers@);
            }
            i = i + 1;
        }
        Ok(())
    }

    /// Add a worker of the caller's own. In a running pool it is started
    /// first, and a worker that fails to start is not added.
    pub fn add_worker(&mut self, worker: Box<dyn ThreadWorker>) -> (r: Result<()>)
        ensures
            !old(self).runs() ==> r is Ok,
            final(self).worker_total() == old(self).worker_total() + if r is Ok { 1nat } else { 0nat },
            !old(self).runs() ==> (final(self).workers_idle() <==> old(self).workers_idle() && !worker.active()),
            final(self).titled() == old(self).titled(),
            final(self).runs() == old(self).runs(),
            final(self).jobs() == old(self).jobs(),
            final(self).interval() == old(self).interval(),
    {
        let mut worker = worker;
        if self.running {
            let r = worker.start();
            if r.is_err() {
                return r;
            }
        }
        let ghost before = self.workers@;
        let ghost held = worker;
        let mut one = vec![worker];
        proof { assert(one@.len() == 1 && one@[0] == held); }
        self.workers.append(&mut one);
        proof {
            assert(self.workers@.len() == before.len() + 1);
            assert(self.workers@[before.len() as int] == held);
            assert(forall|k: int| 0 <= k < before.len() ==> self.workers@[k] == before[k]);
            lemma_idle_after_push(before, self.workers@);
        }
        Ok(())
    }

    /// The error of an operation that needs the pool in the other state.
    fn state_error(&self, tail: &str) -> (e: Error)
        ensures
            e matches Error::ThreadPoolError(m) && m@ == pool_message("Priority thread pool '"@, self.titled(), tail@),
    {
        let m = framed("Priority thread pool '", self.title.as_str(), tail);
        proof { reveal_strlit("Priority thread pool '"); }
        Error::thread_pool_error(m.as_str())
    }

    /// Buffer `job` with `priority` in a running pool; an error in a
    /// stopped one.
    pub fn submit_with_priority<J: Job + 'static>(&mut self, job: J, priority: JobPriority) -> (r: Result<()>)
        ensures
            !old(self).runs() ==> (r matches Err(Error::ThreadPoolError(m))
                && m@ == pool_message("Priority thread pool '"@, old(self).titled(), "' is not running"@))
                && final(self).jobs() == old(self).jobs(),
            old(self).runs() ==> r is Ok && (exists|i: int| insertion_point(old(self).jobs().buffered(), priority, i)
                && final(self).jobs().buffered() == old(self).jobs().buffered().insert(i, priority))
                && final(self).jobs().backlogged() == old(self).jobs().backlogged(),
            final(self).titled() == old(self).titled(),
            final(self).runs() == old(self).runs(),
            final(self).worker_total() == old(self).worker_total(),
            final(self).workers_idle() == old(self).workers_idle(),
            final(self).interval() == old(self).interval(),
    {
        if !self.running {
            proof { reveal_strlit("' is not running"); }
            return Err(self.state_error("' is not running"));
        }
        self.job_queue.enqueue_with_priority(job, priority)
    }

    /// Buffer `job` with priority `Normal`.
    pub fn submit<J: Job + 'static>(&mut self, job: J) -> (r: Result<()>)
        ensures
            !old(self).runs() ==> (r matches Err(Error::ThreadPoolError(m))
                && m@ == pool_message("Priority thread pool '"@, old(self).titled(), "' is not running"@))
                && final(self).jobs() == old(self).jobs(),
            old(self).runs() ==> r is Ok && (exists|i: int| insertion_point(old(self).jobs().buffered(), JobPriority::Normal, i)
                && final(self).jobs().buffered() == old(self).jobs().buffered().insert(i, JobPriority::Normal))
                && final(self).jobs().backlogged() == old(self).jobs().backlogged(),
            final(self).titled() == old(self).titled(),
            final(self).runs() == old(self).runs(),
            final(self).worker_total() == old(self).worker_total(),
            final(self).workers_idle() == old(self).workers_idle(),
            final(self).interval() == old(self).interval(),
    {
        self.submit_with_priority(job, JobPriority::Normal)
    }

    /// Start the pool and then each worker; an error if it already runs,
    /// or the error of the first worker that fails to start.
    pub fn start(&mut self) -> (r: Result<()>)
        ensures
            old(self).runs() ==> (r matches Err(Error::ThreadPoolError(m))
                && m@ == pool_message("Priority thread pool '"@, old(self).titled(), "' is already running"@)),
            final(self).runs(),
            !old(self).runs() && old(self).workers_idle() ==> r is Ok,
            final(self).titled() == old(self).titled(),
            final(self).jobs() == old(self).jobs(),
            final(self).worker_total() == old(self).worker_total(),
            final(self).interval() == old(self).interval(),
    {
        if self.running {
            proof { reveal_strlit("' is already running"); }
            return Err(self.state_error("' is already running"));
        }
        self.running = true;
        start_all(&mut self.workers)
    }

    /// The next job for a worker: the next job of the queue while the pool
    /// runs, none when it is stopped.
    pub fn next_job(&mut self) -> (j: Option<Box<dyn Job>>)
        ensures
            !old(self).runs() ==> j is None && final(self).jobs() == old(self).jobs(),
            old(self).runs() ==> ((j is Some) == (old(self).jobs().buffered().len() + old(self).jobs().backlogged() > 0)),
            old(self).runs() && old(self).jobs().buffered().len() > 0 ==>
                final(self).jobs().buffered() == old(self).jobs().buffered().drop_first()
                && final(self).jobs().backlogged() == old(self).jobs().backlogged(),
            old(self).runs() && old(self).jobs().buffered().len() == 0 ==>
                final(self).jobs().buffered() == old(self).jobs().buffered()
                && final(self).jobs().backlogged() == if old(self).jobs().backlogged() > 0 { old(self).jobs().backlogged() - 1 } else { 0 },
            final(self).titled() == old(self).titled(),
            final(self).runs() == old(self).runs(),
            final(self).worker_total() == old(self).worker_total(),
            final(self).workers_idle() == old(self).workers_idle(),
            final(self).interval() == old(self).interval(),
    {
        if !self.running {
            return None;
        }
        self.job_queue.dequeue()
    }

    /// Stop the pool and every worker.
    pub fn stop(&mut self, wait_for_completion: bool)
        ensures
            !final(self).runs(),
            final(self).workers_idle(),
            final(self).titled() == old(self).titled(),
            final(self).jobs() == old(self).jobs(),
            final(self).worker_total() == old(self).worker_total(),
            final(self).interval() == old(self).interval(),
    {
        self.running = false;
        stop_all(&mut self.workers, wait_for_completion);
    }

    /// Whether the pool runs.
    pub fn is_running(&self) -> (b: bool)
        ensures
            b == self.runs(),
    {
        self.running
    }

    /// The number of workers.
    pub fn worker_count(&self) -> (n: usize)
        ensures
            n == self.worker_total(),
    {
        self.workers.len()
    }

    /// The jobs of the pool.
    pub fn job_queue(&self) -> (q: &PriorityJobQueue)
        ensures
            *q == self.jobs(),
    {
        &self.job_queue
    }

    /// How long an idle worker sleeps, in milliseconds.
    pub fn check_interval(&self) -> (ms: u64)
        ensures
            ms == self.interval(),
    {
        self.check_interval
    }

    /// Set how long an idle worker sleeps, in milliseconds.
    pub fn set_check_interval(&mut self, interval: u64)
        ensures
            final(self).interval() == interval,
            final(self).titled() == old(self).titled(),
            final(self).runs() == old(self).runs(),
            final(self).jobs() == old(self).jobs(),
            final(self).worker_total() == old(self).worker_total(),
            final(self).workers_idle() == old(self).workers_idle(),
    {
        self.check_interval = interval;
    }

    /// A text describing the pool, such as
    /// `"PriorityThreadPool 'p' (running: no, workers: 0)"`.
    pub fn to_string(&self) -> (s: String)
        ensures
            s@ == priority_pool_text(self.titled(), self.runs(), self.worker_total()),
    {
        let s = concat2("PriorityThreadPool '", self.title.as_str());
        let s = concat2(s.as_str(), "' (running: ");
        let s = concat2(s.as_str(), if self.running { "yes" } else { "no" });
        let s = concat2(s.as_str(), ", workers: ");
        let count = decimal(self.workers.len() as u64);
        let s = concat2(s.as_str(), count.as_str());
        let s = concat2(s.as_str(), ")");
        proof {
            reveal_strlit("PriorityThreadPool '");
            reveal_strlit("' (running: ");
            reveal_strlit("yes");
            reveal_strlit("no");
            reveal_strlit(", workers: ");
            reveal_strlit(")");
        }
        s
    }
}

} // verus!
