//! Priority levels for jobs and a priority queue that serves the highest
//! priority first and, within one priority, the earliest sequence number.
use vstd::prelude::*;
use crate::core_types::job::BoxedJob;

verus! {

/// Job priority levels (a higher value means a higher priority).
#[derive(Debug, Clone, Copy, PartialEq, Eq, PartialOrd, Ord, Hash, Structural)]
pub enum Priority {
    /// Lowest priority: background tasks.
    Low,
    /// Normal priority: the default for most tasks.
    Normal,
    /// High priority: important tasks.
    High,
    /// Critical priority: must be executed as soon as possible.
    Critical,
}

/// The numeric value of a priority.
pub open spec fn priority_value(p: Priority) -> u8 {
    match p {
        Priority::Low => 1,
        Priority::Normal => 5,
        Priority::High => 8,
        Priority::Critical => 10,
    }
}

impl Default for Priority {
    fn default() -> (p: Self)
        ensures
            p == Priority::Normal,
    {
        Priority::Normal
    }
}

impl Priority {
    /// The numeric value of the priority.
    pub fn value(&self) -> (v: u8)
        ensures
            v == priority_value(*self),
    {
        match self {
            Priority::Low => 1,
            Priority::Normal => 5,
            Priority::High => 8,
            Priority::Critical => 10,
        }
    }
}

/// A job with an associated priority and a sequence number.
pub struct PriorityJob {
    pub(crate) priority: Priority,
    pub(crate) job: BoxedJob,
    /// Sequence number for FIFO ordering within one priority.
    pub(crate) sequence: u64,
}

/// The ordering key of a queued job: its priority and its sequence number.
pub closed spec fn job_key(j: PriorityJob) -> (Priority, u64) {
    (j.priority, j.sequence)
}


/// Whether a job with key `a` is served strictly before a job with key `b`:
/// a higher priority first, and within one priority the smaller sequence.
pub open spec fn served_before(a: (Priority, u64), b: (Priority, u64)) -> bool {
    ||| priority_value(a.0) > priority_value(b.0)
    ||| (priority_value(a.0) == priority_value(b.0) && a.1 < b.1)
}

impl PriorityJob {
    /// Create a new priority job.
    pub fn new(priority: Priority, job: BoxedJob, sequence: u64) -> (pj: Self)
        ensures
            job_key(pj) == (priority, sequence),
    {
        PriorityJob { priority, job, sequence }
    }

    /// The priority of this job.
    pub fn priority(&self) -> (p: Priority)
        ensures
            p == job_key(*self).0,
    {
        self.priority
    }

    /// The sequence number of this job.
    pub fn sequence(&self) -> (s: u64)
        ensures
            s == job_key(*self).1,
    {
        self.sequence
    }

    /// The job itself, for a worker to run.
    pub fn into_job(self) -> BoxedJob {
        self.job
    }
}

/// A priority queue of jobs.
pub struct PriorityQueue {
    heap: Vec<PriorityJob>,
}

impl View for PriorityQueue {
    type V = Seq<PriorityJob>;

    closed spec fn view(&self) -> Seq<PriorityJob> {
        self.heap@
    }
}

/// The keys of a sequence of queued jobs.
pub open spec fn keys(s: Seq<PriorityJob>) -> Seq<(Priority, u64)> {
    s.map_values(|j: PriorityJob| job_key(j))
}

/// Whether `j` is served first among `s`: no job of `s` is served before it.
pub open spec fn is_first(s: Seq<PriorityJob>, j: PriorityJob) -> bool {
    forall|k: int| 0 <= k < s.len() ==> !served_before(#[trigger] job_key(s[k]), job_key(j))
}

impl Default for PriorityQueue {
    fn default() -> (q: Self)
        ensures
            q@ == Seq::<PriorityJob>::empty(),
    {
        PriorityQueue::new()
    }
}

impl PriorityQueue {
    /// Create a new empty priority queue.
    pub fn new() -> (q: Self)
        ensures
            q@ == Seq::<PriorityJob>::empty(),
    {
        PriorityQueue { heap: Vec::new() }
    }

    /// Create a new empty priority queue with room for `capacity` jobs.
    pub fn with_capacity(capacity: usize) -> (q: Self)
        ensures
            q@ == Seq::<PriorityJob>::empty(),
    {
        PriorityQueue { heap: Vec::with_capacity(capacity) }
    }

    /// Push a job onto the queue.
    pub fn push(&mut self, job: PriorityJob)
        ensures
            final(self)@ == old(self)@.push(job),
    {
        self.heap.push(job);
    }

    /// Remove and return the job that is served first: the highest priority,
    /// and within that priority the smallest sequence number.
    pub fn pop(&mut self) -> (r: Option<PriorityJob>)
        ensures
            old(self)@.len() == 0 ==> r.is_none() && final(self)@ == old(self)@,
            old(self)@.len() > 0 ==> (r matches Some(j) && is_first(old(self)@, j)
                && exists|i: int| 0 <= i < old(self)@.len() && old(self)@[i] == j
                    && final(self)@ == old(self)@.remove(i)),
    {
        if self.heap.len() == 0 {
            return None;
        }
        let mut best: usize = 0;
        let mut i: usize = 1;
        while i < self.heap.len()
            invariant
                0 <= best < i <= self.heap.len(),
                forall|k: int| 0 <= k < i ==> !served_before(
                    #[trigger] job_key(self.heap@[k]), job_key(self.heap@[best as int])),
            decreases self.heap.len() - i,
        {
            let cand = self.heap[i].priority.value();
            let cur = self.heap[best].priority.value();
            if cand > cur || (cand == cur && self.heap[i].sequence < self.heap[best].sequence) {
                best = i;
            }
            i = i + 1;
        }
        let ghost before = self.heap@;
        let j = self.heap.remove(best);
        proof {
            assert(before[best as int] == j);
        }
        Some(j)
    }

    /// The number of jobs in the queue.
    pub fn len(&self) -> (n: usize)
        ensures
            n == self@.len(),
    {
        self.heap.len()
    }

    /// Whether the queue is empty.
    pub fn is_empty(&self) -> (b: bool)
        ensures
            b == (self@.len() == 0),
    {
        self.heap.len() == 0
    }

    /// Remove all jobs from the queue.
    pub fn clear(&mut self)
        ensures
            final(self)@ == Seq::<PriorityJob>::empty(),
    {
        self.heap.clear();
    }
}

/// Within one priority the job sent first is served first: while a job of
/// the same priority with a smaller sequence number waits, a later one is
/// not the next served.
pub proof fn lemma_fifo_within_priority(s: Seq<PriorityJob>, a: PriorityJob, b: PriorityJob)
    requires
        s.contains(a),
        job_key(a).0 == job_key(b).0,
        job_key(a).1 < job_key(b).1,
    ensures
        !is_first(s, b),
{
    let k = choose|k: int| 0 <= k < s.len() && s[k] == a;
    assert(served_before(job_key(s[k]), job_key(b)));
}

/// A more urgent job is served first: while a job of higher priority
/// waits, a less urgent one is not the next served.
pub proof fn lemma_higher_priority_first(s: Seq<PriorityJob>, a: PriorityJob, b: PriorityJob)
    requires
        s.contains(a),
        priority_value(job_key(a).0) > priority_value(job_key(b).0),
    ensures
        !is_first(s, b),
{
    let k = choose|k: int| 0 <= k < s.len() && s[k] == a;
    assert(served_before(job_key(s[k]), job_key(b)));
}

} // verus!
