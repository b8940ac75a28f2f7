//! Jobs of the pool components: the job trait, callback jobs, retryable
//! jobs and batches. Points in time are milliseconds on the clock of
//! `crate::clock`.
use vstd::prelude::*;
use vstd::string::*;
use crate::backoff::{due_at, failure_recorded_at, remaining_at, RetryPolicy};
use crate::text::span_text;
use crate::clock::now_millis;
use crate::error::{error_text, Error, Result};

verus! {

/// A unit of work executed by a worker thread. Running a job takes
/// `&mut self`, since a job may keep state of its own (a retryable job
/// counts its attempts); a runtime that shares a job between threads puts
/// it behind a lock.
pub trait Job: Send + Sync {
    /// The creation time that `creation_time` returns.
    spec fn created_at(&self) -> u64;

    /// Whether `r` is a result that running the job, as it now stands, can
    /// give.
    spec fn can_give(&self, r: Result<()>) -> bool;

    /// The text that `description` returns.
    spec fn description_text(&self) -> Seq<char>;

    /// Execute the job. Running it changes neither its description nor its
    /// creation time.
    fn execute(&mut self) -> (r: Result<()>)
        ensures
            old(self).can_give(r),
            final(self).description_text() == old(self).description_text(),
            final(self).created_at() == old(self).created_at();

    /// A description of the job.
    fn description(&self) -> (d: String)
        ensures
            d@ == self.description_text();

    /// When the job was created (clock milliseconds).
    fn creation_time(&self) -> (t: u64)
        ensures
            t == self.created_at();
}

/// A job that runs a callback.
pub struct CallbackJob<F> where F: Fn() -> Result<()> + Send + Sync {
    callback: F,
    description: String,
    creation_time: u64,
}

impl<F> CallbackJob<F> where F: Fn() -> Result<()> + Send + Sync {
    #[verifier::type_invariant]
    spec fn callable(self) -> bool {
        self.callback.requires(())
    }

    /// The callback of the job.
    pub closed spec fn callback(self) -> F {
        self.callback
    }

    /// The description of the job.
    pub closed spec fn described(self) -> Seq<char> {
        self.description@
    }

    /// The creation time of the job.
    pub closed spec fn created(self) -> u64 {
        self.creation_time
    }

    /// Create a job running `callback`, created at clock time `now`.
    pub fn new_at(callback: F, description: &str, now: u64) -> (job: Self)
        requires
            callback.requires(()),
        ensures
            job.callback() == callback,
            job.described() == description@,
            job.created() == now,
    {
        CallbackJob { callback, description: String::from_str(description), creation_time: now }
    }

    /// Create a job running `callback`, created now.
    pub fn new(callback: F, description: &str) -> (job: Self)
        requires
            callback.requires(()),
        ensures
            job.callback() == callback,
            job.described() == description@,
    {
        Self::new_at(callback, description, now_millis())
    }
}

impl<F> Job for CallbackJob<F> where F: Fn() -> Result<()> + Send + Sync {
    closed spec fn created_at(&self) -> u64 {
        self.creation_time
    }

    /// What the callback can return.
    open spec fn can_give(&self, r: Result<()>) -> bool {
        self.callback().ensures((), r)
    }

    open spec fn description_text(&self) -> Seq<char> {
        self.described()
    }

    fn execute(&mut self) -> (r: Result<()>)
        ensures
            old(self).callback().ensures((), r),
            *final(self) == *old(self),
    {
        proof { use_type_invariant(&*self); }
        (self.callback)()
    }

    fn description(&self) -> (d: String)
        ensures
            d@ == self.described(),
    {
        self.description.clone()
    }

    fn creation_time(&self) -> (t: u64)
        ensures
            t == self.created(),
    {
        self.creation_time
    }
}

/// The message of a retryable job whose attempt failed: `desc` is the job's
/// description, `attempt` the attempt number, `max` the attempt limit,
/// `retry` whether the policy schedules a retry, `wait` the wait before it
/// and `cause` the message of the inner job's error.
pub open spec fn retry_failure_text(
    desc: Seq<char>, attempt: u32, max: u32, retry: bool, wait: Seq<char>, cause: Seq<char>,
) -> Seq<char> {
    if attempt >= max {
        "Job '"@ + desc + "' failed after "@ + crate::text::decimal_text(attempt as nat) + " attempts: "@ + cause
    } else if retry {
        "Job '"@ + desc + "' failed on attempt "@ + crate::text::decimal_text(attempt as nat) + "/"@
            + crate::text::decimal_text(max as nat) + ", will retry after "@ + wait + ": "@ + cause
    } else {
        "Job '"@ + desc + "' failed and retry policy exhausted after "@
            + crate::text::decimal_text(attempt as nat) + " attempts: "@ + cause
    }
}

/// A job retried with a backoff policy when it fails. The retry state is
/// changed through `&mut self`; a runtime that shares the job between
/// threads puts it behind a lock.
pub struct RetryableJob<J: Job> {
    inner: J,
    retry_policy: RetryPolicy,
    max_attempts: u32,
    current_attempt: u32,
}

impl<J: Job> RetryableJob<J> {
    /// The wrapped job.
    pub closed spec fn wrapped(self) -> J {
        self.inner
    }

    /// The retry policy.
    pub closed spec fn policy(self) -> RetryPolicy {
        self.retry_policy
    }

    /// The attempt limit, taken from the policy at creation.
    pub closed spec fn attempt_limit(self) -> u32 {
        self.max_attempts
    }

    /// The number of attempts made.
    pub closed spec fn attempts(self) -> u32 {
        self.current_attempt
    }

    /// Create a retryable job; its attempt limit is the policy's maximum.
    pub fn new(inner: J, retry_policy: RetryPolicy) -> (job: Self)
        ensures
            job.wrapped() == inner,
            job.attempt_limit() == retry_policy.retry_limit(),
            job.attempts() == 0,
            job.policy() == retry_policy,
            retry_policy.attempt() == 0 ==> retry_policy.retry_time().is_none(),
    {
        proof { use_type_invariant(&retry_policy); }
        let max_attempts = retry_policy.max_attempts();
        RetryableJob { inner, retry_policy, max_attempts, current_attempt: 0 }
    }

    /// The wrapped job.
    pub fn inner(&self) -> (j: &J)
        ensures
            *j == self.wrapped(),
    {
        &self.inner
    }

    /// The number of attempts made.
    pub fn current_attempt(&self) -> (n: u32)
        ensures
            n == self.attempts(),
    {
        self.current_attempt
    }

    /// Reset the attempt count and the policy.
    pub fn reset(&mut self)
        ensures
            final(self).attempts() == 0,
            final(self).wrapped() == old(self).wrapped(),
            final(self).attempt_limit() == old(self).attempt_limit(),
            final(self).policy().attempt() == 0,
            final(self).policy().retry_time().is_none(),
            forall|a: u32| #[trigger] final(self).policy().backoff_for(a) == old(self).policy().backoff_for(a),
            final(self).policy().retry_limit() == old(self).policy().retry_limit(),
    {
        self.current_attempt = 0;
        self.retry_policy.reset();
    }

    /// Whether the attempt limit has been reached.
    pub fn is_exhausted(&self) -> (b: bool)
        ensures
            b == (self.attempts() >= self.attempt_limit()),
    {
        self.current_attempt >= self.max_attempts
    }

    /// Whether the policy's retry time has come.
    pub fn is_ready_for_retry(&self) -> (b: bool)
        ensures
            self.policy().retry_time().is_none() ==> !b,
            exists|now: u64| b == #[trigger] due_at(self.policy().retry_time(), now),
    {
        self.retry_policy.is_ready()
    }

    /// Make one attempt: count it (the count stops at `u32::MAX`), run the
    /// wrapped job and settle the attempt with its result at the current
    /// clock time (see `settle_attempt_at`).
    pub fn execute_attempt(&mut self) -> (r: Result<()>)
        ensures
            final(self).attempts() == if old(self).attempts() < u32::MAX {
                (old(self).attempts() + 1) as u32
            } else {
                u32::MAX
            },
            final(self).attempt_limit() == old(self).attempt_limit(),
            final(self).wrapped().description_text() == old(self).wrapped().description_text(),
            final(self).wrapped().created_at() == old(self).wrapped().created_at(),
            exists|outcome: Result<()>, now: u64| old(self).wrapped().can_give(outcome)
                && #[trigger] attempt_settled(old(self).policy(), final(self).attempts(), old(self).attempt_limit(),
                    retryable_text(old(self).wrapped().description_text()), outcome, now, final(self).policy(), r),
    {
        if self.current_attempt < u32::MAX {
            self.current_attempt = self.current_attempt + 1;
        }
        let ghost counted = *self;
        let outcome = self.inner.execute();
        let now = now_millis();
        let r = self.settle_attempt_at(outcome, now);
        proof {
            assert(counted.policy() == old(self).policy());
            assert(old(self).wrapped().can_give(outcome));
            assert(attempt_settled(old(self).policy(), self.attempts(), old(self).attempt_limit(),
                retryable_text(old(self).wrapped().description_text()), outcome, now, self.policy(), r));
        }
        r
    }

    /// Settle attempt number `attempts()` whose run of the wrapped job gave
    /// `outcome`, at clock time `now`. Success passes through. On failure
    /// the error is a `JobError` whose message gives the description, the
    /// attempt, and the error's own message; below the attempt limit the
    /// failure is recorded in the policy at `now`, and the message says
    /// whether and after how long the job will be retried.
    pub fn settle_attempt_at(&mut self, outcome: Result<()>, now: u64) -> (r: Result<()>)
        ensures
            final(self).attempts() == old(self).attempts(),
            final(self).attempt_limit() == old(self).attempt_limit(),
            final(self).wrapped() == old(self).wrapped(),
            attempt_settled(old(self).policy(), old(self).attempts(), old(self).attempt_limit(),
                retryable_text(old(self).wrapped().description_text()), outcome, now, final(self).policy(), r),
    {
        match outcome {
            Err(e) => {
                let current = self.current_attempt;
                let cause = e.to_string();
                let desc = self.description();
                let (retry, wait) = if current >= self.max_attempts {
                    (false, String::new())
                } else if self.retry_policy.attempt_below_max() {
                    let retry = self.retry_policy.record_failure_at(now);
                    let wait = match self.retry_policy.time_remaining_at(now) {
                        Some(ms) => crate::text::span(ms),
                        None => crate::text::span(0),
                    };
                    (retry, wait)
                } else {
                    (false, String::new())
                };
                let m = failure_message(desc.as_str(), current, self.max_attempts, retry, wait.as_str(), cause.as_str());
                proof {
                    assert(error_rendered(e, cause@)) by {
                        if e is IoError {
                            let t = choose|t: Seq<char>| cause@ == error_text(e, t);
                            assert(cause@ == error_text(e, t));
                        } else {
                            assert(cause@ == error_text(e, Seq::empty()));
                        }
                    }
                }
                Err(Error::JobError(m))
            },
            success => success,
        }
    }
}

/// `"Retryable(<inner>)"`: the description of a retryable job whose
/// wrapped job is described by `inner`.
pub open spec fn retryable_text(inner: Seq<char>) -> Seq<char> {
    "Retryable("@ + inner + ")"@
}

/// Whether `cause` is a message that `Error::to_string` gives for `e`.
pub open spec fn error_rendered(e: Error, cause: Seq<char>) -> bool {
    exists|io_text: Seq<char>| cause == #[trigger] error_text(e, io_text)
        && (!(e is IoError) ==> io_text == Seq::<char>::empty())
}

/// Whether `m` is the message of failed attempt number `attempt` of the
/// retryable job described by `desc`, with limit `max`, retry decision
/// `retry`, wait text `wait` and inner error `e`.
pub open spec fn failure_rendered(
    m: Seq<char>, desc: Seq<char>, attempt: u32, max: u32, retry: bool, wait: Seq<char>, e: Error,
) -> bool {
    exists|cause: Seq<char>| error_rendered(e, cause)
        && m == #[trigger] retry_failure_text(desc, attempt, max, retry, wait, cause)
}

/// How attempt number `attempt` of a retryable job described by `desc`,
/// with attempt limit `max` and policy `before`, is settled at clock time
/// `now` when the wrapped job gave `outcome`: `after` is the policy
/// afterwards and `r` the result. Success passes through and leaves the
/// policy. A failure at or past the limit, or when the policy cannot count
/// another failure, leaves the policy and says no retry will be made;
/// otherwise the failure is recorded at `now`, and the message says whether
/// a retry is scheduled and the time left until it.
pub open spec fn attempt_settled(
    before: RetryPolicy, attempt: u32, max: u32, desc: Seq<char>, outcome: Result<()>, now: u64,
    after: RetryPolicy, r: Result<()>,
) -> bool {
    match outcome {
        Ok(_) => r == outcome && after == before,
        Err(e) => r matches Err(Error::JobError(m)) && if attempt >= max || before.attempt() == u32::MAX {
            &&& after == before
            &&& failure_rendered(m@, desc, attempt, max, false, Seq::empty(), e)
        } else {
            &&& failure_recorded_at(before, after, now)
            &&& failure_rendered(m@, desc, attempt, max, after.retry_time().is_some(),
                span_text(match remaining_at(after.retry_time(), now) {
                    Some(ms) => ms as nat,
                    None => 0,
                }), e)
        },
    }
}

impl<J: Job> Job for RetryableJob<J> {
    closed spec fn created_at(&self) -> u64 {
        self.inner.created_at()
    }

    /// A success the wrapped job can give, or a `JobError` where it can
    /// fail.
    open spec fn can_give(&self, r: Result<()>) -> bool {
        match r {
            Ok(_) => self.wrapped().can_give(r),
            Err(e) => e is JobError && exists|cause: Error| #[trigger] self.wrapped().can_give(Err(cause)),
        }
    }

    open spec fn description_text(&self) -> Seq<char> {
        retryable_text(self.wrapped().description_text())
    }

    /// One attempt, as `execute_attempt` makes it.
    fn execute(&mut self) -> (r: Result<()>)
        ensures
            final(self).attempts() == if old(self).attempts() < u32::MAX {
                (old(self).attempts() + 1) as u32
            } else {
                u32::MAX
            },
            final(self).attempt_limit() == old(self).attempt_limit(),
            exists|outcome: Result<()>, now: u64| old(self).wrapped().can_give(outcome)
                && #[trigger] attempt_settled(old(self).policy(), final(self).attempts(), old(self).attempt_limit(),
                    retryable_text(old(self).wrapped().description_text()), outcome, now, final(self).policy(), r),
    {
        let r = self.execute_attempt();
        proof {
            let (outcome, now) = choose|outcome: Result<()>, now: u64| old(self).wrapped().can_give(outcome)
                && #[trigger] attempt_settled(old(self).policy(), self.attempts(), old(self).attempt_limit(),
                    retryable_text(old(self).wrapped().description_text()), outcome, now, self.policy(), r);
            match outcome {
                Err(cause) => assert(old(self).wrapped().can_give(Err(cause))),
                Ok(_) => {},
            }
        }
        r
    }

    /// The description: the wrapped job's, as `"Retryable(<description>)"`.
    fn description(&self) -> (d: String) {
        let inner = self.inner.description();
        let mut d = String::from_str("Retryable(");
        d.append(inner.as_str());
        d.append(")");
        proof {
            reveal_strlit("Retryable(");
            reveal_strlit(")");
            assert(d@ == "Retryable("@ + inner@ + ")"@);
        }
        d
    }

    /// When the wrapped job was created (clock milliseconds).
    fn creation_time(&self) -> (t: u64)
        ensures
            t == self.wrapped().created_at(),
    {
        self.inner.creation_time()
    }
}

/// Builds the message of a failed attempt of a retryable job.
pub fn failure_message(desc: &str, attempt: u32, max: u32, retry: bool, wait: &str, cause: &str) -> (s: String)
    ensures
        s@ == retry_failure_text(desc@, attempt, max, retry, wait@, cause@),
{
    let mut s = String::from_str("Job '");
    s.append(desc);
    if attempt >= max {
        s.append("' failed after ");
        s.append(crate::text::decimal(attempt as u64).as_str());
        s.append(" attempts: ");
    } else if retry {
        s.append("' failed on attempt ");
        s.append(crate::text::decimal(attempt as u64).as_str());
        s.append("/");
        s.append(crate::text::decimal(max as u64).as_str());
        s.append(", will retry after ");
        s.append(wait);
        s.append(": ");
    } else {
        s.append("' failed and retry policy exhausted after ");
        s.append(crate::text::decimal(attempt as u64).as_str());
        s.append(" attempts: ");
    }
    s.append(cause);
    s
}

/// A batch of jobs submitted together. Beside the jobs, the batch keeps a
/// ghost record of the description and creation time of each job as it was
/// added: once a job is boxed as a `dyn Job`, its spec functions are not
/// related to those of the job given.
pub struct JobBatch {
    jobs: Vec<Box<dyn Job>>,
    description: String,
    added: Ghost<Seq<(Seq<char>, u64)>>,
}

impl JobBatch {
    /// The number of jobs in the batch.
    pub closed spec fn size(self) -> nat {
        self.jobs@.len()
    }

    /// The description of the batch.
    pub closed spec fn described(self) -> Seq<char> {
        self.description@
    }

    /// The jobs of the batch, in the order they were added.
    pub closed spec fn members(self) -> Seq<Box<dyn Job>> {
        self.jobs@
    }

    /// The description and creation time of each job when it was added, in
    /// the order the jobs were added.
    pub closed spec fn added_jobs(self) -> Seq<(Seq<char>, u64)> {
        self.added@
    }

    /// Create an empty batch.
    pub fn new(description: &str) -> (b: Self)
        ensures
            b.size() == 0,
            b.added_jobs() == Seq::<(Seq<char>, u64)>::empty(),
            b.described() == description@,
    {
        JobBatch { jobs: Vec::new(), description: String::from_str(description), added: Ghost(Seq::empty()) }
    }

    /// Add a job to the batch, last.
    pub fn add<J: Job + 'static>(&mut self, job: J) -> (b: &mut Self)
        ensures
            b.size() == old(self).size() + 1,
            b.members().drop_last() == old(self).members(),
            b.added_jobs() == old(self).added_jobs().push((job.description_text(), job.created_at())),
            b.described() == old(self).described(),
            *final(self) == *final(b),
    {
        let ghost entry = (job.description_text(), job.created_at());
        let boxed: Box<dyn Job> = Box::new(job);
        let mut one = vec![boxed];
        self.jobs.append(&mut one);
        self.added = Ghost(self.added@.push(entry));
        self
    }

    /// The number of jobs in the batch.
    pub fn len(&self) -> (n: usize)
        ensures
            n == self.size(),
    {
        self.jobs.len()
    }

    /// Whether the batch is empty.
    pub fn is_empty(&self) -> (b: bool)
        ensures
            b == (self.size() == 0),
    {
        self.jobs.len() == 0
    }

    /// The description of the batch.
    pub fn description(&self) -> (d: &str)
        ensures
            d@ == self.described(),
    {
        self.description.as_str()
    }

    /// The jobs of the batch.
    pub fn jobs(&self) -> (j: &[Box<dyn Job>])
        ensures
            j@ == self.members(),
            j@.len() == self.size(),
    {
        self.jobs.as_slice()
    }

    /// Consume the batch and return its jobs.
    pub fn into_jobs(self) -> (j: Vec<Box<dyn Job>>)
        ensures
            j@ == self.members(),
            j@.len() == self.size(),
    {
        self.jobs
    }
}

/// A queue of jobs.
pub trait JobQueue: Send + Sync {
    /// Add a job to the queue.
    fn enqueue(&mut self, job: Box<dyn Job>) -> Result<()>;

    /// Take the next job, if any.
    fn dequeue(&mut self) -> Option<Box<dyn Job>>;

    /// Whether the queue holds no job.
    fn is_empty(&self) -> bool;

    /// The number of jobs in the queue.
    fn len(&self) -> usize;

    /// Remove every job.
    fn clear(&mut self);
}

/// The times of a list of jobs waiting for a retry.
pub open spec fn times_of(entries: Seq<(Box<dyn Job>, u64)>) -> Seq<u64> {
    entries.map_values(|e: (Box<dyn Job>, u64)| e.1)
}

/// Removing the element at `i` by moving the last one into its place
/// removes one occurrence of the element from the multiset.
proof fn lemma_swap_remove_multiset(s: Seq<u64>, i: int)
    requires
        0 <= i < s.len(),
    ensures
        s.update(i, s.last()).drop_last().to_multiset() == s.to_multiset().remove(s[i]),
{
    broadcast use vstd::seq_lib::group_to_multiset_ensures;
    broadcast use vstd::multiset::group_multiset_axioms;
    let u = s.update(i, s.last());
    let d = u.drop_last();
    let x = s[i];
    vstd::seq_lib::to_multiset_update(s, i, s.last());
    assert(u.last() == s.last());
    assert(d.push(u.last()) =~= u);
    vstd::seq_lib::to_multiset_build(d, u.last());
    assert(s.contains(x));
    assert(s.to_multiset().count(x) > 0);
    assert forall|v: u64| d.to_multiset().count(v) == s.to_multiset().remove(x).count(v) by {
        assert(u.to_multiset().count(v) == d.to_multiset().insert(s.last()).count(v));
        assert(u.to_multiset().count(v) == s.to_multiset().insert(s.last()).remove(x).count(v));
    }
    assert(d.to_multiset() =~= s.to_multiset().remove(x));
}

/// Whether the retry times `after` are what is left of `before` once every
/// job due at clock time `now` has been released: every time left lies
/// after `now`, and each time after `now` is kept as often as it was.
pub open spec fn released_at(before: Seq<u64>, after: Seq<u64>, now: u64) -> bool {
    &&& forall|i: int| 0 <= i < after.len() ==> after[i] > now
    &&& forall|t: u64| #[trigger] after.to_multiset().count(t)
        == if t > now { before.to_multiset().count(t) } else { 0 }
}

/// A job queue in first-in first-out order, with a second list of jobs
/// waiting until a point in time (clock milliseconds) to be queued again.
pub struct BasicJobQueue {
    queue: Vec<Box<dyn Job>>,
    retry_queue: Vec<(Box<dyn Job>, u64)>,
}

impl BasicJobQueue {
    /// The number of jobs ready to be taken.
    pub closed spec fn ready(self) -> nat {
        self.queue@.len()
    }

    /// The jobs ready to be taken, oldest first.
    pub closed spec fn waiting(self) -> Seq<Box<dyn Job>> {
        self.queue@
    }

    /// The points in time of the jobs waiting for a retry.
    pub closed spec fn retry_times(self) -> Seq<u64> {
        times_of(self.retry_queue@)
    }

    /// Whether no job is ready and none waits for a retry.
    pub open spec fn holds_nothing(self) -> bool {
        self.ready() == 0 && self.retry_times().len() == 0
    }

    /// An empty queue.
    pub fn new() -> (q: Self)
        ensures
            q.ready() == 0,
            q.retry_times() == Seq::<u64>::empty(),
    {
        let q = BasicJobQueue { queue: Vec::new(), retry_queue: Vec::new() };
        assert(q.retry_times() =~= Seq::<u64>::empty());
        q
    }

    /// Queue every waiting job whose point in time is not after `now`; the
    /// others keep waiting.
    pub fn process_retry_queue_at(&mut self, now: u64) -> (r: Result<()>)
        ensures
            r is Ok,
            forall|i: int| 0 <= i < final(self).retry_times().len() ==> final(self).retry_times()[i] > now,
            forall|t: u64| #[trigger] final(self).retry_times().to_multiset().count(t)
                == if t > now { old(self).retry_times().to_multiset().count(t) } else { 0 },
            final(self).ready() == old(self).ready() + old(self).retry_times().len()
                - final(self).retry_times().len(),
            final(self).waiting().len() == final(self).ready(),
            final(self).waiting().len() >= old(self).waiting().len(),
            final(self).waiting().take(old(self).waiting().len() as int) == old(self).waiting(),
    {
        broadcast use vstd::seq_lib::group_to_multiset_ensures;
        broadcast use vstd::multiset::group_multiset_axioms;
        let ghost start = self.retry_times();
        let ghost ready0 = self.ready();
        let ghost mut moved: Seq<u64> = Seq::empty();
        let mut i: usize = 0;
        while i < self.retry_queue.len()
            invariant
                i <= self.retry_queue@.len(),
                forall|k: int| 0 <= k < i ==> self.retry_times()[k] > now,
                self.retry_times().to_multiset().add(moved.to_multiset()) == start.to_multiset(),
                forall|k: int| 0 <= k < moved.len() ==> moved[k] <= now,
                self.ready() == ready0 + moved.len(),
                self.retry_times().len() + moved.len() == start.len(),
                self.queue@.len() >= old(self).queue@.len(),
                self.queue@.take(old(self).queue@.len() as int) == old(self).queue@,
            decreases self.retry_queue@.len() - i,
        {
            let t = self.retry_queue[i].1;
            proof { assert(t == self.retry_times()[i as int]); }
            if now >= t {
                let ghost before = self.retry_times();
                let (job, _when) = self.retry_queue.swap_remove(i);
                proof {
                    assert(self.retry_times() =~= before.update(i as int, before.last()).drop_last());
                    lemma_swap_remove_multiset(before, i as int);
                    let cur = self.retry_times();
                    let moved0 = moved;
                    moved = moved.push(t);
                    assert(before[i as int] == t);
                    assert(before.contains(t));
                    vstd::seq_lib::to_multiset_contains(before, t);
                    vstd::seq_lib::to_multiset_build(moved0, t);
                    assert forall|v: u64| #[trigger] cur.to_multiset().add(moved.to_multiset()).count(v)
                        == start.to_multiset().count(v) by {
                        assert(moved.to_multiset().count(v) == moved0.to_multiset().insert(t).count(v));
                        assert(cur.to_multiset().count(v) == before.to_multiset().remove(t).count(v));
                        assert(before.to_multiset().add(moved0.to_multiset()).count(v) == start.to_multiset().count(v));
                    }
                    assert(cur.to_multiset().add(moved.to_multiset()) =~= start.to_multiset());
                    assert forall|k: int| 0 <= k < i implies self.retry_times()[k] > now by {
                        assert(self.retry_times()[k] == before.update(i as int, before.last())[k]);
                    }
                }
                let ghost q0 = self.queue@;
                let mut one = vec![job];
                self.queue.append(&mut one);
                proof {
                    assert(self.queue@.take(old(self).queue@.len() as int)
                        =~= q0.take(old(self).queue@.len() as int));
                }
            } else {
                i = i + 1;
            }
        }
        proof {
            assert forall|t: u64| #[trigger] self.retry_times().to_multiset().count(t)
                == if t > now { start.to_multiset().count(t) } else { 0 } by {
                if t > now {
                    if moved.to_multiset().count(t) > 0 {
                        assert(moved.contains(t));
                    }
                } else {
                    if self.retry_times().to_multiset().count(t) > 0 {
                        assert(self.retry_times().contains(t));
                    }
                }
            }
        }
        Ok(())
    }

    /// Queue every waiting job whose point in time has come.
    pub fn process_retry_queue(&mut self) -> (r: Result<()>)
        ensures
            r is Ok,
            final(self).ready() == old(self).ready() + old(self).retry_times().len()
                - final(self).retry_times().len(),
    {
        self.process_retry_queue_at(now_millis())
    }

    /// Put `job` aside until clock time `retry_after`.
    pub fn enqueue_retry(&mut self, job: Box<dyn Job>, retry_after: u64) -> (r: Result<()>)
        ensures
            r is Ok,
            final(self).retry_times() == old(self).retry_times().push(retry_after),
            final(self).ready() == old(self).ready(),
    {
        let entry = (job, retry_after);
        let mut one = vec![entry];
        self.retry_queue.append(&mut one);
        assert(self.retry_times() =~= old(self).retry_times().push(retry_after));
        Ok(())
    }

    /// The number of jobs waiting for a retry.
    pub fn retry_queue_len(&self) -> (n: usize)
        ensures
            n == self.retry_times().len(),
    {
        self.retry_queue.len()
    }

    /// Take the next job at clock time `now`: waiting jobs whose time has
    /// come are queued first, then the oldest queued job is taken.
    pub fn dequeue_at(&mut self, now: u64) -> (j: Option<Box<dyn Job>>)
        ensures
            forall|i: int| 0 <= i < final(self).retry_times().len() ==> final(self).retry_times()[i] > now,
            forall|t: u64| #[trigger] final(self).retry_times().to_multiset().count(t)
                == if t > now { old(self).retry_times().to_multiset().count(t) } else { 0 },
            ({
                let became_ready = old(self).ready() + old(self).retry_times().len() - final(self).retry_times().len();
                &&& j is Some <==> became_ready > 0
                &&& final(self).ready() == if became_ready > 0 { became_ready - 1 } else { 0 }
            }),
            old(self).ready() > 0 ==> j == Some(old(self).waiting()[0])
                && final(self).waiting().take(old(self).ready() - 1) == old(self).waiting().drop_first(),
    {
        let _ = self.process_retry_queue_at(now);
        if self.queue.len() > 0 {
            let ghost q = self.queue@;
            let job = self.queue.remove(0);
            proof {
                if old(self).queue@.len() > 0 {
                    assert(q.take(old(self).queue@.len() as int)[0] == q[0]);
                    assert(self.queue@.take(old(self).queue@.len() - 1)
                        =~= q.take(old(self).queue@.len() as int).drop_first());
                }
            }
            // Handed out through a one-element vector, whose `pop` is known
            // to give back the very job that was taken.
            let mut one = vec![job];
            one.pop()
        } else {
            None
        }
    }
}

impl Default for BasicJobQueue {
    fn default() -> (q: Self)
        ensures
            q.ready() == 0,
            q.retry_times() == Seq::<u64>::empty(),
    {
        Self::new()
    }
}

impl JobQueue for BasicJobQueue {
    fn enqueue(&mut self, job: Box<dyn Job>) -> (r: Result<()>)
        ensures
            r is Ok,
            final(self).ready() == old(self).ready() + 1,
            final(self).waiting().len() == old(self).waiting().len() + 1,
            final(self).waiting().drop_last() == old(self).waiting(),
            final(self).waiting().last() == job,
            final(self).retry_times() == old(self).retry_times(),
    {
        let ghost held = job;
        let mut one = vec![job];
        proof { assert(one@.len() == 1 && one@[0] == held); }
        self.queue.append(&mut one);
        proof {
            assert(self.queue@.len() == old(self).queue@.len() + 1);
            assert(self.queue@[old(self).queue@.len() as int] == held);
            assert(forall|k: int| 0 <= k < old(self).queue@.len() ==> self.queue@[k] == old(self).queue@[k]);
            assert(self.queue@.drop_last() =~= old(self).queue@);
        }
        Ok(())
    }

    fn dequeue(&mut self) -> (j: Option<Box<dyn Job>>)
        ensures
            exists|now: u64| #[trigger] released_at(old(self).retry_times(), final(self).retry_times(), now),
            ({
                let became_ready = old(self).ready() + old(self).retry_times().len() - final(self).retry_times().len();
                &&& j is Some <==> became_ready > 0
                &&& final(self).ready() == if became_ready > 0 { became_ready - 1 } else { 0 }
            }),
            old(self).ready() > 0 ==> j == Some(old(self).waiting()[0])
                && final(self).waiting().take(old(self).ready() - 1) == old(self).waiting().drop_first(),
    {
        let now = now_millis();
        let j = self.dequeue_at(now);
        assert(released_at(old(self).retry_times(), self.retry_times(), now));
        j
    }

    fn is_empty(&self) -> (b: bool)
        ensures
            b == (self.ready() == 0 && self.retry_times().len() == 0),
    {
        self.queue.len() == 0 && self.retry_queue.len() == 0
    }

    /// The number of queued and waiting jobs (saturating at `usize::MAX`).
    fn len(&self) -> (n: usize)
        ensures
            n == if self.ready() + self.retry_times().len() > usize::MAX { usize::MAX as int } else { (self.ready() + self.retry_times().len()) as int },
    {
        self.queue.len().saturating_add(self.retry_queue.len())
    }

    fn clear(&mut self)
        ensures
            final(self).ready() == 0,
            final(self).retry_times() == Seq::<u64>::empty(),
    {
        self.queue.clear();
        self.retry_queue.clear();
        assert(self.retry_times() =~= Seq::<u64>::empty());
    }
}

} // verus!
