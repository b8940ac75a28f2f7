//! Job statistics of a pool: counts of submitted, succeeded, failed and
//! queued jobs, execution times in microseconds and completions by
//! priority. Counters wrap around at their type's maximum, as atomic
//! counters do.
use vstd::prelude::*;
use std::sync::Arc;
use crate::clock::now_millis;
use crate::priority_thread_pool::JobPriority;

verus! {

/// Completed jobs counted by priority. A priority is present once a job of
/// that priority has completed.
#[derive(Debug, Clone, Copy, PartialEq, Eq)]
pub struct PriorityCounts {
    lowest: usize,
    low: usize,
    normal: usize,
    high: usize,
    highest: usize,
}

impl PriorityCounts {
    /// The count of `p`, 0 where `p` is absent.
    pub closed spec fn count(self, p: JobPriority) -> usize {
        match p {
            JobPriority::Lowest => self.lowest,
            JobPriority::Low => self.low,
            JobPriority::Normal => self.normal,
            JobPriority::High => self.high,
            JobPriority::Highest => self.highest,
        }
    }
}

impl View for PriorityCounts {
    type V = Map<JobPriority, usize>;

    /// The priorities present, each with its count.
    open spec fn view(&self) -> Map<JobPriority, usize> {
        Map::new(|p: JobPriority| self.count(p) > 0, |p: JobPriority| self.count(p))
    }
}

impl PriorityCounts {
    /// No priority present.
    pub fn new() -> (c: Self)
        ensures
            c@ == Map::<JobPriority, usize>::empty(),
    {
        let c = PriorityCounts { lowest: 0, low: 0, normal: 0, high: 0, highest: 0 };
        assert(c@ =~= Map::<JobPriority, usize>::empty());
        c
    }

    /// The count of `p`, if present.
    pub fn get(&self, p: &JobPriority) -> (r: Option<&usize>)
        ensures
            r == (if self@.contains_key(*p) { Some(&self@[*p]) } else { None::<&usize> }),
    {
        let c = match p {
            JobPriority::Lowest => &self.lowest,
            JobPriority::Low => &self.low,
            JobPriority::Normal => &self.normal,
            JobPriority::High => &self.high,
            JobPriority::Highest => &self.highest,
        };
        if *c > 0 {
            Some(c)
        } else {
            None
        }
    }

    /// Whether `p` is present.
    pub fn contains_key(&self, p: &JobPriority) -> (b: bool)
        ensures
            b == self@.contains_key(*p),
    {
        self.get(p).is_some()
    }

    /// Whether no priority is present.
    pub fn is_empty(&self) -> (b: bool)
        ensures
            b == (self@ == Map::<JobPriority, usize>::empty()),
    {
        let b = self.lowest == 0 && self.low == 0 && self.normal == 0 && self.high == 0
            && self.highest == 0;
        if b {
            assert(self@ =~= Map::<JobPriority, usize>::empty());
        } else {
            assert(self@.contains_key(JobPriority::Lowest) || self@.contains_key(JobPriority::Low)
                || self@.contains_key(JobPriority::Normal) || self@.contains_key(JobPriority::High)
                || self@.contains_key(JobPriority::Highest));
        }
        b
    }

    /// The counts with `p` counted once more.
    fn counted(self, p: JobPriority) -> (c: Self)
        requires
            self.count(p) < usize::MAX,
        ensures
            c@ == self@.insert(p, (self.count(p) + 1) as usize),
            forall|q: JobPriority| #[trigger] c.count(q) == if q == p { (self.count(p) + 1) as usize } else { self.count(q) },
    {
        let c = match p {
            JobPriority::Lowest => PriorityCounts { lowest: self.lowest + 1, ..self },
            JobPriority::Low => PriorityCounts { low: self.low + 1, ..self },
            JobPriority::Normal => PriorityCounts { normal: self.normal + 1, ..self },
            JobPriority::High => PriorityCounts { high: self.high + 1, ..self },
            JobPriority::Highest => PriorityCounts { highest: self.highest + 1, ..self },
        };
        assert(c@ =~= self@.insert(p, (self.count(p) + 1) as usize));
        c
    }
}

/// The smallest of `s`, `u64::MAX` for an empty sequence.
pub open spec fn seq_min(s: Seq<u64>) -> u64
    decreases s.len(),
{
    if s.len() == 0 {
        u64::MAX
    } else {
        let m = seq_min(s.drop_last());
        if s.last() < m { s.last() } else { m }
    }
}

/// The largest of `s`, 0 for an empty sequence.
pub open spec fn seq_max(s: Seq<u64>) -> u64
    decreases s.len(),
{
    if s.len() == 0 {
        0
    } else {
        let m = seq_max(s.drop_last());
        if s.last() > m { s.last() } else { m }
    }
}

/// `a + 1` wrapped around at `usize::MAX`.
pub open spec fn wrap_inc(a: usize) -> usize {
    if a == usize::MAX { 0 } else { (a + 1) as usize }
}

/// `a + b` wrapped around at `usize::MAX`.
pub open spec fn wrap_add(a: usize, b: usize) -> usize {
    if a + b > usize::MAX { (a + b - usize::MAX - 1) as usize } else { (a + b) as usize }
}

/// `a - 1` wrapped around at 0.
pub open spec fn wrap_dec(a: usize) -> usize {
    if a == 0 { usize::MAX } else { (a - 1) as usize }
}

/// `a + b` wrapped around at `u64::MAX`.
pub open spec fn wrap_add64(a: u64, b: u64) -> u64 {
    if a + b > u64::MAX { (a + b - u64::MAX - 1) as u64 } else { (a + b) as u64 }
}

/// The milliseconds from `start` to `now`, 0 where the clock went back.
pub open spec fn elapsed_since(start: u64, now: u64) -> u64 {
    if now >= start { (now - start) as u64 } else { 0 }
}

/// Statistics of job execution in a pool. Every execution time recorded
/// since creation or the last reset is kept in the ghost record `times`;
/// the minimum and maximum are those of the record.
pub struct JobPoolStats {
    jobs_submitted: usize,
    jobs_succeeded: usize,
    jobs_failed: usize,
    jobs_queued: usize,
    total_execution_time_us: u64,
    min_execution_time_us: u64,
    max_execution_time_us: u64,
    jobs_timed: usize,
    jobs_by_priority: PriorityCounts,
    creation_time: u64,
    times: Ghost<Seq<u64>>,
}

impl JobPoolStats {
    #[verifier::type_invariant]
    spec fn extremes_match(self) -> bool {
        &&& self.min_execution_time_us == seq_min(self.times@)
        &&& self.max_execution_time_us == seq_max(self.times@)
    }

    /// Jobs submitted.
    pub closed spec fn submitted(self) -> usize {
        self.jobs_submitted
    }

    /// Jobs that succeeded.
    pub closed spec fn succeeded(self) -> usize {
        self.jobs_succeeded
    }

    /// Jobs that failed.
    pub closed spec fn failed(self) -> usize {
        self.jobs_failed
    }

    /// Jobs submitted and not completed.
    pub closed spec fn queued(self) -> usize {
        self.jobs_queued
    }

    /// Sum of the recorded execution times in microseconds.
    pub closed spec fn total_us(self) -> u64 {
        self.total_execution_time_us
    }

    /// Number of recorded execution times.
    pub closed spec fn timed(self) -> usize {
        self.jobs_timed
    }

    /// The execution times recorded since creation or the last reset.
    pub closed spec fn times(self) -> Seq<u64> {
        self.times@
    }

    /// Smallest recorded time, `u64::MAX` while none is recorded.
    pub closed spec fn min_us(self) -> u64 {
        self.min_execution_time_us
    }

    /// Largest recorded time, 0 while none is recorded.
    pub closed spec fn max_us(self) -> u64 {
        self.max_execution_time_us
    }

    /// Completions by priority.
    pub closed spec fn by_priority(self) -> PriorityCounts {
        self.jobs_by_priority
    }

    /// When the statistics were created (clock milliseconds).
    pub closed spec fn created(self) -> u64 {
        self.creation_time
    }

    /// Whether `self` holds no counts: every counter 0, no time recorded
    /// and no priority present.
    pub open spec fn is_clear(self) -> bool {
        &&& self.submitted() == 0
        &&& self.succeeded() == 0
        &&& self.failed() == 0
        &&& self.queued() == 0
        &&& self.total_us() == 0
        &&& self.timed() == 0
        &&& self.times() == Seq::<u64>::empty()
        &&& self.min_us() == u64::MAX
        &&& self.max_us() == 0
        &&& self.by_priority()@ == Map::<JobPriority, usize>::empty()
    }

    /// Empty statistics created at clock time `now`.
    pub fn new_at(now: u64) -> (s: Self)
        ensures
            s.is_clear(),
            s.created() == now,
    {
        JobPoolStats {
            jobs_submitted: 0,
            jobs_succeeded: 0,
            jobs_failed: 0,
            jobs_queued: 0,
            total_execution_time_us: 0,
            min_execution_time_us: u64::MAX,
            max_execution_time_us: 0,
            jobs_timed: 0,
            jobs_by_priority: PriorityCounts::new(),
            creation_time: now,
            times: Ghost(Seq::empty()),
        }
    }

    /// Empty statistics created now.
    pub fn new() -> (s: Self)
        ensures
            s.is_clear(),
    {
        Self::new_at(now_millis())
    }

    /// Empty statistics created now, behind an `Arc`.
    pub fn shared() -> (s: Arc<Self>)
        ensures
            s.is_clear(),
    {
        Arc::new(Self::new())
    }

    /// Count one submitted job, which is queued until it completes.
    pub fn register_job_submission(&mut self)
        ensures
            final(self).submitted() == wrap_inc(old(self).submitted()),
            final(self).queued() == wrap_inc(old(self).queued()),
            final(self).succeeded() == old(self).succeeded(),
            final(self).failed() == old(self).failed(),
            final(self).total_us() == old(self).total_us(),
            final(self).timed() == old(self).timed(),
            final(self).times() == old(self).times(),
            final(self).by_priority() == old(self).by_priority(),
            final(self).created() == old(self).created(),
    {
        self.register_job_submissions(1);
    }

    /// Count `count` submitted jobs.
    pub fn register_job_submissions(&mut self, count: usize)
        ensures
            final(self).submitted() == wrap_add(old(self).submitted(), count),
            final(self).queued() == wrap_add(old(self).queued(), count),
            final(self).succeeded() == old(self).succeeded(),
            final(self).failed() == old(self).failed(),
            final(self).total_us() == old(self).total_us(),
            final(self).timed() == old(self).timed(),
            final(self).times() == old(self).times(),
            final(self).by_priority() == old(self).by_priority(),
            final(self).created() == old(self).created(),
    {
        proof { use_type_invariant(&*self); }
        let submitted = self.jobs_submitted.wrapping_add(count);
        let queued = self.jobs_queued.wrapping_add(count);
        *self = JobPoolStats { jobs_submitted: submitted, jobs_queued: queued, ..*self };
    }

    /// Count a completed job that ran `execution_time_us` microseconds:
    /// a success or a failure, one job fewer queued, the time recorded, and
    /// its priority counted when there is one.
    pub fn register_job_completed(
        &mut self,
        succeeded: bool,
        execution_time_us: u64,
        priority: Option<JobPriority>,
    )
        requires
            priority matches Some(p) ==> old(self).by_priority().count(p) < usize::MAX,
        ensures
            final(self).succeeded() == if succeeded { wrap_inc(old(self).succeeded()) } else { old(self).succeeded() },
            final(self).failed() == if succeeded { old(self).failed() } else { wrap_inc(old(self).failed()) },
            final(self).queued() == wrap_dec(old(self).queued()),
            final(self).submitted() == old(self).submitted(),
            final(self).total_us() == wrap_add64(old(self).total_us(), execution_time_us),
            final(self).timed() == wrap_inc(old(self).timed()),
            final(self).times() == old(self).times().push(execution_time_us),
            final(self).min_us() == if execution_time_us < old(self).min_us() { execution_time_us } else { old(self).min_us() },
            final(self).max_us() == if execution_time_us > old(self).max_us() { execution_time_us } else { old(self).max_us() },
            final(self).by_priority()@ == match priority {
                Some(p) => old(self).by_priority()@.insert(p, (old(self).by_priority().count(p) + 1) as usize),
                None => old(self).by_priority()@,
            },
            final(self).created() == old(self).created(),
    {
        proof { use_type_invariant(&*self); }
        let succ = if succeeded { self.jobs_succeeded.wrapping_add(1) } else { self.jobs_succeeded };
        let fail = if succeeded { self.jobs_failed } else { self.jobs_failed.wrapping_add(1) };
        let queued = self.jobs_queued.wrapping_sub(1);
        let total = self.total_execution_time_us.wrapping_add(execution_time_us);
        let timed = self.jobs_timed.wrapping_add(1);
        let min = if execution_time_us < self.min_execution_time_us { execution_time_us } else { self.min_execution_time_us };
        let max = if execution_time_us > self.max_execution_time_us { execution_time_us } else { self.max_execution_time_us };
        let counts = match priority {
            Some(p) => self.jobs_by_priority.counted(p),
            None => self.jobs_by_priority,
        };
        let ghost times = self.times@.push(execution_time_us);
        proof {
            assert(times.drop_last() =~= self.times@);
        }
        *self = JobPoolStats {
            jobs_succeeded: succ,
            jobs_failed: fail,
            jobs_queued: queued,
            total_execution_time_us: total,
            min_execution_time_us: min,
            max_execution_time_us: max,
            jobs_timed: timed,
            jobs_by_priority: counts,
            times: Ghost(times),
            ..*self
        };
    }

    /// Jobs submitted.
    pub fn jobs_submitted(&self) -> (n: usize)
        ensures
            n == self.submitted(),
    {
        self.jobs_submitted
    }

    /// Jobs that succeeded.
    pub fn jobs_succeeded(&self) -> (n: usize)
        ensures
            n == self.succeeded(),
    {
        self.jobs_succeeded
    }

    /// Jobs that failed.
    pub fn jobs_failed(&self) -> (n: usize)
        ensures
            n == self.failed(),
    {
        self.jobs_failed
    }

    /// Jobs submitted and not yet completed.
    pub fn jobs_queued(&self) -> (n: usize)
        ensures
            n == self.queued(),
    {
        self.jobs_queued
    }

    /// The average execution time in microseconds (rounded down), `None`
    /// while no time is recorded.
    pub fn average_execution_time(&self) -> (a: Option<u64>)
        ensures
            a == (if self.timed() == 0 { None } else { Some((self.total_us() / (self.timed() as u64)) as u64) }),
    {
        if self.jobs_timed == 0 {
            None
        } else {
            Some(self.total_execution_time_us / (self.jobs_timed as u64))
        }
    }

    /// The smallest execution time in microseconds, `None` while it reads
    /// `u64::MAX`, as it does before any time is recorded.
    pub fn min_execution_time(&self) -> (m: Option<u64>)
        ensures
            m == (if self.min_us() == u64::MAX { None } else { Some(self.min_us()) }),
            self.min_us() == seq_min(self.times()),
    {
        proof { use_type_invariant(self); }
        if self.min_execution_time_us == u64::MAX {
            None
        } else {
            Some(self.min_execution_time_us)
        }
    }

    /// The largest execution time in microseconds, `None` while it reads 0,
    /// as it does before any time is recorded.
    pub fn max_execution_time(&self) -> (m: Option<u64>)
        ensures
            m == (if self.max_us() == 0 { None } else { Some(self.max_us()) }),
            self.max_us() == seq_max(self.times()),
    {
        proof { use_type_invariant(self); }
        if self.max_execution_time_us == 0 {
            None
        } else {
            Some(self.max_execution_time_us)
        }
    }

    /// Completed jobs by priority.
    pub fn jobs_by_priority(&self) -> (c: PriorityCounts)
        ensures
            c == self.by_priority(),
    {
        self.jobs_by_priority
    }

    /// Milliseconds from creation to clock time `now`, 0 where `now` is
    /// earlier.
    pub fn uptime_at(&self, now: u64) -> (ms: u64)
        ensures
            ms == elapsed_since(self.created(), now),
    {
        now.saturating_sub(self.creation_time)
    }

    /// Milliseconds since creation.
    pub fn uptime(&self) -> (ms: u64)
        ensures
            exists|now: u64| ms == #[trigger] elapsed_since(self.created(), now),
    {
        let now = now_millis();
        let ms = self.uptime_at(now);
        assert(ms == elapsed_since(self.created(), now));
        ms
    }

    /// Clear every count and the record of times; the creation time stays.
    pub fn reset(&mut self)
        ensures
            final(self).is_clear(),
            final(self).created() == old(self).created(),
    {
        *self = Self::new_at(self.creation_time);
    }
}

impl Default for JobPoolStats {
    fn default() -> (s: Self)
        ensures
            s.is_clear(),
    {
        Self::new()
    }
}

/// Every recorded time lies between the minimum and the maximum of the
/// record.
pub proof fn lemma_times_within_extremes(s: Seq<u64>, i: int)
    requires
        0 <= i < s.len(),
    ensures
        seq_min(s) <= s[i] <= seq_max(s),
    decreases s.len(),
{
    if i < s.len() - 1 {
        lemma_times_within_extremes(s.drop_last(), i);
    }
}

/// The minimum and maximum of a nonempty record are recorded times.
pub proof fn lemma_extremes_recorded(s: Seq<u64>)
    requires
        s.len() > 0,
    ensures
        s.contains(seq_min(s)),
        s.contains(seq_max(s)),
    decreases s.len(),
{
    let n = s.len() - 1;
    assert(s[n] == s.last());
    if s.len() == 1 {
        assert(seq_min(s.drop_last()) == u64::MAX);
        assert(seq_max(s.drop_last()) == 0);
        assert(s[n] == seq_min(s));
        assert(s[n] == seq_max(s));
    } else {
        let t = s.drop_last();
        lemma_extremes_recorded(t);
        let k = choose|k: int| 0 <= k < t.len() && t[k] == seq_min(t);
        let j = choose|j: int| 0 <= j < t.len() && t[j] == seq_max(t);
        assert(s[k] == t[k]);
        assert(s[j] == t[j]);
        if s.last() < seq_min(t) {
            assert(s[n] == seq_min(s));
        } else {
            assert(s[k] == seq_min(s));
        }
        if s.last() > seq_max(t) {
            assert(s[n] == seq_max(s));
        } else {
            assert(s[j] == seq_max(s));
        }
    }
}

/// Statistics at one moment, in plain values: times in microseconds,
/// uptime in milliseconds.
#[derive(Debug, Clone, Copy, PartialEq, Eq)]
pub struct JobPoolStatsSnapshot {
    /// Jobs submitted.
    pub jobs_submitted: usize,
    /// Jobs that succeeded.
    pub jobs_succeeded: usize,
    /// Jobs that failed.
    pub jobs_failed: usize,
    /// Jobs submitted and not completed.
    pub jobs_queued: usize,
    /// Average execution time.
    pub average_execution_time: Option<u64>,
    /// Smallest execution time.
    pub min_execution_time: Option<u64>,
    /// Largest execution time.
    pub max_execution_time: Option<u64>,
    /// Completions by priority.
    pub jobs_by_priority: PriorityCounts,
    /// Milliseconds since the statistics were created.
    pub uptime: u64,
}

impl JobPoolStatsSnapshot {
    /// A snapshot of `stats` taken at clock time `now`.
    pub fn from_stats_at(stats: &JobPoolStats, now: u64) -> (s: Self)
        ensures
            s.jobs_submitted == stats.submitted(),
            s.jobs_succeeded == stats.succeeded(),
            s.jobs_failed == stats.failed(),
            s.jobs_queued == stats.queued(),
            s.average_execution_time == (if stats.timed() == 0 { None } else { Some((stats.total_us() / (stats.timed() as u64)) as u64) }),
            s.min_execution_time == (if stats.min_us() == u64::MAX { None } else { Some(stats.min_us()) }),
            s.max_execution_time == (if stats.max_us() == 0 { None } else { Some(stats.max_us()) }),
            s.jobs_by_priority == stats.by_priority(),
            s.uptime == (if now >= stats.created() { (now - stats.created()) as u64 } else { 0 }),
    {
        JobPoolStatsSnapshot {
            jobs_submitted: stats.jobs_submitted(),
            jobs_succeeded: stats.jobs_succeeded(),
            jobs_failed: stats.jobs_failed(),
            jobs_queued: stats.jobs_queued(),
            average_execution_time: stats.average_execution_time(),
            min_execution_time: stats.min_execution_time(),
            max_execution_time: stats.max_execution_time(),
            jobs_by_priority: stats.jobs_by_priority(),
            uptime: stats.uptime_at(now),
        }
    }

    /// A snapshot of `stats` taken now.
    pub fn from_stats(stats: &JobPoolStats) -> (s: Self)
        ensures
            s.jobs_submitted == stats.submitted(),
            s.jobs_succeeded == stats.succeeded(),
            s.jobs_failed == stats.failed(),
            s.jobs_queued == stats.queued(),
            s.min_execution_time == (if stats.min_us() == u64::MAX { None } else { Some(stats.min_us()) }),
            s.max_execution_time == (if stats.max_us() == 0 { None } else { Some(stats.max_us()) }),
            s.jobs_by_priority == stats.by_priority(),
    {
        Self::from_stats_at(stats, now_millis())
    }
}

} // verus!
