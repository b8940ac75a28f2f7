//! Counters of a pool's jobs: how many were submitted, completed, failed
//! and cancelled, how many run, how many wait at each priority, and how
//! long the last job of each priority ran. Times are clock milliseconds;
//! counters wrap around at their maximum.
use vstd::prelude::*;
use dashmap::DashMap;
use crate::clock::{clock_reading, now_millis};
use crate::job_pool_stats::{wrap_dec, wrap_inc, wrap_add64};
use crate::priority_thread_pool::{priority_rank, JobPriority};
use crate::queue::backpressure::bumped;

verus! {

/// The identifier of a job whose start time is recorded.
pub type JobId = u64;

/// The priorities, from least to most urgent.
pub open spec fn all_priorities() -> Seq<JobPriority> {
    seq![JobPriority::Lowest, JobPriority::Low, JobPriority::Normal, JobPriority::High, JobPriority::Highest]
}

/// The entries of `m` for the priorities of `ps`, in the order of `ps`.
pub open spec fn entries_from<V>(m: Map<JobPriority, V>, ps: Seq<JobPriority>) -> Seq<(JobPriority, V)>
    decreases ps.len(),
{
    if ps.len() == 0 {
        Seq::empty()
    } else {
        let rest = entries_from(m, ps.drop_last());
        if m.contains_key(ps.last()) { rest.push((ps.last(), m[ps.last()])) } else { rest }
    }
}

/// The entries of `m`, from the least to the most urgent priority.
pub open spec fn entries<V>(m: Map<JobPriority, V>) -> Seq<(JobPriority, V)> {
    entries_from(m, all_priorities())
}

#[verifier::external_type_specification]
#[verifier::external_body]
#[verifier::reject_recursive_types(K)]
#[verifier::reject_recursive_types(V)]
#[verifier::reject_recursive_types(S)]
pub struct ExDashMap<K, V, S>(DashMap<K, V, S>);

/// What a map of waiting jobs holds: a count for each priority rank.
pub uninterp spec fn length_entries(m: DashMap<u8, usize>) -> Map<u8, usize>;

/// What a map of execution times holds: a time for each priority rank.
pub uninterp spec fn time_entries(m: DashMap<u8, u64>) -> Map<u8, u64>;

/// What a map of start times holds: a start time for each job.
pub uninterp spec fn start_entries(m: DashMap<JobId, u64>) -> Map<JobId, u64>;

/// Calls `DashMap::new`, which makes an empty map.
#[verifier::external_body]
fn new_length_map() -> (m: DashMap<u8, usize>)
    ensures
        length_entries(m).dom().is_empty(),
{
    DashMap::new()
}

/// Calls `DashMap::get` and copies the value out of the guard it returns:
/// the value of `k`, if the map holds `k`.
#[verifier::external_body]
fn length_at(m: &DashMap<u8, usize>, k: u8) -> (r: Option<usize>)
    ensures
        r == (if length_entries(*m).contains_key(k) { Some(length_entries(*m)[k]) } else { None::<usize> }),
{
    m.get(&k).map(|v| *v)
}

/// Calls `DashMap::insert`, which maps `k` to `v`.
#[verifier::external_body]
fn set_length(m: &mut DashMap<u8, usize>, k: u8, v: usize)
    ensures
        length_entries(*final(m)) == length_entries(*old(m)).insert(k, v),
{
    m.insert(k, v);
}

/// Calls `DashMap::clear`, which removes every entry.
#[verifier::external_body]
fn clear_lengths(m: &mut DashMap<u8, usize>)
    ensures
        length_entries(*final(m)).dom().is_empty(),
{
    m.clear()
}

/// Calls `DashMap::new`, which makes an empty map.
#[verifier::external_body]
fn new_time_map() -> (m: DashMap<u8, u64>)
    ensures
        time_entries(m).dom().is_empty(),
{
    DashMap::new()
}

/// Calls `DashMap::get` and copies the value out of the guard it returns:
/// the value of `k`, if the map holds `k`.
#[verifier::external_body]
fn time_at(m: &DashMap<u8, u64>, k: u8) -> (r: Option<u64>)
    ensures
        r == (if time_entries(*m).contains_key(k) { Some(time_entries(*m)[k]) } else { None::<u64> }),
{
    m.get(&k).map(|v| *v)
}

/// Calls `DashMap::insert`, which maps `k` to `v`.
#[verifier::external_body]
fn set_time(m: &mut DashMap<u8, u64>, k: u8, v: u64)
    ensures
        time_entries(*final(m)) == time_entries(*old(m)).insert(k, v),
{
    m.insert(k, v);
}

/// Calls `DashMap::clear`, which removes every entry.
#[verifier::external_body]
fn clear_times(m: &mut DashMap<u8, u64>)
    ensures
        time_entries(*final(m)).dom().is_empty(),
{
    m.clear()
}

/// Calls `DashMap::new`, which makes an empty map.
#[verifier::external_body]
fn new_start_map() -> (m: DashMap<JobId, u64>)
    ensures
        start_entries(m).dom().is_empty(),
{
    DashMap::new()
}

/// Calls `DashMap::insert`, which maps `k` to `v`.
#[verifier::external_body]
fn set_start(m: &mut DashMap<JobId, u64>, k: JobId, v: u64)
    ensures
        start_entries(*final(m)) == start_entries(*old(m)).insert(k, v),
{
    m.insert(k, v);
}

/// Calls `DashMap::remove`, which removes `k` and returns its entry, if
/// the map holds `k`; the value of the entry is returned.
#[verifier::external_body]
fn take_start(m: &mut DashMap<JobId, u64>, k: &JobId) -> (r: Option<u64>)
    ensures
        start_entries(*final(m)) == start_entries(*old(m)).remove(*k),
        r == (if start_entries(*old(m)).contains_key(*k) { Some(start_entries(*old(m))[*k]) } else { None::<u64> }),
{
    m.remove(k).map(|(_, v)| v)
}

/// Calls `DashMap::clear`, which removes every entry.
#[verifier::external_body]
fn clear_starts(m: &mut DashMap<JobId, u64>)
    ensures
        start_entries(*final(m)).dom().is_empty(),
{
    m.clear()
}

/// The key under which a priority is kept: its rank.
pub open spec fn rank_key(p: JobPriority) -> u8 {
    priority_rank(p) as u8
}

/// A map keyed by rank, seen as a map keyed by priority.
pub open spec fn by_priority<V>(m: Map<u8, V>) -> Map<JobPriority, V> {
    Map::new(|p: JobPriority| m.contains_key(rank_key(p)), |p: JobPriority| m[rank_key(p)])
}

proof fn lemma_by_priority_insert<V>(m: Map<u8, V>, p: JobPriority, v: V)
    ensures
        by_priority(m.insert(rank_key(p), v)) == by_priority(m).insert(p, v),
{
    assert(by_priority(m.insert(rank_key(p), v)) =~= by_priority(m).insert(p, v));
}

proof fn lemma_by_priority_empty<V>()
    ensures
        by_priority(Map::<u8, V>::empty()) == Map::<JobPriority, V>::empty(),
{
    assert(by_priority(Map::<u8, V>::empty()) =~= Map::<JobPriority, V>::empty());
}

fn key_of(p: JobPriority) -> (k: u8)
    ensures
        k == rank_key(p),
{
    p.rank()
}

/// Push `(p, v)` where `found` is `Some(v)`.
fn push_found<V>(p: JobPriority, found: Option<V>, out: &mut Vec<(JobPriority, V)>)
    ensures
        final(out)@ == (match found { Some(v) => old(out)@.push((p, v)), None => old(out)@ }),
{
    match found {
        Some(v) => {
            let mut one = vec![(p, v)];
            out.append(&mut one);
        },
        None => {},
    }
}

proof fn lemma_entries_unfold<V>(m: Map<JobPriority, V>)
    ensures
        entries(m) == entries_from(m, seq![JobPriority::Lowest, JobPriority::Low, JobPriority::Normal, JobPriority::High]) + (if m.contains_key(JobPriority::Highest) { seq![(JobPriority::Highest, m[JobPriority::Highest])] } else { Seq::empty() }),
{
    let ps = all_priorities();
    assert(ps.drop_last().drop_last().drop_last().drop_last().drop_last() =~= Seq::<JobPriority>::empty());
    assert(ps.drop_last().drop_last().drop_last().drop_last() =~= seq![JobPriority::Lowest]);
    assert(ps.drop_last().drop_last().drop_last() =~= seq![JobPriority::Lowest, JobPriority::Low]);
    assert(ps.drop_last().drop_last() =~= seq![JobPriority::Lowest, JobPriority::Low, JobPriority::Normal]);
    assert(ps.drop_last() =~= seq![JobPriority::Lowest, JobPriority::Low, JobPriority::Normal, JobPriority::High]);
    reveal_with_fuel(entries_from, 6);
    if m.contains_key(JobPriority::Highest) {
        assert(entries(m) =~= entries_from(m, ps.drop_last()).push((JobPriority::Highest, m[JobPriority::Highest])));
    }
}

/// The waiting counts of `m`, from the least urgent priority.
fn length_list(m: &DashMap<u8, usize>) -> (e: Vec<(JobPriority, usize)>)
    ensures
        e@ == entries(by_priority(length_entries(*m))),
{
    let mut out = Vec::new();
    push_found(JobPriority::Lowest, length_at(m, 0), &mut out);
    push_found(JobPriority::Low, length_at(m, 1), &mut out);
    push_found(JobPriority::Normal, length_at(m, 2), &mut out);
    push_found(JobPriority::High, length_at(m, 3), &mut out);
    push_found(JobPriority::Highest, length_at(m, 4), &mut out);
    proof {
        let v = by_priority(length_entries(*m));
        lemma_entries_unfold(v);
        reveal_with_fuel(entries_from, 5);
        assert(out@ =~= entries(v));
    }
    out
}

/// The execution times of `m`, from the least urgent priority.
fn time_list(m: &DashMap<u8, u64>) -> (e: Vec<(JobPriority, u64)>)
    ensures
        e@ == entries(by_priority(time_entries(*m))),
{
    let mut out = Vec::new();
    push_found(JobPriority::Lowest, time_at(m, 0), &mut out);
    push_found(JobPriority::Low, time_at(m, 1), &mut out);
    push_found(JobPriority::Normal, time_at(m, 2), &mut out);
    push_found(JobPriority::High, time_at(m, 3), &mut out);
    push_found(JobPriority::Highest, time_at(m, 4), &mut out);
    proof {
        let v = by_priority(time_entries(*m));
        lemma_entries_unfold(v);
        reveal_with_fuel(entries_from, 5);
        assert(out@ =~= entries(v));
    }
    out
}

/// The state of the counters, as plain values.
pub struct MetricsView {
    /// Jobs submitted.
    pub jobs_submitted: u64,
    /// Jobs completed.
    pub jobs_completed: u64,
    /// Jobs that failed.
    pub jobs_failed: u64,
    /// Jobs cancelled.
    pub jobs_cancelled: u64,
    /// Execution time of the completed jobs whose start was recorded.
    pub total_execution_time_ms: u64,
    /// Jobs running.
    pub active_jobs: usize,
    /// Jobs waiting, for each priority that has had a submission.
    pub queue_lengths: Map<JobPriority, usize>,
    /// Execution time of the last completed job of each priority.
    pub last_execution_ms: Map<JobPriority, u64>,
    /// Start time of each running job.
    pub start_times: Map<JobId, u64>,
}

/// Counters all at zero and no entries.
pub open spec fn cleared() -> MetricsView {
    MetricsView {
        jobs_submitted: 0,
        jobs_completed: 0,
        jobs_failed: 0,
        jobs_cancelled: 0,
        total_execution_time_ms: 0,
        active_jobs: 0,
        queue_lengths: Map::empty(),
        last_execution_ms: Map::empty(),
        start_times: Map::empty(),
    }
}

/// The number of jobs waiting at priority `p`, 0 where none was submitted.
pub open spec fn queue_length(v: MetricsView, p: JobPriority) -> usize {
    if v.queue_lengths.contains_key(p) { v.queue_lengths[p] } else { 0 }
}

/// The time from `start` to `now`, 0 where the clock went back.
pub open spec fn elapsed(start: u64, now: u64) -> u64 {
    if now >= start { (now - start) as u64 } else { 0 }
}

/// After a job of priority `p` is submitted.
pub open spec fn submitted(v: MetricsView, p: JobPriority) -> MetricsView {
    MetricsView {
        jobs_submitted: bumped(v.jobs_submitted),
        queue_lengths: v.queue_lengths.insert(p, wrap_inc(queue_length(v, p))),
        ..v
    }
}

/// After job `id` of priority `p` starts at `now`: one more running, one
/// fewer waiting at `p` where `p` has had a submission.
pub open spec fn started(v: MetricsView, id: JobId, p: JobPriority, now: u64) -> MetricsView {
    MetricsView {
        active_jobs: wrap_inc(v.active_jobs),
        start_times: v.start_times.insert(id, now),
        queue_lengths: if v.queue_lengths.contains_key(p) {
            v.queue_lengths.insert(p, wrap_dec(v.queue_lengths[p]))
        } else {
            v.queue_lengths
        },
        ..v
    }
}

/// After job `id` of priority `p` completes at `now`: where its start was
/// recorded, its execution time is added to the total and kept as the last
/// of `p`.
pub open spec fn completed(v: MetricsView, id: JobId, p: JobPriority, now: u64) -> MetricsView {
    let base = MetricsView {
        jobs_completed: bumped(v.jobs_completed),
        active_jobs: wrap_dec(v.active_jobs),
        start_times: v.start_times.remove(id),
        ..v
    };
    if v.start_times.contains_key(id) {
        let d = elapsed(v.start_times[id], now);
        MetricsView {
            total_execution_time_ms: wrap_add64(v.total_execution_time_ms, d),
            last_execution_ms: v.last_execution_ms.insert(p, d),
            ..base
        }
    } else {
        base
    }
}

/// After job `id` fails.
pub open spec fn failed(v: MetricsView, id: JobId) -> MetricsView {
    MetricsView {
        jobs_failed: bumped(v.jobs_failed),
        active_jobs: wrap_dec(v.active_jobs),
        start_times: v.start_times.remove(id),
        ..v
    }
}

/// After job `id` is cancelled.
pub open spec fn cancelled(v: MetricsView, id: JobId) -> MetricsView {
    MetricsView {
        jobs_cancelled: bumped(v.jobs_cancelled),
        active_jobs: wrap_dec(v.active_jobs),
        start_times: v.start_times.remove(id),
        ..v
    }
}

/// The sum of the queue lengths of the priorities of `ps`.
pub open spec fn length_sum(v: MetricsView, ps: Seq<JobPriority>) -> int
    decreases ps.len(),
{
    if ps.len() == 0 { 0 } else { length_sum(v, ps.drop_last()) + queue_length(v, ps.last()) }
}

/// The number of jobs waiting at all priorities.
pub open spec fn total_queue_length(v: MetricsView) -> int {
    length_sum(v, all_priorities())
}

/// The counters at one moment. The success rate and the throughput, which
/// are fractions, are computed from these by the reader.
pub struct MetricsSnapshot {
    /// Jobs submitted.
    pub jobs_submitted: u64,
    /// Jobs completed.
    pub jobs_completed: u64,
    /// Jobs that failed.
    pub jobs_failed: u64,
    /// Jobs cancelled.
    pub jobs_cancelled: u64,
    /// Total execution time in milliseconds.
    pub total_execution_time_ms: u64,
    /// Jobs running.
    pub active_jobs: usize,
    /// Jobs waiting, by priority, from the least urgent.
    pub queue_lengths: Vec<(JobPriority, usize)>,
    /// Execution time of the last completed job, by priority.
    pub avg_execution_time_ms: Vec<(JobPriority, u64)>,
    /// When the snapshot was taken, in RFC 3339 form.
    pub timestamp: String,
}

/// The RFC 3339 text of the UTC time `secs` seconds and `nanos`
/// nanoseconds after the Unix epoch, as chrono writes it; `None` where
/// chrono has no such time.
pub uninterp spec fn rfc3339_text(secs: i64, nanos: u32) -> Option<Seq<char>>;

/// Calls `chrono::DateTime::from_timestamp` and `to_rfc3339`. The text is
/// named by `rfc3339_text` and is `None` exactly where `from_timestamp`
/// gives `None` (seconds out of chrono's range, or invalid nanoseconds).
#[verifier::external_body]
fn rfc3339_at(secs: i64, nanos: u32) -> (s: Option<String>)
    ensures
        s is None <==> rfc3339_text(secs, nanos) is None,
        s matches Some(t) ==> rfc3339_text(secs, nanos) == Some(t@),
{
    match chrono::DateTime::from_timestamp(secs, nanos) {
        Some(t) => Some(t.to_rfc3339()),
        None => None,
    }
}

/// The RFC 3339 text of the time of a clock reading, or the empty text where
/// the clock reads before the Unix epoch or beyond chrono's range.
pub open spec fn reading_rfc3339(reading: Option<(u64, u32)>) -> Seq<char> {
    match reading {
        Some(d) => if d.0 <= i64::MAX as u64 {
            match rfc3339_text(d.0 as i64, d.1) {
                Some(t) => t,
                None => Seq::empty(),
            }
        } else {
            Seq::empty()
        },
        None => Seq::empty(),
    }
}

/// The RFC 3339 text of the time of the clock reading `reading`.
pub fn timestamp_of(reading: Option<(u64, u32)>) -> (s: String)
    ensures
        s@ == reading_rfc3339(reading),
{
    match reading {
        Some((secs, nanos)) => {
            if secs <= i64::MAX as u64 {
                match rfc3339_at(secs as i64, nanos) {
                    Some(t) => t,
                    None => String::new(),
                }
            } else {
                String::new()
            }
        },
        None => String::new(),
    }
}

/// The RFC 3339 text of the time now.
fn utc_timestamp() -> (s: String)
    ensures
        exists|reading: Option<(u64, u32)>| s@ == #[trigger] reading_rfc3339(reading),
{
    timestamp_of(clock_reading())
}

fn inc64(n: u64) -> (m: u64)
    ensures
        m == bumped(n),
{
    if n == u64::MAX { 0 } else { n + 1 }
}

fn inc(n: usize) -> (m: usize)
    ensures
        m == wrap_inc(n),
{
    if n == usize::MAX { 0 } else { n + 1 }
}

fn dec(n: usize) -> (m: usize)
    ensures
        m == wrap_dec(n),
{
    if n == 0 { usize::MAX } else { n - 1 }
}

fn add64(a: u64, b: u64) -> (c: u64)
    ensures
        c == wrap_add64(a, b),
{
    if a > u64::MAX - b { b - (u64::MAX - a) - 1 } else { a + b }
}

/// Counters of a pool's jobs.
pub struct ThreadPoolMetrics {
    jobs_submitted: u64,
    jobs_completed: u64,
    jobs_failed: u64,
    jobs_cancelled: u64,
    total_execution_time_ms: u64,
    active_jobs: usize,
    queue_lengths: DashMap<u8, usize>,
    avg_execution_time_ms: DashMap<u8, u64>,
    job_start_times: DashMap<JobId, u64>,
}

impl View for ThreadPoolMetrics {
    type V = MetricsView;

    closed spec fn view(&self) -> MetricsView {
        MetricsView {
            jobs_submitted: self.jobs_submitted,
            jobs_completed: self.jobs_completed,
            jobs_failed: self.jobs_failed,
            jobs_cancelled: self.jobs_cancelled,
            total_execution_time_ms: self.total_execution_time_ms,
            active_jobs: self.active_jobs,
            queue_lengths: by_priority(length_entries(self.queue_lengths)),
            last_execution_ms: by_priority(time_entries(self.avg_execution_time_ms)),
            start_times: start_entries(self.job_start_times),
        }
    }
}

impl ThreadPoolMetrics {
    /// Counters at zero.
    pub fn new() -> (m: Self)
        ensures
            m@ == cleared(),
    {
        let m = ThreadPoolMetrics {
            jobs_submitted: 0,
            jobs_completed: 0,
            jobs_failed: 0,
            jobs_cancelled: 0,
            total_execution_time_ms: 0,
            active_jobs: 0,
            queue_lengths: new_length_map(),
            avg_execution_time_ms: new_time_map(),
            job_start_times: new_start_map(),
        };
        proof {
            assert(length_entries(m.queue_lengths) =~= Map::<u8, usize>::empty());
            assert(time_entries(m.avg_execution_time_ms) =~= Map::<u8, u64>::empty());
            assert(start_entries(m.job_start_times) =~= Map::<JobId, u64>::empty());
            lemma_by_priority_empty::<usize>();
            lemma_by_priority_empty::<u64>();
        }
        m
    }

    /// Count a submitted job of priority `priority`.
    pub fn record_job_submitted(&mut self, priority: JobPriority)
        ensures
            final(self)@ == submitted(old(self)@, priority),
    {
        self.jobs_submitted = inc64(self.jobs_submitted);
        let k = key_of(priority);
        let n = match length_at(&self.queue_lengths, k) {
            Some(n) => n,
            None => 0,
        };
        set_length(&mut self.queue_lengths, k, inc(n));
        proof {
            lemma_by_priority_insert(length_entries(old(self).queue_lengths), priority, wrap_inc(n));
        }
    }

    /// Count job `job_id` of priority `priority` as started at `now`.
    pub fn record_job_started_at(&mut self, job_id: JobId, priority: JobPriority, now: u64)
        ensures
            final(self)@ == started(old(self)@, job_id, priority, now),
    {
        self.active_jobs = inc(self.active_jobs);
        set_start(&mut self.job_start_times, job_id, now);
        let k = key_of(priority);
        match length_at(&self.queue_lengths, k) {
            Some(n) => {
                set_length(&mut self.queue_lengths, k, dec(n));
                proof {
                    lemma_by_priority_insert(length_entries(old(self).queue_lengths), priority, wrap_dec(n));
                }
            },
            None => {},
        }
    }

    /// Count job `job_id` of priority `priority` as started now.
    pub fn record_job_started(&mut self, job_id: JobId, priority: JobPriority)
        ensures
            exists|now: u64| final(self)@ == started(old(self)@, job_id, priority, now),
    {
        let now = now_millis();
        self.record_job_started_at(job_id, priority, now);
    }

    /// Count job `job_id` of priority `priority` as completed at `now`.
    pub fn record_job_completed_at(&mut self, job_id: &JobId, priority: JobPriority, now: u64)
        ensures
            final(self)@ == completed(old(self)@, *job_id, priority, now),
    {
        self.jobs_completed = inc64(self.jobs_completed);
        self.active_jobs = dec(self.active_jobs);
        match take_start(&mut self.job_start_times, job_id) {
            Some(start) => {
                let d = if now >= start { now - start } else { 0 };
                self.total_execution_time_ms = add64(self.total_execution_time_ms, d);
                set_time(&mut self.avg_execution_time_ms, key_of(priority), d);
                proof {
                    lemma_by_priority_insert(time_entries(old(self).avg_execution_time_ms), priority, d);
                }
            },
            None => {},
        }
        proof {
            assert(self@ =~= completed(old(self)@, *job_id, priority, now));
        }
    }

    /// Count job `job_id` of priority `priority` as completed now.
    pub fn record_job_completed(&mut self, job_id: &JobId, priority: JobPriority)
        ensures
            exists|now: u64| final(self)@ == completed(old(self)@, *job_id, priority, now),
    {
        let now = now_millis();
        self.record_job_completed_at(job_id, priority, now);
    }

    /// Count job `job_id` as failed.
    pub fn record_job_failed(&mut self, job_id: &JobId)
        ensures
            final(self)@ == failed(old(self)@, *job_id),
    {
        self.jobs_failed = inc64(self.jobs_failed);
        self.active_jobs = dec(self.active_jobs);
        let _ = take_start(&mut self.job_start_times, job_id);
    }

    /// Count job `job_id` as cancelled.
    pub fn record_job_cancelled(&mut self, job_id: &JobId)
        ensures
            final(self)@ == cancelled(old(self)@, *job_id),
    {
        self.jobs_cancelled = inc64(self.jobs_cancelled);
        self.active_jobs = dec(self.active_jobs);
        let _ = take_start(&mut self.job_start_times, job_id);
    }

    /// The number of jobs waiting at `priority`.
    pub fn get_queue_length(&self, priority: JobPriority) -> (n: usize)
        ensures
            n == queue_length(self@, priority),
    {
        match length_at(&self.queue_lengths, key_of(priority)) {
            Some(n) => n,
            None => 0,
        }
    }

    /// The number of jobs waiting at all priorities; the sum must fit.
    pub fn get_total_queue_length(&self) -> (n: usize)
        requires
            total_queue_length(self@) <= usize::MAX,
        ensures
            n == total_queue_length(self@),
    {
        proof {
            let ps = all_priorities();
            assert(ps.drop_last().drop_last().drop_last().drop_last().drop_last() =~= Seq::<JobPriority>::empty());
            assert(ps.drop_last().drop_last().drop_last().drop_last() =~= seq![JobPriority::Lowest]);
            assert(ps.drop_last().drop_last().drop_last() =~= seq![JobPriority::Lowest, JobPriority::Low]);
            assert(ps.drop_last().drop_last() =~= seq![JobPriority::Lowest, JobPriority::Low, JobPriority::Normal]);
            assert(ps.drop_last() =~= seq![JobPriority::Lowest, JobPriority::Low, JobPriority::Normal, JobPriority::High]);
            reveal_with_fuel(length_sum, 6);
        }
        let a = self.get_queue_length(JobPriority::Lowest);
        let b = self.get_queue_length(JobPriority::Low);
        let c = self.get_queue_length(JobPriority::Normal);
        let d = self.get_queue_length(JobPriority::High);
        let e = self.get_queue_length(JobPriority::Highest);
        a + b + c + d + e
    }

    /// The counters now.
    pub fn snapshot(&self) -> (s: MetricsSnapshot)
        ensures
            s.jobs_submitted == self@.jobs_submitted,
            s.jobs_completed == self@.jobs_completed,
            s.jobs_failed == self@.jobs_failed,
            s.jobs_cancelled == self@.jobs_cancelled,
            s.total_execution_time_ms == self@.total_execution_time_ms,
            s.active_jobs == self@.active_jobs,
            s.queue_lengths@ == entries(self@.queue_lengths),
            s.avg_execution_time_ms@ == entries(self@.last_execution_ms),
            exists|reading: Option<(u64, u32)>| s.timestamp@ == #[trigger] reading_rfc3339(reading),
    {
        MetricsSnapshot {
            jobs_submitted: self.jobs_submitted,
            jobs_completed: self.jobs_completed,
            jobs_failed: self.jobs_failed,
            jobs_cancelled: self.jobs_cancelled,
            total_execution_time_ms: self.total_execution_time_ms,
            active_jobs: self.active_jobs,
            queue_lengths: length_list(&self.queue_lengths),
            avg_execution_time_ms: time_list(&self.avg_execution_time_ms),
            timestamp: utc_timestamp(),
        }
    }

    /// Set every counter to zero and forget every entry.
    pub fn reset(&mut self)
        ensures
            final(self)@ == cleared(),
    {
        self.jobs_submitted = 0;
        self.jobs_completed = 0;
        self.jobs_failed = 0;
        self.jobs_cancelled = 0;
        self.total_execution_time_ms = 0;
        self.active_jobs = 0;
        clear_lengths(&mut self.queue_lengths);
        clear_times(&mut self.avg_execution_time_ms);
        clear_starts(&mut self.job_start_times);
        proof {
            assert(length_entries(self.queue_lengths) =~= Map::<u8, usize>::empty());
            assert(time_entries(self.avg_execution_time_ms) =~= Map::<u8, u64>::empty());
            assert(start_entries(self.job_start_times) =~= Map::<JobId, u64>::empty());
            lemma_by_priority_empty::<usize>();
            lemma_by_priority_empty::<u64>();
        }
    }
}

impl Default for ThreadPoolMetrics {
    fn default() -> (m: Self)
        ensures
            m@ == cleared(),
    {
        ThreadPoolMetrics::new()
    }
}

/// Submitting a job and then starting it leaves the number of jobs waiting
/// at its priority as it was, short of wrapping around.
pub proof fn lemma_submit_then_start_keeps_queue_length(v: MetricsView, id: JobId, p: JobPriority, now: u64)
    requires
        queue_length(v, p) < usize::MAX,
    ensures
        queue_length(started(submitted(v, p), id, p, now), p) == queue_length(v, p),
{
}

/// A job started at `t0` and completed at `t1` adds `t1 - t0` to the
/// total execution time (wrapping around), is recorded as the last of its
/// priority, leaves the running count as it was and forgets its start.
pub proof fn lemma_start_then_complete(v: MetricsView, id: JobId, p: JobPriority, t0: u64, t1: u64)
    requires
        t0 <= t1,
    ensures
        completed(started(v, id, p, t0), id, p, t1).total_execution_time_ms
            == wrap_add64(v.total_execution_time_ms, (t1 - t0) as u64),
        completed(started(v, id, p, t0), id, p, t1).last_execution_ms[p] == t1 - t0,
        completed(started(v, id, p, t0), id, p, t1).active_jobs == v.active_jobs,
        completed(started(v, id, p, t0), id, p, t1).start_times == v.start_times.remove(id),
{
    assert(v.start_times.insert(id, t0).remove(id) =~= v.start_times.remove(id));
}

/// A started job that fails or is cancelled leaves the running count and
/// the recorded starts as they were before it started, where it had none.
pub proof fn lemma_start_then_abandon(v: MetricsView, id: JobId, p: JobPriority, now: u64)
    requires
        !v.start_times.contains_key(id),
    ensures
        failed(started(v, id, p, now), id).active_jobs == v.active_jobs,
        failed(started(v, id, p, now), id).start_times == v.start_times,
        cancelled(started(v, id, p, now), id).active_jobs == v.active_jobs,
        cancelled(started(v, id, p, now), id).start_times == v.start_times,
{
    assert(v.start_times.insert(id, now).remove(id) =~= v.start_times);
}

} // verus!
