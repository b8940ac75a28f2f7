//! Job monitoring: tracking the status of jobs, detecting hung jobs and
//! summarizing performance. Times and durations are clock milliseconds.
use vstd::prelude::*;
use vstd::string::*;
use crate::clock::now_millis;
use crate::error::{Error, Result};
use crate::job::Job;
use crate::text::{decimal, decimal_text};

verus! {

/// Status of a monitored job.
#[derive(Debug, Clone, Copy, PartialEq, Eq, Structural)]
pub enum JobStatus {
    /// Waiting in the queue.
    Queued,
    /// Running.
    Running,
    /// Completed successfully.
    Completed,
    /// Failed.
    Failed,
    /// Timed out.
    TimedOut,
}

/// The display text of a status.
pub open spec fn status_text(s: JobStatus) -> Seq<char> {
    match s {
        JobStatus::Queued => "Queued"@,
        JobStatus::Running => "Running"@,
        JobStatus::Completed => "Completed"@,
        JobStatus::Failed => "Failed"@,
        JobStatus::TimedOut => "Timed Out"@,
    }
}

impl JobStatus {
    /// The display text of the status.
    pub fn to_string(&self) -> (s: String)
        ensures
            s@ == status_text(*self),
    {
        match self {
            JobStatus::Queued => String::from_str("Queued"),
            JobStatus::Running => String::from_str("Running"),
            JobStatus::Completed => String::from_str("Completed"),
            JobStatus::Failed => String::from_str("Failed"),
            JobStatus::TimedOut => String::from_str("Timed Out"),
        }
    }
}

/// Configuration of a job monitor.
#[derive(Debug, Clone, Copy)]
pub struct JobMonitorConfig {
    /// How often to check for timed out jobs, in milliseconds.
    pub check_interval: u64,
    /// Default job timeout, in milliseconds.
    pub default_timeout: u64,
    /// Maximum number of records kept in the history.
    pub max_history_size: usize,
}

impl Default for JobMonitorConfig {
    fn default() -> (c: Self)
        ensures
            c.check_interval == 5000,
            c.default_timeout == 60000,
            c.max_history_size == 1000,
    {
        JobMonitorConfig { check_interval: 5000, default_timeout: 60000, max_history_size: 1000 }
    }
}

/// Information about a monitored job.
#[derive(Debug)]
pub struct JobInfo {
    /// Job ID.
    pub id: usize,
    /// Job description.
    pub description: String,
    /// Current status.
    pub status: JobStatus,
    /// When the job was created.
    pub creation_time: u64,
    /// When the job started running, if it did.
    pub start_time: Option<u64>,
    /// When the job finished, if it did.
    pub completion_time: Option<u64>,
    /// Error message if the job failed.
    pub error: Option<String>,
    /// Timeout of the job, in milliseconds.
    pub timeout: u64,
}

impl Clone for JobInfo {
    fn clone(&self) -> (c: Self)
        ensures
            c == *self,
    {
        JobInfo {
            id: self.id,
            description: self.description.clone(),
            status: self.status,
            creation_time: self.creation_time,
            start_time: self.start_time,
            completion_time: self.completion_time,
            error: match &self.error {
                Some(e) => Some(e.clone()),
                None => None,
            },
            timeout: self.timeout,
        }
    }
}

/// `later - earlier`, or zero when `later` is earlier.
pub open spec fn elapsed(earlier: u64, later: u64) -> u64 {
    if later >= earlier { (later - earlier) as u64 } else { 0 }
}

fn elapsed_between(earlier: u64, later: u64) -> (d: u64)
    ensures
        d == elapsed(earlier, later),
{
    if later >= earlier { later - earlier } else { 0 }
}

/// How long a finished job ran, if it started.
pub open spec fn run_time(j: JobInfo) -> Option<u64> {
    match (j.start_time, j.completion_time) {
        (Some(s), Some(e)) => Some(elapsed(s, e)),
        _ => None,
    }
}

/// How long a job waited before it started, if it started.
pub open spec fn wait_of(j: JobInfo) -> Option<u64> {
    match j.start_time {
        Some(s) => Some(elapsed(j.creation_time, s)),
        None => None,
    }
}

/// Whether `info` is the record of a job just registered with ID `id`,
/// description `description`, creation time `created` and timeout
/// `timeout`: queued, not started, not finished, with no error.
pub open spec fn registered_record(info: JobInfo, id: usize, description: Seq<char>, created: u64, timeout: u64) -> bool {
    &&& info.id == id
    &&& info.description@ == description
    &&& info.status == JobStatus::Queued
    &&& info.creation_time == created
    &&& info.start_time.is_none()
    &&& info.completion_time.is_none()
    &&& info.error.is_none()
    &&& info.timeout == timeout
}

/// Whether a job has run longer than its timeout at time `now`.
pub open spec fn timed_out_at(j: JobInfo, now: u64) -> bool {
    j.status == JobStatus::Running && (j.start_time matches Some(s) && elapsed(s, now) > j.timeout)
}

impl JobInfo {
    /// A record for a job just registered.
    fn new<J: Job + ?Sized>(id: usize, job: &J, timeout: u64) -> (info: Self)
        ensures
            registered_record(info, id, job.description_text(), job.created_at(), timeout),
    {
        JobInfo {
            id,
            description: job.description(),
            status: JobStatus::Queued,
            creation_time: job.creation_time(),
            start_time: None,
            completion_time: None,
            error: None,
            timeout,
        }
    }

    /// How long the job has run at time `now`: until completion when it
    /// finished, until `now` when it is running, `None` when not started.
    pub fn running_time_at(&self, now: u64) -> (d: Option<u64>)
        ensures
            d == match (self.start_time, self.completion_time) {
                (Some(s), Some(e)) => Some(elapsed(s, e)),
                (Some(s), None) => Some(elapsed(s, now)),
                _ => None,
            },
    {
        match (self.start_time, self.completion_time) {
            (Some(start), Some(end)) => Some(elapsed_between(start, end)),
            (Some(start), None) => Some(elapsed_between(start, now)),
            _ => None,
        }
    }

    /// How long the job has run.
    pub fn running_time(&self) -> (d: Option<u64>)
        ensures
            d.is_some() == self.start_time.is_some(),
            self.completion_time.is_some() ==> d == run_time(*self),
    {
        self.running_time_at(now_millis())
    }

    /// How long the job waited in the queue, if it started.
    pub fn wait_time(&self) -> (d: Option<u64>)
        ensures
            d == wait_of(*self),
            self.start_time is None ==> d is None,
            self.start_time matches Some(s) ==> (s >= self.creation_time ==> d == Some((s - self.creation_time) as u64)),
    {
        match self.start_time {
            Some(start) => Some(elapsed_between(self.creation_time, start)),
            None => None,
        }
    }

    /// The time from creation to completion, if completed.
    pub fn total_time(&self) -> (d: Option<u64>)
        ensures
            d == match self.completion_time {
                Some(e) => Some(elapsed(self.creation_time, e)),
                None => None::<u64>,
            },
    {
        match self.completion_time {
            Some(end) => Some(elapsed_between(self.creation_time, end)),
            None => None,
        }
    }

    /// Whether the job, running, has exceeded its timeout at time `now`.
    pub fn is_timed_out_at(&self, now: u64) -> (b: bool)
        ensures
            b == timed_out_at(*self, now),
    {
        if self.status != JobStatus::Running {
            return false;
        }
        match self.start_time {
            Some(start) => elapsed_between(start, now) > self.timeout,
            None => false,
        }
    }

    /// Whether the job, running, has exceeded its timeout now.
    pub fn is_timed_out(&self) -> (b: bool)
        ensures
            b ==> self.status == JobStatus::Running && self.start_time.is_some(),
            exists|now: u64| b == #[trigger] timed_out_at(*self, now),
    {
        let now = now_millis();
        let b = self.is_timed_out_at(now);
        assert(b == timed_out_at(*self, now));
        b
    }
}

/// Whether no two records of `s` share an ID.
pub open spec fn distinct_ids(s: Seq<JobInfo>) -> bool {
    forall|i: int, j: int| 0 <= i < s.len() && 0 <= j < s.len() && i != j ==> s[i].id != s[j].id
}

/// Whether `s` has a record with ID `id`.
pub open spec fn has_id(s: Seq<JobInfo>, id: usize) -> bool {
    exists|i: int| 0 <= i < s.len() && s[i].id == id
}

/// The history after adding `info` and keeping the newest `max` records.
pub open spec fn history_after(h: Seq<JobInfo>, info: JobInfo, max: usize) -> Seq<JobInfo> {
    let grown = h.push(info);
    if grown.len() > max { grown.subrange(grown.len() - max, grown.len() as int) } else { grown }
}

/// The history after adding each record of `added` in order.
pub open spec fn history_after_all(h: Seq<JobInfo>, added: Seq<JobInfo>, max: usize) -> Seq<JobInfo>
    decreases added.len(),
{
    if added.len() == 0 {
        h
    } else {
        history_after(history_after_all(h, added.drop_last(), max), added.last(), max)
    }
}

/// Whether a status is that of a job still in the monitor's active list.
pub open spec fn is_active_status(st: JobStatus) -> bool {
    st == JobStatus::Queued || st == JobStatus::Running
}

/// Whether every record of `s` is queued or running.
pub open spec fn all_active(s: Seq<JobInfo>) -> bool {
    forall|i: int| 0 <= i < s.len() ==> is_active_status(#[trigger] s[i].status)
}

/// Whether every record of `s` has finished: completed, failed or timed out.
pub open spec fn all_finished(s: Seq<JobInfo>) -> bool {
    forall|i: int| 0 <= i < s.len() ==> !is_active_status(#[trigger] s[i].status)
}

/// The records of `s` that have not timed out at `now`, in order.
pub open spec fn still_active(s: Seq<JobInfo>, now: u64) -> Seq<JobInfo>
    decreases s.len(),
{
    if s.len() == 0 {
        Seq::empty()
    } else if timed_out_at(s.last(), now) {
        still_active(s.drop_last(), now)
    } else {
        still_active(s.drop_last(), now).push(s.last())
    }
}

/// The records of `s` that have timed out at `now`, in order.
pub open spec fn expired(s: Seq<JobInfo>, now: u64) -> Seq<JobInfo>
    decreases s.len(),
{
    if s.len() == 0 {
        Seq::empty()
    } else if timed_out_at(s.last(), now) {
        expired(s.drop_last(), now).push(s.last())
    } else {
        expired(s.drop_last(), now)
    }
}

/// Whether `m` is record `j` marked as timed out at `now`.
pub open spec fn marked_timed_out(j: JobInfo, m: JobInfo, now: u64) -> bool {
    &&& m.id == j.id
    &&& m.description == j.description
    &&& m.creation_time == j.creation_time
    &&& m.start_time == j.start_time
    &&& m.timeout == j.timeout
    &&& m.status == JobStatus::TimedOut
    &&& m.completion_time == Some(now)
    &&& m.error matches Some(e) && e@ == "Job timed out"@
}

/// Whether `h` is history `h0` after recording the jobs of `active` that
/// timed out at `now` as the records `added`.
pub open spec fn timeouts_recorded(
    active: Seq<JobInfo>, h0: Seq<JobInfo>, h: Seq<JobInfo>, added: Seq<JobInfo>, now: u64, max: usize,
) -> bool {
    &&& added.len() == expired(active, now).len()
    &&& forall|k: int| 0 <= k < added.len() ==> marked_timed_out(expired(active, now)[k], #[trigger] added[k], now)
    &&& h == history_after_all(h0, added, max)
}

/// Every record still active was active before.
pub proof fn lemma_still_active_subset(s: Seq<JobInfo>, now: u64)
    ensures
        forall|k: int| 0 <= k < still_active(s, now).len() ==> s.contains(#[trigger] still_active(s, now)[k]),
    decreases s.len(),
{
    if s.len() > 0 {
        lemma_still_active_subset(s.drop_last(), now);
        let r = still_active(s.drop_last(), now);
        assert forall|k: int| 0 <= k < still_active(s, now).len() implies
            s.contains(#[trigger] still_active(s, now)[k]) by {
            if k < r.len() {
                assert(s.drop_last().contains(r[k]));
                let j = choose|j: int| 0 <= j < s.drop_last().len() && s.drop_last()[j] == r[k];
                assert(s[j] == r[k]);
            } else {
                assert(s[s.len() - 1] == s.last());
            }
        }
    }
}

/// The records still active keep distinct IDs.
pub proof fn lemma_still_active_distinct(s: Seq<JobInfo>, now: u64)
    requires
        distinct_ids(s),
    ensures
        distinct_ids(still_active(s, now)),
    decreases s.len(),
{
    if s.len() > 0 {
        let p = s.drop_last();
        assert(distinct_ids(p)) by {
            assert forall|a: int, b: int| 0 <= a < p.len() && 0 <= b < p.len() && a != b
                implies p[a].id != p[b].id by {
                assert(p[a] == s[a]);
                assert(p[b] == s[b]);
            }
        }
        lemma_still_active_distinct(p, now);
        lemma_still_active_subset(p, now);
        let r = still_active(p, now);
        if !timed_out_at(s.last(), now) {
            let t = r.push(s.last());
            assert forall|a: int, b: int| 0 <= a < t.len() && 0 <= b < t.len() && a != b
                implies t[a].id != t[b].id by {
                if a < r.len() && b < r.len() {
                } else if a < r.len() {
                    assert(p.contains(r[a]));
                    let j = choose|j: int| 0 <= j < p.len() && p[j] == r[a];
                    assert(s[j] == r[a]);
                    assert(t[b] == s[s.len() - 1]);
                } else if b < r.len() {
                    assert(p.contains(r[b]));
                    let j = choose|j: int| 0 <= j < p.len() && p[j] == r[b];
                    assert(s[j] == r[b]);
                    assert(t[a] == s[s.len() - 1]);
                }
            }
        }
    }
}

/// The message of an unknown job ID.
pub open spec fn not_found_text(id: usize) -> Seq<char> {
    "Job with ID "@ + decimal_text(id as nat) + " not found"@
}

fn not_found(id: usize) -> (e: Error)
    ensures
        e matches Error::JobError(m) && m@ == not_found_text(id),
{
    let mut m = String::from_str("Job with ID ");
    m.append(decimal(id as u64).as_str());
    m.append(" not found");
    Error::JobError(m)
}

/// Tracks the jobs of a pool: the active ones by ID, and a bounded history
/// of the finished ones.
pub struct JobMonitor {
    next_id: usize,
    active_jobs: Vec<JobInfo>,
    job_history: Vec<JobInfo>,
    config: JobMonitorConfig,
}

impl Default for JobMonitor {
    fn default() -> (m: Self)
        ensures
            m.wf(),
            m.active()@.len() == 0,
            m.history()@.len() == 0,
            m.next() == 1,
            m.settings().check_interval == 5000,
            m.settings().max_history_size == 1000,
            m.settings().default_timeout == 60000,
    {
        Self::new(JobMonitorConfig::default())
    }
}

impl JobMonitor {
    /// The records of the active jobs.
    pub closed spec fn active(self) -> Vec<JobInfo> {
        self.active_jobs
    }

    /// The records of the finished jobs, oldest first.
    pub closed spec fn history(self) -> Vec<JobInfo> {
        self.job_history
    }

    /// The ID the next registered job receives.
    pub closed spec fn next(self) -> usize {
        self.next_id
    }

    /// The configuration of the monitor.
    pub closed spec fn settings(self) -> JobMonitorConfig {
        self.config
    }

    /// Well-formedness: active IDs are distinct, the history is within its
    /// size limit, active jobs are queued or running and the jobs in the
    /// history have finished.
    pub closed spec fn wf(self) -> bool {
        &&& distinct_ids(self.active_jobs@)
        &&& self.job_history@.len() <= self.config.max_history_size
        &&& all_active(self.active_jobs@)
        &&& all_finished(self.job_history@)
    }

    /// Create a monitor with the given configuration.
    pub fn new(config: JobMonitorConfig) -> (m: Self)
        ensures
            m.wf(),
            m.active()@.len() == 0,
            m.history()@.len() == 0,
            m.next() == 1,
            m.settings() == config,
    {
        JobMonitor { next_id: 1, active_jobs: Vec::new(), job_history: Vec::new(), config }
    }

    /// Create a monitor with the default configuration.
    pub fn new_default() -> (m: Self)
        ensures
            m.wf(),
            m.active()@.len() == 0,
            m.history()@.len() == 0,
            m.next() == 1,
            m.settings().check_interval == 5000,
            m.settings().max_history_size == 1000,
            m.settings().default_timeout == 60000,
    {
        Self::new(JobMonitorConfig::default())
    }

    /// The index of the active record with ID `id`, if any.
    fn find(&self, id: usize) -> (r: Option<usize>)
        requires
            self.wf(),
        ensures
            match r {
                Some(i) => i < self.active_jobs@.len() && self.active_jobs@[i as int].id == id,
                None => !has_id(self.active_jobs@, id),
            },
    {
        let mut i: usize = 0;
        while i < self.active_jobs.len()
            invariant
                i <= self.active_jobs@.len(),
                forall|k: int| 0 <= k < i ==> self.active_jobs@[k].id != id,
            decreases self.active_jobs@.len() - i,
        {
            if self.active_jobs[i].id == id {
                return Some(i);
            }
            i = i + 1;
        }
        None
    }

    /// Register a job with the default timeout; returns its ID.
    pub fn register_job(&mut self, job: &dyn Job) -> (id: usize)
        requires
            old(self).wf(),
        ensures
            final(self).wf(),
            id == old(self).next(),
            final(self).next() == (if id == usize::MAX { 0 } else { (id + 1) as usize }),
            has_id(final(self).active()@, id),
            final(self).history() == old(self).history(),
            final(self).settings() == old(self).settings(),
            forall|i: int| 0 <= i < final(self).active()@.len() && final(self).active()@[i].id == id
                ==> registered_record(final(self).active()@[i], id, job.description_text(), job.created_at(),
                    old(self).settings().default_timeout),
            forall|k: usize| k != id ==> (has_id(final(self).active()@, k) <==> has_id(old(self).active()@, k)),
    {
        let timeout = self.config.default_timeout;
        self.register_record(job, timeout)
    }

    /// Register a job with a custom timeout; returns its ID. A record with
    /// the same ID is replaced.
    pub fn register_job_with_timeout(&mut self, job: &dyn Job, timeout: u64) -> (id: usize)
        requires
            old(self).wf(),
        ensures
            final(self).wf(),
            id == old(self).next(),
            final(self).next() == (if id == usize::MAX { 0 } else { (id + 1) as usize }),
            has_id(final(self).active()@, id),
            final(self).history() == old(self).history(),
            final(self).settings() == old(self).settings(),
            forall|i: int| 0 <= i < final(self).active()@.len() && final(self).active()@[i].id == id
                ==> registered_record(final(self).active()@[i], id, job.description_text(), job.created_at(), timeout),
            forall|k: usize| k != id ==> (has_id(final(self).active()@, k) <==> has_id(old(self).active()@, k)),
    {
        self.register_record(job, timeout)
    }

    /// Register `job` with `timeout`; a record with the same ID is replaced.
    fn register_record<J: Job + ?Sized>(&mut self, job: &J, timeout: u64) -> (id: usize)
        requires
            old(self).wf(),
        ensures
            final(self).wf(),
            id == old(self).next(),
            final(self).next() == (if id == usize::MAX { 0 } else { (id + 1) as usize }),
            has_id(final(self).active()@, id),
            final(self).history() == old(self).history(),
            final(self).settings() == old(self).settings(),
            forall|i: int| 0 <= i < final(self).active()@.len() && final(self).active()@[i].id == id
                ==> registered_record(final(self).active()@[i], id, job.description_text(), job.created_at(), timeout),
            forall|k: usize| k != id ==> (has_id(final(self).active()@, k) <==> has_id(old(self).active()@, k)),
    {
        let id = self.next_id;
        self.next_id = if id == usize::MAX { 0 } else { id + 1 };
        let info = JobInfo::new(id, job, timeout);
        match self.find(id) {
            Some(i) => {
                self.active_jobs.set(i, info);
                proof {
                    assert(self.active_jobs@[i as int].id == id);
                    assert forall|k: usize| k != id implies
                        (has_id(self.active_jobs@, k) <==> has_id(old(self).active_jobs@, k)) by {
                        if has_id(old(self).active_jobs@, k) {
                            let j = choose|j: int| 0 <= j < old(self).active_jobs@.len() && old(self).active_jobs@[j].id == k;
                            assert(self.active_jobs@[j].id == k);
                        }
                        if has_id(self.active_jobs@, k) {
                            let j = choose|j: int| 0 <= j < self.active_jobs@.len() && self.active_jobs@[j].id == k;
                            assert(old(self).active_jobs@[j].id == k);
                        }
                    }
                }
            },
            None => {
                self.active_jobs.push(info);
                proof {
                    let n = old(self).active_jobs@.len();
                    assert(self.active_jobs@[n as int].id == id);
                    assert forall|k: usize| k != id implies
                        (has_id(self.active_jobs@, k) <==> has_id(old(self).active_jobs@, k)) by {
                        if has_id(old(self).active_jobs@, k) {
                            let j = choose|j: int| 0 <= j < old(self).active_jobs@.len() && old(self).active_jobs@[j].id == k;
                            assert(self.active_jobs@[j].id == k);
                        }
                        if has_id(self.active_jobs@, k) {
                            let j = choose|j: int| 0 <= j < self.active_jobs@.len() && self.active_jobs@[j].id == k;
                            assert(j < n);
                            assert(old(self).active_jobs@[j].id == k);
                        }
                    }
                }
            },
        }
        id
    }

    /// Mark a job as started at time `now`.
    pub fn mark_started_at(&mut self, job_id: usize, now: u64) -> (r: Result<()>)
        requires
            old(self).wf(),
        ensures
            final(self).wf(),
            started_at(*old(self), *final(self), job_id, now, r),
    {
        match self.find(job_id) {
            Some(i) => {
                let mut info = self.active_jobs[i].clone();
                info.status = JobStatus::Running;
                info.start_time = Some(now);
                self.active_jobs.set(i, info);
                proof {
                    assert(final(self).active()@ =~= old(self).active()@.update(i as int, (JobInfo {
                        status: JobStatus::Running,
                        start_time: Some(now),
                        ..old(self).active()@[i as int]
                    })));
                    assert(distinct_ids(self.active_jobs@)) by {
                        assert forall|a: int, b: int| 0 <= a < self.active_jobs@.len() && 0 <= b < self.active_jobs@.len() && a != b
                            implies self.active_jobs@[a].id != self.active_jobs@[b].id by {
                            assert(self.active_jobs@[a].id == old(self).active_jobs@[a].id);
                            assert(self.active_jobs@[b].id == old(self).active_jobs@[b].id);
                        }
                    }
                }
                Ok(())
            },
            None => Err(not_found(job_id)),
        }
    }

    /// Mark a job as started now.
    pub fn mark_started(&mut self, job_id: usize) -> (r: Result<()>)
        requires
            old(self).wf(),
        ensures
            final(self).wf(),
            exists|now: u64| #[trigger] started_at(*old(self), *final(self), job_id, now, r),
    {
        self.mark_started_at(job_id, now_millis())
    }

    /// Remove the active record with index `i` and return it.
    fn take_active(&mut self, i: usize) -> (info: JobInfo)
        requires
            old(self).wf(),
            i < old(self).active_jobs@.len(),
        ensures
            final(self).wf(),
            info == old(self).active_jobs@[i as int],
            final(self).active_jobs@ == old(self).active_jobs@.remove(i as int),
            final(self).job_history == old(self).job_history,
            final(self).config == old(self).config,
            final(self).next_id == old(self).next_id,
    {
        let info = self.active_jobs.remove(i);
        proof {
            let o = old(self).active_jobs@;
            let n = self.active_jobs@;
            assert forall|a: int, b: int| 0 <= a < n.len() && 0 <= b < n.len() && a != b
                implies n[a].id != n[b].id by {
                let oa = if a < i { a } else { a + 1 };
                let ob = if b < i { b } else { b + 1 };
                assert(n[a] == o[oa]);
                assert(n[b] == o[ob]);
            }
        }
        info
    }

    /// Add a finished record to the history, dropping the oldest records
    /// beyond the size limit.
    fn add_to_history(&mut self, job_info: JobInfo)
        requires
            old(self).wf(),
            !is_active_status(job_info.status),
        ensures
            final(self).wf(),
            final(self).job_history@ == history_after(old(self).job_history@, job_info, old(self).config.max_history_size),
            final(self).active_jobs == old(self).active_jobs,
            final(self).config == old(self).config,
            final(self).next_id == old(self).next_id,
    {
        let ghost grown = self.job_history@.push(job_info);
        self.job_history.push(job_info);
        let max = self.config.max_history_size;
        if self.job_history.len() > max {
            let excess = self.job_history.len() - max;
            let mut kept: Vec<JobInfo> = Vec::new();
            let mut k: usize = excess;
            while k < self.job_history.len()
                invariant
                    excess <= k <= self.job_history@.len(),
                    self.job_history@ == grown,
                    kept@ == grown.subrange(excess as int, k as int),
                decreases self.job_history@.len() - k,
            {
                kept.push(self.job_history[k].clone());
                proof {
                    assert(kept@ =~= grown.subrange(excess as int, k as int + 1));
                }
                k = k + 1;
            }
            self.job_history = kept;
        }
    }

    /// Mark a job as completed at time `now` and move it to the history.
    pub fn mark_completed_at(&mut self, job_id: usize, now: u64) -> (r: Result<()>)
        requires
            old(self).wf(),
        ensures
            final(self).wf(),
            completed_at(*old(self), *final(self), job_id, now, r),
    {
        match self.find(job_id) {
            Some(i) => {
                let mut info = self.take_active(i);
                info.status = JobStatus::Completed;
                info.completion_time = Some(now);
                self.add_to_history(info);
                Ok(())
            },
            None => Err(not_found(job_id)),
        }
    }

    /// Mark a job as completed now.
    pub fn mark_completed(&mut self, job_id: usize) -> (r: Result<()>)
        requires
            old(self).wf(),
        ensures
            final(self).wf(),
            exists|now: u64| #[trigger] completed_at(*old(self), *final(self), job_id, now, r),
            !has_id(final(self).active()@, job_id),
    {
        let r = self.mark_completed_at(job_id, now_millis());
        proof { self.lemma_removed_gone(old(self).active()@, job_id); }
        r
    }

    /// Mark a job as failed at time `now` with an error message and move it
    /// to the history.
    pub fn mark_failed_at(&mut self, job_id: usize, error: &str, now: u64) -> (r: Result<()>)
        requires
            old(self).wf(),
        ensures
            final(self).wf(),
            failed_at(*old(self), *final(self), job_id, error@, now, r),
    {
        match self.find(job_id) {
            Some(i) => {
                let mut info = self.take_active(i);
                let msg = String::from_str(error);
                info.status = JobStatus::Failed;
                info.completion_time = Some(now);
                info.error = Some(msg);
                self.add_to_history(info);
                Ok(())
            },
            None => Err(not_found(job_id)),
        }
    }

    /// Mark a job as failed now.
    pub fn mark_failed(&mut self, job_id: usize, error: &str) -> (r: Result<()>)
        requires
            old(self).wf(),
        ensures
            final(self).wf(),
            exists|now: u64| #[trigger] failed_at(*old(self), *final(self), job_id, error@, now, r),
            !has_id(final(self).active()@, job_id),
    {
        let r = self.mark_failed_at(job_id, error, now_millis());
        proof { self.lemma_removed_gone(old(self).active()@, job_id); }
        r
    }

    proof fn lemma_removed_gone(self, before: Seq<JobInfo>, job_id: usize)
        requires
            distinct_ids(before),
            self.active()@ == before || exists|i: int| 0 <= i < before.len() && before[i].id == job_id
                && self.active()@ == before.remove(i),
            self.active()@ == before ==> !has_id(before, job_id),
        ensures
            !has_id(self.active()@, job_id),
    {
        if self.active()@ != before {
            let i = choose|i: int| 0 <= i < before.len() && before[i].id == job_id
                && self.active()@ == before.remove(i);
            if has_id(self.active()@, job_id) {
                let j = choose|j: int| 0 <= j < self.active()@.len() && self.active()@[j].id == job_id;
                let oj = if j < i { j } else { j + 1 };
                assert(before[oj].id == job_id);
                assert(oj != i);
            }
        }
    }

    /// Mark the running jobs that exceeded their timeout at time `now` as
    /// timed out, move them to the history and return their IDs.
    pub fn check_timeouts_at(&mut self, now: u64) -> (ids: Vec<usize>)
        requires
            old(self).wf(),
        ensures
            final(self).wf(),
            final(self).settings() == old(self).settings(),
            final(self).next() == old(self).next(),
            final(self).active()@ == still_active(old(self).active()@, now),
            ids@ == expired(old(self).active()@, now).map_values(|j: JobInfo| j.id),
            exists|added: Seq<JobInfo>| #[trigger] timeouts_recorded(old(self).active()@, old(self).history()@,
                final(self).history()@, added, now, old(self).settings().max_history_size),
    {
        let ghost orig = self.active_jobs@;
        let ghost hist0 = self.job_history@;
        let mut taken: Vec<JobInfo> = Vec::new();
        std::mem::swap(&mut taken, &mut self.active_jobs);
        let mut kept: Vec<JobInfo> = Vec::new();
        let mut ids: Vec<usize> = Vec::new();
        let ghost mut added: Seq<JobInfo> = Seq::empty();
        let mut i: usize = 0;
        while i < taken.len()
            invariant
                taken@ == orig,
                distinct_ids(orig),
                i <= orig.len(),
                self.active_jobs@.len() == 0,
                self.job_history@.len() <= self.config.max_history_size,
                all_active(orig),
                all_finished(self.job_history@),
                self.config == old(self).config,
                self.next_id == old(self).next_id,
                kept@ == still_active(orig.take(i as int), now),
                ids@ == expired(orig.take(i as int), now).map_values(|j: JobInfo| j.id),
                added.len() == expired(orig.take(i as int), now).len(),
                forall|k: int| 0 <= k < added.len() ==>
                    marked_timed_out(expired(orig.take(i as int), now)[k], #[trigger] added[k], now),
                self.job_history@ == history_after_all(hist0, added, self.config.max_history_size),
            decreases orig.len() - i,
        {
            let ghost pre = orig.take(i as int);
            let ghost post = orig.take(i as int + 1);
            proof {
                assert(post.drop_last() =~= pre);
                assert(post.last() == orig[i as int]);
            }
            let info = taken[i].clone();
            if info.is_timed_out_at(now) {
                let mut m = info;
                m.status = JobStatus::TimedOut;
                m.completion_time = Some(now);
                m.error = Some(String::from_str("Job timed out"));
                ids.push(m.id);
                proof {
                    let ghost old_added = added;
                    added = added.push(m);
                    assert(expired(post, now) == expired(pre, now).push(orig[i as int]));
                    assert(expired(post, now).map_values(|j: JobInfo| j.id)
                        =~= expired(pre, now).map_values(|j: JobInfo| j.id).push(m.id));
                    assert forall|k: int| 0 <= k < added.len() implies
                        marked_timed_out(expired(post, now)[k], #[trigger] added[k], now) by {
                        if k < old_added.len() {
                            assert(added[k] == old_added[k]);
                        }
                    }
                    assert(added.drop_last() =~= old_added);
                }
                self.add_to_history(m);
            } else {
                kept.push(info);
                proof {
                    assert(expired(post, now) == expired(pre, now));
                    assert(still_active(post, now) == still_active(pre, now).push(orig[i as int]));
                }
            }
            i = i + 1;
        }
        proof {
            assert(orig.take(orig.len() as int) =~= orig);
            lemma_still_active_distinct(orig, now);
            lemma_still_active_subset(orig, now);
            assert(all_active(kept@)) by {
                assert forall|k: int| 0 <= k < kept@.len() implies is_active_status(#[trigger] kept@[k].status) by {
                    assert(orig.contains(kept@[k]));
                }
            }
        }
        self.active_jobs = kept;
        proof {
            assert(orig.take(orig.len() as int) == orig);
            assert(added.len() == expired(orig, now).len());
            assert(forall|k: int| 0 <= k < added.len() ==>
                marked_timed_out(expired(orig, now)[k], #[trigger] added[k], now));
            assert(self.job_history@ == history_after_all(hist0, added, self.config.max_history_size));
            assert(timeouts_recorded(orig, hist0, self.job_history@, added, now, self.config.max_history_size));
            assert(orig == old(self).active()@);
            assert(hist0 == old(self).history()@);
            assert(self.job_history@ == self.history()@);
            assert(self.config.max_history_size == old(self).settings().max_history_size);
            assert(timeouts_recorded(old(self).active()@, old(self).history()@, self.history()@, added, now,
                old(self).settings().max_history_size));
        }
        ids
    }

    /// Mark the running jobs that exceeded their timeout now as timed out,
    /// move them to the history and return their IDs.
    pub fn check_timeouts(&mut self) -> (ids: Vec<usize>)
        requires
            old(self).wf(),
        ensures
            final(self).wf(),
            final(self).settings() == old(self).settings(),
            forall|k: int| 0 <= k < final(self).active()@.len()
                ==> old(self).active()@.contains(#[trigger] final(self).active()@[k]),
            exists|now: u64| #[trigger] timeouts_checked_at(*old(self), *final(self), ids@, now),
    {
        let now = now_millis();
        let ids = self.check_timeouts_at(now);
        proof {
            lemma_still_active_subset(old(self).active()@, now);
            assert(timeouts_checked_at(*old(self), *self, ids@, now));
        }
        ids
    }

    /// A copy of the active record with ID `job_id`, if any.
    pub fn get_job_info(&self, job_id: usize) -> (r: Option<JobInfo>)
        requires
            self.wf(),
        ensures
            match r {
                Some(info) => info.id == job_id && self.active()@.contains(info),
                None => !has_id(self.active()@, job_id),
            },
    {
        match self.find(job_id) {
            Some(i) => {
                let info = self.active_jobs[i].clone();
                proof { assert(self.active_jobs@[i as int] == info); }
                Some(info)
            },
            None => None,
        }
    }

    /// Copies of all active records.
    pub fn get_active_jobs(&self) -> (v: Vec<JobInfo>)
        ensures
            v@ == self.active()@,
    {
        copy_records(&self.active_jobs)
    }

    /// Copies of the history records, oldest first.
    pub fn get_job_history(&self) -> (v: Vec<JobInfo>)
        ensures
            v@ == self.history()@,
    {
        copy_records(&self.job_history)
    }

    /// Clear the history.
    pub fn clear_history(&mut self)
        requires
            old(self).wf(),
        ensures
            final(self).wf(),
            final(self).history()@.len() == 0,
            final(self).active() == old(self).active(),
            final(self).settings() == old(self).settings(),
            final(self).next() == old(self).next(),
    {
        self.job_history.clear();
    }
}

/// Counts of jobs by status and average times.
#[derive(Debug, Clone, Copy)]
pub struct JobStats {
    /// Jobs queued.
    pub queued: usize,
    /// Jobs running.
    pub running: usize,
    /// Jobs completed successfully.
    pub completed: usize,
    /// Jobs failed.
    pub failed: usize,
    /// Jobs timed out.
    pub timed_out: usize,
    /// Average wait in the queue, in milliseconds.
    pub avg_wait_time: Option<u64>,
    /// Average run time, in milliseconds.
    pub avg_run_time: Option<u64>,
}

impl Default for JobStats {
    fn default() -> (s: Self)
        ensures
            s.queued == 0 && s.running == 0 && s.completed == 0 && s.failed == 0 && s.timed_out == 0,
            s.avg_wait_time.is_none() && s.avg_run_time.is_none(),
    {
        JobStats { queued: 0, running: 0, completed: 0, failed: 0, timed_out: 0, avg_wait_time: None, avg_run_time: None }
    }
}

impl JobStats {
    /// The total number of jobs, active and finished.
    pub fn total(&self) -> (n: usize)
        requires
            self.queued + self.running + self.completed + self.failed + self.timed_out <= usize::MAX,
        ensures
            n == self.queued + self.running + self.completed + self.failed + self.timed_out,
    {
        self.queued + self.running + self.completed + self.failed + self.timed_out
    }
}

/// The number of records of `s` with status `st`.
pub open spec fn count_status(s: Seq<JobInfo>, st: JobStatus) -> nat
    decreases s.len(),
{
    if s.len() == 0 {
        0
    } else {
        count_status(s.drop_last(), st) + if s.last().status == st { 1nat } else { 0nat }
    }
}

/// Queued and running records together are all the records of a list of
/// active ones.
proof fn lemma_active_counts(s: Seq<JobInfo>)
    requires
        all_active(s),
    ensures
        count_status(s, JobStatus::Queued) + count_status(s, JobStatus::Running) == s.len(),
    decreases s.len(),
{
    if s.len() > 0 {
        assert(all_active(s.drop_last())) by {
            assert forall|i: int| 0 <= i < s.drop_last().len() implies is_active_status(#[trigger] s.drop_last()[i].status) by {
                assert(s.drop_last()[i] == s[i]);
            }
        }
        lemma_active_counts(s.drop_last());
        assert(is_active_status(s[s.len() - 1].status));
    }
}

/// Completed, failed and timed-out records together are all the records of
/// a list of finished ones.
proof fn lemma_finished_counts(s: Seq<JobInfo>)
    requires
        all_finished(s),
    ensures
        count_status(s, JobStatus::Completed) + count_status(s, JobStatus::Failed)
            + count_status(s, JobStatus::TimedOut) == s.len(),
    decreases s.len(),
{
    if s.len() > 0 {
        assert(all_finished(s.drop_last())) by {
            assert forall|i: int| 0 <= i < s.drop_last().len() implies !is_active_status(#[trigger] s.drop_last()[i].status) by {
                assert(s.drop_last()[i] == s[i]);
            }
        }
        lemma_finished_counts(s.drop_last());
        assert(!is_active_status(s[s.len() - 1].status));
    }
}

/// Whether `after` follows `before` by an operation that keeps the next ID
/// or registers one job without the counter wrapping.
pub open spec fn id_step(before: JobMonitor, after: JobMonitor) -> bool {
    after.next() == before.next() || (before.next() < usize::MAX && after.next() == before.next() + 1)
}

/// Along a run of monitor operations in which the ID counter does not wrap,
/// the next ID never decreases, so each registration (which hands out the
/// next ID and moves past it) gets an ID above every earlier one.
pub proof fn lemma_ids_increase(ms: Seq<JobMonitor>)
    requires
        ms.len() >= 1,
        forall|i: int| 0 <= i < ms.len() - 1 ==> #[trigger] id_step(ms[i], ms[i + 1]),
    ensures
        forall|i: int, j: int| 0 <= i <= j < ms.len() ==> ms[i].next() <= ms[j].next(),
    decreases ms.len(),
{
    if ms.len() > 1 {
        let front = ms.drop_last();
        assert forall|i: int| 0 <= i < front.len() - 1 implies #[trigger] id_step(front[i], front[i + 1]) by {
            assert(id_step(ms[i], ms[i + 1]));
        }
        lemma_ids_increase(front);
        let n = ms.len() - 1;
        let last = n - 1;
        assert(id_step(ms[last], ms[last + 1]));
        assert forall|i: int, j: int| 0 <= i <= j < ms.len() implies ms[i].next() <= ms[j].next() by {
            if j < n {
                assert(front[i] == ms[i] && front[j] == ms[j]);
            } else if i < n {
                assert(front[i] == ms[i] && front[last] == ms[last]);
            }
        }
    }
}

/// The statistics of a monitor count every job once: the queued and running
/// counts add up to the active jobs, the completed, failed and timed-out
/// counts to the jobs in the history, which never exceeds its size limit.
pub proof fn lemma_stats_count_every_job(m: JobMonitor)
    requires
        m.wf(),
    ensures
        count_status(m.active()@, JobStatus::Queued) + count_status(m.active()@, JobStatus::Running)
            == m.active()@.len(),
        count_status(m.history()@, JobStatus::Completed) + count_status(m.history()@, JobStatus::Failed)
            + count_status(m.history()@, JobStatus::TimedOut) == m.history()@.len(),
        m.history()@.len() <= m.settings().max_history_size,
{
    lemma_active_counts(m.active()@);
    lemma_finished_counts(m.history()@);
}

/// The sum and the number of the times that `f` gives for the records of `s`.
pub open spec fn time_totals(s: Seq<JobInfo>, f: spec_fn(JobInfo) -> Option<u64>) -> (nat, nat)
    decreases s.len(),
{
    if s.len() == 0 {
        (0, 0)
    } else {
        let (sum, n) = time_totals(s.drop_last(), f);
        match f(s.last()) {
            Some(t) => ((sum + t) as nat, n + 1),
            None => (sum, n),
        }
    }
}

/// The average of the times that `f` gives for the records of `s`, if any.
pub open spec fn time_average(s: Seq<JobInfo>, f: spec_fn(JobInfo) -> Option<u64>) -> Option<u64> {
    let (sum, n) = time_totals(s, f);
    if n == 0 { None } else { Some((sum / n) as u64) }
}

/// A started record waited from its creation to its start: the wait is the
/// start time minus the creation time; an unstarted record has no wait.
pub proof fn lemma_wait_is_creation_to_start(j: JobInfo)
    ensures
        j.start_time is None ==> wait_of(j) is None,
        j.start_time matches Some(s) ==> (s >= j.creation_time ==> wait_of(j) == Some((s - j.creation_time) as u64)),
        j.start_time matches Some(s) ==> (s < j.creation_time ==> wait_of(j) == Some(0u64)),
{
}

/// The number of started records of `s`.
pub open spec fn started_count(s: Seq<JobInfo>) -> nat
    decreases s.len(),
{
    if s.len() == 0 {
        0
    } else {
        started_count(s.drop_last()) + if s.last().start_time is Some { 1nat } else { 0nat }
    }
}

/// The sum, over the started records of `s`, of start time minus creation
/// time.
pub open spec fn start_delay_sum(s: Seq<JobInfo>) -> int
    decreases s.len(),
{
    if s.len() == 0 {
        0
    } else {
        start_delay_sum(s.drop_last()) + match s.last().start_time {
            Some(t) => t - s.last().creation_time,
            None => 0,
        }
    }
}

/// Whether every started record of `s` started no earlier than it was made.
pub open spec fn started_after_creation(s: Seq<JobInfo>) -> bool {
    forall|i: int| 0 <= i < s.len() ==> (#[trigger] s[i].start_time matches Some(t) ==> t >= s[i].creation_time)
}

/// The average wait of a history is the mean, over its started records, of
/// start time minus creation time, and there is none when no record
/// started.
pub proof fn lemma_average_wait(s: Seq<JobInfo>)
    requires
        started_after_creation(s),
    ensures
        time_totals(s, waited()).0 == start_delay_sum(s),
        time_totals(s, waited()).1 == started_count(s),
        time_average(s, waited()) == if started_count(s) == 0 { None::<u64> } else {
            Some((start_delay_sum(s) / (started_count(s) as int)) as u64)
        },
    decreases s.len(),
{
    if s.len() > 0 {
        let f = s.drop_last();
        assert(started_after_creation(f)) by {
            assert forall|i: int| 0 <= i < f.len() implies (#[trigger] f[i].start_time matches Some(t) ==> t >= f[i].creation_time) by {
                assert(f[i] == s[i]);
            }
        }
        lemma_average_wait(f);
        assert(s.last() == s[s.len() - 1]);
        let j = s.last();
        match j.start_time {
            Some(t) => {
                assert(t >= j.creation_time);
                assert(waited()(j) == Some((t - j.creation_time) as u64));
            },
            None => {
                assert(waited()(j) is None);
            },
        }
    }
}

/// How long a record ran at time `now`.
pub open spec fn run_at(now: u64) -> spec_fn(JobInfo) -> Option<u64> {
    |j: JobInfo| match (j.start_time, j.completion_time) {
        (Some(s), Some(e)) => Some(elapsed(s, e)),
        (Some(s), None) => Some(elapsed(s, now)),
        _ => None,
    }
}

/// How long a record waited.
pub open spec fn waited() -> spec_fn(JobInfo) -> Option<u64> {
    |j: JobInfo| wait_of(j)
}

fn count_with_status(v: &Vec<JobInfo>, st: JobStatus) -> (n: usize)
    ensures
        n == count_status(v@, st),
{
    let mut n: usize = 0;
    let mut i: usize = 0;
    while i < v.len()
        invariant
            i <= v@.len(),
            n == count_status(v@.take(i as int), st),
            n <= i,
        decreases v@.len() - i,
    {
        proof { assert(v@.take(i as int + 1).drop_last() =~= v@.take(i as int)); }
        if v[i].status == st {
            n = n + 1;
        }
        i = i + 1;
    }
    proof { assert(v@.take(v@.len() as int) =~= v@); }
    n
}

/// The average of the wait times (`waits`) or of the run times at `now`.
fn average_time(v: &Vec<JobInfo>, waits: bool, now: u64) -> (a: Option<u64>)
    ensures
        a == time_average(v@, if waits { waited() } else { run_at(now) }),
{
    let ghost f = if waits { waited() } else { run_at(now) };
    let mut sum: u128 = 0;
    let mut n: u64 = 0;
    let mut i: usize = 0;
    while i < v.len()
        invariant
            i <= v@.len(),
            f == (if waits { waited() } else { run_at(now) }),
            (sum as nat, n as nat) == time_totals(v@.take(i as int), f),
            n <= i,
            sum <= n * 0xffff_ffff_ffff_ffffu128,
            i <= usize::MAX,
        decreases v@.len() - i,
    {
        proof { assert(v@.take(i as int + 1).drop_last() =~= v@.take(i as int)); }
        let t = if waits { v[i].wait_time() } else { v[i].running_time_at(now) };
        proof { assert(t == f(v@[i as int])); }
        match t {
            Some(d) => {
                sum = sum + d as u128;
                n = n + 1;
            },
            None => {},
        }
        i = i + 1;
    }
    proof { assert(v@.take(v@.len() as int) =~= v@); }
    if n == 0 {
        None
    } else {
        assert(sum / (n as u128) <= 0xffff_ffff_ffff_ffffu128) by (nonlinear_arith)
            requires
                sum <= n * 0xffff_ffff_ffff_ffffu128,
                n > 0,
        ;
        Some((sum / (n as u128)) as u64)
    }
}

/// Whether `new` is `old` after marking the job `job_id` started at
/// `now` with result `r`: the record, if active, becomes running since
/// `now`; otherwise `r` is the not-found error and nothing changes. The
/// history, settings and next ID stay.
pub open spec fn started_at(old: JobMonitor, new: JobMonitor, job_id: usize, now: u64, r: Result<()>) -> bool {
    &&& new.history() == old.history()
    &&& new.settings() == old.settings()
    &&& new.next() == old.next()
    &&& has_id(old.active()@, job_id) <==> r is Ok
    &&& r matches Err(e) ==> (e matches Error::JobError(m) && m@ == not_found_text(job_id))
    &&& r is Ok ==> exists|i: int| 0 <= i < old.active()@.len()
        && old.active()@[i].id == job_id
        && new.active()@ == old.active()@.update(i, (JobInfo {
            status: JobStatus::Running,
            start_time: Some(now),
            ..old.active()@[i]
        }))
    &&& r is Err ==> new.active() == old.active()
}

/// Whether `new` is `old` after marking the job `job_id` completed at
/// `now` with result `r`: the record, if active, leaves the active list
/// and enters the history as completed at `now`; otherwise `r` is the
/// not-found error and nothing changes. Settings and next ID stay.
pub open spec fn completed_at(old: JobMonitor, new: JobMonitor, job_id: usize, now: u64, r: Result<()>) -> bool {
    &&& new.settings() == old.settings()
    &&& new.next() == old.next()
    &&& has_id(old.active()@, job_id) <==> r is Ok
    &&& r matches Err(e) ==> (e matches Error::JobError(m) && m@ == not_found_text(job_id))
    &&& r is Ok ==> exists|i: int| 0 <= i < old.active()@.len()
        && old.active()@[i].id == job_id
        && new.active()@ == old.active()@.remove(i)
        && new.history()@ == history_after(old.history()@, (JobInfo {
            status: JobStatus::Completed,
            completion_time: Some(now),
            ..old.active()@[i]
        }), old.settings().max_history_size)
    &&& r is Err ==> new.active() == old.active() && new.history() == old.history()
}

/// Whether `new` is `old` after marking the job `job_id` failed with the
/// message `error` at `now` with result `r`: the record, if active, leaves
/// the active list and enters the history as failed at `now` with the
/// message; otherwise `r` is the not-found error and nothing changes.
/// Settings and next ID stay.
pub open spec fn failed_at(old: JobMonitor, new: JobMonitor, job_id: usize, error: Seq<char>, now: u64, r: Result<()>) -> bool {
    &&& new.settings() == old.settings()
    &&& new.next() == old.next()
    &&& has_id(old.active()@, job_id) <==> r is Ok
    &&& r matches Err(e) ==> (e matches Error::JobError(m) && m@ == not_found_text(job_id))
    &&& r is Ok ==> exists|i: int, msg: String| #![trigger old.active()@[i], msg@]
        0 <= i < old.active()@.len()
        && old.active()@[i].id == job_id
        && msg@ == error
        && new.active()@ == old.active()@.remove(i)
        && new.history()@ == history_after(old.history()@, (JobInfo {
            status: JobStatus::Failed,
            completion_time: Some(now),
            error: Some(msg),
            ..old.active()@[i]
        }), old.settings().max_history_size)
    &&& r is Err ==> new.active() == old.active() && new.history() == old.history()
}

/// Whether `new`, with `ids` returned, is what checking the timeouts of
/// `old` at clock time `now` gives: the expired jobs leave the active
/// list, their IDs are returned in order, and they are recorded as timed
/// out in the history.
pub open spec fn timeouts_checked_at(old: JobMonitor, new: JobMonitor, ids: Seq<usize>, now: u64) -> bool {
    &&& new.settings() == old.settings()
    &&& new.next() == old.next()
    &&& new.active()@ == still_active(old.active()@, now)
    &&& ids == expired(old.active()@, now).map_values(|j: JobInfo| j.id)
    &&& exists|added: Seq<JobInfo>| #[trigger] timeouts_recorded(old.active()@, old.history()@,
        new.history()@, added, now, old.settings().max_history_size)
}

impl JobMonitor {
    /// Statistics at time `now`: active jobs by status, finished jobs by
    /// status, and the average wait and run times of the finished jobs.
    pub fn get_stats_at(&self, now: u64) -> (s: JobStats)
        ensures
            s.queued == count_status(self.active()@, JobStatus::Queued),
            s.running == count_status(self.active()@, JobStatus::Running),
            s.completed == count_status(self.history()@, JobStatus::Completed),
            s.failed == count_status(self.history()@, JobStatus::Failed),
            s.timed_out == count_status(self.history()@, JobStatus::TimedOut),
            s.avg_wait_time == time_average(self.history()@, waited()),
            s.avg_run_time == time_average(self.history()@, run_at(now)),
    {
        JobStats {
            queued: count_with_status(&self.active_jobs, JobStatus::Queued),
            running: count_with_status(&self.active_jobs, JobStatus::Running),
            completed: count_with_status(&self.job_history, JobStatus::Completed),
            failed: count_with_status(&self.job_history, JobStatus::Failed),
            timed_out: count_with_status(&self.job_history, JobStatus::TimedOut),
            avg_wait_time: average_time(&self.job_history, true, now),
            avg_run_time: average_time(&self.job_history, false, now),
        }
    }

    /// Statistics now.
    pub fn get_stats(&self) -> (s: JobStats)
        ensures
            s.queued == count_status(self.active()@, JobStatus::Queued),
            s.running == count_status(self.active()@, JobStatus::Running),
            s.completed == count_status(self.history()@, JobStatus::Completed),
            s.failed == count_status(self.history()@, JobStatus::Failed),
            s.timed_out == count_status(self.history()@, JobStatus::TimedOut),
            s.avg_wait_time == time_average(self.history()@, waited()),
            exists|now: u64| s.avg_run_time == time_average(self.history()@, run_at(now)),
    {
        self.get_stats_at(now_millis())
    }
}

/// A job registered with a monitor; running it through `execute_with`
/// records its start and its outcome.
pub struct MonitoredJob<T: Job> {
    job: T,
    job_id: usize,
}

impl<T: Job> MonitoredJob<T> {
    /// The wrapped job.
    pub closed spec fn wrapped(self) -> T {
        self.job
    }

    /// The ID of the job in its monitor.
    pub closed spec fn id(self) -> usize {
        self.job_id
    }

    /// Register `job` with `monitor` with the default timeout.
    pub fn new(job: T, monitor: &mut JobMonitor) -> (m: Self)
        requires
            old(monitor).wf(),
        ensures
            final(monitor).wf(),
            m.wrapped() == job,
            m.id() == old(monitor).next(),
            has_id(final(monitor).active()@, m.id()),
            final(monitor).history() == old(monitor).history(),
    {
        let job_id = monitor.register_record(&job, monitor.config.default_timeout);
        MonitoredJob { job, job_id }
    }

    /// Register `job` with `monitor` with a custom timeout.
    pub fn with_timeout(job: T, monitor: &mut JobMonitor, timeout: u64) -> (m: Self)
        requires
            old(monitor).wf(),
        ensures
            final(monitor).wf(),
            m.wrapped() == job,
            m.id() == old(monitor).next(),
            has_id(final(monitor).active()@, m.id()),
            final(monitor).history() == old(monitor).history(),
    {
        let job_id = monitor.register_job_with_timeout(&job, timeout);
        MonitoredJob { job, job_id }
    }

    /// The ID of the job in its monitor.
    pub fn job_id(&self) -> (id: usize)
        ensures
            id == self.id(),
    {
        self.job_id
    }

    /// Run the job, marking it started, then completed or failed with the
    /// error's message, in `monitor`. Returns the job's own result.
    pub fn execute_with(&mut self, monitor: &mut JobMonitor) -> (r: Result<()>)
        requires
            old(monitor).wf(),
        ensures
            final(monitor).wf(),
            final(monitor).next() == old(monitor).next(),
            !has_id(final(monitor).active()@, old(self).id()),
            final(self).id() == old(self).id(),
            old(self).wrapped().can_give(r),
    {
        let _ = monitor.mark_started(self.job_id);
        let res = self.job.execute();
        match &res {
            Ok(()) => {
                let _ = monitor.mark_completed(self.job_id);
            },
            Err(e) => {
                let msg = e.to_string();
                let _ = monitor.mark_failed(self.job_id, msg.as_str());
            },
        }
        res
    }
}

/// Copies of a list of records.
fn copy_records(v: &Vec<JobInfo>) -> (c: Vec<JobInfo>)
    ensures
        c@ == v@,
{
    let mut c: Vec<JobInfo> = Vec::new();
    let mut i: usize = 0;
    while i < v.len()
        invariant
            i <= v@.len(),
            c@ == v@.subrange(0, i as int),
        decreases v@.len() - i,
    {
        c.push(v[i].clone());
        proof { assert(c@ =~= v@.subrange(0, i as int + 1)); }
        i = i + 1;
    }
    proof { assert(v@.subrange(0, v@.len() as int) =~= v@); }
    c
}

} // verus!
