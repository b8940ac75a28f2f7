use rust_thread_system::metrics::timestamp_of;
use rust_thread_system::metrics::ThreadPoolMetrics;
use rust_thread_system::priority_thread_pool::JobPriority;

#[test]
fn metrics_start_at_zero() {
    let m = ThreadPoolMetrics::new();
    let s = m.snapshot();
    assert_eq!(s.jobs_submitted, 0);
    assert_eq!(s.jobs_completed, 0);
    assert_eq!(s.active_jobs, 0);
    assert!(s.queue_lengths.is_empty());
    assert!(s.avg_execution_time_ms.is_empty());
    assert_eq!(m.get_queue_length(JobPriority::High), 0);
    assert_eq!(m.get_total_queue_length(), 0);
}

#[test]
fn metrics_count_submissions_by_priority() {
    let mut m = ThreadPoolMetrics::new();
    m.record_job_submitted(JobPriority::High);
    m.record_job_submitted(JobPriority::Low);
    m.record_job_submitted(JobPriority::High);
    assert_eq!(m.get_queue_length(JobPriority::High), 2);
    assert_eq!(m.get_queue_length(JobPriority::Low), 1);
    assert_eq!(m.get_queue_length(JobPriority::Normal), 0);
    assert_eq!(m.get_total_queue_length(), 3);
    let s = m.snapshot();
    assert_eq!(s.jobs_submitted, 3);
    assert_eq!(s.queue_lengths, vec![(JobPriority::Low, 1), (JobPriority::High, 2)]);
}

#[test]
fn metrics_submit_start_complete() {
    let mut m = ThreadPoolMetrics::new();
    m.record_job_submitted(JobPriority::Normal);
    m.record_job_started_at(7, JobPriority::Normal, 1_000);
    assert_eq!(m.get_queue_length(JobPriority::Normal), 0);
    assert_eq!(m.snapshot().active_jobs, 1);
    m.record_job_completed_at(&7, JobPriority::Normal, 1_250);
    let s = m.snapshot();
    assert_eq!(s.jobs_completed, 1);
    assert_eq!(s.active_jobs, 0);
    assert_eq!(s.total_execution_time_ms, 250);
    assert_eq!(s.avg_execution_time_ms, vec![(JobPriority::Normal, 250)]);
    // The waiting count stays recorded at zero.
    assert_eq!(s.queue_lengths, vec![(JobPriority::Normal, 0)]);
}

#[test]
fn metrics_completion_without_start_adds_no_time() {
    let mut m = ThreadPoolMetrics::new();
    m.record_job_started_at(1, JobPriority::High, 10);
    m.record_job_completed_at(&2, JobPriority::High, 50);
    let s = m.snapshot();
    assert_eq!(s.jobs_completed, 1);
    assert_eq!(s.total_execution_time_ms, 0);
    assert!(s.avg_execution_time_ms.is_empty());
    assert_eq!(s.active_jobs, 0);
}

#[test]
fn metrics_start_without_submission_leaves_queue_absent() {
    let mut m = ThreadPoolMetrics::new();
    m.record_job_started_at(3, JobPriority::Lowest, 0);
    assert!(m.snapshot().queue_lengths.is_empty());
    assert_eq!(m.get_queue_length(JobPriority::Lowest), 0);
}

#[test]
fn metrics_failed_and_cancelled() {
    let mut m = ThreadPoolMetrics::new();
    m.record_job_started_at(1, JobPriority::Normal, 0);
    m.record_job_started_at(2, JobPriority::Normal, 0);
    m.record_job_failed(&1);
    m.record_job_cancelled(&2);
    let s = m.snapshot();
    assert_eq!(s.jobs_failed, 1);
    assert_eq!(s.jobs_cancelled, 1);
    assert_eq!(s.active_jobs, 0);
    // A later completion of job 1 finds no start time.
    m.record_job_completed_at(&1, JobPriority::Normal, 100);
    assert_eq!(m.snapshot().total_execution_time_ms, 0);
}

#[test]
fn metrics_finish_without_start_wraps_active_count() {
    let mut m = ThreadPoolMetrics::new();
    m.record_job_failed(&9);
    assert_eq!(m.snapshot().active_jobs, usize::MAX);
}

#[test]
fn metrics_clock_going_back_counts_zero() {
    let mut m = ThreadPoolMetrics::new();
    m.record_job_started_at(4, JobPriority::High, 500);
    m.record_job_completed_at(&4, JobPriority::High, 100);
    assert_eq!(m.snapshot().avg_execution_time_ms, vec![(JobPriority::High, 0)]);
}

#[test]
fn metrics_reset_clears_everything() {
    let mut m = ThreadPoolMetrics::new();
    m.record_job_submitted(JobPriority::Highest);
    m.record_job_started_at(5, JobPriority::Highest, 1);
    m.record_job_completed_at(&5, JobPriority::Highest, 3);
    m.reset();
    let s = m.snapshot();
    assert_eq!(s.jobs_submitted, 0);
    assert_eq!(s.jobs_completed, 0);
    assert_eq!(s.total_execution_time_ms, 0);
    assert!(s.queue_lengths.is_empty());
    assert!(s.avg_execution_time_ms.is_empty());
}

#[test]
fn metrics_with_clock() {
    let mut m = ThreadPoolMetrics::default();
    m.record_job_started(11, JobPriority::Low);
    m.record_job_completed(&11, JobPriority::Low);
    let s = m.snapshot();
    assert_eq!(s.jobs_completed, 1);
    assert_eq!(s.avg_execution_time_ms.len(), 1);
    assert!(!s.timestamp.is_empty());
}

#[test]
fn timestamps_of_clock_readings() {
    assert_eq!(timestamp_of(Some((0, 0))), "1970-01-01T00:00:00+00:00");
    assert_eq!(timestamp_of(Some((86_400, 500_000_000))), "1970-01-02T00:00:00.500+00:00");
    assert_eq!(timestamp_of(None), "");
    assert_eq!(timestamp_of(Some((u64::MAX, 0))), "");
}
