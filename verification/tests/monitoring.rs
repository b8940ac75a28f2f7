use rust_thread_system::logger::log_timestamp_of;
use rust_thread_system::error::Error;
use rust_thread_system::job::{CallbackJob, Job};
use rust_thread_system::job_monitor::{JobMonitor, JobMonitorConfig, JobStatus, MonitoredJob};
use rust_thread_system::job_pool_stats::{JobPoolStats, JobPoolStatsSnapshot, PriorityCounts};
use rust_thread_system::logger::{
    accepts, backup_file_name, log_file_name, rotation_for, route, LogEntry, LogLevel, Logger,
    LoggerConfig, Rotation,
};
use rust_thread_system::priority_thread_pool::JobPriority;

#[test]
fn test_job_monitor_basic() {
    let mut monitor = JobMonitor::default();
    let job = CallbackJob::new(|| Ok(()), "test job");

    let job_id = monitor.register_job(&job);

    // Check initial state
    let job_info = monitor.get_job_info(job_id).unwrap();
    assert_eq!(job_info.status, JobStatus::Queued);
    assert_eq!(job_info.description, "test job");

    // Mark as started
    monitor.mark_started(job_id).unwrap();
    let job_info = monitor.get_job_info(job_id).unwrap();
    assert_eq!(job_info.status, JobStatus::Running);
    assert!(job_info.start_time.is_some());

    // Mark as completed
    monitor.mark_completed(job_id).unwrap();
    assert!(monitor.get_job_info(job_id).is_none());

    let history = monitor.get_job_history();
    assert_eq!(history.len(), 1);
    assert_eq!(history[0].status, JobStatus::Completed);
}

#[test]
fn test_monitored_job() {
    let mut monitor = JobMonitor::default();

    // Create a successful job
    let job = CallbackJob::new(|| Ok(()), "success job");
    let mut monitored_job = MonitoredJob::new(job, &mut monitor);

    // Execute the job
    assert!(monitored_job.execute_with(&mut monitor).is_ok());

    // Check the history
    let history = monitor.get_job_history();
    assert_eq!(history.len(), 1);
    assert_eq!(history[0].status, JobStatus::Completed);

    // Create a failing job
    let job = CallbackJob::new(|| Err(Error::job_error("test error")), "failing job");
    let mut monitored_job = MonitoredJob::new(job, &mut monitor);

    // Execute the job
    assert!(monitored_job.execute_with(&mut monitor).is_err());

    // Check the history
    let history = monitor.get_job_history();
    assert_eq!(history.len(), 2);
    assert_eq!(history[1].status, JobStatus::Failed);
    assert!(history[1].error.as_ref().unwrap().contains("test error"));
}

#[test]
fn job_monitor_times_out_overdue_jobs() {
    let config = JobMonitorConfig { default_timeout: 100, ..Default::default() };
    let mut monitor = JobMonitor::new(config);
    let job = CallbackJob::new(|| Ok(()), "test job");

    let job_id = monitor.register_job(&job);
    monitor.mark_started_at(job_id, 1_000).unwrap();

    assert!(monitor.check_timeouts_at(1_100).is_empty());
    let timed_out = monitor.check_timeouts_at(1_150);
    assert_eq!(timed_out, vec![job_id]);

    assert!(monitor.get_job_info(job_id).is_none());
    let history = monitor.get_job_history();
    assert_eq!(history.len(), 1);
    assert_eq!(history[0].status, JobStatus::TimedOut);
}

#[test]
fn job_monitor_rejects_unknown_ids() {
    let mut monitor = JobMonitor::default();
    assert!(monitor.mark_started_at(42, 0).is_err());
    assert!(monitor.mark_completed_at(42, 0).is_err());
    assert!(monitor.mark_failed_at(42, "x", 0).is_err());
}

#[test]
fn job_monitor_history_is_bounded() {
    let config = JobMonitorConfig { max_history_size: 2, ..Default::default() };
    let mut monitor = JobMonitor::new(config);
    let job = CallbackJob::new(|| Ok(()), "job");
    for _ in 0..5 {
        let id = monitor.register_job(&job);
        monitor.mark_completed_at(id, 10).unwrap();
    }
    assert_eq!(monitor.get_job_history().len(), 2);
    monitor.clear_history();
    assert!(monitor.get_job_history().is_empty());
}

#[test]
fn job_monitor_statistics() {
    let mut monitor = JobMonitor::default();
    let job = CallbackJob::new(|| Ok(()), "job");
    let a = monitor.register_job(&job);
    let b = monitor.register_job(&job);
    let _c = monitor.register_job(&job);
    monitor.mark_started_at(a, 100).unwrap();
    monitor.mark_completed_at(a, 300).unwrap();
    monitor.mark_started_at(b, 100).unwrap();
    monitor.mark_failed_at(b, "bad", 500).unwrap();
    let stats = monitor.get_stats_at(1_000);
    assert_eq!(stats.queued, 1);
    assert_eq!(stats.running, 0);
    assert_eq!(stats.completed, 1);
    assert_eq!(stats.failed, 1);
    assert_eq!(stats.timed_out, 0);
    assert_eq!(stats.avg_run_time, Some(300));
    assert_eq!(stats.total(), 3);
}

#[test]
fn test_register_job_submission() {
    let mut stats = JobPoolStats::new();

    stats.register_job_submission();
    assert_eq!(stats.jobs_submitted(), 1);
    assert_eq!(stats.jobs_queued(), 1);

    stats.register_job_submissions(5);
    assert_eq!(stats.jobs_submitted(), 6);
    assert_eq!(stats.jobs_queued(), 6);
}

#[test]
fn test_reset_stats() {
    let mut stats = JobPoolStats::new();

    // Add some data
    stats.register_job_submissions(5);
    stats.register_job_completed(true, 100_000, Some(JobPriority::High));
    stats.register_job_completed(false, 200_000, Some(JobPriority::Low));

    // Reset stats
    stats.reset();

    // Verify everything is reset
    assert_eq!(stats.jobs_submitted(), 0);
    assert_eq!(stats.jobs_succeeded(), 0);
    assert_eq!(stats.jobs_failed(), 0);
    assert_eq!(stats.jobs_queued(), 0);
    assert_eq!(stats.average_execution_time(), None);
    assert_eq!(stats.min_execution_time(), None);
    assert_eq!(stats.max_execution_time(), None);
    assert!(stats.jobs_by_priority().is_empty());
}

#[test]
fn pool_stats_track_completions() {
    let mut stats = JobPoolStats::new();
    stats.register_job_submissions(10);
    for i in 0..7u64 {
        stats.register_job_completed(true, (100 + i * 50) * 1_000, Some(JobPriority::Normal));
    }
    for i in 0..2u64 {
        stats.register_job_completed(false, (200 + i * 50) * 1_000, Some(JobPriority::High));
    }

    assert_eq!(stats.jobs_succeeded(), 7);
    assert_eq!(stats.jobs_failed(), 2);
    assert_eq!(stats.jobs_queued(), 1);
    assert_eq!(stats.min_execution_time(), Some(100_000));
    assert_eq!(stats.max_execution_time(), Some(400_000));
    let by_priority = stats.jobs_by_priority();
    assert_eq!(by_priority.get(&JobPriority::Normal), Some(&7));
    assert_eq!(by_priority.get(&JobPriority::High), Some(&2));
    assert!(!by_priority.contains_key(&JobPriority::Low));
    // 1750ms over the 7 successes plus 200ms and 250ms: 2200ms over 9 jobs.
    assert_eq!(stats.average_execution_time(), Some(2_200_000 / 9));
}

#[test]
fn pool_stats_snapshot_and_uptime() {
    let mut stats = JobPoolStats::new_at(1_000);
    stats.register_job_submissions(3);
    stats.register_job_completed(true, 50, None);
    let snapshot = JobPoolStatsSnapshot::from_stats_at(&stats, 1_500);
    assert_eq!(snapshot.jobs_submitted, 3);
    assert_eq!(snapshot.jobs_succeeded, 1);
    assert_eq!(snapshot.jobs_queued, 2);
    assert_eq!(snapshot.min_execution_time, Some(50));
    assert_eq!(snapshot.uptime, 500);
    assert!(snapshot.jobs_by_priority.is_empty());
    assert_eq!(stats.uptime_at(500), 0);

    stats.register_job_submissions(10);
    assert_eq!(snapshot.jobs_submitted, 3);
}

#[test]
fn pool_stats_queued_wraps_like_an_atomic() {
    let mut stats = JobPoolStats::new();
    stats.register_job_completed(true, 1, None);
    assert_eq!(stats.jobs_queued(), usize::MAX);
}

#[test]
fn priority_counts_start_empty() {
    let counts = PriorityCounts::new();
    assert!(counts.is_empty());
    assert_eq!(counts.get(&JobPriority::Highest), None);
}

#[test]
fn test_logger_config() {
    let config = LoggerConfig::default();
    assert_eq!(config.app_name, "application");
    assert!(config.console_level.is_some());
}

#[test]
fn test_log_entry() {
    let entry = LogEntry::new("Test message", LogLevel::Info);
    assert_eq!(entry.message(), "Test message");
    assert_eq!(entry.level(), LogLevel::Info);

    let formatted = entry.format();
    assert!(formatted.contains("Test message"));
    assert!(formatted.contains("INFO"));
}

#[test]
fn log_entry_line_layout() {
    let entry = LogEntry::with_timestamp("disk full", LogLevel::Error, "2024-01-02 03:04:05.000006");
    assert_eq!(entry.format(), "[2024-01-02 03:04:05.000006][ERROR] disk full");
}

#[test]
fn log_levels_filter_by_severity() {
    assert!(accepts(Some(LogLevel::Info), LogLevel::Error));
    assert!(accepts(Some(LogLevel::Info), LogLevel::Info));
    assert!(!accepts(Some(LogLevel::Info), LogLevel::Debug));
    assert!(!accepts(None, LogLevel::Error));

    let config = LoggerConfig::default();
    let r = route(&config, LogLevel::Warn, true);
    assert!(r.console && r.file && !r.callback);
    let r = route(&config, LogLevel::Trace, true);
    assert!(!r.console && !r.file && !r.callback);
}

#[test]
fn log_rotation_decisions() {
    assert_eq!(rotation_for(90, 10, 100, true), Rotation::Keep);
    assert_eq!(rotation_for(91, 10, 100, true), Rotation::Backup);
    assert_eq!(rotation_for(91, 10, 100, false), Rotation::Remove);
    assert_eq!(log_file_name("app"), "app.log");
    assert_eq!(backup_file_name("app"), "app.log.bak");
}

#[test]
fn logger_state_transitions() {
    let mut logger = Logger::new();
    assert!(!logger.is_running());
    match logger.info("early") {
        Err(Error::LoggerError(m)) => assert_eq!(m, "Logger is not running"),
        _ => panic!("a stopped logger refuses entries"),
    }
    assert!(logger.start().is_ok());
    match logger.start() {
        Err(Error::LoggerError(m)) => assert_eq!(m, "Logger is already running"),
        _ => panic!("a running logger cannot start again"),
    }
    let entry = logger.warn("careful").unwrap();
    assert_eq!(entry.message(), "careful");
    assert_eq!(entry.level(), LogLevel::Warn);
    logger.stop();
    assert!(!logger.is_running());
    let config = LoggerConfig { app_name: "test_app".to_string(), ..Default::default() };
    logger.configure(config);
    assert_eq!(logger.config().app_name, "test_app");
}

#[test]
fn monitored_job_wrapped_job_is_a_job() {
    let job = CallbackJob::new(|| Ok(()), "described");
    assert_eq!(job.description(), "described");
}

/// Succeeded jobs over submitted ones, 0 when none was submitted.
fn completion_rate(submitted: usize, succeeded: usize) -> f64 {
    if submitted == 0 {
        0.0
    } else {
        succeeded as f64 / submitted as f64
    }
}

#[test]
fn test_new_stats_empty() {
    let stats = JobPoolStats::new();

    assert_eq!(stats.jobs_submitted(), 0);
    assert_eq!(stats.jobs_succeeded(), 0);
    assert_eq!(stats.jobs_failed(), 0);
    assert_eq!(stats.jobs_queued(), 0);
    assert_eq!(stats.average_execution_time(), None);
    assert_eq!(stats.min_execution_time(), None);
    assert_eq!(stats.max_execution_time(), None);
    assert!(stats.jobs_by_priority().is_empty());
    assert_eq!(completion_rate(stats.jobs_submitted(), stats.jobs_succeeded()), 0.0);
}

#[test]
fn test_register_job_completed() {
    let mut stats = JobPoolStats::new();

    // Register submissions
    stats.register_job_submissions(10);

    // Register 7 successful completions (times in microseconds)
    for i in 0..7u64 {
        stats.register_job_completed(true, (100 + i * 50) * 1_000, Some(JobPriority::Normal));
    }

    // Register 2 failures
    for i in 0..2u64 {
        stats.register_job_completed(false, (200 + i * 50) * 1_000, Some(JobPriority::High));
    }

    assert_eq!(stats.jobs_succeeded(), 7);
    assert_eq!(stats.jobs_failed(), 2);
    assert_eq!(stats.jobs_queued(), 1); // 10 submitted - 9 completed

    assert!(stats.average_execution_time().is_some());
    assert!(stats.min_execution_time().is_some());
    assert!(stats.max_execution_time().is_some());

    assert_eq!(stats.min_execution_time(), Some(100_000));
    assert_eq!(stats.max_execution_time(), Some(400_000));

    let by_priority = stats.jobs_by_priority();
    assert_eq!(by_priority.get(&JobPriority::Normal), Some(&7));
    assert_eq!(by_priority.get(&JobPriority::High), Some(&2));

    assert_eq!(completion_rate(stats.jobs_submitted(), stats.jobs_succeeded()), 0.7); // 7 out of 10
}

#[test]
fn test_stats_snapshot() {
    let mut stats = JobPoolStats::new();

    stats.register_job_submissions(100);
    for i in 0..80u64 {
        let succeeded = i % 4 != 0; // 75% success rate
        stats.register_job_completed(succeeded, (i + 50) * 1_000, Some(JobPriority::Normal));
    }

    let snapshot = JobPoolStatsSnapshot::from_stats(&stats);

    assert_eq!(snapshot.jobs_submitted, 100);
    assert_eq!(snapshot.jobs_succeeded, 60);
    assert_eq!(snapshot.jobs_failed, 20);
    assert_eq!(snapshot.jobs_queued, 20);
    assert!(snapshot.average_execution_time.is_some());
    assert!(snapshot.min_execution_time.is_some());
    assert!(snapshot.max_execution_time.is_some());
    assert_eq!(snapshot.min_execution_time, Some(50_000));
    assert_eq!(snapshot.max_execution_time, Some(129_000));
    assert_eq!(completion_rate(snapshot.jobs_submitted, snapshot.jobs_succeeded), 0.6); // 60 / 100

    // Now modify the stats the snapshot was taken from
    stats.register_job_submissions(50);

    // Snapshot should be unchanged
    assert_eq!(snapshot.jobs_submitted, 100);
    assert_eq!(snapshot.jobs_queued, 20);
}

#[test]
fn log_timestamps_of_clock_readings() {
    assert_eq!(log_timestamp_of(Some((0, 6_000))), "1970-01-01 00:00:00.000006");
    assert_eq!(log_timestamp_of(Some((86_461, 0))), "1970-01-02 00:01:01.000000");
    assert_eq!(log_timestamp_of(None), "");
}
