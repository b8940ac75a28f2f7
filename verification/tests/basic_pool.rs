use rust_thread_system::error::Error;
use rust_thread_system::job::{CallbackJob, Job, JobBatch, JobQueue};
use rust_thread_system::thread_pool::{MonitorStep, ThreadPool};

fn job(name: &str) -> impl Job + 'static {
    CallbackJob::new(|| Ok(()), name)
}

#[test]
fn thread_pool_test_thread_pool_creation() {
    let pool = ThreadPool::new("test_pool");
    assert_eq!(pool.worker_count(), 0);
    assert!(!pool.is_running());

    let pool = ThreadPool::with_workers(4);
    assert_eq!(pool.worker_count(), 4);
}

#[test]
fn test_thread_pool_start_stop() {
    let mut pool = ThreadPool::with_workers(2);

    assert!(!pool.is_running());
    assert!(pool.start().is_ok());
    assert!(pool.is_running());

    // Starting again should fail
    assert!(pool.start().is_err());

    pool.stop(true);
    assert!(!pool.is_running());
}

#[test]
fn test_thread_pool_display() {
    let pool = ThreadPool::new("test_pool");
    assert!(pool.to_string().contains("test_pool"));
    assert!(pool.to_string().contains("running: no"));
}

#[test]
fn basic_pool_display_in_full() {
    let mut pool = ThreadPool::with_auto_shutdown(3);
    assert_eq!(pool.to_string(), "ThreadPool 'thread_pool' (running: no, workers: 3, auto-shutdown: enabled)");
    pool.disable_auto_shutdown();
    pool.start().unwrap();
    assert_eq!(pool.to_string(), "ThreadPool 'thread_pool' (running: yes, workers: 3, auto-shutdown: disabled)");
}

#[test]
fn basic_pool_refuses_jobs_when_stopped() {
    let mut pool = ThreadPool::new("p");
    match pool.submit(job("a")) {
        Err(Error::ThreadPoolError(m)) => assert_eq!(m, "Thread pool 'p' is not running"),
        _ => panic!("expected a thread pool error"),
    }
    match pool.submit_batch(JobBatch::new("b")) {
        Err(Error::ThreadPoolError(m)) => assert_eq!(m, "Thread pool 'p' is not running"),
        _ => panic!("expected a thread pool error"),
    }
    match pool.start().and_then(|_| pool.start()) {
        Err(Error::ThreadPoolError(m)) => assert_eq!(m, "Thread pool 'p' is already running"),
        _ => panic!("expected a thread pool error"),
    }
}

#[test]
fn basic_pool_hands_out_jobs_in_order() {
    let mut pool = ThreadPool::with_workers(1);
    pool.start().unwrap();
    pool.submit(job("first")).unwrap();
    let mut batch = JobBatch::new("batch");
    batch.add(job("second"));
    batch.add(job("third"));
    pool.submit_batch(batch).unwrap();
    assert_eq!(pool.job_queue().len(), 3);
    let order: Vec<String> = (0..3).map(|_| pool.next_job().unwrap().description()).collect();
    assert_eq!(order, vec!["first".to_string(), "second".to_string(), "third".to_string()]);
    assert!(pool.next_job().is_none());
    pool.stop(false);
    assert!(pool.next_job().is_none());
}

#[test]
fn basic_pool_shuts_down_after_three_idle_checks() {
    let mut pool = ThreadPool::with_auto_shutdown(1);
    assert_eq!(pool.auto_shutdown_tick(0), MonitorStep::Finished); // not running yet
    pool.start().unwrap();
    pool.submit(job("j")).unwrap();
    assert_eq!(pool.auto_shutdown_tick(2), MonitorStep::Continue(0)); // queue busy
    assert!(pool.next_job().is_some());
    assert_eq!(pool.auto_shutdown_tick(0), MonitorStep::Continue(1));
    assert_eq!(pool.auto_shutdown_tick(1), MonitorStep::Continue(2));
    assert!(pool.is_running());
    assert_eq!(pool.auto_shutdown_tick(2), MonitorStep::Finished);
    assert!(!pool.is_running());
}

#[test]
fn basic_pool_monitor_waits_while_disabled() {
    let mut pool = ThreadPool::new("p");
    pool.start().unwrap();
    assert_eq!(pool.auto_shutdown_tick(2), MonitorStep::Continue(2));
    assert!(pool.is_running());
    pool.set_check_interval(5);
    assert_eq!(pool.check_interval(), 5);
}
