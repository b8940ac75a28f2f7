use rust_thread_system::error::Error;
use rust_thread_system::job::{CallbackJob, Job, JobQueue};
use rust_thread_system::priority_thread_pool::{JobPriority, PriorityJob, PriorityJobQueue, PriorityThreadPool};

fn job(name: &str) -> impl Job + 'static {
    CallbackJob::new(|| Ok(()), name)
}

#[test]
fn priority_queue_serves_most_urgent_first() {
    let mut queue = PriorityJobQueue::new();
    queue.enqueue_with_priority(job("a"), JobPriority::Low).unwrap();
    queue.enqueue_with_priority(job("b"), JobPriority::High).unwrap();
    queue.enqueue_with_priority(job("c"), JobPriority::Normal).unwrap();
    queue.enqueue_with_priority(job("d"), JobPriority::High).unwrap();
    assert_eq!(queue.len(), 4);
    let order: Vec<String> = (0..4).map(|_| queue.dequeue().unwrap().description()).collect();
    assert_eq!(
        order,
        vec![
            "PriorityJob[High]: b".to_string(),
            "PriorityJob[High]: d".to_string(),
            "PriorityJob[Normal]: c".to_string(),
            "PriorityJob[Low]: a".to_string(),
        ]
    );
    assert!(queue.dequeue().is_none());
    assert!(queue.is_empty());
}

#[test]
fn priority_queue_serves_backlog_after_buffer() {
    let mut queue = PriorityJobQueue::new();
    queue.enqueue(Box::new(job("plain"))).unwrap();
    queue.enqueue_with_priority(job("low"), JobPriority::Lowest).unwrap();
    assert_eq!(queue.len(), 2);
    assert_eq!(queue.dequeue().unwrap().description(), "PriorityJob[Lowest]: low");
    assert_eq!(queue.dequeue().unwrap().description(), "PriorityJob[Normal]: plain");
    assert!(queue.is_empty());
}

#[test]
fn priority_queue_clear() {
    let mut queue = PriorityJobQueue::default();
    queue.enqueue(Box::new(job("x"))).unwrap();
    queue.enqueue_with_priority(job("y"), JobPriority::High).unwrap();
    queue.clear();
    assert_eq!(queue.len(), 0);
    assert!(queue.dequeue().is_none());
}

#[test]
fn priority_pool_refuses_work_when_stopped() {
    let mut pool = PriorityThreadPool::new("p");
    match pool.submit(job("j")) {
        Err(Error::ThreadPoolError(m)) => assert_eq!(m, "Priority thread pool 'p' is not running"),
        _ => panic!("expected a thread pool error"),
    }
    assert!(pool.next_job().is_none());
    assert!(pool.job_queue().is_empty());
}

#[test]
fn priority_pool_start_twice() {
    let mut pool = PriorityThreadPool::new("p");
    assert!(pool.start().is_ok());
    assert!(pool.is_running());
    match pool.start() {
        Err(Error::ThreadPoolError(m)) => assert_eq!(m, "Priority thread pool 'p' is already running"),
        _ => panic!("expected a thread pool error"),
    }
}

#[test]
fn priority_pool_hands_out_jobs_by_priority() {
    let mut pool = PriorityThreadPool::with_workers(2);
    assert_eq!(pool.worker_count(), 2);
    assert_eq!(pool.to_string(), "PriorityThreadPool 'priority_thread_pool' (running: no, workers: 2)");
    pool.start().unwrap();
    pool.submit(job("normal")).unwrap();
    pool.submit_with_priority(job("urgent"), JobPriority::Highest).unwrap();
    assert_eq!(pool.next_job().unwrap().description(), "PriorityJob[Highest]: urgent");
    assert_eq!(pool.next_job().unwrap().description(), "PriorityJob[Normal]: normal");
    assert!(pool.next_job().is_none());
    pool.stop(true);
    assert!(!pool.is_running());
    assert_eq!(pool.to_string(), "PriorityThreadPool 'priority_thread_pool' (running: no, workers: 2)");
}

#[test]
fn priority_pool_workers_follow_the_pool() {
    let mut pool = PriorityThreadPool::new("q");
    pool.set_check_interval(10);
    pool.start().unwrap();
    pool.add_workers(1).unwrap();
    assert_eq!(pool.worker_count(), 1);
    assert_eq!(pool.to_string(), "PriorityThreadPool 'q' (running: yes, workers: 1)");
}

#[test]
fn priority_job_runs_and_dates_as_the_inner_job() {
    let mut ok = PriorityJob::new(CallbackJob::new_at(|| Ok(()), "fine", 42), JobPriority::High);
    assert_eq!(ok.creation_time(), 42);
    assert!(ok.execute().is_ok());
    let mut failing = PriorityJob::new(
        CallbackJob::new_at(|| Err(Error::job_error("boom")), "broken", 7),
        JobPriority::Low,
    );
    assert_eq!(failing.creation_time(), 7);
    assert!(matches!(failing.execute(), Err(Error::JobError(m)) if m == "boom"));
}
