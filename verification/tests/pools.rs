use rust_thread_system::core_types::{ClosureJob, Job as CoreJob};
use rust_thread_system::error::Error;
use rust_thread_system::job::{CallbackJob, Job, JobBatch};
use rust_thread_system::job_persistence::{
    backup_file_name, backup_needed_at, batch_id, file_extension, is_persistence_file,
    job_file_name, newest_index, underscore_spaces, JobDeserializer, PersistableCallbackJob,
    PersistableCallbackJobDeserializer, PersistableJob, PersistenceError, SerializableJob,
};
use rust_thread_system::pauseable_thread_pool::PauseableThreadPool;
use rust_thread_system::pool::thread_pool::ThreadPoolConfig;
use rust_thread_system::priority_thread_pool::{JobPriority, PriorityJob};
use rust_thread_system::queue::{BackpressureStrategy, QueueSelection};
use rust_thread_system::thread_base::{after_failure, BasicThreadWorker, ThreadCondition, ThreadWorker};
use rust_thread_system::tracing::TracedJob;

#[test]
fn test_poll_interval_default() {
    let config = ThreadPoolConfig::default();
    assert_eq!(config.poll_interval, 100);
}

#[test]
fn test_backpressure_block_default() {
    // Default strategy is Block
    let config = ThreadPoolConfig::new(2).with_max_queue_size(10);
    assert!(matches!(config.backpressure_strategy, BackpressureStrategy::Block));
}

#[test]
fn test_backpressure_config_convenience_methods() {
    // Test reject_when_full
    let config = ThreadPoolConfig::new(2).reject_when_full();
    assert!(matches!(config.backpressure_strategy, BackpressureStrategy::RejectImmediately));

    // Test block_with_timeout
    let timeout = 5000;
    let config = ThreadPoolConfig::new(2).block_with_timeout(timeout);
    match config.backpressure_strategy {
        BackpressureStrategy::BlockWithTimeout(t) => {
            assert_eq!(t, timeout);
        }
        _ => panic!("Expected BlockWithTimeout"),
    }

    // Test with_backpressure_strategy
    let config = ThreadPoolConfig::new(2).with_backpressure_strategy(BackpressureStrategy::DropNewest);
    assert!(matches!(config.backpressure_strategy, BackpressureStrategy::DropNewest));
}

#[test]
fn pool_config_choices() {
    let config = ThreadPoolConfig::new(0);
    assert!(config.num_threads >= 1);
    assert!(config.validate().is_ok());
    assert_eq!(ThreadPoolConfig::new(3).with_max_queue_size(0).queue_selection(), QueueSelection::Unbounded);
    assert_eq!(ThreadPoolConfig::new(3).with_max_queue_size(8).queue_selection(), QueueSelection::Bounded(8));
    assert_eq!(ThreadPoolConfig::new(3).enable_priority(true).queue_selection(), QueueSelection::Priority);
    let named = ThreadPoolConfig::new(3).with_thread_name_prefix("io");
    assert_eq!(named.thread_name_prefix, "io");
    assert_eq!(ThreadPoolConfig::new(3).with_poll_interval(7).poll_interval, 7);
}

#[test]
fn test_pauseable_thread_pool_creation() {
    let pool = PauseableThreadPool::new("test_pool");
    assert_eq!(pool.worker_count(), 0);
    assert!(!pool.is_running());
    assert!(!pool.is_paused());

    let pool = PauseableThreadPool::with_workers(4);
    assert_eq!(pool.worker_count(), 4);
}

#[test]
fn test_pauseable_thread_pool_start_stop() {
    let mut pool = PauseableThreadPool::with_workers(2);

    assert!(!pool.is_running());
    assert!(pool.start().is_ok());
    assert!(pool.is_running());

    // Starting again should fail
    assert!(pool.start().is_err());

    pool.stop(true);
    assert!(!pool.is_running());
}

#[test]
fn test_pauseable_thread_pool_pause_resume() {
    let mut pool = PauseableThreadPool::with_workers(2);
    assert!(pool.start().is_ok());

    // Initially not paused
    assert!(!pool.is_paused());

    // Pause the pool
    assert!(pool.pause().is_ok());
    assert!(pool.is_paused());

    // Resume the pool
    assert!(pool.resume().is_ok());
    assert!(!pool.is_paused());

    // Clean up
    pool.stop(true);
}

#[test]
fn test_pauseable_thread_pool_display() {
    let pool = PauseableThreadPool::new("test_pool");
    assert!(pool.to_string().contains("test_pool"));
    assert!(pool.to_string().contains("running: no"));
    assert!(pool.to_string().contains("paused: no"));
}

#[test]
fn paused_pool_hands_out_no_job() {
    let mut pool = PauseableThreadPool::with_workers(1);
    match pool.submit(CallbackJob::new(|| Ok(()), "early")) {
        Err(Error::ThreadPoolError(m)) => assert_eq!(m, "Thread pool 'pauseable_thread_pool' is not running"),
        _ => panic!("a stopped pool refuses jobs"),
    }
    assert!(pool.start().is_ok());
    assert!(pool.pause().is_ok());
    assert!(pool.submit(CallbackJob::new(|| Ok(()), "first")).is_ok());
    let mut batch = JobBatch::new("b");
    batch.add(CallbackJob::new(|| Ok(()), "second")).add(CallbackJob::new(|| Ok(()), "third"));
    assert!(pool.submit_batch(batch).is_ok());
    assert_eq!(pool.job_queue().len(), 3);
    assert!(pool.next_job().is_none());
    assert!(pool.resume().is_ok());
    let order: Vec<String> = (0..3).map(|_| pool.next_job().unwrap().description()).collect();
    assert_eq!(order, vec!["first", "second", "third"]);
    assert!(pool.next_job().is_none());
    pool.stop(false);
    match pool.pause() {
        Err(Error::ThreadPoolError(m)) => {
            assert_eq!(m, "Cannot pause thread pool 'pauseable_thread_pool' as it is not running")
        }
        _ => panic!("a stopped pool cannot pause"),
    }
    assert_eq!(pool.to_string(), "PauseableThreadPool 'pauseable_thread_pool' (running: no, paused: no, workers: 1)");
}

#[test]
fn pauseable_pool_numbers_new_workers() {
    let mut pool = PauseableThreadPool::new("p");
    assert!(pool.add_workers(3).is_ok());
    assert_eq!(pool.worker_count(), 3);
    let worker: Box<dyn ThreadWorker> = Box::new(BasicThreadWorker::new("custom", 5));
    assert!(pool.add_worker(worker).is_ok());
    assert_eq!(pool.worker_count(), 4);
    pool.set_check_interval(20);
    assert_eq!(pool.check_interval(), 20);
}

#[test]
fn test_job_priority() {
    assert!(JobPriority::Highest > JobPriority::High);
    assert!(JobPriority::High > JobPriority::Normal);
    assert!(JobPriority::Normal > JobPriority::Low);
    assert!(JobPriority::Low > JobPriority::Lowest);
}

#[test]
fn test_priority_job() {
    let job = CallbackJob::new(|| Ok(()), "test job");
    let mut priority_job = PriorityJob::new(job, JobPriority::High);

    assert_eq!(priority_job.priority(), JobPriority::High);
    assert!(priority_job.description().contains("High"));
    assert!(priority_job.execute().is_ok());
}

#[test]
fn test_priority_job_ordering() {
    let job1 = CallbackJob::new(|| Ok(()), "job1");
    let job2 = CallbackJob::new(|| Ok(()), "job2");

    let low_job = PriorityJob::new(job1, JobPriority::Low);
    let high_job = PriorityJob::new(job2, JobPriority::High);

    // Test the ordering - high priority comes before low
    assert!(high_job < low_job);

    // Create a vector and sort it
    let mut jobs = vec![low_job, high_job];
    jobs.sort_by(|a, b| a.partial_cmp(b).unwrap());

    // After sorting, high priority should be first
    assert_eq!(jobs[0].priority(), JobPriority::High);
    assert_eq!(jobs[1].priority(), JobPriority::Low);
}

#[test]
fn priority_job_description_names_the_priority() {
    let job = PriorityJob::new(CallbackJob::new(|| Ok(()), "inner"), JobPriority::Lowest);
    assert_eq!(job.description(), "PriorityJob[Lowest]: inner");
    assert_eq!(JobPriority::Highest.to_string(), "Highest");
    assert_eq!(JobPriority::Normal.rank(), 2);
}

#[test]
fn test_thread_condition_display() {
    assert_eq!(ThreadCondition::NotStarted.to_string(), "Not Started");
    assert_eq!(ThreadCondition::Running.to_string(), "Running");
    assert_eq!(ThreadCondition::Stopping.to_string(), "Stopping");
    assert_eq!(ThreadCondition::Stopped.to_string(), "Stopped");
}

#[test]
fn test_thread_worker_to_string() {
    let worker = BasicThreadWorker::new("test_worker", 10);

    assert!(worker.to_string().contains("test_worker"));
    assert!(worker.to_string().contains("stopped"));
}

#[test]
fn basic_worker_lifecycle() {
    let mut worker = BasicThreadWorker::new("w", 10);
    assert_eq!(worker.condition(), ThreadCondition::NotStarted);
    assert!(worker.start().is_ok());
    assert!(worker.is_running());
    assert_eq!(worker.condition(), ThreadCondition::Running);
    match worker.start() {
        Err(Error::ThreadError(m)) => assert_eq!(m, "Worker 'w' is already running"),
        _ => panic!("a running worker cannot start again"),
    }
    worker.stop(true);
    assert!(!worker.is_running());
    assert_eq!(worker.condition(), ThreadCondition::Stopped);
    assert_eq!(worker.to_string(), "BasicThreadWorker 'w' (stopped)");
}

#[test]
fn failed_jobs_that_ask_for_a_retry_are_requeued() {
    assert_eq!(after_failure("Job 'x' failed on attempt 1/3, will retry after 10ms: boom"), Some(5000));
    assert_eq!(after_failure("Job 'x' failed after 3 attempts: boom"), None);
    assert_eq!(after_failure(""), None);
}

#[test]
fn test_traced_job_executes() {
    let executed = std::sync::Arc::new(std::sync::atomic::AtomicBool::new(false));
    let executed_clone = executed.clone();

    let job = ClosureJob::new(move || {
        executed_clone.store(true, std::sync::atomic::Ordering::SeqCst);
        Ok(())
    });

    let mut traced = TracedJob::new(job);
    traced.execute().expect("Job should execute");

    assert!(executed.load(std::sync::atomic::Ordering::SeqCst));
}

#[test]
fn test_traced_job_preserves_job_type() {
    let job = ClosureJob::new(|| Ok(()));
    let traced = TracedJob::new(job);

    assert_eq!(traced.job_type(), "ClosureJob");
    assert!(!traced.is_cancellable());
}

#[test]
fn persistable_callback_job_record() {
    let mut job = PersistableCallbackJob::new("id-1", "store report", "payload", || Ok(()));
    assert_eq!(job.id(), "id-1");
    assert_eq!(job.serialized_data(), "payload");
    assert!(Job::execute(&mut job).is_ok());
    let record = job.serialize().unwrap();
    assert_eq!(record.id, "id-1");
    assert_eq!(record.description, "store report");
    assert_eq!(record.data, "payload");
    assert_eq!(record.job_type, "persistable_callback_job");
}

#[test]
fn persistence_names_and_timing() {
    assert_eq!(job_file_name("abc"), "abc.json");
    assert_eq!(backup_file_name(1700000000), "backup_1700000000.json");
    assert_eq!(underscore_spaces("nightly data load"), "nightly_data_load");
    assert_eq!(batch_id("my batch", 42), "batch_my_batch_42");
    assert!(!backup_needed_at(1_000, 1_100, 300));
    assert!(backup_needed_at(1_000, 1_300, 300));
    assert!(!backup_needed_at(1_000, 500, 300));
}

#[test]
fn persistence_errors_convert() {
    assert_eq!(
        PersistenceError::MissingJobData("x".to_string()).to_string(),
        "Missing job data: x"
    );
    let e: Error = PersistenceError::InvalidDirectory("d".to_string()).into();
    assert!(matches!(e, Error::Other(m) if m == "Invalid persistence directory: d"));
    let io = std::io::Error::new(std::io::ErrorKind::Other, "gone");
    let e: Error = PersistenceError::FileError(io).into();
    assert!(matches!(e, Error::IoError(_)));
}

#[test]
fn persistence_file_classification() {
    assert_eq!(file_extension("job1.json"), Some("json".to_string()));
    assert_eq!(file_extension("a.b.json"), Some("json".to_string()));
    assert_eq!(file_extension(".json"), None);
    assert_eq!(file_extension("noext"), None);
    assert_eq!(file_extension("trailing."), Some(String::new()));
    assert!(is_persistence_file("job1.json", false));
    assert!(!is_persistence_file("job1.json", true));
    assert!(is_persistence_file("backup_17.json", true));
    assert!(!is_persistence_file("backup_17.json", false));
    assert!(!is_persistence_file("notes.txt", false));
}

#[test]
fn newest_backup_is_chosen() {
    assert_eq!(newest_index(&vec![]), None);
    assert_eq!(newest_index(&vec![5, 9, 3, 9]), Some(1));
    assert_eq!(newest_index(&vec![1]), Some(0));
}

#[test]
fn deserializer_rebuilds_callback_jobs() {
    let deserializer = PersistableCallbackJobDeserializer::new(|_data: &str| {
        || -> rust_thread_system::error::Result<()> { Ok(()) }
    });
    let record = SerializableJob::new("id-9", "rebuilt", "payload", "persistable_callback_job");
    let mut job = deserializer.deserialize(&record).unwrap();
    assert_eq!(job.description(), "rebuilt");
    assert!(job.execute().is_ok());
    assert_eq!(deserializer.job_type(), "persistable_callback_job");
}

#[test]
fn traced_job_gives_the_inner_result() {
    let mut traced = TracedJob::new(ClosureJob::new(|| Ok(())));
    assert!(traced.execute().is_ok());
    match traced.execute() {
        Err(e) => assert!(e.to_string().contains("ClosureJob already executed - cannot execute twice")),
        Ok(()) => panic!("a closure job runs once"),
    }
}

#[test]
fn pauseable_pool_restarts_and_serves_oldest_first() {
    let mut pool = PauseableThreadPool::with_workers(2);
    assert!(pool.start().is_ok());
    pool.stop(true);
    assert!(pool.start().is_ok());
    pool.submit(CallbackJob::new(|| Ok(()), "first")).unwrap();
    pool.submit(CallbackJob::new(|| Ok(()), "second")).unwrap();
    assert_eq!(pool.job_queue()[0].description(), "first");
    assert_eq!(pool.next_job().unwrap().description(), "first");
    assert_eq!(pool.next_job().unwrap().description(), "second");
    assert!(pool.next_job().is_none());
}
