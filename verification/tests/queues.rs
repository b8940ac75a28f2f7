use std::sync::Arc;

use rust_thread_system::core_types::{BoxedJob, ClosureJob, Job, Result};
use rust_thread_system::queue::adaptive::QueueStrategy;
use rust_thread_system::queue::{
    BackpressureHandler, BackpressureStats, BackpressureStrategy, BoxedJobHolder, CapabilityFlags,
    MissingCapabilitiesError, QueueCapabilities, QueueError, QueueFactory, QueueRequirements,
    QueueSelection,
};

#[test]
fn test_backpressure_strategy_debug() {
    assert_eq!(BackpressureStrategy::Block.to_debug_string(), "Block");
    assert_eq!(
        BackpressureStrategy::BlockWithTimeout(1000).to_debug_string(),
        "BlockWithTimeout(1s)"
    );
    assert_eq!(
        BackpressureStrategy::RejectImmediately.to_debug_string(),
        "RejectImmediately"
    );
    assert_eq!(BackpressureStrategy::DropOldest.to_debug_string(), "DropOldest");
    assert_eq!(BackpressureStrategy::DropNewest.to_debug_string(), "DropNewest");
}

#[test]
fn test_backpressure_strategy_default() {
    let strategy = BackpressureStrategy::default();
    assert!(matches!(strategy, BackpressureStrategy::Block));
}

#[test]
fn test_backpressure_stats() {
    let mut stats = BackpressureStats::new();

    stats.record_submission();
    stats.record_submission();
    assert_eq!(stats.jobs_submitted(), 2);

    stats.record_rejection();
    assert_eq!(stats.jobs_rejected(), 1);
    assert_eq!(stats.backpressure_events(), 1);

    stats.record_dropped_oldest();
    assert_eq!(stats.jobs_dropped_oldest(), 1);
    assert_eq!(stats.backpressure_events(), 2);

    stats.record_dropped_newest();
    assert_eq!(stats.jobs_dropped_newest(), 1);
    assert_eq!(stats.backpressure_events(), 3);

    stats.record_timeout();
    assert_eq!(stats.timeout_events(), 1);
    assert_eq!(stats.backpressure_events(), 4);
}

#[test]
fn test_backpressure_stats_snapshot() {
    let mut stats = BackpressureStats::new();
    stats.record_submission();
    stats.record_rejection();

    let snapshot = stats.snapshot();
    assert_eq!(snapshot.jobs_submitted, 1);
    assert_eq!(snapshot.jobs_rejected, 1);
}

struct TestHandler;

impl BackpressureHandler for TestHandler {
    fn handles(&self, _r: Result<Option<BoxedJob>>) -> bool {
        true
    }

    fn handle_backpressure(&self, _job: BoxedJob) -> Result<Option<BoxedJob>> {
        Ok(None)
    }
}

#[test]
fn test_custom_strategy() {
    let handler: Box<dyn BackpressureHandler> = Box::new(TestHandler);
    let strategy = BackpressureStrategy::Custom(Arc::new(handler));
    assert!(matches!(strategy, BackpressureStrategy::Custom(_)));
    assert_eq!(strategy.to_debug_string(), "Custom(<handler>)");
}

#[test]
fn test_queue_requirements_default() {
    let req = QueueRequirements::new();
    assert!(!req.is_bounded());
    assert!(req.capacity().is_none());
    assert!(!req.requires_lock_free());
    assert!(!req.requires_priority());
    assert!(!req.requires_exact_size());
    assert!(!req.requires_mpmc());
    assert!(!req.prefers_adaptive());
}

#[test]
fn test_queue_requirements_bounded() {
    let req = QueueRequirements::new().bounded(1000);
    assert!(req.is_bounded());
    assert_eq!(req.capacity(), Some(1000));
}

#[test]
fn test_queue_requirements_unbounded() {
    let req = QueueRequirements::new().bounded(100).unbounded();
    assert!(!req.is_bounded());
    assert!(req.capacity().is_none());
}

#[test]
fn test_queue_requirements_builder_chain() {
    let req = QueueRequirements::new().bounded(500).lock_free().exact_size().mpmc();

    assert!(req.is_bounded());
    assert_eq!(req.capacity(), Some(500));
    assert!(req.requires_lock_free());
    assert!(req.requires_exact_size());
    assert!(req.requires_mpmc());
}

#[test]
fn test_factory_create_default() {
    let queue = QueueFactory::create(QueueRequirements::new()).unwrap();
    let caps = queue.capabilities();
    assert!(!caps.is_bounded);
    assert!(caps.capacity.is_none());
}

#[test]
fn test_factory_create_bounded() {
    let queue = QueueFactory::create(QueueRequirements::new().bounded(100)).unwrap();
    let caps = queue.capabilities();
    assert!(caps.is_bounded);
    assert_eq!(caps.capacity, Some(100));
}

#[test]
fn test_factory_create_adaptive() {
    let queue = QueueFactory::create(QueueRequirements::new().adaptive()).unwrap();
    let caps = queue.capabilities();
    assert!(!caps.is_bounded); // Adaptive is unbounded
}

#[test]
fn test_factory_invalid_lockfree_priority() {
    let result = QueueFactory::create(QueueRequirements::new().lock_free().with_priority());
    assert!(result.is_err());
}

#[test]
fn test_factory_invalid_adaptive_bounded() {
    let result = QueueFactory::create(QueueRequirements::new().adaptive().bounded(100));
    assert!(result.is_err());
}

#[test]
fn test_factory_default_queue() {
    let queue = QueueFactory::default_queue();
    let caps = queue.capabilities();
    assert!(!caps.is_bounded);
}

#[test]
fn test_factory_high_throughput() {
    let queue = QueueFactory::high_throughput();
    let caps = queue.capabilities();
    assert!(!caps.is_bounded); // Adaptive is unbounded
}

#[test]
fn test_factory_low_latency() {
    let queue = QueueFactory::low_latency(500);
    let caps = queue.capabilities();
    assert!(caps.is_bounded);
    assert_eq!(caps.capacity, Some(500));
}

#[test]
fn test_factory_auto_optimized() {
    let queue = QueueFactory::auto_optimized();
    // Should be adaptive
    assert!(!queue.capabilities().is_bounded);
}

#[test]
fn test_factory_web_server() {
    let queue = QueueFactory::web_server(5000, 30_000);
    let caps = queue.capabilities();
    assert!(caps.is_bounded);
    assert_eq!(caps.capacity, Some(5000));
}

#[test]
fn test_factory_background_jobs() {
    let queue = QueueFactory::background_jobs();
    let caps = queue.capabilities();
    assert!(caps.supports_priority);
}

#[test]
fn test_factory_realtime() {
    let queue = QueueFactory::realtime(1000);
    let caps = queue.capabilities();
    assert!(caps.is_bounded);
    assert_eq!(caps.capacity, Some(1000));
}

#[test]
fn test_factory_data_pipeline() {
    let queue = QueueFactory::data_pipeline();
    // Should be adaptive
    assert!(!queue.capabilities().is_bounded);
}

#[test]
fn test_factory_satisfies() {
    let queue = QueueFactory::create(QueueRequirements::new().bounded(100)).unwrap();

    // Should satisfy bounded requirement with smaller capacity
    assert!(QueueFactory::satisfies(&queue.capabilities(), &QueueRequirements::new().bounded(50)));

    // Should satisfy bounded requirement with exact capacity
    assert!(QueueFactory::satisfies(&queue.capabilities(), &QueueRequirements::new().bounded(100)));
}

#[test]
fn test_factory_describe() {
    assert_eq!(QueueFactory::describe(&QueueRequirements::new()), "ChannelQueue (unbounded)");
    assert_eq!(
        QueueFactory::describe(&QueueRequirements::new().bounded(100)),
        "BoundedQueue (capacity: 100)"
    );
    assert_eq!(
        QueueFactory::describe(&QueueRequirements::new().adaptive()),
        "AdaptiveQueue (auto-optimizing)"
    );
}

#[test]
fn test_factory_create_priority() {
    let queue = QueueFactory::create(QueueRequirements::new().with_priority()).unwrap();
    let caps = queue.capabilities();
    assert!(caps.supports_priority);
}

#[test]
fn test_factory_describe_priority() {
    assert_eq!(
        QueueFactory::describe(&QueueRequirements::new().with_priority()),
        "PriorityJobQueue (priority scheduling)"
    );
}

#[test]
fn test_queue_requirements_backpressure() {
    let req = QueueRequirements::new().bounded(100).backpressure(BackpressureStrategy::RejectImmediately);

    assert!(req.backpressure_strategy().is_some());
    match req.backpressure_strategy() {
        Some(BackpressureStrategy::RejectImmediately) => {}
        _ => panic!("Expected RejectImmediately strategy"),
    }
}

#[test]
fn factory_error_messages() {
    match QueueFactory::create(QueueRequirements::new().lock_free().with_priority()) {
        Err(e) => assert_eq!(
            e.to_string(),
            "Invalid configuration for 'queue requirements': lock-free priority queue is not supported"
        ),
        Ok(_) => panic!("incompatible requirements"),
    }
    match QueueFactory::create(QueueRequirements::new().adaptive().bounded(10)) {
        Err(e) => assert!(e.to_string().contains("adaptive queue cannot be bounded")),
        Ok(_) => panic!("incompatible requirements"),
    }
}

#[test]
fn selected_queue_meets_its_requirements() {
    let cases = vec![
        QueueRequirements::new(),
        QueueRequirements::new().bounded(10),
        QueueRequirements::new().bounded(10).lock_free().mpmc(),
        QueueRequirements::new().with_priority().exact_size(),
        QueueRequirements::new().adaptive(),
    ];
    for req in cases {
        let selection = QueueFactory::create(req.clone()).unwrap();
        assert!(QueueFactory::satisfies(&selection.capabilities(), &req));
    }
    assert_eq!(QueueFactory::create(QueueRequirements::new().bounded(7)).unwrap(), QueueSelection::Bounded(7));
}

#[test]
fn test_queue_capabilities_default() {
    let caps = QueueCapabilities::default();
    assert!(!caps.is_bounded);
    assert!(caps.capacity.is_none());
    assert!(caps.is_lock_free);
    assert!(!caps.is_wait_free);
    assert!(!caps.supports_priority);
    assert!(!caps.exact_size);
    assert!(caps.mpmc);
    assert!(!caps.spsc);
    assert!(caps.supports_blocking);
    assert!(caps.supports_timeout);
    assert!(!caps.is_adaptive);
    assert_eq!(caps.implementation_name, "unknown");
}

#[test]
fn test_queue_capabilities_unbounded_channel() {
    let caps = QueueCapabilities::unbounded_channel();
    assert!(!caps.is_bounded);
    assert!(caps.capacity.is_none());
    assert!(caps.is_lock_free);
    assert!(!caps.is_wait_free);
    assert!(!caps.supports_priority);
    assert!(!caps.exact_size);
    assert!(caps.mpmc);
    assert!(!caps.spsc);
    assert!(caps.supports_blocking);
    assert!(caps.supports_timeout);
    assert!(!caps.is_adaptive);
    assert_eq!(caps.implementation_name, "crossbeam::channel::unbounded");
}

#[test]
fn test_queue_capabilities_bounded_channel() {
    let caps = QueueCapabilities::bounded_channel(100);
    assert!(caps.is_bounded);
    assert_eq!(caps.capacity, Some(100));
    assert!(caps.is_lock_free);
    assert!(!caps.is_wait_free);
    assert!(!caps.supports_priority);
    assert!(!caps.exact_size);
    assert!(caps.mpmc);
    assert!(!caps.spsc);
    assert!(caps.supports_blocking);
    assert!(caps.supports_timeout);
    assert!(!caps.is_adaptive);
    assert_eq!(caps.implementation_name, "crossbeam::channel::bounded");
}

#[test]
fn test_queue_capabilities_priority_queue() {
    let caps = QueueCapabilities::priority_queue(None);
    assert!(!caps.is_bounded);
    assert!(caps.capacity.is_none());
    assert!(!caps.is_lock_free);
    assert!(!caps.is_wait_free);
    assert!(caps.supports_priority);
    assert!(caps.exact_size);
    assert!(caps.mpmc);
    assert!(!caps.spsc);
    assert!(caps.supports_blocking);
    assert!(caps.supports_timeout);
    assert!(!caps.is_adaptive);
    assert_eq!(caps.implementation_name, "PriorityJobQueue");
}

#[test]
fn test_queue_capabilities_adaptive() {
    let caps = QueueCapabilities::adaptive();
    assert!(!caps.is_bounded);
    assert!(caps.capacity.is_none());
    assert!(!caps.is_lock_free);
    assert!(!caps.is_wait_free);
    assert!(!caps.supports_priority);
    assert!(!caps.exact_size);
    assert!(caps.mpmc);
    assert!(!caps.spsc);
    assert!(caps.supports_blocking);
    assert!(caps.supports_timeout);
    assert!(caps.is_adaptive);
    assert_eq!(caps.implementation_name, "AdaptiveQueue");
}

#[test]
fn test_queue_capabilities_describe() {
    let caps = QueueCapabilities::unbounded_channel();
    let desc = caps.describe();
    assert!(desc.contains("crossbeam::channel::unbounded"));
    assert!(desc.contains("unbounded"));
    assert!(desc.contains("lock-free"));
    assert!(desc.contains("mpmc"));

    let caps = QueueCapabilities::bounded_channel(100);
    let desc = caps.describe();
    assert!(desc.contains("bounded(100)"));

    let caps = QueueCapabilities::priority_queue(None);
    let desc = caps.describe();
    assert!(desc.contains("priority"));
    assert!(desc.contains("exact-size"));

    let caps = QueueCapabilities::adaptive();
    let desc = caps.describe();
    assert!(desc.contains("adaptive"));
}

#[test]
fn test_queue_capabilities_satisfies() {
    let caps = QueueCapabilities::unbounded_channel();

    // Should satisfy
    assert!(caps.satisfies(CapabilityFlags::LOCK_FREE));
    assert!(caps.satisfies(CapabilityFlags::UNBOUNDED));
    assert!(caps.satisfies(CapabilityFlags::MPMC));
    assert!(caps.satisfies(CapabilityFlags::BLOCKING));
    assert!(caps.satisfies(CapabilityFlags::TIMEOUT));
    assert!(caps.satisfies(CapabilityFlags::LOCK_FREE | CapabilityFlags::MPMC));

    // Should not satisfy
    assert!(!caps.satisfies(CapabilityFlags::BOUNDED));
    assert!(!caps.satisfies(CapabilityFlags::PRIORITY));
    assert!(!caps.satisfies(CapabilityFlags::WAIT_FREE));
    assert!(!caps.satisfies(CapabilityFlags::SPSC));
    assert!(!caps.satisfies(CapabilityFlags::ADAPTIVE));
    assert!(!caps.satisfies(CapabilityFlags::EXACT_SIZE));

    // Mixed flags - should fail if any required flag is missing
    assert!(!caps.satisfies(CapabilityFlags::LOCK_FREE | CapabilityFlags::PRIORITY));
}

#[test]
fn test_capability_flags_combinations() {
    let flags = CapabilityFlags::LOCK_FREE | CapabilityFlags::MPMC;
    assert!(flags.contains(CapabilityFlags::LOCK_FREE));
    assert!(flags.contains(CapabilityFlags::MPMC));
    assert!(!flags.contains(CapabilityFlags::BOUNDED));

    let flags = CapabilityFlags::BOUNDED | CapabilityFlags::EXACT_SIZE | CapabilityFlags::PRIORITY;
    assert!(flags.contains(CapabilityFlags::BOUNDED));
    assert!(flags.contains(CapabilityFlags::EXACT_SIZE));
    assert!(flags.contains(CapabilityFlags::PRIORITY));
}

#[test]
fn union_of_flags_needs_both_sets() {
    let caps = QueueCapabilities::priority_queue(None);
    let a = CapabilityFlags::PRIORITY | CapabilityFlags::EXACT_SIZE;
    let b = CapabilityFlags::LOCK_FREE;
    assert!(caps.satisfies(a));
    assert!(!caps.satisfies(b));
    assert!(!caps.satisfies(a | b));
    assert!(caps.satisfies(CapabilityFlags::empty()));
    assert_eq!(a.bits(), 16 | 32);
}

#[test]
fn test_missing_capabilities_error_display() {
    let caps = QueueCapabilities::unbounded_channel();
    let err = MissingCapabilitiesError {
        required: CapabilityFlags::PRIORITY | CapabilityFlags::BOUNDED,
        actual: caps,
    };
    let msg = err.to_string();
    assert!(msg.contains("priority"));
    assert!(msg.contains("bounded"));
    assert!(msg.contains("crossbeam::channel::unbounded"));
}

#[test]
fn test_queue_error_display() {
    let holder = BoxedJobHolder { job: None };
    assert_eq!(QueueError::Full(holder.clone()).to_string(), "queue is full");
    assert_eq!(QueueError::Closed(holder.clone()).to_string(), "queue is closed");
    assert_eq!(QueueError::Empty.to_string(), "queue is empty");
    assert_eq!(QueueError::Disconnected.to_string(), "queue is disconnected");
    assert_eq!(QueueError::Timeout(holder).to_string(), "operation timed out");
}

#[test]
fn test_boxed_job_holder() {
    let holder = BoxedJobHolder { job: None };
    assert!(holder.as_ref().is_none());
    assert!(holder.take().is_none());
}

#[test]
fn boxed_job_holder_gives_back_its_job() {
    let job: BoxedJob = Box::new(ClosureJob::with_name(|| Ok(()), "kept"));
    let holder = BoxedJobHolder::new(job);
    assert!(holder.as_ref().is_some());
    let back = holder.take().unwrap();
    assert_eq!(back.job_type(), "kept");
}

#[test]
fn test_queue_strategy_conversion() {
    assert_eq!(QueueStrategy::from(0u8), QueueStrategy::Mutex);
    assert_eq!(QueueStrategy::from(1u8), QueueStrategy::LockFree);
    assert_eq!(QueueStrategy::from(255u8), QueueStrategy::LockFree);

    assert_eq!(u8::from(QueueStrategy::Mutex), 0);
    assert_eq!(u8::from(QueueStrategy::LockFree), 1);
}
