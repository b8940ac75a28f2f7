//! A thread system: worker pools, job queues, backpressure, retries and the
//! bookkeeping around them.
pub mod text;
pub mod core_types;
mod clock;
pub mod backoff;
pub mod error;
pub mod queue;
pub mod pool;
pub mod job;
pub mod job_monitor;
pub mod priority_thread_pool;
pub mod job_pool_stats;
pub mod thread_base;
pub mod pauseable_thread_pool;
pub mod logger;
pub mod tracing;
pub mod job_persistence;
pub mod metrics;
pub mod thread_pool;
