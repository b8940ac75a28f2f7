//! Thread pool configuration, submission rules and worker statistics.
pub mod thread_pool;
pub mod worker;

pub use thread_pool::ThreadPoolConfig;
pub use worker::WorkerStats;
