//! Queue abstractions: capabilities, errors and the job queue trait.
pub mod capabilities;
pub mod adaptive;
pub mod backpressure;
pub mod factory;

pub use capabilities::{
    require_capabilities, BoxedJobHolder, CapabilityFlags, JobQueue, MissingCapabilitiesError,
    QueueCapabilities, QueueError, QueueResult,
};
pub use backpressure::{
    BackpressureHandler, BackpressureStats, BackpressureStatsSnapshot, BackpressureStrategy,
};
pub use adaptive::QueueStrategy;
pub use factory::{QueueFactory, QueueRequirements, QueueSelection};
