//! Core types: errors, jobs, priorities and cancellation reasons.
pub mod cancellation;
pub mod error;
pub mod job;
pub mod priority;

pub use cancellation::CancellationReason;
pub use error::{Result, ThreadError};
pub use job::{BoxedJob, ClosureJob, Job};
pub use priority::{Priority, PriorityJob, PriorityQueue};
