//! Choosing a queue implementation from requirements.
//!
//! The factory decides which queue fits the requirements; the queues
//! themselves, built on concurrent channels, are made by the runtime from the
//! returned `QueueSelection`.
use vstd::prelude::*;
use vstd::string::*;
use crate::core_types::error::ThreadError;
use crate::queue::backpressure::BackpressureStrategy;
use crate::queue::capabilities::QueueCapabilities;
use crate::text::{decimal, decimal_text};

verus! {

/// Requirements for a queue, built with the builder methods.
#[derive(Clone)]
pub struct QueueRequirements {
    /// Maximum capacity (`None` = unbounded).
    pub capacity: Option<usize>,
    /// Require a lock-free implementation.
    pub lock_free: bool,
    /// Require priority scheduling.
    pub priority_support: bool,
    /// Require exact size reporting.
    pub exact_size: bool,
    /// Require multi-producer multi-consumer support.
    pub mpmc: bool,
    /// Prefer adaptive optimization.
    pub adaptive: bool,
    /// Backpressure strategy for bounded queues.
    pub backpressure: Option<BackpressureStrategy>,
}

/// Requirements with nothing required.
pub open spec fn no_requirements(r: QueueRequirements) -> bool {
    &&& r.capacity.is_none()
    &&& !r.lock_free && !r.priority_support && !r.exact_size && !r.mpmc && !r.adaptive
    &&& r.backpressure.is_none()
}

impl Default for QueueRequirements {
    fn default() -> (r: Self)
        ensures
            no_requirements(r),
    {
        QueueRequirements {
            capacity: None,
            lock_free: false,
            priority_support: false,
            exact_size: false,
            mpmc: false,
            adaptive: false,
            backpressure: None,
        }
    }
}

impl QueueRequirements {
    /// Requirements with nothing required.
    pub fn new() -> (r: Self)
        ensures
            no_requirements(r),
    {
        Self::default()
    }

    /// Require a bounded queue of the given capacity.
    pub fn bounded(self, capacity: usize) -> (r: Self)
        ensures
            r == (QueueRequirements { capacity: Some(capacity), ..self }),
    {
        QueueRequirements { capacity: Some(capacity), ..self }
    }

    /// Require an unbounded queue.
    pub fn unbounded(self) -> (r: Self)
        ensures
            r == (QueueRequirements { capacity: None, ..self }),
    {
        QueueRequirements { capacity: None, ..self }
    }

    /// Require a lock-free queue.
    pub fn lock_free(self) -> (r: Self)
        ensures
            r == (QueueRequirements { lock_free: true, ..self }),
    {
        QueueRequirements { lock_free: true, ..self }
    }

    /// Require priority scheduling.
    pub fn with_priority(self) -> (r: Self)
        ensures
            r == (QueueRequirements { priority_support: true, ..self }),
    {
        QueueRequirements { priority_support: true, ..self }
    }

    /// Require exact size reporting.
    pub fn exact_size(self) -> (r: Self)
        ensures
            r == (QueueRequirements { exact_size: true, ..self }),
    {
        QueueRequirements { exact_size: true, ..self }
    }

    /// Require multi-producer multi-consumer support.
    pub fn mpmc(self) -> (r: Self)
        ensures
            r == (QueueRequirements { mpmc: true, ..self }),
    {
        QueueRequirements { mpmc: true, ..self }
    }

    /// Prefer an adaptive queue.
    pub fn adaptive(self) -> (r: Self)
        ensures
            r == (QueueRequirements { adaptive: true, ..self }),
    {
        QueueRequirements { adaptive: true, ..self }
    }

    /// Set the backpressure strategy.
    pub fn backpressure(self, strategy: BackpressureStrategy) -> (r: Self)
        ensures
            r == (QueueRequirements { backpressure: Some(strategy), ..self }),
    {
        QueueRequirements { backpressure: Some(strategy), ..self }
    }

    /// Whether a bounded queue is required.
    pub fn is_bounded(&self) -> (b: bool)
        ensures
            b == self.capacity.is_some(),
    {
        self.capacity.is_some()
    }

    /// The required capacity, if any.
    pub fn capacity(&self) -> (c: Option<usize>)
        ensures
            c == self.capacity,
    {
        self.capacity
    }

    /// Whether lock-free is required.
    pub fn requires_lock_free(&self) -> (b: bool)
        ensures
            b == self.lock_free,
    {
        self.lock_free
    }

    /// Whether priority support is required.
    pub fn requires_priority(&self) -> (b: bool)
        ensures
            b == self.priority_support,
    {
        self.priority_support
    }

    /// Whether exact size is required.
    pub fn requires_exact_size(&self) -> (b: bool)
        ensures
            b == self.exact_size,
    {
        self.exact_size
    }

    /// Whether MPMC is required.
    pub fn requires_mpmc(&self) -> (b: bool)
        ensures
            b == self.mpmc,
    {
        self.mpmc
    }

    /// Whether adaptive behavior is preferred.
    pub fn prefers_adaptive(&self) -> (b: bool)
        ensures
            b == self.adaptive,
    {
        self.adaptive
    }

    /// The backpressure strategy, if set.
    pub fn backpressure_strategy(&self) -> (s: Option<&BackpressureStrategy>)
        ensures
            s.is_some() == self.backpressure.is_some(),
            s matches Some(b) ==> self.backpressure == Some(*b),
    {
        self.backpressure.as_ref()
    }
}

/// The queue implementation the factory chose.
#[derive(Clone, Copy, Debug, PartialEq, Eq, Structural)]
pub enum QueueSelection {
    /// An unbounded channel queue.
    Unbounded,
    /// A bounded queue of the given capacity.
    Bounded(usize),
    /// An adaptive queue.
    Adaptive,
    /// A priority queue.
    Priority,
}

/// The capabilities of a selected queue.
pub open spec fn selection_capabilities(s: QueueSelection, c: QueueCapabilities) -> bool {
    match s {
        QueueSelection::Unbounded => !c.is_bounded && c.capacity.is_none() && c.is_lock_free
            && !c.supports_priority && !c.exact_size && !c.is_adaptive,
        QueueSelection::Bounded(n) => c.is_bounded && c.capacity == Some(n) && c.is_lock_free
            && !c.supports_priority && !c.exact_size && !c.is_adaptive,
        QueueSelection::Adaptive => !c.is_bounded && c.capacity.is_none() && !c.is_lock_free
            && !c.supports_priority && !c.exact_size && c.is_adaptive,
        QueueSelection::Priority => !c.is_bounded && c.capacity.is_none() && !c.is_lock_free
            && c.supports_priority && c.exact_size && !c.is_adaptive,
    }
}

impl QueueSelection {
    /// The capabilities of the selected queue.
    pub fn capabilities(&self) -> (c: QueueCapabilities)
        ensures
            selection_capabilities(*self, c),
    {
        match self {
            QueueSelection::Unbounded => QueueCapabilities::unbounded_channel(),
            QueueSelection::Bounded(n) => QueueCapabilities::bounded_channel(*n),
            QueueSelection::Adaptive => QueueCapabilities::adaptive(),
            QueueSelection::Priority => QueueCapabilities::priority_queue(None),
        }
    }
}

/// The message of the first incompatibility in `r`, if any.
pub open spec fn incompatibility(r: QueueRequirements) -> Option<Seq<char>> {
    if r.lock_free && r.priority_support {
        Some("lock-free priority queue is not supported"@)
    } else if r.adaptive && r.capacity.is_some() {
        Some("adaptive queue cannot be bounded (it manages its own sizing)"@)
    } else {
        None
    }
}

/// The queue chosen for compatible requirements.
pub open spec fn selection_for(r: QueueRequirements) -> QueueSelection {
    if r.priority_support {
        QueueSelection::Priority
    } else if r.adaptive {
        QueueSelection::Adaptive
    } else {
        match r.capacity {
            Some(n) => QueueSelection::Bounded(n),
            None => QueueSelection::Unbounded,
        }
    }
}

/// Whether capabilities `caps` meet requirements `r`.
pub open spec fn meets(caps: QueueCapabilities, r: QueueRequirements) -> bool {
    &&& r.capacity matches Some(req) ==> (caps.is_bounded
        && (caps.capacity matches Some(actual) ==> actual >= req))
    &&& r.lock_free ==> caps.is_lock_free
    &&& r.priority_support ==> caps.supports_priority
    &&& r.exact_size ==> caps.exact_size
}

/// A queue meets a capacity requirement of `n` only when it is bounded and,
/// where its capacity is known, holds at least `n` jobs: a smaller queue
/// never meets it. Each other requirement needs its capability.
pub proof fn lemma_meets_needs_room(caps: QueueCapabilities, r: QueueRequirements)
    ensures
        r.capacity matches Some(n) ==> (caps.capacity matches Some(m) ==> (m < n ==> !meets(caps, r))),
        r.capacity is Some && !caps.is_bounded ==> !meets(caps, r),
        r.lock_free && !caps.is_lock_free ==> !meets(caps, r),
        r.priority_support && !caps.supports_priority ==> !meets(caps, r),
        r.exact_size && !caps.exact_size ==> !meets(caps, r),
        r.capacity is None && !r.lock_free && !r.priority_support && !r.exact_size ==> meets(caps, r),
{
}

/// The description of the queue chosen for `r`.
pub open spec fn selection_text(r: QueueRequirements) -> Seq<char> {
    if r.priority_support {
        "PriorityJobQueue (priority scheduling)"@
    } else if r.adaptive {
        "AdaptiveQueue (auto-optimizing)"@
    } else {
        match r.capacity {
            Some(n) => "BoundedQueue (capacity: "@ + decimal_text(n as nat) + ")"@,
            None => "ChannelQueue (unbounded)"@,
        }
    }
}

/// Chooses queue implementations.
pub struct QueueFactory;

impl QueueFactory {
    /// Choose the queue for the requirements: a priority queue when priority
    /// is required, else an adaptive queue when preferred, else a bounded
    /// queue when a capacity is given, else an unbounded channel queue.
    /// Incompatible requirements give an `InvalidConfig` error.
    pub fn create(requirements: QueueRequirements) -> (r: Result<QueueSelection, ThreadError>)
        requires
            requirements.capacity == Some(0usize) ==> requirements.priority_support || requirements.adaptive,
        ensures
            match incompatibility(requirements) {
                Some(msg) => r matches Err(ThreadError::InvalidConfig { parameter: p, message: m })
                    && p@ == "queue requirements"@ && m@ == msg,
                None => r == Ok::<QueueSelection, ThreadError>(selection_for(requirements)),
            },
    {
        Self::validate_requirements(&requirements)?;
        if requirements.priority_support {
            return Ok(QueueSelection::Priority);
        }
        if requirements.adaptive {
            return Ok(QueueSelection::Adaptive);
        }
        match requirements.capacity {
            Some(capacity) => Ok(QueueSelection::Bounded(capacity)),
            None => Ok(QueueSelection::Unbounded),
        }
    }

    /// The default queue: unbounded.
    pub fn default_queue() -> (s: QueueSelection)
        ensures
            s == QueueSelection::Unbounded,
    {
        QueueSelection::Unbounded
    }

    /// A queue for high throughput: adaptive.
    pub fn high_throughput() -> (s: QueueSelection)
        ensures
            s == QueueSelection::Adaptive,
    {
        QueueSelection::Adaptive
    }

    /// A queue for low latency: bounded.
    pub fn low_latency(capacity: usize) -> (s: QueueSelection)
        requires
            capacity > 0,
        ensures
            s == QueueSelection::Bounded(capacity),
    {
        QueueSelection::Bounded(capacity)
    }

    /// A self-optimizing queue: adaptive.
    pub fn auto_optimized() -> (s: QueueSelection)
        ensures
            s == QueueSelection::Adaptive,
    {
        QueueSelection::Adaptive
    }

    /// Preset for web servers: bounded (the timeout is reserved).
    pub fn web_server(capacity: usize, timeout: u64) -> (s: QueueSelection)
        requires
            capacity > 0,
        ensures
            s == QueueSelection::Bounded(capacity),
    {
        QueueSelection::Bounded(capacity)
    }

    /// Preset for background jobs: a priority queue.
    pub fn background_jobs() -> (s: QueueSelection)
        ensures
            s == QueueSelection::Priority,
    {
        QueueSelection::Priority
    }

    /// Preset for real-time events: bounded.
    pub fn realtime(capacity: usize) -> (s: QueueSelection)
        requires
            capacity > 0,
        ensures
            s == QueueSelection::Bounded(capacity),
    {
        QueueSelection::Bounded(capacity)
    }

    /// Preset for data pipelines: adaptive.
    pub fn data_pipeline() -> (s: QueueSelection)
        ensures
            s == QueueSelection::Adaptive,
    {
        QueueSelection::Adaptive
    }

    fn validate_requirements(req: &QueueRequirements) -> (r: Result<(), ThreadError>)
        ensures
            match incompatibility(*req) {
                Some(msg) => r matches Err(ThreadError::InvalidConfig { parameter: p, message: m })
                    && p@ == "queue requirements"@ && m@ == msg,
                None => r is Ok,
            },
    {
        if req.lock_free && req.priority_support {
            return Err(ThreadError::invalid_config(
                "queue requirements",
                "lock-free priority queue is not supported",
            ));
        }
        if req.adaptive && req.capacity.is_some() {
            return Err(ThreadError::invalid_config(
                "queue requirements",
                "adaptive queue cannot be bounded (it manages its own sizing)",
            ));
        }
        Ok(())
    }

    /// Whether a queue with capabilities `caps` meets the requirements.
    pub fn satisfies(caps: &QueueCapabilities, requirements: &QueueRequirements) -> (b: bool)
        ensures
            b == meets(*caps, *requirements),
            requirements.capacity matches Some(n) ==> (caps.capacity matches Some(m) ==> (m < n ==> !b)),
            requirements.capacity is Some ==> (!caps.is_bounded ==> !b),
    {
        if let Some(required_cap) = requirements.capacity {
            if !caps.is_bounded {
                return false;
            }
            if let Some(actual_cap) = caps.capacity {
                if actual_cap < required_cap {
                    return false;
                }
            }
        }
        if requirements.lock_free && !caps.is_lock_free {
            return false;
        }
        if requirements.priority_support && !caps.supports_priority {
            return false;
        }
        if requirements.exact_size && !caps.exact_size {
            return false;
        }
        true
    }

    /// A description of the queue the requirements select.
    pub fn describe(requirements: &QueueRequirements) -> (s: String)
        ensures
            s@ == selection_text(*requirements),
    {
        if requirements.priority_support {
            return String::from_str("PriorityJobQueue (priority scheduling)");
        }
        if requirements.adaptive {
            return String::from_str("AdaptiveQueue (auto-optimizing)");
        }
        match requirements.capacity {
            Some(capacity) => {
                let mut s = String::from_str("BoundedQueue (capacity: ");
                s.append(decimal(capacity as u64).as_str());
                s.append(")");
                s
            },
            None => String::from_str("ChannelQueue (unbounded)"),
        }
    }
}

/// The queue chosen for compatible requirements meets them, wherever some
/// queue kind offers the combination: no kind is both bounded and
/// prioritized, adaptive and lock-free, or exact in size without
/// priorities.
pub proof fn lemma_selection_meets(r: QueueRequirements, caps: QueueCapabilities)
    requires
        incompatibility(r).is_none(),
        selection_capabilities(selection_for(r), caps),
        r.priority_support ==> r.capacity.is_none(),
        r.adaptive ==> !r.lock_free,
        r.exact_size ==> r.priority_support,
    ensures
        meets(caps, r),
{
}

/// A requirement that only asks for priorities selects the priority
/// queue; one that only bounds the queue selects a bounded queue of that
/// capacity; one that only prefers adaptation selects the adaptive queue;
/// one with no requirement selects the unbounded queue.
pub proof fn lemma_selection_matrix(r: QueueRequirements)
    ensures
        r.priority_support ==> selection_for(r) == QueueSelection::Priority,
        !r.priority_support && r.adaptive ==> selection_for(r) == QueueSelection::Adaptive,
        !r.priority_support && !r.adaptive && r.capacity.is_some()
            ==> selection_for(r) == QueueSelection::Bounded(r.capacity.unwrap()),
        !r.priority_support && !r.adaptive && r.capacity.is_none()
            ==> selection_for(r) == QueueSelection::Unbounded,
{
}

} // verus!
