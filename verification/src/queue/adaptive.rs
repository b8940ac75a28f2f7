//! The strategies between which an adaptive queue switches. The queue
//! itself, with its contention measurements, belongs to the runtime.
use vstd::prelude::*;

verus! {

/// Queue strategy for the adaptive queue.
#[derive(Clone, Copy, Debug, PartialEq, Eq, Structural)]
pub enum QueueStrategy {
    /// Mutex-based queue (lower overhead, best under low contention).
    Mutex,
    /// Lock-free queue (no lock contention, best under high contention).
    LockFree,
}

/// The strategy stored as `v`: 0 is `Mutex`, anything else `LockFree`.
pub open spec fn strategy_of(v: u8) -> QueueStrategy {
    if v == 0 { QueueStrategy::Mutex } else { QueueStrategy::LockFree }
}

/// The number under which a strategy is stored.
pub open spec fn strategy_code(s: QueueStrategy) -> u8 {
    match s {
        QueueStrategy::Mutex => 0,
        QueueStrategy::LockFree => 1,
    }
}

impl From<u8> for QueueStrategy {
    fn from(value: u8) -> (s: Self) {
        if value == 0 { QueueStrategy::Mutex } else { QueueStrategy::LockFree }
    }
}

impl vstd::std_specs::convert::FromSpecImpl<u8> for QueueStrategy {
    open spec fn obeys_from_spec() -> bool {
        true
    }

    open spec fn from_spec(v: u8) -> QueueStrategy {
        strategy_of(v)
    }
}

impl From<QueueStrategy> for u8 {
    fn from(value: QueueStrategy) -> (v: Self) {
        match value {
            QueueStrategy::Mutex => 0,
            QueueStrategy::LockFree => 1,
        }
    }
}

impl vstd::std_specs::convert::FromSpecImpl<QueueStrategy> for u8 {
    open spec fn obeys_from_spec() -> bool {
        true
    }

    open spec fn from_spec(v: QueueStrategy) -> u8 {
        strategy_code(v)
    }
}

/// Storing a strategy and reading it back gives the same strategy.
pub proof fn lemma_strategy_round_trip(s: QueueStrategy)
    ensures
        strategy_of(strategy_code(s)) == s,
{
}

} // verus!
