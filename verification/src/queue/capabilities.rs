//! Queue capabilities, queue errors and the job queue trait.
use vstd::prelude::*;
use vstd::string::*;
use crate::core_types::job::BoxedJob;
use crate::core_types::priority::Priority;
use crate::text::{decimal, decimal_text, join, joined, views};

verus! {

/// A set of queue capability flags. Each named variant is the set of one
/// flag; `Bits` holds any set by its bits. Two values are equal when they
/// hold the same flags.
#[derive(Clone, Copy, Debug)]
#[allow(non_camel_case_types)]
pub enum CapabilityFlags {
    /// Require a bounded queue.
    BOUNDED,
    /// Require an unbounded queue.
    UNBOUNDED,
    /// Require lock-free operations.
    LOCK_FREE,
    /// Require wait-free operations.
    WAIT_FREE,
    /// Require priority scheduling.
    PRIORITY,
    /// Require exact size reporting.
    EXACT_SIZE,
    /// Require multi-producer multi-consumer support.
    MPMC,
    /// Require single-producer single-consumer optimization.
    SPSC,
    /// Require blocking operations.
    BLOCKING,
    /// Require timeout operations.
    TIMEOUT,
    /// Require adaptive behavior.
    ADAPTIVE,
    /// Any set of flags, by its bits.
    Bits(u32),
}

/// The bits of a flag set.
pub open spec fn flag_bits(f: CapabilityFlags) -> u32 {
    match f {
        CapabilityFlags::BOUNDED => 1,
        CapabilityFlags::UNBOUNDED => 2,
        CapabilityFlags::LOCK_FREE => 4,
        CapabilityFlags::WAIT_FREE => 8,
        CapabilityFlags::PRIORITY => 16,
        CapabilityFlags::EXACT_SIZE => 32,
        CapabilityFlags::MPMC => 64,
        CapabilityFlags::SPSC => 128,
        CapabilityFlags::BLOCKING => 256,
        CapabilityFlags::TIMEOUT => 512,
        CapabilityFlags::ADAPTIVE => 1024,
        CapabilityFlags::Bits(b) => b,
    }
}

impl CapabilityFlags {
    /// Whether every flag of `other` is in this set.
    pub open spec fn has(self, other: CapabilityFlags) -> bool {
        flag_bits(self) & flag_bits(other) == flag_bits(other)
    }

    /// The bits of the set.
    pub fn bits(&self) -> (b: u32)
        ensures
            b == flag_bits(*self),
    {
        match self {
            CapabilityFlags::BOUNDED => 1,
            CapabilityFlags::UNBOUNDED => 2,
            CapabilityFlags::LOCK_FREE => 4,
            CapabilityFlags::WAIT_FREE => 8,
            CapabilityFlags::PRIORITY => 16,
            CapabilityFlags::EXACT_SIZE => 32,
            CapabilityFlags::MPMC => 64,
            CapabilityFlags::SPSC => 128,
            CapabilityFlags::BLOCKING => 256,
            CapabilityFlags::TIMEOUT => 512,
            CapabilityFlags::ADAPTIVE => 1024,
            CapabilityFlags::Bits(b) => *b,
        }
    }

    /// The empty set.
    pub fn empty() -> (f: Self)
        ensures
            flag_bits(f) == 0,
    {
        CapabilityFlags::Bits(0)
    }

    /// Whether every flag of `other` is in this set.
    pub fn contains(&self, other: CapabilityFlags) -> (b: bool)
        ensures
            b == self.has(other),
    {
        let o = other.bits();
        self.bits() & o == o
    }

    /// The union of two sets.
    pub fn union(self, other: CapabilityFlags) -> (f: Self)
        ensures
            f == CapabilityFlags::Bits(flag_bits(self) | flag_bits(other)),
    {
        CapabilityFlags::Bits(self.bits() | other.bits())
    }
}

impl std::ops::BitOr for CapabilityFlags {
    type Output = CapabilityFlags;

    fn bitor(self, other: CapabilityFlags) -> (f: CapabilityFlags) {
        self.union(other)
    }
}

impl vstd::std_specs::ops::BitOrSpecImpl for CapabilityFlags {
    open spec fn obeys_bitor_spec() -> bool {
        true
    }

    open spec fn bitor_req(self, rhs: CapabilityFlags) -> bool {
        true
    }

    open spec fn bitor_spec(self, rhs: CapabilityFlags) -> CapabilityFlags {
        CapabilityFlags::Bits(flag_bits(self) | flag_bits(rhs))
    }
}

impl PartialEq for CapabilityFlags {
    fn eq(&self, other: &Self) -> (b: bool) {
        self.bits() == other.bits()
    }
}

impl vstd::std_specs::cmp::PartialEqSpecImpl for CapabilityFlags {
    open spec fn obeys_eq_spec() -> bool {
        true
    }

    open spec fn eq_spec(&self, other: &CapabilityFlags) -> bool {
        flag_bits(*self) == flag_bits(*other)
    }
}

impl Eq for CapabilityFlags {
}

/// Capabilities of a queue implementation.
#[derive(Clone, Copy, Debug, PartialEq, Eq)]
pub struct QueueCapabilities {
    /// Whether the queue has a maximum capacity.
    pub is_bounded: bool,
    /// Maximum capacity if bounded.
    pub capacity: Option<usize>,
    /// Whether the queue uses lock-free algorithms.
    pub is_lock_free: bool,
    /// Whether operations are wait-free.
    pub is_wait_free: bool,
    /// Whether the queue supports priority ordering.
    pub supports_priority: bool,
    /// Whether `len()` is exact.
    pub exact_size: bool,
    /// Whether the queue supports multiple producers and consumers.
    pub mpmc: bool,
    /// Whether the queue is optimized for one producer and one consumer.
    pub spsc: bool,
    /// Whether the queue supports blocking operations.
    pub supports_blocking: bool,
    /// Whether the queue supports timeout operations.
    pub supports_timeout: bool,
    /// Whether the queue uses adaptive strategies.
    pub is_adaptive: bool,
    /// Queue implementation name.
    pub implementation_name: &'static str,
}

impl Default for QueueCapabilities {
    fn default() -> (c: Self)
        ensures
            !c.is_bounded && c.capacity.is_none() && c.is_lock_free && !c.is_wait_free,
            !c.supports_priority && !c.exact_size && c.mpmc && !c.spsc,
            c.supports_blocking && c.supports_timeout && !c.is_adaptive,
            c.implementation_name@ == "unknown"@,
    {
        QueueCapabilities {
            is_bounded: false,
            capacity: None,
            is_lock_free: true,
            is_wait_free: false,
            supports_priority: false,
            exact_size: false,
            mpmc: true,
            spsc: false,
            supports_blocking: true,
            supports_timeout: true,
            is_adaptive: false,
            implementation_name: "unknown",
        }
    }
}

/// Whether `caps` has every capability in `flags`.
pub open spec fn satisfied(caps: QueueCapabilities, flags: CapabilityFlags) -> bool {
    &&& flags.has(CapabilityFlags::BOUNDED) ==> caps.is_bounded
    &&& flags.has(CapabilityFlags::UNBOUNDED) ==> !caps.is_bounded
    &&& flags.has(CapabilityFlags::LOCK_FREE) ==> caps.is_lock_free
    &&& flags.has(CapabilityFlags::WAIT_FREE) ==> caps.is_wait_free
    &&& flags.has(CapabilityFlags::PRIORITY) ==> caps.supports_priority
    &&& flags.has(CapabilityFlags::EXACT_SIZE) ==> caps.exact_size
    &&& flags.has(CapabilityFlags::MPMC) ==> caps.mpmc
    &&& flags.has(CapabilityFlags::SPSC) ==> caps.spsc
    &&& flags.has(CapabilityFlags::BLOCKING) ==> caps.supports_blocking
    &&& flags.has(CapabilityFlags::TIMEOUT) ==> caps.supports_timeout
    &&& flags.has(CapabilityFlags::ADAPTIVE) ==> caps.is_adaptive
}

/// The size word of a capability description.
pub open spec fn size_words(c: QueueCapabilities) -> Seq<Seq<char>> {
    if c.is_bounded {
        match c.capacity {
            Some(n) => seq!["bounded("@ + decimal_text(n as nat) + ")"@],
            None => seq!["bounded"@],
        }
    } else {
        seq!["unbounded"@]
    }
}

/// The progress-guarantee word of a capability description, if any.
pub open spec fn progress_words(c: QueueCapabilities) -> Seq<Seq<char>> {
    if c.is_wait_free {
        seq!["wait-free"@]
    } else if c.is_lock_free {
        seq!["lock-free"@]
    } else {
        Seq::empty()
    }
}

/// The producer/consumer word of a capability description, if any.
pub open spec fn producer_words(c: QueueCapabilities) -> Seq<Seq<char>> {
    if c.mpmc {
        seq!["mpmc"@]
    } else if c.spsc {
        seq!["spsc"@]
    } else {
        Seq::empty()
    }
}

/// The feature words of a capability description, in order.
pub open spec fn feature_words(c: QueueCapabilities) -> Seq<Seq<char>> {
    size_words(c) + progress_words(c) + word_if(c.supports_priority, "priority"@)
        + word_if(c.is_adaptive, "adaptive"@) + producer_words(c) + word_if(c.exact_size, "exact-size"@)
}

/// The description of a queue's capabilities.
pub open spec fn description(c: QueueCapabilities) -> Seq<char> {
    c.implementation_name@ + ": ["@ + joined(feature_words(c), ", "@) + "]"@
}

/// `seq![w]` when `cond` holds, else nothing.
pub open spec fn word_if(cond: bool, w: Seq<char>) -> Seq<Seq<char>> {
    if cond { seq![w] } else { Seq::empty() }
}

fn push_word(words: &mut Vec<String>, w: &str)
    ensures
        views(final(words)@) == views(old(words)@).push(w@),
{
    words.push(String::from_str(w));
    proof {
        assert(views(final(words)@) =~= views(old(words)@).push(w@));
    }
}

fn push_if(words: &mut Vec<String>, cond: bool, w: &str)
    ensures
        views(final(words)@) == views(old(words)@) + word_if(cond, w@),
{
    if cond {
        push_word(words, w);
        proof { assert(views(final(words)@) =~= views(old(words)@) + word_if(cond, w@)); }
    } else {
        proof { assert(views(final(words)@) =~= views(old(words)@) + word_if(cond, w@)); }
    }
}

impl QueueCapabilities {
    /// Capabilities of an unbounded channel queue.
    pub fn unbounded_channel() -> (c: Self)
        ensures
            !c.is_bounded && c.capacity.is_none() && c.is_lock_free && !c.is_wait_free,
            !c.supports_priority && !c.exact_size && c.mpmc && !c.spsc,
            c.supports_blocking && c.supports_timeout && !c.is_adaptive,
            c.implementation_name@ == "crossbeam::channel::unbounded"@,
    {
        QueueCapabilities {
            is_bounded: false,
            capacity: None,
            is_lock_free: true,
            is_wait_free: false,
            supports_priority: false,
            exact_size: false,
            mpmc: true,
            spsc: false,
            supports_blocking: true,
            supports_timeout: true,
            is_adaptive: false,
            implementation_name: "crossbeam::channel::unbounded",
        }
    }

    /// Capabilities of a bounded channel queue.
    pub fn bounded_channel(capacity: usize) -> (c: Self)
        ensures
            c.is_bounded && c.capacity == Some(capacity) && c.is_lock_free && !c.is_wait_free,
            !c.supports_priority && !c.exact_size && c.mpmc && !c.spsc,
            c.supports_blocking && c.supports_timeout && !c.is_adaptive,
            c.implementation_name@ == "crossbeam::channel::bounded"@,
    {
        QueueCapabilities {
            is_bounded: true,
            capacity: Some(capacity),
            is_lock_free: true,
            is_wait_free: false,
            supports_priority: false,
            exact_size: false,
            mpmc: true,
            spsc: false,
            supports_blocking: true,
            supports_timeout: true,
            is_adaptive: false,
            implementation_name: "crossbeam::channel::bounded",
        }
    }

    /// Capabilities of a priority queue.
    pub fn priority_queue(capacity: Option<usize>) -> (c: Self)
        ensures
            c.is_bounded == capacity.is_some() && c.capacity == capacity,
            !c.is_lock_free && !c.is_wait_free,
            c.supports_priority && c.exact_size && c.mpmc && !c.spsc,
            c.supports_blocking && c.supports_timeout && !c.is_adaptive,
            c.implementation_name@ == "PriorityJobQueue"@,
    {
        QueueCapabilities {
            is_bounded: capacity.is_some(),
            capacity,
            is_lock_free: false,
            is_wait_free: false,
            supports_priority: true,
            exact_size: true,
            mpmc: true,
            spsc: false,
            supports_blocking: true,
            supports_timeout: true,
            is_adaptive: false,
            implementation_name: "PriorityJobQueue",
        }
    }

    /// Capabilities of an adaptive queue.
    pub fn adaptive() -> (c: Self)
        ensures
            !c.is_bounded && c.capacity.is_none() && !c.is_lock_free && !c.is_wait_free,
            !c.supports_priority && !c.exact_size && c.mpmc && !c.spsc,
            c.supports_blocking && c.supports_timeout && c.is_adaptive,
            c.implementation_name@ == "AdaptiveQueue"@,
    {
        QueueCapabilities {
            is_bounded: false,
            capacity: None,
            is_lock_free: false,
            is_wait_free: false,
            supports_priority: false,
            exact_size: false,
            mpmc: true,
            spsc: false,
            supports_blocking: true,
            supports_timeout: true,
            is_adaptive: true,
            implementation_name: "AdaptiveQueue",
        }
    }

    /// A human-readable description of the capabilities, such as
    /// `"crossbeam::channel::unbounded: [unbounded, lock-free, mpmc]"`.
    pub fn describe(&self) -> (s: String)
        ensures
            s@ == description(*self),
    {
        let words = self.feature_list();
        let mut s = String::from_str(self.implementation_name);
        s.append(": [");
        s.append(join(&words, ", ").as_str());
        s.append("]");
        s
    }

    fn feature_list(&self) -> (words: Vec<String>)
        ensures
            views(words@) == feature_words(*self),
    {
        let mut words: Vec<String> = Vec::new();
        self.push_size(&mut words);
        self.push_progress(&mut words);
        push_if(&mut words, self.supports_priority, "priority");
        push_if(&mut words, self.is_adaptive, "adaptive");
        self.push_producers(&mut words);
        push_if(&mut words, self.exact_size, "exact-size");
        proof {
            assert(views(words@) =~= feature_words(*self));
        }
        words
    }

    fn push_size(&self, words: &mut Vec<String>)
        ensures
            views(final(words)@) == views(old(words)@) + size_words(*self),
    {
        if self.is_bounded {
            match self.capacity {
                Some(n) => {
                    let mut w = String::from_str("bounded(");
                    w.append(decimal(n as u64).as_str());
                    w.append(")");
                    words.push(w);
                    proof {
                        assert(views(final(words)@) =~= views(old(words)@) + size_words(*self));
                    }
                },
                None => {
                    push_word(words, "bounded");
                    proof {
                        assert(views(final(words)@) =~= views(old(words)@) + size_words(*self));
                    }
                },
            }
        } else {
            push_word(words, "unbounded");
            proof {
                assert(views(final(words)@) =~= views(old(words)@) + size_words(*self));
            }
        }
    }

    fn push_progress(&self, words: &mut Vec<String>)
        ensures
            views(final(words)@) == views(old(words)@) + progress_words(*self),
    {
        if self.is_wait_free {
            push_word(words, "wait-free");
        } else if self.is_lock_free {
            push_word(words, "lock-free");
        }
        proof {
            assert(views(final(words)@) =~= views(old(words)@) + progress_words(*self));
        }
    }

    fn push_producers(&self, words: &mut Vec<String>)
        ensures
            views(final(words)@) == views(old(words)@) + producer_words(*self),
    {
        if self.mpmc {
            push_word(words, "mpmc");
        } else if self.spsc {
            push_word(words, "spsc");
        }
        proof {
            assert(views(final(words)@) =~= views(old(words)@) + producer_words(*self));
        }
    }

    /// Whether these capabilities include every flag of `flags`.
    pub fn satisfies(&self, flags: CapabilityFlags) -> (b: bool)
        ensures
            b == satisfied(*self, flags),
    {
        if flags.contains(CapabilityFlags::BOUNDED) && !self.is_bounded {
            return false;
        }
        if flags.contains(CapabilityFlags::UNBOUNDED) && self.is_bounded {
            return false;
        }
        if flags.contains(CapabilityFlags::LOCK_FREE) && !self.is_lock_free {
            return false;
        }
        if flags.contains(CapabilityFlags::WAIT_FREE) && !self.is_wait_free {
            return false;
        }
        if flags.contains(CapabilityFlags::PRIORITY) && !self.supports_priority {
            return false;
        }
        if flags.contains(CapabilityFlags::EXACT_SIZE) && !self.exact_size {
            return false;
        }
        if flags.contains(CapabilityFlags::MPMC) && !self.mpmc {
            return false;
        }
        if flags.contains(CapabilityFlags::SPSC) && !self.spsc {
            return false;
        }
        if flags.contains(CapabilityFlags::BLOCKING) && !self.supports_blocking {
            return false;
        }
        if flags.contains(CapabilityFlags::TIMEOUT) && !self.supports_timeout {
            return false;
        }
        if flags.contains(CapabilityFlags::ADAPTIVE) && !self.is_adaptive {
            return false;
        }
        true
    }
}

/// A holder for a job handed back by a failed queue operation.
pub struct BoxedJobHolder {
    /// The job, if the holder still has it.
    pub job: Option<BoxedJob>,
}

impl BoxedJobHolder {
    /// Create a holder with the given job.
    pub fn new(job: BoxedJob) -> (h: Self)
        ensures
            h.job == Some(job),
    {
        // Held through a one-element vector, whose `pop` is known to give
        // back the very job that was put in.
        let mut one = vec![job];
        BoxedJobHolder { job: one.pop() }
    }

    /// Take the job out of the holder.
    pub fn take(self) -> (j: Option<BoxedJob>)
        ensures
            j == self.job,
    {
        let BoxedJobHolder { job } = self;
        job
    }

    /// A reference to the job, if present.
    pub fn as_ref(&self) -> (j: Option<&BoxedJob>)
        ensures
            j.is_some() == self.job.is_some(),
            j matches Some(b) ==> *b == self.job.unwrap(),
    {
        self.job.as_ref()
    }
}

impl Clone for BoxedJobHolder {
    /// Jobs cannot be cloned: the clone is an empty holder.
    fn clone(&self) -> (h: Self)
        ensures
            h.job.is_none(),
    {
        BoxedJobHolder { job: None }
    }
}

impl PartialEq for BoxedJobHolder {
    fn eq(&self, other: &Self) -> (b: bool) {
        self.job.is_some() == other.job.is_some()
    }
}

impl vstd::std_specs::cmp::PartialEqSpecImpl for BoxedJobHolder {
    open spec fn obeys_eq_spec() -> bool {
        true
    }

    open spec fn eq_spec(&self, other: &BoxedJobHolder) -> bool {
        self.job.is_some() == other.job.is_some()
    }
}

impl Eq for BoxedJobHolder {
}

/// Errors of queue operations.
#[derive(Clone, PartialEq, Eq)]
pub enum QueueError {
    /// The queue is full (bounded queues).
    Full(BoxedJobHolder),
    /// The queue is closed and does not accept jobs.
    Closed(BoxedJobHolder),
    /// The queue is empty.
    Empty,
    /// The queue is closed and empty.
    Disconnected,
    /// The operation timed out.
    Timeout(BoxedJobHolder),
}

/// The message of a queue error.
pub open spec fn queue_error_text(e: QueueError) -> Seq<char> {
    match e {
        QueueError::Full(_) => "queue is full"@,
        QueueError::Closed(_) => "queue is closed"@,
        QueueError::Empty => "queue is empty"@,
        QueueError::Disconnected => "queue is disconnected"@,
        QueueError::Timeout(_) => "operation timed out"@,
    }
}

impl QueueError {
    /// The message of this error.
    pub fn to_string(&self) -> (s: String)
        ensures
            s@ == queue_error_text(*self),
    {
        match self {
            QueueError::Full(_) => String::from_str("queue is full"),
            QueueError::Closed(_) => String::from_str("queue is closed"),
            QueueError::Empty => String::from_str("queue is empty"),
            QueueError::Disconnected => String::from_str("queue is disconnected"),
            QueueError::Timeout(_) => String::from_str("operation timed out"),
        }
    }
}

/// Result type of queue operations.
pub type QueueResult<T> = std::result::Result<T, QueueError>;

/// A queue of jobs shared by producers and workers. Timeouts are in
/// milliseconds.
pub trait JobQueue: Send + Sync {
    /// The capabilities the queue reports.
    spec fn spec_capabilities(&self) -> QueueCapabilities;

    /// Whether `r` is a result that `send` can give.
    spec fn sends(&self, r: QueueResult<()>) -> bool;

    /// Whether `r` is a result that `try_send` can give.
    spec fn try_sends(&self, r: QueueResult<()>) -> bool;

    /// Whether `r` is a result that `send_timeout` with `timeout` can give.
    spec fn sends_within(&self, timeout: u64, r: QueueResult<()>) -> bool;

    /// Send a job, blocking while a bounded queue is full.
    fn send(&self, job: BoxedJob) -> (r: QueueResult<()>)
        ensures
            self.sends(r);

    /// Send a job without blocking.
    fn try_send(&self, job: BoxedJob) -> (r: QueueResult<()>)
        ensures
            self.try_sends(r);

    /// Send a job, waiting at most `timeout` milliseconds for space.
    fn send_timeout(&self, job: BoxedJob, timeout: u64) -> (r: QueueResult<()>)
        ensures
            self.sends_within(timeout, r);

    /// Receive a job, blocking until one is available.
    fn recv(&self) -> QueueResult<BoxedJob>;

    /// Receive a job without blocking.
    fn try_recv(&self) -> QueueResult<BoxedJob>;

    /// Receive a job, waiting at most `timeout` milliseconds.
    fn recv_timeout(&self, timeout: u64) -> QueueResult<BoxedJob>;

    /// Close the queue; jobs already queued can still be received.
    fn close(&self);

    /// Whether the queue has been closed.
    fn is_closed(&self) -> bool;

    /// The number of queued jobs (possibly approximate).
    fn len(&self) -> usize;

    /// Whether the queue is empty.
    fn is_empty(&self) -> bool {
        self.len() == 0
    }

    /// The capabilities of the queue.
    fn capabilities(&self) -> (c: QueueCapabilities)
        ensures
            c == self.spec_capabilities();

    /// Whether the queue has every capability in `flags`.
    fn supports(&self, flags: CapabilityFlags) -> (b: bool)
        ensures
            b == satisfied(self.spec_capabilities(), flags),
    {
        self.capabilities().satisfies(flags)
    }

    /// Send a job with a priority; a queue without priorities ignores it.
    fn send_with_priority(&self, job: BoxedJob, priority: Priority) -> QueueResult<()> {
        self.send(job)
    }

    /// Send a job with a priority without blocking.
    fn try_send_with_priority(&self, job: BoxedJob, priority: Priority) -> QueueResult<()> {
        self.try_send(job)
    }

    /// Send a job with a priority, waiting at most `timeout` milliseconds.
    fn send_with_priority_timeout(&self, job: BoxedJob, priority: Priority, timeout: u64) -> QueueResult<()> {
        self.send_timeout(job, timeout)
    }
}

/// The names of the flags of `required` that `actual` lacks, in flag order.
pub open spec fn missing_words(required: CapabilityFlags, actual: QueueCapabilities) -> Seq<Seq<char>> {
    missing_words_head(required, actual) + missing_words_tail(required, actual)
}

/// The missing-flag words for the flags from `BOUNDED` to `EXACT_SIZE`.
pub open spec fn missing_words_head(required: CapabilityFlags, actual: QueueCapabilities) -> Seq<Seq<char>> {
    word_if(required.has(CapabilityFlags::BOUNDED) && !actual.is_bounded, "bounded"@)
    + word_if(required.has(CapabilityFlags::UNBOUNDED) && actual.is_bounded, "unbounded"@)
    + word_if(required.has(CapabilityFlags::LOCK_FREE) && !actual.is_lock_free, "lock-free"@)
    + word_if(required.has(CapabilityFlags::WAIT_FREE) && !actual.is_wait_free, "wait-free"@)
    + word_if(required.has(CapabilityFlags::PRIORITY) && !actual.supports_priority, "priority"@)
    + word_if(required.has(CapabilityFlags::EXACT_SIZE) && !actual.exact_size, "exact-size"@)
}

/// The missing-flag words for the flags from `MPMC` to `ADAPTIVE`.
pub open spec fn missing_words_tail(required: CapabilityFlags, actual: QueueCapabilities) -> Seq<Seq<char>> {
    word_if(required.has(CapabilityFlags::MPMC) && !actual.mpmc, "mpmc"@)
    + word_if(required.has(CapabilityFlags::SPSC) && !actual.spsc, "spsc"@)
    + word_if(required.has(CapabilityFlags::BLOCKING) && !actual.supports_blocking, "blocking"@)
    + word_if(required.has(CapabilityFlags::TIMEOUT) && !actual.supports_timeout, "timeout"@)
    + word_if(required.has(CapabilityFlags::ADAPTIVE) && !actual.is_adaptive, "adaptive"@)
}

/// Error returned when a queue lacks required capabilities.
#[derive(Debug, Clone)]
pub struct MissingCapabilitiesError {
    /// The capabilities that were required.
    pub required: CapabilityFlags,
    /// The actual capabilities of the queue.
    pub actual: QueueCapabilities,
}

impl MissingCapabilitiesError {
    /// The message of this error, naming the missing capabilities.
    pub fn to_string(&self) -> (s: String)
        ensures
            s@ == "queue '"@ + self.actual.implementation_name@ + "' is missing required capabilities: ["@
                + joined(missing_words(self.required, self.actual), ", "@) + "]"@,
    {
        let a = self.actual;
        let mut words: Vec<String> = Vec::new();
        self.push_missing_head(&mut words);
        self.push_missing_tail(&mut words);
        proof {
            assert(views(words@) =~= missing_words(self.required, self.actual));
        }
        let mut s = String::from_str("queue '");
        s.append(a.implementation_name);
        s.append("' is missing required capabilities: [");
        s.append(join(&words, ", ").as_str());
        s.append("]");
        s
    }
}

impl MissingCapabilitiesError {
    fn push_missing_head(&self, words: &mut Vec<String>)
        ensures
            views(final(words)@) == views(old(words)@) + missing_words_head(self.required, self.actual),
    {
        let r = self.required;
        let a = self.actual;
        push_if(words, r.contains(CapabilityFlags::BOUNDED) && !a.is_bounded, "bounded");
        push_if(words, r.contains(CapabilityFlags::UNBOUNDED) && a.is_bounded, "unbounded");
        push_if(words, r.contains(CapabilityFlags::LOCK_FREE) && !a.is_lock_free, "lock-free");
        push_if(words, r.contains(CapabilityFlags::WAIT_FREE) && !a.is_wait_free, "wait-free");
        push_if(words, r.contains(CapabilityFlags::PRIORITY) && !a.supports_priority, "priority");
        push_if(words, r.contains(CapabilityFlags::EXACT_SIZE) && !a.exact_size, "exact-size");
        proof {
            assert(views(final(words)@) =~= views(old(words)@) + missing_words_head(r, a));
        }
    }

    fn push_missing_tail(&self, words: &mut Vec<String>)
        ensures
            views(final(words)@) == views(old(words)@) + missing_words_tail(self.required, self.actual),
    {
        let r = self.required;
        let a = self.actual;
        push_if(words, r.contains(CapabilityFlags::MPMC) && !a.mpmc, "mpmc");
        push_if(words, r.contains(CapabilityFlags::SPSC) && !a.spsc, "spsc");
        push_if(words, r.contains(CapabilityFlags::BLOCKING) && !a.supports_blocking, "blocking");
        push_if(words, r.contains(CapabilityFlags::TIMEOUT) && !a.supports_timeout, "timeout");
        push_if(words, r.contains(CapabilityFlags::ADAPTIVE) && !a.is_adaptive, "adaptive");
        proof {
            assert(views(final(words)@) =~= views(old(words)@) + missing_words_tail(r, a));
        }
    }
}

/// Check that a queue has the required capabilities.
pub fn require_capabilities<Q: JobQueue + ?Sized>(queue: &Q, flags: CapabilityFlags) -> (r: Result<(), MissingCapabilitiesError>)
    ensures
        r.is_ok() == satisfied(queue.spec_capabilities(), flags),
        r matches Err(e) ==> e.required == flags && e.actual == queue.spec_capabilities(),
{
    let caps = queue.capabilities();
    if caps.satisfies(flags) {
        Ok(())
    } else {
        Err(MissingCapabilitiesError { required: flags, actual: caps })
    }
}

/// For a single flag `f`, the union of two sets holds `f` exactly when one
/// of them does.
proof fn lemma_single_flag_union(a: u32, b: u32, f: u32)
    by (bit_vector)
    requires
        f == 1u32 || f == 2u32 || f == 4u32 || f == 8u32 || f == 16u32 || f == 32u32
            || f == 64u32 || f == 128u32 || f == 256u32 || f == 512u32 || f == 1024u32,
    ensures
        ((a | b) & f == f) == ((a & f == f) || (b & f == f)),
{
}

/// A queue has every capability of the union of two flag sets exactly when
/// it has every capability of each.
pub proof fn lemma_satisfied_union(caps: QueueCapabilities, a: CapabilityFlags, b: CapabilityFlags)
    ensures
        satisfied(caps, CapabilityFlags::Bits(flag_bits(a) | flag_bits(b)))
            == (satisfied(caps, a) && satisfied(caps, b)),
{
    let x = flag_bits(a);
    let y = flag_bits(b);
    lemma_single_flag_union(x, y, 1);
    lemma_single_flag_union(x, y, 2);
    lemma_single_flag_union(x, y, 4);
    lemma_single_flag_union(x, y, 8);
    lemma_single_flag_union(x, y, 16);
    lemma_single_flag_union(x, y, 32);
    lemma_single_flag_union(x, y, 64);
    lemma_single_flag_union(x, y, 128);
    lemma_single_flag_union(x, y, 256);
    lemma_single_flag_union(x, y, 512);
    lemma_single_flag_union(x, y, 1024);
}

/// Every queue has every capability of the empty flag set.
pub proof fn lemma_satisfied_empty(caps: QueueCapabilities)
    ensures
        satisfied(caps, CapabilityFlags::Bits(0)),
{
    assert(forall|f: u32| #![auto] (0u32 & f == f) ==> f == 0) by (bit_vector);
}

} // verus!
