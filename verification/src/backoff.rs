//! Backoff strategies for job retries.
//!
//! Durations are whole milliseconds; points in time are milliseconds on the
//! clock of `crate::clock`.
use vstd::prelude::*;
use crate::clock::now_millis;

verus! {

/// How long to wait before a retry, and how many retries to allow.
pub trait BackoffStrategy: Send + Sync {
    /// The backoff that `next_backoff` returns for `attempt`.
    spec fn spec_next_backoff(&self, attempt: u32) -> Option<u64>;

    /// The value that `max_attempts` returns.
    spec fn spec_max_attempts(&self) -> u32;

    /// The wait in milliseconds before retry number `attempt` (counted from
    /// 1), or `None` when no more retries should be made.
    fn next_backoff(&self, attempt: u32) -> (r: Option<u64>)
        requires
            attempt >= 1,
        ensures
            r == self.spec_next_backoff(attempt);

    /// The maximum number of retries the strategy allows.
    fn max_attempts(&self) -> (r: u32)
        ensures
            r == self.spec_max_attempts();

    /// Reset the internal state of the strategy, if any. The waits and the
    /// limit the strategy gives stay as they are.
    fn reset(&mut self)
        ensures
            forall|a: u32| #[trigger] final(self).spec_next_backoff(a) == old(self).spec_next_backoff(a),
            final(self).spec_max_attempts() == old(self).spec_max_attempts(),
    {
    }
}


/// A strategy that always waits the same time between retries.
#[derive(Debug, Clone, Copy)]
pub struct ConstantBackoff {
    /// The wait between retries, in milliseconds.
    pub duration: u64,
    /// The maximum number of retries.
    pub max_retry_count: u32,
}

impl ConstantBackoff {
    /// Create a constant backoff strategy.
    pub fn new(duration: u64, max_retry_count: u32) -> (b: Self)
        ensures
            b.duration == duration,
            b.max_retry_count == max_retry_count,
    {
        ConstantBackoff { duration, max_retry_count }
    }
}

impl BackoffStrategy for ConstantBackoff {
    open spec fn spec_next_backoff(&self, attempt: u32) -> Option<u64> {
        if attempt <= self.max_retry_count { Some(self.duration) } else { None }
    }

    open spec fn spec_max_attempts(&self) -> u32 {
        self.max_retry_count
    }

    fn next_backoff(&self, attempt: u32) -> (r: Option<u64>) {
        if attempt <= self.max_retry_count {
            Some(self.duration)
        } else {
            None
        }
    }


    fn max_attempts(&self) -> (r: u32) {
        self.max_retry_count
    }
}

/// `initial + increment * (attempt - 1)`, capped at `u64::MAX` milliseconds.
pub open spec fn linear_wait(initial: u64, increment: u64, attempt: u32) -> u64 {
    let w = initial + increment * (attempt - 1);
    if w > u64::MAX { u64::MAX } else { w as u64 }
}

/// The linear wait never shrinks from one retry to a later one.
pub proof fn lemma_linear_wait_monotone(initial: u64, increment: u64, a: u32, b: u32)
    requires
        1 <= a <= b,
    ensures
        linear_wait(initial, increment, a) <= linear_wait(initial, increment, b),
{
    assert(increment * (a - 1) <= increment * (b - 1)) by (nonlinear_arith)
        requires
            1 <= a <= b,
    ;
}

/// A strategy whose wait grows linearly with the attempt number.
#[derive(Debug, Clone, Copy)]
pub struct LinearBackoff {
    /// The wait before the first retry, in milliseconds.
    pub initial_duration: u64,
    /// The growth of the wait per retry, in milliseconds.
    pub increment: u64,
    /// The maximum number of retries.
    pub max_retry_count: u32,
}

impl LinearBackoff {
    /// Create a linear backoff strategy.
    pub fn new(initial_duration: u64, increment: u64, max_retry_count: u32) -> (b: Self)
        ensures
            b.initial_duration == initial_duration,
            b.increment == increment,
            b.max_retry_count == max_retry_count,
    {
        LinearBackoff { initial_duration, increment, max_retry_count }
    }
}

impl BackoffStrategy for LinearBackoff {
    open spec fn spec_next_backoff(&self, attempt: u32) -> Option<u64> {
        if attempt <= self.max_retry_count {
            Some(linear_wait(self.initial_duration, self.increment, attempt))
        } else {
            None
        }
    }

    open spec fn spec_max_attempts(&self) -> u32 {
        self.max_retry_count
    }

    fn next_backoff(&self, attempt: u32) -> (r: Option<u64>) {
        if attempt <= self.max_retry_count {
            let multiplier: u32 = attempt - 1;
            let inc = self.increment as u128;
            let m = multiplier as u128;
            assert(inc * m <= 0xffff_ffff_ffff_ffffu128 * 0xffff_ffffu128) by (nonlinear_arith)
                requires
                    inc <= 0xffff_ffff_ffff_ffffu128,
                    m <= 0xffff_ffffu128,
            ;
            let w: u128 = self.initial_duration as u128 + inc * m;
            if w > u64::MAX as u128 {
                Some(u64::MAX)
            } else {
                Some(w as u64)
            }
        } else {
            None
        }
    }


    fn max_attempts(&self) -> (r: u32) {
        self.max_retry_count
    }
}

/// The retry counts of a list of strategies.
pub open spec fn attempt_counts(strategies: Seq<Box<dyn BackoffStrategy>>) -> Seq<int> {
    strategies.map_values(|s: Box<dyn BackoffStrategy>| s.spec_max_attempts() as int)
}

/// The sum of the first `n` numbers of `counts`.
pub open spec fn prefix_sum(counts: Seq<int>, n: int) -> int
    decreases n,
{
    if n <= 0 { 0 } else { prefix_sum(counts, n - 1) + counts[n - 1] }
}

/// Prefix sums of non-negative numbers grow with the length of the prefix.
pub proof fn lemma_prefix_sum_monotone(counts: Seq<int>, a: int, b: int)
    requires
        0 <= a <= b <= counts.len(),
        forall|k: int| 0 <= k < counts.len() ==> counts[k] >= 0,
    ensures
        prefix_sum(counts, a) <= prefix_sum(counts, b),
    decreases b - a,
{
    if a < b {
        lemma_prefix_sum_monotone(counts, a, b - 1);
    }
}

/// The index of the first phase whose cumulative count reaches `attempt`.
pub open spec fn phase_of(cumulative: Seq<u32>, attempt: u32) -> Option<int> {
    if exists|i: int| 0 <= i < cumulative.len() && attempt <= cumulative[i] {
        Some(choose|i: int| 0 <= i < cumulative.len() && attempt <= cumulative[i]
            && forall|k: int| 0 <= k < i ==> cumulative[k] < attempt)
    } else {
        None
    }
}

/// Where some cumulative count reaches `attempt`, a first one does.
proof fn lemma_first_reaching(cumulative: Seq<u32>, attempt: u32, j: int)
    requires
        0 <= j < cumulative.len(),
        attempt <= cumulative[j],
    ensures
        exists|i: int| 0 <= i < cumulative.len() && attempt <= cumulative[i]
            && forall|k: int| 0 <= k < i ==> cumulative[k] < attempt,
    decreases j,
{
    if exists|k: int| 0 <= k < j && attempt <= cumulative[k] {
        let k = choose|k: int| 0 <= k < j && attempt <= cumulative[k];
        lemma_first_reaching(cumulative, attempt, k);
    } else {
        assert(forall|k: int| 0 <= k < j ==> cumulative[k] < attempt);
    }
}

/// The phase of an attempt, where there is one, is an index of the phases.
pub proof fn lemma_phase_of_bounds(cumulative: Seq<u32>, attempt: u32)
    ensures
        phase_of(cumulative, attempt) matches Some(i) ==> 0 <= i < cumulative.len(),
{
    if exists|j: int| 0 <= j < cumulative.len() && attempt <= cumulative[j] {
        let j = choose|j: int| 0 <= j < cumulative.len() && attempt <= cumulative[j];
        lemma_first_reaching(cumulative, attempt, j);
    }
}

/// The cumulative count before phase `i`.
pub open spec fn before_phase(cumulative: Seq<u32>, i: int) -> u32 {
    if i == 0 { 0 } else { cumulative[i - 1] }
}

/// In a nondecreasing sequence, the phase of an attempt is the first index
/// whose cumulative count reaches it.
pub proof fn lemma_phase_of_first(cumulative: Seq<u32>, attempt: u32, i: int)
    requires
        0 <= i < cumulative.len(),
        attempt <= cumulative[i],
        forall|k: int| 0 <= k < i ==> cumulative[k] < attempt,
    ensures
        phase_of(cumulative, attempt) == Some(i),
{
    let p = choose|j: int| 0 <= j < cumulative.len() && attempt <= cumulative[j]
        && forall|k: int| 0 <= k < j ==> cumulative[k] < attempt;
    assert(0 <= p < cumulative.len() && attempt <= cumulative[p]
        && forall|k: int| 0 <= k < p ==> cumulative[k] < attempt);
    if p < i {
        assert(cumulative[p] < attempt);
    } else if p > i {
        assert(cumulative[i] < attempt);
    }
}

/// One phase of a composite strategy: the strategy and the cumulative
/// number of retries up to and including this phase.
struct Phase {
    strategy: Box<dyn BackoffStrategy>,
    cumulative: u32,
}

/// The wait for `attempt` of strategies run one after the other, where
/// `cumulative` holds the cumulative retry counts of the phases: the wait
/// its phase's strategy gives for the attempt counted from the phase's start.
pub open spec fn phased_wait(strategies: Seq<Box<dyn BackoffStrategy>>, cumulative: Seq<u32>, attempt: u32) -> Option<u64> {
    match phase_of(cumulative, attempt) {
        Some(i) => strategies[i].spec_next_backoff((attempt - before_phase(cumulative, i)) as u32),
        None => None,
    }
}

/// Whether two phases have the same cumulative count and their strategies
/// give the same waits.
spec fn same_waits(p: Phase, q: Phase) -> bool {
    &&& p.cumulative == q.cumulative
    &&& forall|a: u32| #[trigger] p.strategy.spec_next_backoff(a) == q.strategy.spec_next_backoff(a)
}

/// A strategy that runs several strategies one after the other: the first
/// for its retries, then the next one, and so on.
pub struct CompositeBackoff {
    phases: Vec<Phase>,
}

impl CompositeBackoff {
    #[verifier::type_invariant]
    spec fn cumulative_nondecreasing(self) -> bool {
        forall|i: int, j: int| 0 <= i <= j < self.phases@.len()
            ==> self.phases@[i].cumulative <= self.phases@[j].cumulative
    }

    /// The cumulative retry counts of the phases.
    pub closed spec fn cumulative(self) -> Seq<u32> {
        self.phases@.map_values(|p: Phase| p.cumulative)
    }

    /// Create a composite strategy from a sequence of strategies.
    pub fn new(strategies: Vec<Box<dyn BackoffStrategy>>) -> (b: Self)
        requires
            prefix_sum(attempt_counts(strategies@), strategies@.len() as int) <= u32::MAX,
        ensures
            b.cumulative().len() == strategies@.len(),
            forall|i: int| 0 <= i < strategies@.len() ==>
                b.cumulative()[i] == prefix_sum(attempt_counts(strategies@), i + 1),
            b.spec_max_attempts() == prefix_sum(attempt_counts(strategies@), strategies@.len() as int),
            forall|a: u32| #[trigger] b.spec_next_backoff(a) == phased_wait(strategies@, b.cumulative(), a),
    {
        let ghost counts = attempt_counts(strategies@);
        let ghost n = strategies@.len();
        let mut rest = strategies;
        // Take the strategies off the end, recording each retry count.
        let mut reversed: Vec<(Box<dyn BackoffStrategy>, u32)> = Vec::new();
        while rest.len() > 0
            invariant
                rest@.len() + reversed@.len() == n,
                counts.len() == n,
                forall|k: int| 0 <= k < rest@.len() ==> counts[k] == rest@[k].spec_max_attempts() as int,
                forall|k: int| 0 <= k < reversed@.len() ==> counts[n - 1 - k] == reversed@[k].1 as int,
                forall|k: int| 0 <= k < rest@.len() ==> rest@[k] == strategies@[k],
                forall|k: int| 0 <= k < reversed@.len() ==> reversed@[k].0 == strategies@[n - 1 - k],
            decreases rest.len(),
        {
            let ghost before = rest@;
            let s = rest.pop().unwrap();
            proof { assert(s == before.last()); }
            let m = s.max_attempts();
            let entry = (s, m);
            reversed.push(entry);
        }
        proof {
            assert forall|a: int, b: int| 0 <= a <= b <= n
                implies prefix_sum(counts, a) <= prefix_sum(counts, b) by {
                lemma_prefix_sum_monotone(counts, a, b);
            }
        }
        // Put them back in order, accumulating the counts.
        let mut phases: Vec<Phase> = Vec::new();
        let mut sum: u32 = 0;
        while reversed.len() > 0
            invariant
                phases@.len() + reversed@.len() == n,
                counts.len() == n,
                forall|k: int| 0 <= k < counts.len() ==> counts[k] >= 0,
                forall|k: int| 0 <= k < reversed@.len() ==> counts[n - 1 - k] == reversed@[k].1 as int,
                sum == prefix_sum(counts, phases@.len() as int),
                prefix_sum(counts, n as int) <= u32::MAX,
                forall|a: int, b: int| 0 <= a <= b <= n ==> prefix_sum(counts, a) <= prefix_sum(counts, b),
                forall|k: int| 0 <= k < phases@.len() ==> phases@[k].cumulative == prefix_sum(counts, k + 1),
                forall|k: int| 0 <= k < reversed@.len() ==> reversed@[k].0 == strategies@[n - 1 - k],
                forall|k: int| 0 <= k < phases@.len() ==> phases@[k].strategy == strategies@[k],
            decreases reversed.len(),
        {
            let ghost i = phases@.len() as int;
            let ghost before = reversed@;
            let (mut s, m) = reversed.pop().unwrap();
            proof {
                assert(before.last() == (s, m));
                assert(counts[i] == m as int);
            }
            assert(prefix_sum(counts, i + 1) == prefix_sum(counts, i) + counts[i]);
            assert(prefix_sum(counts, i + 1) <= prefix_sum(counts, n as int));
            sum = sum + m;
            // The strategy is moved into its phase by a swap, so that the
            // phase holds the very value it was given.
            let mut phase = Phase { strategy: Box::new(ConstantBackoff { duration: 0, max_retry_count: 0 }), cumulative: sum };
            std::mem::swap(&mut phase.strategy, &mut s);
            phases.push(phase);
        }
        proof {
            assert forall|i: int, j: int| 0 <= i <= j < phases@.len()
                implies phases@[i].cumulative <= phases@[j].cumulative by {
                lemma_prefix_sum_monotone(counts, i + 1, j + 1);
            }
        }
        let b = CompositeBackoff { phases };
        proof {
            assert(b.cumulative() =~= phases@.map_values(|p: Phase| p.cumulative));
            b.lemma_waits_of(strategies@);
            if n > 0 {
                assert(b.cumulative()[n - 1] == prefix_sum(counts, n as int));
            }
        }
        b
    }

    /// The waits of a composite strategy whose phases hold `strategies`.
    proof fn lemma_waits_of(self, strategies: Seq<Box<dyn BackoffStrategy>>)
        requires
            self.phases@.len() == strategies.len(),
            forall|k: int| 0 <= k < strategies.len() ==> self.phases@[k].strategy == strategies[k],
        ensures
            forall|a: u32| #[trigger] self.spec_next_backoff(a) == phased_wait(strategies, self.cumulative(), a),
    {
        assert forall|a: u32| #[trigger] self.spec_next_backoff(a) == phased_wait(strategies, self.cumulative(), a) by {
            lemma_phase_of_bounds(self.cumulative(), a);
        }
    }
}

impl BackoffStrategy for CompositeBackoff {
    closed spec fn spec_next_backoff(&self, attempt: u32) -> Option<u64> {
        match phase_of(self.cumulative(), attempt) {
            Some(i) => self.phases@[i].strategy.spec_next_backoff(
                (attempt - before_phase(self.cumulative(), i)) as u32),
            None => None,
        }
    }

    closed spec fn spec_max_attempts(&self) -> u32 {
        if self.phases@.len() == 0 { 0 } else { self.phases@.last().cumulative }
    }

    fn next_backoff(&self, attempt: u32) -> (r: Option<u64>) {
        proof { use_type_invariant(self); }
        let ghost c = self.cumulative();
        if self.phases.len() == 0 || attempt == 0 {
            proof {
                assert(!(exists|i: int| 0 <= i < c.len() && attempt <= c[i]));
            }
            return None;
        }
        let mut prev_cum: u32 = 0;
        let mut i: usize = 0;
        while i < self.phases.len()
            invariant
                c == self.cumulative(),
                c.len() == self.phases@.len(),
                forall|a: int, b: int| 0 <= a <= b < c.len() ==> c[a] <= c[b],
                i <= self.phases.len(),
                attempt >= 1,
                forall|k: int| 0 <= k < i ==> c[k] < attempt,
                prev_cum == before_phase(c, i as int),
                prev_cum < attempt,
            decreases self.phases.len() - i,
        {
            let cum = self.phases[i].cumulative;
            assert(cum == c[i as int]);
            if attempt <= cum {
                let adjusted: u32 = attempt - prev_cum;
                proof { lemma_phase_of_first(c, attempt, i as int); }
                return self.phases[i].strategy.next_backoff(adjusted);
            }
            prev_cum = cum;
            i = i + 1;
        }
        proof {
            assert(!(exists|k: int| 0 <= k < c.len() && attempt <= c[k]));
        }
        None
    }

    /// Resets every phase's strategy; the phases and their attempt limits stay.
    fn reset(&mut self)
        ensures
            final(self).cumulative() == old(self).cumulative(),
            final(self).spec_max_attempts() == old(self).spec_max_attempts(),
            forall|a: u32| #[trigger] final(self).spec_next_backoff(a) == old(self).spec_next_backoff(a),
    {
        let ghost phases_before = self.phases@;
        let mut taken = CompositeBackoff { phases: Vec::new() };
        std::mem::swap(&mut taken, self);
        proof { use_type_invariant(&taken); }
        let CompositeBackoff { phases } = taken;
        let ghost cums = phases@.map_values(|p: Phase| p.cumulative);
        assert(forall|i: int, j: int| 0 <= i <= j < cums.len() ==> cums[i] <= cums[j]);
        let ghost n = phases@.len();
        let mut rest = phases;
        let mut reversed: Vec<Phase> = Vec::new();
        while rest.len() > 0
            invariant
                rest@.len() + reversed@.len() == n,
                cums.len() == n,
                forall|k: int| 0 <= k < rest@.len() ==> rest@[k].cumulative == cums[k],
                forall|k: int| 0 <= k < reversed@.len() ==> reversed@[k].cumulative == cums[n - 1 - k],
                phases_before.len() == n,
                forall|k: int| 0 <= k < rest@.len() ==> rest@[k] == phases_before[k],
                forall|k: int| 0 <= k < reversed@.len() ==> same_waits(reversed@[k], phases_before[n - 1 - k]),
            decreases rest.len(),
        {
            let ghost before = rest@;
            let mut p = rest.pop().unwrap();
            proof { assert(p == before.last()); }
            p.strategy.reset();
            reversed.push(p);
        }
        let mut restored: Vec<Phase> = Vec::new();
        while reversed.len() > 0
            invariant
                restored@.len() + reversed@.len() == n,
                cums.len() == n,
                forall|k: int| 0 <= k < reversed@.len() ==> reversed@[k].cumulative == cums[n - 1 - k],
                forall|k: int| 0 <= k < restored@.len() ==> restored@[k].cumulative == cums[k],
                phases_before.len() == n,
                forall|k: int| 0 <= k < reversed@.len() ==> same_waits(reversed@[k], phases_before[n - 1 - k]),
                forall|k: int| 0 <= k < restored@.len() ==> same_waits(restored@[k], phases_before[k]),
            decreases reversed.len(),
        {
            let ghost before = reversed@;
            let p = reversed.pop().unwrap();
            proof { assert(p == before.last()); }
            restored.push(p);
        }
        assert forall|i: int, j: int| 0 <= i <= j < restored@.len()
            implies restored@[i].cumulative <= restored@[j].cumulative by {
            assert(restored@[i].cumulative == cums[i]);
            assert(restored@[j].cumulative == cums[j]);
        }
        let ghost kept = restored@.map_values(|p: Phase| p.cumulative);
        assert(kept =~= cums);
        assert(n > 0 ==> restored@.last().cumulative == cums[n - 1]);
        assert(n > 0 ==> phases_before.last().cumulative == cums[n - 1]);
        *self = CompositeBackoff { phases: restored };
        proof {
            assert(self.cumulative() == cums);
            assert forall|a: u32| #[trigger] self.spec_next_backoff(a) == old(self).spec_next_backoff(a) by {
                lemma_phase_of_bounds(cums, a);
                match phase_of(cums, a) {
                    Some(i) => {
                        assert(same_waits(restored@[i], phases_before[i]));
                    },
                    None => {},
                }
            }
        }
    }

    fn max_attempts(&self) -> (r: u32) {
        if self.phases.len() == 0 {
            0
        } else {
            self.phases[self.phases.len() - 1].cumulative
        }
    }
}

/// Whether a retry scheduled at `retry_time` is due at clock time `now`.
pub open spec fn due_at(retry_time: Option<u64>, now: u64) -> bool {
    retry_time matches Some(t) && now >= t
}

/// The strategy of a retry policy.
struct Held {
    strategy: Box<dyn BackoffStrategy>,
}

/// A retry policy: how many times to retry a job, and when.
pub struct RetryPolicy {
    strategy: Held,
    current_attempt: u32,
    next_retry_time: Option<u64>,
}

/// `now + wait`, or `u64::MAX` where that does not fit.
pub open spec fn saturated_sum(now: u64, wait: u64) -> u64 {
    if now + wait > u64::MAX { u64::MAX } else { (now + wait) as u64 }
}

/// The time left at clock time `now` until a retry scheduled at
/// `retry_time` is due: zero once it is due, `None` when none is scheduled.
pub open spec fn remaining_at(retry_time: Option<u64>, now: u64) -> Option<u64> {
    match retry_time {
        Some(t) => Some(if t > now { (t - now) as u64 } else { 0u64 }),
        None => None,
    }
}

/// Whether `after` is `before` with a failure recorded at clock time `now`:
/// the same waits and limit, one more attempt, and the retry due the wait
/// for that attempt after `now`, or none when the strategy gives no wait.
pub open spec fn failure_recorded_at(before: RetryPolicy, after: RetryPolicy, now: u64) -> bool {
    &&& forall|a: u32| #[trigger] after.backoff_for(a) == before.backoff_for(a)
    &&& after.retry_limit() == before.retry_limit()
    &&& after.attempt() == before.attempt() + 1
    &&& after.retry_time() == match before.backoff_for(after.attempt()) {
        Some(b) => Some(saturated_sum(now, b)),
        None => None,
    }
}

/// After a failure recorded at clock time `now` for which the strategy
/// gives the wait `wait`, the retry falls due `wait` after `now` (at the
/// end of the clock where that runs past it): it is due exactly from then
/// on, and at `now` the time left is the whole wait.
pub proof fn lemma_retry_due_after_wait(before: RetryPolicy, after: RetryPolicy, now: u64, wait: u64, t: u64)
    requires
        failure_recorded_at(before, after, now),
        before.backoff_for(after.attempt()) == Some(wait),
    ensures
        due_at(after.retry_time(), t) <==> t >= saturated_sum(now, wait),
        remaining_at(after.retry_time(), now) == Some((saturated_sum(now, wait) - now) as u64),
        now + wait <= u64::MAX ==> remaining_at(after.retry_time(), now) == Some(wait),
{
}

/// The time left until a retry never grows as the clock advances, and it is
/// zero once the retry is due.
pub proof fn lemma_remaining_shrinks(retry_time: Option<u64>, t1: u64, t2: u64)
    requires
        t1 <= t2,
    ensures
        remaining_at(retry_time, t1) is Some <==> remaining_at(retry_time, t2) is Some,
        retry_time is Some ==> remaining_at(retry_time, t2).unwrap() <= remaining_at(retry_time, t1).unwrap(),
        due_at(retry_time, t2) ==> remaining_at(retry_time, t2) == Some(0u64),
{
}

/// Whether `after` is `before` reset: no failure counted, no retry
/// scheduled, and the same waits and limit.
pub open spec fn reset_of(before: RetryPolicy, after: RetryPolicy) -> bool {
    &&& after.attempt() == 0
    &&& after.retry_time().is_none()
    &&& forall|a: u32| #[trigger] after.backoff_for(a) == before.backoff_for(a)
    &&& after.retry_limit() == before.retry_limit()
}

/// Whether `after` is `before` with a failure recorded at some clock time.
pub open spec fn failure_step(before: RetryPolicy, after: RetryPolicy) -> bool {
    exists|now: u64| #[trigger] failure_recorded_at(before, after, now)
}

/// Whether `after` follows `before` by one recorded failure or one reset.
pub open spec fn policy_step(before: RetryPolicy, after: RetryPolicy) -> bool {
    failure_step(before, after) || reset_of(before, after)
}

/// Along any run of recorded failures and resets, a policy keeps its retry
/// limit and its waits.
pub proof fn lemma_limit_through_steps(ps: Seq<RetryPolicy>)
    requires
        ps.len() >= 1,
        forall|i: int| 0 <= i < ps.len() - 1 ==> #[trigger] policy_step(ps[i], ps[i + 1]),
    ensures
        forall|i: int| 0 <= i < ps.len() ==> #[trigger] ps[i].retry_limit() == ps[0].retry_limit(),
        forall|i: int, a: u32| 0 <= i < ps.len() ==> #[trigger] ps[i].backoff_for(a) == ps[0].backoff_for(a),
    decreases ps.len(),
{
    if ps.len() > 1 {
        let front = ps.drop_last();
        assert forall|i: int| 0 <= i < front.len() - 1 implies #[trigger] policy_step(front[i], front[i + 1]) by {
            assert(policy_step(ps[i], ps[i + 1]));
        }
        lemma_limit_through_steps(front);
        let n = ps.len() - 1;
        let last = n - 1;
        assert(policy_step(ps[last], ps[last + 1]));
        assert(ps[last + 1] == ps[n]);
        assert(front[n - 1] == ps[n - 1]);
        assert forall|i: int| 0 <= i < ps.len() implies #[trigger] ps[i].retry_limit() == ps[0].retry_limit() by {
            if i < n { assert(front[i] == ps[i]); }
        }
        assert forall|i: int, a: u32| 0 <= i < ps.len() implies #[trigger] ps[i].backoff_for(a) == ps[0].backoff_for(a) by {
            if i < n {
                assert(front[i] == ps[i]);
                assert(front[i].backoff_for(a) == front[0].backoff_for(a));
            } else {
                assert(ps[n - 1].backoff_for(a) == front[0].backoff_for(a));
            }
        }
    }
}

/// Along a run of recorded failures, the attempt count grows by one per
/// failure; after a reset it starts again from zero.
pub proof fn lemma_attempts_count_failures(ps: Seq<RetryPolicy>)
    requires
        ps.len() >= 1,
        forall|i: int| 0 <= i < ps.len() - 1 ==> #[trigger] failure_step(ps[i], ps[i + 1]),
    ensures
        ps.last().attempt() == ps[0].attempt() + (ps.len() - 1),
    decreases ps.len(),
{
    if ps.len() > 1 {
        let front = ps.drop_last();
        assert forall|i: int| 0 <= i < front.len() - 1 implies #[trigger] failure_step(front[i], front[i + 1]) by {
            assert(front[i] == ps[i] && front[i + 1] == ps[i + 1]);
            assert(failure_step(ps[i], ps[i + 1]));
        }
        lemma_attempts_count_failures(front);
        let n = ps.len() - 1;
        let last = n - 1;
        assert(failure_step(ps[last], ps[last + 1]));
        assert(ps[last + 1] == ps[n]);
        assert(front.last() == ps[n - 1]);
    }
}

impl RetryPolicy {
    /// No retry is scheduled before a failure is recorded.
    #[verifier::type_invariant]
    pub open spec fn no_retry_before_failure(self) -> bool {
        self.attempt() == 0 ==> self.retry_time().is_none()
    }

    /// The backoff the policy's strategy gives for `attempt`.
    pub closed spec fn backoff_for(self, attempt: u32) -> Option<u64> {
        self.strategy.strategy.spec_next_backoff(attempt)
    }

    /// The maximum number of retries of the policy's strategy.
    pub closed spec fn retry_limit(self) -> u32 {
        self.strategy.strategy.spec_max_attempts()
    }

    /// The number of failures recorded since creation or the last reset.
    pub closed spec fn attempt(self) -> u32 {
        self.current_attempt
    }

    /// The clock time (ms) at which the next retry is due, if any.
    pub closed spec fn retry_time(self) -> Option<u64> {
        self.next_retry_time
    }

    /// Create a retry policy with the given strategy.
    pub fn new(strategy: Box<dyn BackoffStrategy>) -> (p: Self)
        ensures
            p.attempt() == 0,
            p.retry_time().is_none(),
            forall|a: u32| #[trigger] p.backoff_for(a) == strategy.spec_next_backoff(a),
            p.retry_limit() == strategy.spec_max_attempts(),
    {
        // The strategy is moved into place by a swap, so that the policy
        // holds the very value it was given.
        let mut strategy = strategy;
        let mut held = Held { strategy: Box::new(ConstantBackoff { duration: 0, max_retry_count: 0 }) };
        std::mem::swap(&mut held.strategy, &mut strategy);
        RetryPolicy { strategy: held, current_attempt: 0, next_retry_time: None }
    }

    /// Create a retry policy with a constant backoff strategy.
    pub fn constant(duration: u64, max_retries: u32) -> (p: Self)
        ensures
            p.attempt() == 0,
            p.retry_time().is_none(),
            forall|a: u32| #[trigger] p.backoff_for(a)
                == (ConstantBackoff { duration, max_retry_count: max_retries }).spec_next_backoff(a),
            p.retry_limit() == max_retries,
    {
        Self::new(Box::new(ConstantBackoff { duration, max_retry_count: max_retries }))
    }

    /// Create a retry policy with a linear backoff strategy.
    pub fn linear(initial: u64, increment: u64, max_retries: u32) -> (p: Self)
        ensures
            p.attempt() == 0,
            p.retry_time().is_none(),
            forall|a: u32| #[trigger] p.backoff_for(a)
                == (LinearBackoff { initial_duration: initial, increment, max_retry_count: max_retries }).spec_next_backoff(a),
            p.retry_limit() == max_retries,
    {
        Self::new(Box::new(LinearBackoff { initial_duration: initial, increment, max_retry_count: max_retries }))
    }

    /// Record a failed attempt at clock time `now` (ms) and schedule the next
    /// retry. Returns whether a retry should be made.
    pub fn record_failure_at(&mut self, now: u64) -> (retry: bool)
        requires
            old(self).attempt() < u32::MAX,
        ensures
            failure_recorded_at(*old(self), *final(self), now),
            retry == old(self).backoff_for(final(self).attempt()).is_some(),
    {
        self.current_attempt = self.current_attempt + 1;
        match self.strategy.strategy.next_backoff(self.current_attempt) {
            Some(backoff) => {
                let due = if backoff > u64::MAX - now { u64::MAX } else { now + backoff };
                self.next_retry_time = Some(due);
                true
            },
            None => {
                self.next_retry_time = None;
                false
            },
        }
    }

    /// Whether another failure can still be counted.
    pub fn attempt_below_max(&self) -> (b: bool)
        ensures
            b == (self.attempt() < u32::MAX),
    {
        self.current_attempt < u32::MAX
    }

    /// Record a failed attempt and schedule the next retry from the current
    /// time. Returns whether a retry should be made.
    pub fn record_failure(&mut self) -> (retry: bool)
        requires
            old(self).attempt() < u32::MAX,
        ensures
            exists|now: u64| #[trigger] failure_recorded_at(*old(self), *final(self), now),
            retry == old(self).backoff_for(final(self).attempt()).is_some(),
            final(self).retry_time().is_some() == retry,
    {
        let now = now_millis();
        self.record_failure_at(now)
    }

    /// Whether the retry is due at clock time `now` (ms).
    pub fn is_ready_at(&self, now: u64) -> (ready: bool)
        ensures
            ready == (self.retry_time() matches Some(t) && now >= t),
    {
        match self.next_retry_time {
            Some(t) => now >= t,
            None => false,
        }
    }

    /// Whether the retry is due now.
    pub fn is_ready(&self) -> (ready: bool)
        ensures
            self.retry_time().is_none() ==> !ready,
            exists|now: u64| ready == #[trigger] due_at(self.retry_time(), now),
    {
        let now = now_millis();
        let ready = self.is_ready_at(now);
        assert(ready == due_at(self.retry_time(), now));
        ready
    }

    /// The number of failures recorded.
    pub fn current_attempt(&self) -> (n: u32)
        ensures
            n == self.attempt(),
    {
        self.current_attempt
    }

    /// The maximum number of retries of the strategy.
    pub fn max_attempts(&self) -> (n: u32)
        ensures
            n == self.retry_limit(),
    {
        self.strategy.strategy.max_attempts()
    }

    /// Reset the policy to its initial state and reset the strategy.
    pub fn reset(&mut self)
        ensures
            reset_of(*old(self), *final(self)),
    {
        let mut taken = RetryPolicy {
            strategy: Held { strategy: Box::new(ConstantBackoff { duration: 0, max_retry_count: 0 }) },
            current_attempt: 0,
            next_retry_time: None,
        };
        std::mem::swap(&mut taken, self);
        let RetryPolicy { strategy: held, current_attempt: _, next_retry_time: _ } = taken;
        let mut held = held;
        held.strategy.reset();
        *self = RetryPolicy { strategy: held, current_attempt: 0, next_retry_time: None };
    }

    /// The time (ms) left at clock time `now` until the retry is due; zero
    /// once it is due, `None` when no retry is scheduled.
    pub fn time_remaining_at(&self, now: u64) -> (left: Option<u64>)
        ensures
            left == remaining_at(self.retry_time(), now),
    {
        match self.next_retry_time {
            Some(t) => if t > now { Some(t - now) } else { Some(0) },
            None => None,
        }
    }

    /// The time (ms) left until the retry is due.
    pub fn time_remaining(&self) -> (left: Option<u64>)
        ensures
            exists|now: u64| left == #[trigger] remaining_at(self.retry_time(), now),
    {
        let now = now_millis();
        self.time_remaining_at(now)
    }
}

} // verus!
