//! Why a job was cancelled, the answer of a cancellation check, and the
//! tree of cancellation tokens: which tokens a cancellation reaches, the
//! reason each records, and which registered callbacks are due. The
//! runtime shares the tree between threads and runs the callbacks.
use vstd::prelude::*;
use vstd::string::*;
use crate::core_types::error::{Result, ThreadError};
use crate::text::{concat2, span, span_text};

verus! {

/// The reason a job was cancelled. Timeouts are in milliseconds.
#[derive(Debug, Clone, PartialEq, Eq)]
pub enum CancellationReason {
    /// Explicitly cancelled by the user.
    Manual,
    /// Cancelled when a timeout expired.
    Timeout(u64),
    /// Cancelled because the parent token was cancelled.
    ParentCancelled,
    /// Cancelled because of an error.
    Error(String),
    /// A reason of the user's own.
    Custom(String),
}

/// The text of a reason.
pub open spec fn reason_text(r: CancellationReason) -> Seq<char> {
    match r {
        CancellationReason::Manual => "manually cancelled"@,
        CancellationReason::Timeout(ms) => "timeout after "@ + span_text(ms as nat),
        CancellationReason::ParentCancelled => "parent was cancelled"@,
        CancellationReason::Error(m) => "error: "@ + m@,
        CancellationReason::Custom(m) => m@,
    }
}

impl CancellationReason {
    /// The text of the reason, such as `"timeout after 5s"`.
    pub fn to_string(&self) -> (s: String)
        ensures
            s@ == reason_text(*self),
    {
        match self {
            CancellationReason::Manual => String::from_str("manually cancelled"),
            CancellationReason::Timeout(ms) => {
                let d = span(*ms);
                let s = concat2("timeout after ", d.as_str());
                proof { reveal_strlit("timeout after "); }
                s
            },
            CancellationReason::ParentCancelled => String::from_str("parent was cancelled"),
            CancellationReason::Error(m) => {
                let s = concat2("error: ", m.as_str());
                proof { reveal_strlit("error: "); }
                s
            },
            CancellationReason::Custom(m) => String::from_str(m.as_str()),
        }
    }
}

/// The answer of a cancellation check: `Ok` while not cancelled, otherwise
/// a `Cancelled` error for job `"job"` whose reason is the text of the
/// recorded reason, or `"unknown"` where none is recorded.
pub fn cancellation_check(cancelled: bool, reason: &Option<CancellationReason>) -> (r: Result<()>)
    ensures
        !cancelled ==> r is Ok,
        cancelled ==> (r matches Err(ThreadError::Cancelled { job_id, reason: why })
            && job_id@ == "job"@
            && why@ == match *reason {
                Some(x) => reason_text(x),
                None => "unknown"@,
            }),
{
    if !cancelled {
        return Ok(());
    }
    let why = match reason {
        Some(x) => x.to_string(),
        None => String::from_str("unknown"),
    };
    Err(ThreadError::cancelled("job", why.as_str()))
}

/// The state of one token.
struct TokenState {
    cancelled: bool,
    reason: Option<CancellationReason>,
    parent: Option<usize>,
    callbacks: Vec<u64>,
}

/// Cancellation tokens, each identified by its position; a token made with
/// `child` has a parent, always an older token.
pub struct CancellationTree {
    nodes: Vec<TokenState>,
    next_callback: u64,
}

impl CancellationTree {
    /// The number of tokens.
    pub closed spec fn size(self) -> nat {
        self.nodes@.len()
    }

    /// Whether token `i` is cancelled.
    pub closed spec fn cancelled_at(self, i: int) -> bool {
        self.nodes@[i].cancelled
    }

    /// The reason recorded for token `i`.
    pub closed spec fn reason_at(self, i: int) -> Option<CancellationReason> {
        self.nodes@[i].reason
    }

    /// The parent of token `i`.
    pub closed spec fn parent_at(self, i: int) -> Option<usize> {
        self.nodes@[i].parent
    }

    /// The callbacks waiting on token `i`, in the order they were registered.
    pub closed spec fn callbacks_at(self, i: int) -> Seq<u64> {
        self.nodes@[i].callbacks@
    }

    /// The identifier the next registered callback gets.
    pub closed spec fn next_id(self) -> u64 {
        self.next_callback
    }

    /// Every parent is older than its children.
    pub open spec fn wf(self) -> bool {
        forall|i: int| 0 <= i < self.size() ==> (#[trigger] self.parent_at(i) matches Some(p) ==> p < i)
    }

    /// Every child of a cancelled token is cancelled.
    pub open spec fn closed_downward(self) -> bool {
        forall|i: int| 0 <= i < self.size() ==> (#[trigger] self.parent_at(i) matches Some(p)
            ==> (self.cancelled_at(p as int) ==> self.cancelled_at(i)))
    }

    /// An empty tree.
    pub fn new() -> (t: Self)
        ensures
            t.wf(),
            t.size() == 0,
            t.closed_downward(),
    {
        CancellationTree { nodes: Vec::new(), next_callback: 0 }
    }

    /// A new token, not cancelled, without parent.
    pub fn new_token(&mut self) -> (id: usize)
        requires
            old(self).wf(),
        ensures
            final(self).wf(),
            id == old(self).size(),
            final(self).size() == old(self).size() + 1,
            !final(self).cancelled_at(id as int),
            final(self).reason_at(id as int).is_none(),
            final(self).parent_at(id as int).is_none(),
            final(self).callbacks_at(id as int) == Seq::<u64>::empty(),
            unchanged_before(*old(self), *final(self)),
            old(self).closed_downward() ==> final(self).closed_downward(),
    {
        let id = self.nodes.len();
        self.nodes.push(TokenState { cancelled: false, reason: None, parent: None, callbacks: Vec::new() });
        proof {
            assert(self.callbacks_at(id as int) =~= Seq::<u64>::empty());
            assert forall|i: int| 0 <= i < self.size() implies (#[trigger] self.parent_at(i) matches Some(p) ==> p < i) by {
                if i < id {
                    assert(self.parent_at(i) == old(self).parent_at(i));
                }
            }
            assert forall|i: int| 0 <= i < self.size() && old(self).closed_downward() implies (#[trigger] self.parent_at(i) matches Some(p)
                ==> (self.cancelled_at(p as int) ==> self.cancelled_at(i))) by {
                if i < id {
                    assert(self.parent_at(i) == old(self).parent_at(i));
                }
            }
        }
        id
    }

    /// A new token whose parent is `parent`; it is born cancelled, for the
    /// reason `ParentCancelled`, when the parent is cancelled.
    pub fn child(&mut self, parent: usize) -> (id: usize)
        requires
            old(self).wf(),
            parent < old(self).size(),
        ensures
            final(self).wf(),
            id == old(self).size(),
            final(self).size() == old(self).size() + 1,
            final(self).parent_at(id as int) == Some(parent),
            final(self).cancelled_at(id as int) == old(self).cancelled_at(parent as int),
            final(self).reason_at(id as int) == if old(self).cancelled_at(parent as int) {
                Some(CancellationReason::ParentCancelled)
            } else {
                None::<CancellationReason>
            },
            final(self).callbacks_at(id as int) == Seq::<u64>::empty(),
            unchanged_before(*old(self), *final(self)),
            old(self).closed_downward() ==> final(self).closed_downward(),
    {
        let id = self.nodes.len();
        let born_cancelled = self.nodes[parent].cancelled;
        let reason = if born_cancelled { Some(CancellationReason::ParentCancelled) } else { None };
        self.nodes.push(TokenState { cancelled: born_cancelled, reason, parent: Some(parent), callbacks: Vec::new() });
        proof {
            assert(self.callbacks_at(id as int) =~= Seq::<u64>::empty());
            assert forall|i: int| 0 <= i < self.size() implies (#[trigger] self.parent_at(i) matches Some(p) ==> p < i) by {
                if i < id {
                    assert(self.parent_at(i) == old(self).parent_at(i));
                }
            }
            assert forall|i: int| 0 <= i < self.size() && old(self).closed_downward() implies (#[trigger] self.parent_at(i) matches Some(p)
                ==> (self.cancelled_at(p as int) ==> self.cancelled_at(i))) by {
                if i < id {
                    assert(self.parent_at(i) == old(self).parent_at(i));
                }
            }
        }
        id
    }

    /// Whether token `id` is cancelled.
    pub fn is_cancelled(&self, id: usize) -> (b: bool)
        requires
            id < self.size(),
        ensures
            b == self.cancelled_at(id as int),
    {
        self.nodes[id].cancelled
    }

    /// The reason recorded for token `id`, if any.
    pub fn reason(&self, id: usize) -> (r: Option<CancellationReason>)
        requires
            id < self.size(),
        ensures
            r == self.reason_at(id as int),
    {
        match &self.nodes[id].reason {
            Some(x) => Some(copy_reason(x)),
            None => None,
        }
    }

    /// `Ok` while token `id` is not cancelled, otherwise a `Cancelled` error
    /// naming its reason.
    pub fn check(&self, id: usize) -> (r: Result<()>)
        requires
            id < self.size(),
        ensures
            !self.cancelled_at(id as int) ==> r is Ok,
            self.cancelled_at(id as int) ==> (r matches Err(ThreadError::Cancelled { job_id, reason: why })
                && job_id@ == "job"@
                && why@ == match self.reason_at(id as int) {
                    Some(x) => reason_text(x),
                    None => "unknown"@,
                }),
    {
        cancellation_check(self.nodes[id].cancelled, &self.nodes[id].reason)
    }
}

/// Tokens that existed before keep their state.
pub open spec fn unchanged_before(a: CancellationTree, b: CancellationTree) -> bool {
    &&& a.size() <= b.size()
    &&& forall|i: int| 0 <= i < a.size() ==> {
        &&& #[trigger] b.cancelled_at(i) == a.cancelled_at(i)
        &&& b.reason_at(i) == a.reason_at(i)
        &&& b.parent_at(i) == a.parent_at(i)
        &&& b.callbacks_at(i) == a.callbacks_at(i)
    }
}

/// A copy of a reason.
fn copy_reason(r: &CancellationReason) -> (c: CancellationReason)
    ensures
        c == *r,
{
    match r {
        CancellationReason::Manual => CancellationReason::Manual,
        CancellationReason::Timeout(ms) => CancellationReason::Timeout(*ms),
        CancellationReason::ParentCancelled => CancellationReason::ParentCancelled,
        CancellationReason::Error(m) => CancellationReason::Error(m.clone()),
        CancellationReason::Custom(m) => CancellationReason::Custom(m.clone()),
    }
}

/// Whether cancelling token `x` of `t` reaches token `i`: `i` is not
/// cancelled yet and is `x` itself or a child of a token that the
/// cancellation reaches. It stops at tokens cancelled already.
pub open spec fn reaches(t: CancellationTree, x: int, i: int) -> bool
    decreases i,
{
    &&& !t.cancelled_at(i)
    &&& (i == x || (t.parent_at(i) matches Some(p) && 0 <= p < i && reaches(t, x, p as int)))
}

/// The callbacks that fall due when a cancellation enters token `x`: those
/// of `x`, then those of each child subtree it enters, child by child in
/// the order the children were made.
pub open spec fn subtree_due(t: CancellationTree, x: int) -> Seq<u64>
    decreases t.size() - x, t.size() - x,
{
    if 0 <= x < t.size() {
        t.callbacks_at(x) + children_due(t, x, x + 1)
    } else {
        Seq::empty()
    }
}

/// The callbacks that fall due in the subtrees of the children of `x` made
/// at or after token `k`; a cancellation does not enter a child cancelled
/// already.
pub open spec fn children_due(t: CancellationTree, x: int, k: int) -> Seq<u64>
    decreases t.size() - x, t.size() - k,
{
    if x < 0 || k <= x || k >= t.size() {
        Seq::empty()
    } else if t.parent_at(k) == Some(x as usize) && !t.cancelled_at(k) {
        subtree_due(t, k) + children_due(t, x, k + 1)
    } else {
        children_due(t, x, k + 1)
    }
}

/// The callbacks that fall due when token `x` is cancelled, in the order
/// they run: depth first from `x`, none when `x` is cancelled already.
pub open spec fn due_on_cancel(t: CancellationTree, x: int) -> Seq<u64> {
    if 0 <= x < t.size() && !t.cancelled_at(x) { subtree_due(t, x) } else { Seq::empty() }
}

/// Whether token `d` is `a` or descends from it.
pub open spec fn descends(t: CancellationTree, d: int, a: int) -> bool
    decreases d,
{
    d == a || (t.parent_at(d) matches Some(p) && 0 <= p < d && descends(t, p as int, a))
}

/// The state of `t` after cancelling token `x` for `reason`: the tokens it
/// reaches are cancelled, record `reason` (`x`) or `ParentCancelled` (the
/// others) and lose their callbacks; every other token keeps its state.
pub open spec fn cancelled_from(old: CancellationTree, new: CancellationTree, x: int, reason: CancellationReason) -> bool {
    &&& new.size() == old.size()
    &&& new.next_id() == old.next_id()
    &&& forall|i: int| 0 <= i < old.size() ==> {
        &&& #[trigger] new.parent_at(i) == old.parent_at(i)
        &&& new.cancelled_at(i) == (old.cancelled_at(i) || reaches(old, x, i))
        &&& new.reason_at(i) == if reaches(old, x, i) {
            if i == x { Some(reason) } else { Some(CancellationReason::ParentCancelled) }
        } else {
            old.reason_at(i)
        }
        &&& new.callbacks_at(i) == if reaches(old, x, i) { Seq::<u64>::empty() } else { old.callbacks_at(i) }
    }
}

/// A token the cancellation reaches lies at or after the cancelled token,
/// and the cancelled token was not cancelled before.
proof fn lemma_reaches_after(t: CancellationTree, x: int, i: int)
    requires
        reaches(t, x, i),
    ensures
        x <= i,
        !t.cancelled_at(x),
    decreases i,
{
    if i != x {
        let p = t.parent_at(i).unwrap() as int;
        lemma_reaches_after(t, x, p);
    }
}

/// Cancelling a token that is cancelled already reaches no token: nothing
/// changes, and the reason first recorded stays.
pub proof fn lemma_cancel_again_changes_nothing(t: CancellationTree, x: int, i: int)
    requires
        t.cancelled_at(x),
    ensures
        !reaches(t, x, i),
{
    if reaches(t, x, i) {
        lemma_reaches_after(t, x, i);
    }
}

/// Cancelling a token of a tree where every child of a cancelled token is
/// cancelled leaves every descendant of that token cancelled, and keeps
/// every child of a cancelled token cancelled.
pub proof fn lemma_cancel_covers_descendants(
    old: CancellationTree,
    new: CancellationTree,
    x: int,
    reason: CancellationReason,
)
    requires
        old.wf(),
        old.closed_downward(),
        0 <= x < old.size(),
        cancelled_from(old, new, x, reason),
    ensures
        new.closed_downward(),
        forall|d: int| 0 <= d < new.size() && #[trigger] descends(new, d, x) ==> new.cancelled_at(d),
{
    assert forall|i: int| 0 <= i < new.size() implies (#[trigger] new.parent_at(i) matches Some(p)
        ==> (new.cancelled_at(p as int) ==> new.cancelled_at(i))) by {
        if let Some(p) = new.parent_at(i) {
            assert(old.parent_at(i) == Some(p));
            assert(p < i);
            assert(new.parent_at(p as int) == old.parent_at(p as int));
            if new.cancelled_at(p as int) && !old.cancelled_at(i) {
                if old.cancelled_at(p as int) {
                    assert(old.cancelled_at(i));
                } else {
                    assert(reaches(old, x, p as int));
                    assert(reaches(old, x, i));
                }
            }
        }
    }
    assert forall|d: int| 0 <= d < new.size() && #[trigger] descends(new, d, x) implies new.cancelled_at(d) by {
        lemma_descendant_cancelled(old, new, x, reason, d);
    }
}

proof fn lemma_descendant_cancelled(
    old: CancellationTree,
    new: CancellationTree,
    x: int,
    reason: CancellationReason,
    d: int,
)
    requires
        old.wf(),
        old.closed_downward(),
        0 <= x < old.size(),
        cancelled_from(old, new, x, reason),
        0 <= d < new.size(),
        descends(new, d, x),
    ensures
        new.cancelled_at(d),
        !old.cancelled_at(d) ==> reaches(old, x, d),
    decreases d,
{
    assert(new.parent_at(d) == old.parent_at(d));
    if d == x {
        if !old.cancelled_at(x) {
            assert(reaches(old, x, x));
        }
    } else {
        let p = new.parent_at(d).unwrap() as int;
        assert(old.parent_at(d) == Some(p as usize));
        lemma_descendant_cancelled(old, new, x, reason, p);
        if !old.cancelled_at(d) {
            if old.cancelled_at(p) {
                assert(old.cancelled_at(d));
            } else {
                assert(reaches(old, x, p));
                assert(reaches(old, x, d));
            }
        }
    }
}

impl CancellationTree {
    /// Append the callbacks that fall due when a cancellation enters token
    /// `x`, depth first.
    fn collect_subtree(&self, x: usize, out: &mut Vec<u64>)
        requires
            x < self.size(),
        ensures
            final(out)@ == old(out)@ + subtree_due(*self, x as int),
        decreases self.size() - x,
    {
        let ghost start = old(out)@;
        let cbs = &self.nodes[x].callbacks;
        let mut j: usize = 0;
        while j < cbs.len()
            invariant
                j <= cbs@.len(),
                cbs@ == self.callbacks_at(x as int),
                out@ == start + cbs@.take(j as int),
            decreases cbs@.len() - j,
        {
            let mut one = vec![cbs[j]];
            out.append(&mut one);
            proof { assert(cbs@.take(j as int + 1) =~= cbs@.take(j as int).push(cbs@[j as int])); }
            j = j + 1;
        }
        proof { assert(cbs@.take(j as int) =~= cbs@); }
        let n = self.nodes.len();
        let mut k: usize = x + 1;
        while k < n
            invariant
                x < k <= n,
                n == self.size(),
                start + subtree_due(*self, x as int) == out@ + children_due(*self, x as int, k as int),
            decreases n - k,
        {
            let enter = match self.nodes[k].parent {
                Some(p) => p == x && !self.nodes[k].cancelled,
                None => false,
            };
            proof {
                assert(enter == (self.parent_at(k as int) == Some(x) && !self.cancelled_at(k as int)));
            }
            if enter {
                let ghost before = out@;
                self.collect_subtree(k, out);
                proof {
                    assert(children_due(*self, x as int, k as int)
                        == subtree_due(*self, k as int) + children_due(*self, x as int, k as int + 1));
                    assert(out@ + children_due(*self, x as int, k as int + 1)
                        =~= before + children_due(*self, x as int, k as int));
                }
            } else {
                proof {
                    assert(children_due(*self, x as int, k as int) == children_due(*self, x as int, k as int + 1));
                }
            }
            k = k + 1;
        }
        proof { assert(out@ =~= start + subtree_due(*self, x as int)); }
    }

    /// Cancel token `x` for `reason` and every token the cancellation
    /// reaches below it. A token cancelled already keeps its reason: the
    /// first cancellation wins. Returns the callbacks that become due, in the order
    /// they run: those of `x`, then depth first through the children in the
    /// order they were made.
    pub fn cancel_with_reason(&mut self, x: usize, reason: CancellationReason) -> (due: Vec<u64>)
        requires
            old(self).wf(),
            x < old(self).size(),
        ensures
            final(self).wf(),
            cancelled_from(*old(self), *final(self), x as int, reason),
            due@ == due_on_cancel(*old(self), x as int),
            old(self).closed_downward() ==> final(self).closed_downward(),
            old(self).closed_downward() ==> forall|d: int| 0 <= d < final(self).size()
                && #[trigger] descends(*final(self), d, x as int) ==> final(self).cancelled_at(d),
    {
        let ghost start = *self;
        let mut due: Vec<u64> = Vec::new();
        if !self.nodes[x].cancelled {
            self.collect_subtree(x, &mut due);
        }
        let mut nodes: Vec<TokenState> = Vec::new();
        std::mem::swap(&mut nodes, &mut self.nodes);
        let n = nodes.len();
        let mut marks: Vec<bool> = Vec::new();
        let mut i: usize = 0;
        while i < n
            invariant
                n == start.size(),
                nodes@.len() == n,
                start.wf(),
                x < n,
                i <= n,
                marks@.len() == i,
                forall|k: int| 0 <= k < i ==> marks@[k] == reaches(start, x as int, k),
                forall|k: int| 0 <= k < n ==> #[trigger] nodes@[k].parent == start.parent_at(k),
                forall|k: int| 0 <= k < i ==> #[trigger] nodes@[k].cancelled == (start.cancelled_at(k) || reaches(start, x as int, k)),
                forall|k: int| 0 <= k < i ==> #[trigger] nodes@[k].reason == if reaches(start, x as int, k) {
                    if k == x { Some(reason) } else { Some(CancellationReason::ParentCancelled) }
                } else {
                    start.reason_at(k)
                },
                forall|k: int| 0 <= k < i ==> #[trigger] nodes@[k].callbacks@ == if reaches(start, x as int, k) { Seq::<u64>::empty() } else { start.callbacks_at(k) },
                forall|k: int| i <= k < n ==> #[trigger] nodes@[k] == start.nodes@[k],
            decreases n - i,
        {
            let ghost head = nodes@;
            proof {
                assert(nodes@[i as int] == start.nodes@[i as int]);
            }
            let hit = if nodes[i].cancelled {
                false
            } else if i == x {
                true
            } else {
                match nodes[i].parent {
                    Some(p) => p < i && marks[p],
                    None => false,
                }
            };
            proof {
                if let Some(p) = start.parent_at(i as int) {
                    assert(p < i);
                    assert(marks@[p as int] == reaches(start, x as int, p as int));
                }
                assert(hit == reaches(start, x as int, i as int));
            }
            let mut one = vec![hit];
            marks.append(&mut one);
            if hit {
                let r = if i == x { copy_reason(&reason) } else { CancellationReason::ParentCancelled };
                let parent = nodes[i].parent;
                let mut node = TokenState { cancelled: true, reason: Some(r), parent, callbacks: Vec::new() };
                nodes.set_and_swap(i, &mut node);
                proof {
                    assert(nodes@[i as int].callbacks@ =~= Seq::<u64>::empty());
                }
            }
            proof {
                assert forall|k: int| 0 <= k < i implies #[trigger] nodes@[k].cancelled == (start.cancelled_at(k) || reaches(start, x as int, k)) by {
                    assert(nodes@[k] == head[k]);
                }
                assert forall|k: int| 0 <= k < i implies #[trigger] nodes@[k].reason == if reaches(start, x as int, k) {
                    if k == x { Some(reason) } else { Some(CancellationReason::ParentCancelled) }
                } else {
                    start.reason_at(k)
                } by {
                    assert(nodes@[k] == head[k]);
                }
                assert forall|k: int| 0 <= k < i implies #[trigger] nodes@[k].callbacks@ == if reaches(start, x as int, k) { Seq::<u64>::empty() } else { start.callbacks_at(k) } by {
                    assert(nodes@[k] == head[k]);
                }
                let k = i as int;
                assert(nodes@[k].cancelled == (start.cancelled_at(k) || reaches(start, x as int, k)));
                assert(nodes@[k].reason == if reaches(start, x as int, k) {
                        if k == x { Some(reason) } else { Some(CancellationReason::ParentCancelled) }
                    } else {
                        start.reason_at(k)
                    });
                assert(nodes@[k].callbacks@ == if reaches(start, x as int, k) { Seq::<u64>::empty() } else { start.callbacks_at(k) });
            }
            i = i + 1;
        }
        std::mem::swap(&mut nodes, &mut self.nodes);
        proof {
            assert forall|k: int| 0 <= k < self.size() implies (#[trigger] self.parent_at(k) matches Some(p) ==> p < k) by {
                assert(self.nodes@[k].parent == start.parent_at(k));
            }
            assert forall|k: int| 0 <= k < start.size() implies #[trigger] self.parent_at(k) == start.parent_at(k) by {
                assert(self.nodes@[k].parent == start.parent_at(k));
            }
            assert forall|k: int| 0 <= k < start.size() implies #[trigger] self.cancelled_at(k) == (start.cancelled_at(k) || reaches(start, x as int, k)) by {
                assert(self.nodes@[k].cancelled == (start.cancelled_at(k) || reaches(start, x as int, k)));
            }
            assert forall|k: int| 0 <= k < start.size() implies #[trigger] self.reason_at(k) == if reaches(start, x as int, k) {
                    if k == x { Some(reason) } else { Some(CancellationReason::ParentCancelled) }
                } else {
                    start.reason_at(k)
                } by {
                assert(self.nodes@[k].reason == self.reason_at(k));
            }
            assert forall|k: int| 0 <= k < start.size() implies #[trigger] self.callbacks_at(k) == if reaches(start, x as int, k) { Seq::<u64>::empty() } else { start.callbacks_at(k) } by {
                assert(self.nodes@[k].callbacks@ == self.callbacks_at(k));
            }
            assert(cancelled_from(start, *self, x as int, reason));
            if start.closed_downward() {
                lemma_cancel_covers_descendants(start, *self, x as int, reason);
            }
        }
        due
    }
}

impl CancellationTree {
    /// Cancel token `x` by hand.
    pub fn cancel(&mut self, x: usize) -> (due: Vec<u64>)
        requires
            old(self).wf(),
            x < old(self).size(),
        ensures
            final(self).wf(),
            cancelled_from(*old(self), *final(self), x as int, CancellationReason::Manual),
            due@ == due_on_cancel(*old(self), x as int),
            old(self).closed_downward() ==> final(self).closed_downward(),
    {
        self.cancel_with_reason(x, CancellationReason::Manual)
    }

    /// Register a callback on token `x`. Returns its identifier and whether
    /// it is due at once (the token is cancelled); a callback not due at once
    /// waits on the token.
    pub fn on_cancel(&mut self, x: usize) -> (r: (u64, bool))
        requires
            old(self).wf(),
            x < old(self).size(),
        ensures
            final(self).wf(),
            r.0 == old(self).next_id(),
            final(self).next_id() == (if old(self).next_id() == u64::MAX { 0 } else { (old(self).next_id() + 1) as u64 }),
            r.1 == old(self).cancelled_at(x as int),
            final(self).size() == old(self).size(),
            forall|i: int| 0 <= i < old(self).size() ==> {
                &&& #[trigger] final(self).parent_at(i) == old(self).parent_at(i)
                &&& final(self).cancelled_at(i) == old(self).cancelled_at(i)
                &&& final(self).reason_at(i) == old(self).reason_at(i)
                &&& final(self).callbacks_at(i) == if i == x && !r.1 {
                    old(self).callbacks_at(i).push(r.0)
                } else {
                    old(self).callbacks_at(i)
                }
            },
            old(self).closed_downward() ==> final(self).closed_downward(),
    {
        let id = self.next_callback;
        self.next_callback = self.next_callback.wrapping_add(1);
        let now = self.nodes[x].cancelled;
        if !now {
            let ghost before = self.nodes@;
            let mut nodes: Vec<TokenState> = Vec::new();
            std::mem::swap(&mut nodes, &mut self.nodes);
            let mut node = TokenState { cancelled: false, reason: None, parent: None, callbacks: Vec::new() };
            nodes.set_and_swap(x, &mut node);
            node.callbacks.push(id);
            nodes.set_and_swap(x, &mut node);
            std::mem::swap(&mut nodes, &mut self.nodes);
            proof {
                assert forall|i: int| 0 <= i < self.size() && i != x implies self.nodes@[i] == before[i] by {}
            }
        }
        proof {
            assert forall|i: int| 0 <= i < self.size() implies #[trigger] self.parent_at(i) == old(self).parent_at(i) by {
                if i != x { assert(self.nodes@[i] == old(self).nodes@[i]); }
            }
            assert forall|i: int| 0 <= i < self.size() implies #[trigger] self.cancelled_at(i) == old(self).cancelled_at(i) by {
                if i != x { assert(self.nodes@[i] == old(self).nodes@[i]); }
            }
            lemma_same_shape(*old(self), *self, true);
        }
        (id, now)
    }

    /// Remove the callback `id` from token `x`, if it waits there.
    pub fn remove_callback(&mut self, x: usize, id: u64)
        requires
            old(self).wf(),
            x < old(self).size(),
        ensures
            final(self).wf(),
            final(self).next_id() == old(self).next_id(),
            final(self).size() == old(self).size(),
            forall|i: int| 0 <= i < old(self).size() ==> {
                &&& #[trigger] final(self).parent_at(i) == old(self).parent_at(i)
                &&& final(self).cancelled_at(i) == old(self).cancelled_at(i)
                &&& final(self).reason_at(i) == old(self).reason_at(i)
                &&& final(self).callbacks_at(i) == if i == x {
                    old(self).callbacks_at(i).filter(|c: u64| c != id)
                } else {
                    old(self).callbacks_at(i)
                }
            },
            old(self).closed_downward() ==> final(self).closed_downward(),
    {
        let ghost before = self.nodes@;
        let mut nodes: Vec<TokenState> = Vec::new();
        std::mem::swap(&mut nodes, &mut self.nodes);
        let mut node = TokenState { cancelled: false, reason: None, parent: None, callbacks: Vec::new() };
        nodes.set_and_swap(x, &mut node);
        let kept = without(&node.callbacks, id);
        node.callbacks = kept;
        nodes.set_and_swap(x, &mut node);
        std::mem::swap(&mut nodes, &mut self.nodes);
        proof {
            assert forall|i: int| 0 <= i < self.size() && i != x implies self.nodes@[i] == before[i] by {}
            assert forall|i: int| 0 <= i < self.size() implies #[trigger] self.parent_at(i) == old(self).parent_at(i) by {
                if i != x { assert(self.nodes@[i] == old(self).nodes@[i]); }
            }
            assert forall|i: int| 0 <= i < self.size() implies #[trigger] self.cancelled_at(i) == old(self).cancelled_at(i) by {
                if i != x { assert(self.nodes@[i] == old(self).nodes@[i]); }
            }
            lemma_same_shape(*old(self), *self, true);
        }
    }

    /// Clear token `x`: not cancelled, no reason, no callback. Its children
    /// keep their state.
    pub fn reset(&mut self, x: usize)
        requires
            old(self).wf(),
            x < old(self).size(),
        ensures
            final(self).wf(),
            final(self).next_id() == old(self).next_id(),
            final(self).size() == old(self).size(),
            forall|i: int| 0 <= i < old(self).size() ==> {
                &&& #[trigger] final(self).parent_at(i) == old(self).parent_at(i)
                &&& final(self).cancelled_at(i) == (i != x && old(self).cancelled_at(i))
                &&& final(self).reason_at(i) == if i == x { None } else { old(self).reason_at(i) }
                &&& final(self).callbacks_at(i) == if i == x { Seq::<u64>::empty() } else { old(self).callbacks_at(i) }
            },
    {
        let ghost before = self.nodes@;
        let parent = self.nodes[x].parent;
        let mut node = TokenState { cancelled: false, reason: None, parent, callbacks: Vec::new() };
        let mut nodes: Vec<TokenState> = Vec::new();
        std::mem::swap(&mut nodes, &mut self.nodes);
        nodes.set_and_swap(x, &mut node);
        std::mem::swap(&mut nodes, &mut self.nodes);
        proof {
            assert forall|i: int| 0 <= i < self.size() && i != x implies self.nodes@[i] == before[i] by {}
            assert(self.callbacks_at(x as int) =~= Seq::<u64>::empty());
            assert forall|i: int| 0 <= i < self.size() implies #[trigger] self.parent_at(i) == old(self).parent_at(i) by {
                if i != x { assert(self.nodes@[i] == old(self).nodes@[i]); }
            }
            lemma_same_shape(*old(self), *self, false);
        }
    }

    /// The callbacks waiting on token `x`, in the order they were registered.
    pub fn callbacks(&self, x: usize) -> (c: &[u64])
        requires
            x < self.size(),
        ensures
            c@ == self.callbacks_at(x as int),
    {
        self.nodes[x].callbacks.as_slice()
    }

    /// The number of tokens.
    pub fn len(&self) -> (n: usize)
        ensures
            n == self.size(),
    {
        self.nodes.len()
    }

    /// The parent of token `x`, if it has one.
    pub fn parent(&self, x: usize) -> (p: Option<usize>)
        requires
            x < self.size(),
        ensures
            p == self.parent_at(x as int),
    {
        self.nodes[x].parent
    }
}

/// Two trees with the same parents keep the order of parents; with the same
/// cancellations as well, they are closed downward together.
proof fn lemma_same_shape(a: CancellationTree, b: CancellationTree, same_cancelled: bool)
    requires
        a.size() == b.size(),
        forall|i: int| 0 <= i < a.size() ==> #[trigger] b.parent_at(i) == a.parent_at(i),
        same_cancelled ==> forall|i: int| 0 <= i < a.size() ==> #[trigger] b.cancelled_at(i) == a.cancelled_at(i),
    ensures
        a.wf() ==> b.wf(),
        same_cancelled && a.wf() && a.closed_downward() ==> b.closed_downward(),
{
    if a.wf() {
        assert forall|i: int| 0 <= i < b.size() implies (#[trigger] b.parent_at(i) matches Some(p) ==> p < i) by {
            assert(b.parent_at(i) == a.parent_at(i));
        }
    }
    if same_cancelled && a.wf() && a.closed_downward() {
        assert forall|i: int| 0 <= i < b.size() implies (#[trigger] b.parent_at(i) matches Some(p)
            ==> (b.cancelled_at(p as int) ==> b.cancelled_at(i))) by {
            assert(b.parent_at(i) == a.parent_at(i));
            if let Some(p) = a.parent_at(i) {
                assert(p < i);
                assert(b.cancelled_at(p as int) == a.cancelled_at(p as int));
                assert(b.cancelled_at(i) == a.cancelled_at(i));
            }
        }
    }
}

/// `v` without the elements equal to `id`, in order.
fn without(v: &Vec<u64>, id: u64) -> (r: Vec<u64>)
    ensures
        r@ == v@.filter(|c: u64| c != id),
{
    let mut r: Vec<u64> = Vec::new();
    let mut i: usize = 0;
    while i < v.len()
        invariant
            i <= v@.len(),
            r@ == v@.take(i as int).filter(|c: u64| c != id),
        decreases v@.len() - i,
    {
        proof {
            assert(v@.take(i as int + 1).drop_last() =~= v@.take(i as int));
            v@.take(i as int + 1).filter_lemma(|c: u64| c != id);
            reveal(Seq::filter);
        }
        if v[i] != id {
            r.push(v[i]);
        }
        i = i + 1;
    }
    proof { assert(v@.take(v@.len() as int) =~= v@); }
    r
}

/// Resetting a token whose parent is cancelled leaves a child that is not
/// cancelled below a cancelled parent: the tree is then no longer closed
/// downward, and a later cancellation of an ancestor stops at the parent.
pub proof fn lemma_reset_below_cancelled_parent(t: CancellationTree, x: int, p: usize)
    requires
        t.parent_at(x) == Some(p),
        t.cancelled_at(p as int),
        !t.cancelled_at(x),
        0 <= x < t.size(),
    ensures
        !t.closed_downward(),
{
    assert(t.parent_at(x) matches Some(q) && q == p);
}

} // verus!
