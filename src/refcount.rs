//! Manual reference counting for handles shared with the host.
//!
//! A handle starts with one reference. Each clone adds one and each release
//! takes one away; the release that takes the count from one to zero is the
//! one that frees the payload.

use vstd::prelude::*;

verus! {

/// What the host does to a shared handle.
#[derive(Clone, Copy, Debug, PartialEq, Eq, Structural)]
pub enum RefOp {
    Clone,
    Release,
}

/// The count after one operation on a live handle.
pub open spec fn ref_step(count: nat, op: RefOp) -> nat {
    match op {
        RefOp::Clone => count + 1,
        RefOp::Release => (count - 1) as nat,
    }
}

/// Whether an operation on a handle with `count` references frees the payload.
pub open spec fn ref_frees(count: nat, op: RefOp) -> bool {
    op == RefOp::Release && count == 1
}

/// The count after a run of operations on a fresh handle.
pub open spec fn count_after(ops: Seq<RefOp>) -> nat
    decreases ops.len(),
{
    if ops.len() == 0 {
        1
    } else {
        ref_step(count_after(ops.drop_last()), ops.last())
    }
}

/// Every operation of the run is applied to a handle that is still alive.
pub open spec fn all_on_live(ops: Seq<RefOp>) -> bool {
    forall|i: int| 0 <= i < ops.len() ==> count_after(#[trigger] ops.take(i)) > 0
}

/// Whether the `i`-th operation of the run frees the payload.
pub open spec fn frees_at(ops: Seq<RefOp>, i: int) -> bool {
    ref_frees(count_after(ops.take(i)), ops[i])
}

/// How many operations of the run free the payload.
pub open spec fn free_count(ops: Seq<RefOp>) -> nat
    decreases ops.len(),
{
    if ops.len() == 0 {
        0
    } else {
        free_count(ops.drop_last()) + if frees_at(ops, ops.len() - 1) {
            1nat
        } else {
            0nat
        }
    }
}

pub open spec fn clones_in(ops: Seq<RefOp>) -> nat {
    ops.filter(|op: RefOp| op == RefOp::Clone).len()
}

pub open spec fn releases_in(ops: Seq<RefOp>) -> nat {
    ops.filter(|op: RefOp| op == RefOp::Release).len()
}

/// A reference count; zero means the payload has been freed.
pub struct RefCount {
    count: u64,
}

impl View for RefCount {
    type V = nat;

    closed spec fn view(&self) -> nat {
        self.count as nat
    }
}

impl RefCount {
    /// A count for a freshly created handle: one reference.
    pub fn new() -> (r: RefCount)
        ensures
            r@ == 1,
    {
        RefCount { count: 1 }
    }

    pub fn count(&self) -> (r: u64)
        ensures
            r as nat == self@,
    {
        self.count
    }

    /// Takes one more reference (the host's clone of the handle).
    pub fn acquire(&mut self)
        requires
            old(self)@ > 0,
            old(self)@ < u64::MAX,
        ensures
            final(self)@ == ref_step(old(self)@, RefOp::Clone),
    {
        self.count = self.count + 1;
    }

    /// Drops one reference; returns whether the payload must now be freed.
    pub fn release(&mut self) -> (freed: bool)
        requires
            old(self)@ > 0,
        ensures
            final(self)@ == ref_step(old(self)@, RefOp::Release),
            freed == ref_frees(old(self)@, RefOp::Release),
    {
        self.count = self.count - 1;
        self.count == 0
    }
}

/// Decides a release made with an atomic decrement, from the value the
/// decrement observed: the payload is freed when that value was one.
pub fn release_frees(previous: u64) -> (r: bool)
    requires
        previous > 0,
    ensures
        r == ref_frees(previous as nat, RefOp::Release),
{
    previous == 1
}

/// Decides whether a clone made with an atomic increment was valid, from the
/// value the increment observed: the handle was alive and the count did not
/// overflow, so the count is now one more.
pub fn clone_valid(previous: u64) -> (r: bool)
    ensures
        r == (previous > 0 && previous < u64::MAX),
        r ==> ref_step(previous as nat, RefOp::Clone) == previous as nat + 1,
{
    previous > 0 && previous < u64::MAX
}

proof fn lemma_take_step(ops: Seq<RefOp>, i: int)
    requires
        0 <= i < ops.len(),
    ensures
        count_after(ops.take(i + 1)) == ref_step(count_after(ops.take(i)), ops[i]),
{
    assert(ops.take(i + 1).drop_last() =~= ops.take(i));
}

proof fn lemma_count_balance(ops: Seq<RefOp>)
    requires
        all_on_live(ops),
    ensures
        count_after(ops) + releases_in(ops) == 1 + clones_in(ops),
    decreases ops.len(),
{
    if ops.len() > 0 {
        let pre = ops.drop_last();
        assert(all_on_live(pre)) by {
            assert forall|i: int| 0 <= i < pre.len() implies count_after(#[trigger] pre.take(i))
                > 0 by {
                assert(pre.take(i) =~= ops.take(i));
            }
        }
        lemma_count_balance(pre);
        assert(ops.take(ops.len() - 1) =~= pre);
        assert(ops =~= pre.push(ops.last()));
        pre.lemma_filter_push(ops.last(), |op: RefOp| op == RefOp::Clone);
        pre.lemma_filter_push(ops.last(), |op: RefOp| op == RefOp::Release);
    }
}

proof fn lemma_free_count_prefix(ops: Seq<RefOp>, n: int)
    requires
        0 <= n <= ops.len(),
        forall|i: int| 0 <= i < n ==> !frees_at(ops, i),
    ensures
        free_count(ops.take(n)) == 0,
    decreases n,
{
    if n > 0 {
        let t = ops.take(n);
        assert(t.drop_last() =~= ops.take(n - 1));
        assert(t.take(n - 1) =~= ops.take(n - 1));
        lemma_free_count_prefix(ops, n - 1);
        assert(!frees_at(ops, n - 1));
    }
}

/// Refcount safety: whatever the order in which `N` clones and `N + 1`
/// releases reach a fresh handle, as long as each one reaches it while it is
/// alive, the payload is freed exactly once, by the last operation, and the
/// count then stands at zero.
pub proof fn lemma_freed_exactly_once(ops: Seq<RefOp>)
    requires
        all_on_live(ops),
        releases_in(ops) == clones_in(ops) + 1,
    ensures
        count_after(ops) == 0,
        free_count(ops) == 1,
        ops.len() > 0 && frees_at(ops, ops.len() - 1),
        forall|i: int| 0 <= i < ops.len() - 1 ==> !frees_at(ops, i),
{
    lemma_count_balance(ops);
    if ops.len() == 0 {
        assert(ops.filter(|op: RefOp| op == RefOp::Release) =~= Seq::<RefOp>::empty());
    }
    let n = ops.len() as int;
    assert forall|i: int| 0 <= i < n - 1 implies !frees_at(ops, i) by {
        lemma_take_step(ops, i);
        assert(count_after(ops.take(i + 1)) > 0);
    }
    lemma_take_step(ops, n - 1);
    assert(ops.take(n) =~= ops);
    lemma_free_count_prefix(ops, n - 1);
    assert(ops.drop_last() =~= ops.take(n - 1));
}

} // verus!
