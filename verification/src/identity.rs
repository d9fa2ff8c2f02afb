//! The identity allocator: a monotonically increasing counter handing out a
//! unique numeric identity to each created lock wrapper.
//!
//! This module is the sequential model of the allocation discipline. In the
//! registry the counter is realized by an atomic fetch-and-add so that
//! concurrent creations each draw a distinct value; the laws below state
//! what that discipline yields over any run of allocations.

use vstd::prelude::*;

verus! {

/// A counter that starts at 1 and hands out its current value on every
/// allocation, then advances; values are never reused and never decrease.
pub struct IdentityAllocator {
    next: u32,
}

impl IdentityAllocator {
    /// The identity the next allocation will return.
    pub closed spec fn next_id(self) -> u32 {
        self.next
    }

    /// A fresh allocator: the first identity handed out is 1.
    pub fn new() -> (r: IdentityAllocator)
        ensures
            r.next_id() == 1,
    {
        IdentityAllocator { next: 1 }
    }

    /// Hand out the next identity and advance the counter.
    pub fn allocate(&mut self) -> (r: u32)
        requires
            old(self).next_id() < u32::MAX,
        ensures
            r == old(self).next_id(),
            final(self).next_id() == old(self).next_id() + 1,
    {
        let id = self.next;
        self.next = self.next + 1;
        id
    }
}

/// The counter standing after `k` allocations on a fresh allocator: it
/// starts at 1 and each allocation advances it by one, as
/// `IdentityAllocator::allocate` ensures.
pub open spec fn counter_after(k: nat) -> int
    decreases k,
{
    if k == 0 {
        1
    } else {
        counter_after((k - 1) as nat) + 1
    }
}

/// The identity assigned by the `i`-th allocation (counting from 0):
/// `allocate` returns the counter standing before it advances.
pub open spec fn assigned_identity(i: nat) -> int {
    counter_after(i)
}

/// The counter after `k` allocations is exactly `1 + k`.
pub proof fn lemma_counter_after(k: nat)
    ensures
        counter_after(k) == 1 + k,
    decreases k,
{
    if k > 0 {
        lemma_counter_after((k - 1) as nat);
    }
}

/// Identity monotonicity: over any run of creations, the `i`-th created
/// wrapper receives identity `i + 1`, so the assigned identities are
/// strictly increasing, duplicate-free, and gap-free relative to the
/// creation count.
pub proof fn lemma_identity_monotonic(i: nat, j: nat)
    requires
        i < j,
    ensures
        assigned_identity(i) == i + 1,
        assigned_identity(j) == j + 1,
        assigned_identity(i) < assigned_identity(j),
{
    lemma_counter_after(i);
    lemma_counter_after(j);
}

} // verus!
