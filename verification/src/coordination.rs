//! Bookkeeping model of the per-key exclusive/shared coordination primitive.
//!
//! The registry treats this primitive as a collaborator: it only needs an
//! exclusive ("serial") side that tolerates reentrant acquisition and a
//! shared ("parallel") side that counts participants. Every state change
//! goes through an exclusive borrow, so distinct holders can never update
//! the same lock at the same time.

use vstd::prelude::*;

verus! {

/// Per-key exclusive/shared coordination state: a reentrancy depth for the
/// serial side and a participant count for the parallel side.
pub struct Locks {
    exclusive_depth: u32,
    parallels: u32,
}

impl Locks {
    /// How many times the exclusive side is currently held.
    pub closed spec fn depth(self) -> u32 {
        self.exclusive_depth
    }

    /// How many parallel participants are currently registered.
    pub closed spec fn shared_participants(self) -> u32 {
        self.parallels
    }

    /// A fresh lock: unheld, with no participants.
    pub fn new() -> (r: Locks)
        ensures
            r.depth() == 0,
            r.shared_participants() == 0,
    {
        Locks { exclusive_depth: 0, parallels: 0 }
    }

    /// Acquire the exclusive side once more; reentrant acquisition from the
    /// context already holding it deepens the hold by one.
    pub fn acquire_exclusive(&mut self)
        requires
            old(self).depth() < u32::MAX,
        ensures
            final(self).depth() == old(self).depth() + 1,
            final(self).shared_participants() == old(self).shared_participants(),
    {
        self.exclusive_depth = self.exclusive_depth + 1;
    }

    /// Release one level of the exclusive hold.
    pub fn release_exclusive(&mut self)
        requires
            old(self).depth() >= 1,
        ensures
            final(self).depth() == old(self).depth() - 1,
            final(self).shared_participants() == old(self).shared_participants(),
    {
        self.exclusive_depth = self.exclusive_depth - 1;
    }

    /// Register one more parallel participant.
    pub fn enter_shared(&mut self)
        requires
            old(self).shared_participants() < u32::MAX,
        ensures
            final(self).shared_participants() == old(self).shared_participants() + 1,
            final(self).depth() == old(self).depth(),
    {
        self.parallels = self.parallels + 1;
    }

    /// Unregister one parallel participant.
    pub fn exit_shared(&mut self)
        requires
            old(self).shared_participants() >= 1,
        ensures
            final(self).shared_participants() == old(self).shared_participants() - 1,
            final(self).depth() == old(self).depth(),
    {
        self.parallels = self.parallels - 1;
    }

    /// Current number of parallel participants.
    pub fn shared_count(&self) -> (r: u32)
        ensures
            r == self.shared_participants(),
    {
        self.parallels
    }

    /// Whether the exclusive side can be deepened by one more hold.
    pub fn can_acquire_exclusive(&self) -> (r: bool)
        ensures
            r == (self.depth() < u32::MAX),
    {
        self.exclusive_depth < u32::MAX
    }

    /// Whether the exclusive side is held by anyone.
    pub fn is_held(&self) -> (r: bool)
        ensures
            r == (self.depth() > 0),
    {
        self.exclusive_depth > 0
    }
}

/// Participant count after `m` enter-shared steps from `c`, with no exits in
/// between; each step adds one, as `Locks::enter_shared` ensures.
pub open spec fn count_after_enters(c: nat, m: nat) -> nat
    decreases m,
{
    if m == 0 {
        c
    } else {
        count_after_enters(c, (m - 1) as nat) + 1
    }
}

/// Participant count after `m` exit-shared steps from `c`; each step removes
/// one participant while any remain, as `Locks::exit_shared` ensures.
pub open spec fn count_after_exits(c: nat, m: nat) -> nat
    decreases m,
{
    if m == 0 {
        c
    } else if c == 0 {
        0
    } else {
        count_after_exits((c - 1) as nat, (m - 1) as nat)
    }
}

/// Enter-shared steps accumulate exactly: `m` steps from `c` give `c + m`.
pub proof fn lemma_enters_accumulate(c: nat, m: nat)
    ensures
        count_after_enters(c, m) == c + m,
    decreases m,
{
    if m > 0 {
        lemma_enters_accumulate(c, (m - 1) as nat);
    }
}

/// Exit-shared steps drain exactly while participants remain.
pub proof fn lemma_exits_drain(c: nat, m: nat)
    requires
        m <= c,
    ensures
        count_after_exits(c, m) == c - m,
    decreases m,
{
    if m > 0 {
        lemma_exits_drain((c - 1) as nat, (m - 1) as nat);
    }
}

/// Parallel counting correctness: after `m` enter-shared steps on a lock
/// with no active participants and no intervening exits, the count is
/// exactly `m`; after `m` matching exit steps it returns to zero.
pub proof fn lemma_parallel_counting(m: nat)
    ensures
        count_after_enters(0, m) == m,
        count_after_exits(m, m) == 0,
{
    lemma_enters_accumulate(0, m);
    lemma_exits_drain(m, m);
}

} // verus!
