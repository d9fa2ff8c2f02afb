//! The per-key lock wrapper: a coordination lock tagged with the numeric
//! identity assigned when the wrapper was created.

use vstd::prelude::*;
use std::sync::atomic::AtomicU32;
use std::sync::atomic::Ordering;
use crate::coordination::Locks;

verus! {

/// One registry entry's value: an exclusive/shared coordination lock plus an
/// identity that is assigned once and never changes.
pub struct UniqueReentrantMutex {
    locks: Locks,
    /// Identity assigned at construction; distinguishes lock instances.
    pub id: u32,
}

impl UniqueReentrantMutex {
    /// The identity assigned at construction.
    pub closed spec fn identity(self) -> u32 {
        self.id
    }

    /// Current reentrancy depth of the exclusive ("serial") side.
    pub closed spec fn depth(self) -> u32 {
        self.locks.depth()
    }

    /// Current number of parallel participants.
    pub closed spec fn shared_participants(self) -> u32 {
        self.locks.shared_participants()
    }

    /// A fresh, unheld wrapper carrying the given identity.
    pub fn new(id: u32) -> (r: UniqueReentrantMutex)
        ensures
            r.identity() == id,
            r.depth() == 0,
            r.shared_participants() == 0,
    {
        UniqueReentrantMutex { locks: Locks::new(), id }
    }

    /// A fresh wrapper whose identity is drawn from the process-wide
    /// counter; the draw and the construction form one step, so a wrapper
    /// installed into the registry consumes exactly one identity.
    pub fn fresh(counter: &AtomicU32) -> (r: UniqueReentrantMutex)
        ensures
            r.depth() == 0,
            r.shared_participants() == 0,
    {
        let id = counter.fetch_add(1, Ordering::SeqCst);
        UniqueReentrantMutex::new(id)
    }

    /// Acquire the exclusive side; reentrant with respect to a context that
    /// already holds it.
    pub fn lock(&mut self)
        requires
            old(self).depth() < u32::MAX,
        ensures
            final(self).depth() == old(self).depth() + 1,
            final(self).shared_participants() == old(self).shared_participants(),
            final(self).identity() == old(self).identity(),
    {
        self.locks.acquire_exclusive();
    }

    /// Release one level of the exclusive hold.
    pub fn unlock(&mut self)
        requires
            old(self).depth() >= 1,
        ensures
            final(self).depth() == old(self).depth() - 1,
            final(self).shared_participants() == old(self).shared_participants(),
            final(self).identity() == old(self).identity(),
    {
        self.locks.release_exclusive();
    }

    /// Register the calling context as one more parallel participant.
    pub fn start_parallel(&mut self)
        requires
            old(self).shared_participants() < u32::MAX,
        ensures
            final(self).shared_participants() == old(self).shared_participants() + 1,
            final(self).depth() == old(self).depth(),
            final(self).identity() == old(self).identity(),
    {
        self.locks.enter_shared();
    }

    /// Unregister one parallel participant.
    pub fn end_parallel(&mut self)
        requires
            old(self).shared_participants() >= 1,
        ensures
            final(self).shared_participants() == old(self).shared_participants() - 1,
            final(self).depth() == old(self).depth(),
            final(self).identity() == old(self).identity(),
    {
        self.locks.exit_shared();
    }

    /// Current count of active parallel participants.
    pub fn parallel_count(&self) -> (r: u32)
        ensures
            r == self.shared_participants(),
    {
        self.locks.shared_count()
    }

    /// Whether the exclusive side is currently held.
    pub fn is_locked(&self) -> (r: bool)
        ensures
            r == (self.depth() > 0),
    {
        self.locks.is_held()
    }

    /// Total form of `lock` for callers that cannot bound the depth:
    /// reports whether the acquisition was applied.
    pub fn try_lock(&mut self) -> (r: bool)
        ensures
            r == (old(self).depth() < u32::MAX),
            r ==> final(self).depth() == old(self).depth() + 1,
            !r ==> final(self).depth() == old(self).depth(),
            final(self).shared_participants() == old(self).shared_participants(),
            final(self).identity() == old(self).identity(),
    {
        if self.locks.can_acquire_exclusive() {
            self.lock();
            true
        } else {
            false
        }
    }

    /// Total form of `unlock`: reports whether a hold was released.
    pub fn try_unlock(&mut self) -> (r: bool)
        ensures
            r == (old(self).depth() >= 1),
            r ==> final(self).depth() == old(self).depth() - 1,
            !r ==> final(self).depth() == old(self).depth(),
            final(self).shared_participants() == old(self).shared_participants(),
            final(self).identity() == old(self).identity(),
    {
        if self.is_locked() {
            self.unlock();
            true
        } else {
            false
        }
    }

    /// Total form of `start_parallel`: reports whether the participant was
    /// registered.
    pub fn try_start_parallel(&mut self) -> (r: bool)
        ensures
            r == (old(self).shared_participants() < u32::MAX),
            r ==> final(self).shared_participants() == old(self).shared_participants() + 1,
            !r ==> final(self).shared_participants() == old(self).shared_participants(),
            final(self).depth() == old(self).depth(),
            final(self).identity() == old(self).identity(),
    {
        if self.parallel_count() < u32::MAX {
            self.start_parallel();
            true
        } else {
            false
        }
    }

    /// Total form of `end_parallel`: reports whether a participant was
    /// unregistered.
    pub fn try_end_parallel(&mut self) -> (r: bool)
        ensures
            r == (old(self).shared_participants() >= 1),
            r ==> final(self).shared_participants() == old(self).shared_participants() - 1,
            !r ==> final(self).shared_participants() == old(self).shared_participants(),
            final(self).depth() == old(self).depth(),
            final(self).identity() == old(self).identity(),
    {
        if self.parallel_count() >= 1 {
            self.end_parallel();
            true
        } else {
            false
        }
    }
}

} // verus!
