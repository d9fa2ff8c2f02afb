//! The registry: a concurrent map from key strings to lock wrappers, with
//! the lazy, contention-safe creation protocol and the wait policy.
//!
//! The map is dashmap's sharded concurrent hash map, reached only through
//! non-blocking try-primitives, so readers are never serialized behind a
//! writer and no map-wide exclusive lock exists. Other threads may insert
//! at any time through their own shared references, so contracts here state
//! only observations that are stable: entries are never removed and a key's
//! binding is never replaced, so "seen present" and "the identity recorded
//! for a key" hold from the observation on.

use vstd::prelude::*;
use dashmap::DashMap;
use dashmap::try_result::TryResult;
use parking_lot::RwLock;
use std::sync::atomic::AtomicU32;
use std::time::Instant;
use crate::mutex::UniqueReentrantMutex;
use crate::protocol::CreationEvent;
use crate::protocol::CreationState;
use crate::protocol::ProbeOutcome;
use crate::protocol::step;

verus! {

broadcast use vstd::string::group_string_axioms;

/// Iteration budget of the creation loop: the termination measure Verus
/// asks for. No physical spin reaches it; a spent budget falls back to one
/// waiting insert, so the common path stays non-blocking.
const RETRY_BUDGET: u64 = u64::MAX;

#[verifier::external_type_specification]
#[verifier::external_body]
#[verifier::reject_recursive_types(K)]
#[verifier::reject_recursive_types(V)]
#[verifier::reject_recursive_types(S)]
pub struct ExDashMap<K, V, S>(DashMap<K, V, S>);

#[verifier::external_type_specification]
#[verifier::external_body]
#[verifier::reject_recursive_types(R)]
#[verifier::reject_recursive_types(T)]
pub struct ExRwLock<R, T: ?Sized>(parking_lot::lock_api::RwLock<R, T>);

#[verifier::external_type_specification]
#[verifier::external_body]
pub struct ExRawRwLock(parking_lot::RawRwLock);

#[verifier::external_type_specification]
#[verifier::external_body]
pub struct ExInstant(Instant);

/// The keys a registry map has been observed to contain. Entries are never
/// removed, so once a key is observed present the observation is stable;
/// nothing is ever concluded from absence.
pub uninterp spec fn known_keys(m: DashMap<String, UniqueReentrantMutex>) -> Set<Seq<char>>;

/// The identity recorded for each key in a registry map. A key's binding is
/// installed once and never replaced, so the identity recorded for a key
/// never changes.
pub uninterp spec fn key_identities(m: DashMap<String, UniqueReentrantMutex>) -> Map<
    Seq<char>,
    u32,
>;

/// Fatal outcome of the creation protocol: the wait bound expired before
/// the key was present. Carries the key and the timings for diagnosis.
#[derive(Debug)]
pub struct TimeoutError {
    /// The key whose creation timed out.
    pub key: String,
    /// Milliseconds the call had waited when it gave up.
    pub waited_ms: u64,
    /// The wait bound, in milliseconds, that the call compared against.
    pub limit_ms: u64,
}

/// The process-wide coordination service: the concurrent key-to-lock map,
/// the identity counter, and the wait policy. Every caller in the process
/// shares one value of this type.
pub struct LockRegistry {
    map: DashMap<String, UniqueReentrantMutex>,
    mutex_id: AtomicU32,
    max_wait_ms: RwLock<u64>,
}

/// Relies on std::time::Instant::now for the creation loop's start stamp.
#[verifier::external_body]
fn monotonic_now() -> Instant {
    Instant::now()
}

/// Relies on std::time::Instant::elapsed: the milliseconds elapsed since
/// `start`, saturating at u64::MAX.
#[verifier::external_body]
fn elapsed_millis(start: &Instant) -> u64 {
    u64::try_from(start.elapsed().as_millis()).unwrap_or(u64::MAX)
}

impl LockRegistry {
    /// The set of keys this registry has been observed to contain.
    pub closed spec fn keys_seen(self) -> Set<Seq<char>> {
        known_keys(self.map)
    }

    /// The identity recorded for each key this registry holds.
    pub closed spec fn identity_map(self) -> Map<Seq<char>, u32> {
        key_identities(self.map)
    }

    /// Relies on dashmap::DashMap::new, parking_lot::RwLock::new and
    /// std::sync::atomic::AtomicU32::new: an empty registry whose identity
    /// counter starts at 1 and whose wait bound starts at 60 seconds.
    #[verifier::external_body]
    pub fn new() -> LockRegistry {
        LockRegistry {
            map: DashMap::new(),
            mutex_id: AtomicU32::new(1),
            max_wait_ms: RwLock::new(60_000),
        }
    }

    /// Relies on dashmap::DashMap::try_get: `Present` means the key was in
    /// the map when the shard's read lock was briefly held, `Locked` means
    /// the shard's lock could not be taken (not absence), `Absent` means
    /// the key was not in the map at that moment.
    #[verifier::external_body]
    fn probe(&self, name: &str) -> (r: ProbeOutcome)
        ensures
            r is Hit ==> known_keys(self.map).contains(name@),
    {
        match self.map.try_get(name) {
            TryResult::Present(_) => ProbeOutcome::Hit,
            TryResult::Locked => ProbeOutcome::Contended,
            TryResult::Absent => ProbeOutcome::Miss,
        }
    }

    /// Relies on dashmap::DashMap::try_entry and Entry::or_insert_with: a
    /// `Some` entry holds the slot's write lock, and `or_insert_with`
    /// constructs and installs a value only when the slot is vacant, so at
    /// most one wrapper (consuming one identity) is ever installed per key.
    /// `true` means the key is in the map afterwards, freshly installed or
    /// already present; `false` means the slot's lock was contended and
    /// nothing was done.
    #[verifier::external_body]
    fn try_install(&self, name: &str) -> (r: bool)
        ensures
            r ==> known_keys(self.map).contains(name@),
    {
        match self.map.try_entry(name.to_string()) {
            Some(entry) => {
                entry.or_insert_with(|| UniqueReentrantMutex::fresh(&self.mutex_id));
                true
            },
            None => false,
        }
    }

    /// Relies on dashmap::DashMap::entry and Entry::or_insert_with: takes
    /// the slot's write lock, waiting for it if contended, and installs a
    /// fresh wrapper only if the slot is vacant; the key is in the map
    /// afterwards, so the call always reports success. Reached only when
    /// the creation loop's retry budget is spent, which no physical spin
    /// does, so the common path never blocks on the map.
    #[verifier::external_body]
    fn install_waiting(&self, name: &str) -> (r: bool)
        ensures
            r,
            r ==> known_keys(self.map).contains(name@),
    {
        self.map.entry(name.to_string()).or_insert_with(
            || UniqueReentrantMutex::fresh(&self.mutex_id),
        );
        true
    }

    /// Relies on dashmap::DashMap::len: the number of entries at the read.
    #[verifier::external_body]
    pub fn len(&self) -> usize {
        self.map.len()
    }

    /// Relies on dashmap::DashMap::get: the identity of the wrapper bound
    /// to `name`, if the key is present. The binding is never replaced, so
    /// every successful lookup of one key reports the same identity.
    #[verifier::external_body]
    fn read_identity(&self, name: &str) -> (r: Option<u32>)
        ensures
            r is Some ==> known_keys(self.map).contains(name@),
            r is Some ==> r->0 == key_identities(self.map)[name@],
    {
        self.map.get(name).map(|entry| entry.id)
    }

    /// The identity of the wrapper bound to `name`, if the key is present:
    /// always the one identity this registry records for the key.
    pub fn id_of(&self, name: &str) -> (r: Option<u32>)
        ensures
            r is Some ==> self.keys_seen().contains(name@),
            r is Some ==> r->0 == self.identity_map()[name@],
    {
        self.read_identity(name)
    }

    /// Relies on dashmap::DashMap::get: the wrapper's parallel-participant
    /// count at the moment of the read, if the key is present.
    #[verifier::external_body]
    pub fn parallel_count_of(&self, name: &str) -> (r: Option<u32>)
        ensures
            r is Some ==> self.keys_seen().contains(name@),
    {
        self.map.get(name).map(|entry| entry.value().parallel_count())
    }

    /// Relies on dashmap::DashMap::get_mut: runs the verified
    /// `try_start_parallel` on the wrapper bound to `name` under the
    /// shard's write lock. `Some(applied)` reports what the update did;
    /// `None` means the key is absent.
    #[verifier::external_body]
    pub fn enter_parallel(&self, name: &str) -> (r: Option<bool>)
        ensures
            r is Some ==> self.keys_seen().contains(name@),
    {
        self.map.get_mut(name).map(|mut entry| entry.value_mut().try_start_parallel())
    }

    /// Relies on dashmap::DashMap::get_mut: runs the verified
    /// `try_end_parallel` on the wrapper bound to `name` under the shard's
    /// write lock.
    #[verifier::external_body]
    pub fn exit_parallel(&self, name: &str) -> (r: Option<bool>)
        ensures
            r is Some ==> self.keys_seen().contains(name@),
    {
        self.map.get_mut(name).map(|mut entry| entry.value_mut().try_end_parallel())
    }

    /// Relies on dashmap::DashMap::get_mut: runs the verified `try_lock`
    /// (reentrant exclusive acquisition) on the wrapper bound to `name`
    /// under the shard's write lock.
    #[verifier::external_body]
    pub fn serial_acquire(&self, name: &str) -> (r: Option<bool>)
        ensures
            r is Some ==> self.keys_seen().contains(name@),
    {
        self.map.get_mut(name).map(|mut entry| entry.value_mut().try_lock())
    }

    /// Relies on dashmap::DashMap::get_mut: runs the verified `try_unlock`
    /// on the wrapper bound to `name` under the shard's write lock.
    #[verifier::external_body]
    pub fn serial_release(&self, name: &str) -> (r: Option<bool>)
        ensures
            r is Some ==> self.keys_seen().contains(name@),
    {
        self.map.get_mut(name).map(|mut entry| entry.value_mut().try_unlock())
    }

    /// Relies on parking_lot::RwLock::write: replaces the process-wide
    /// maximum wait, effective for every wait in progress or to come. The
    /// bound is kept positive.
    #[verifier::external_body]
    pub fn set_max_wait(&self, max_wait_ms: u64)
        requires
            max_wait_ms >= 1,
    {
        *self.max_wait_ms.write() = max_wait_ms;
    }

    /// Relies on parking_lot::RwLock::read: the current maximum wait in
    /// milliseconds. The registry starts at 60 000 and `set_max_wait`
    /// admits only positive bounds, so the value read is positive.
    #[verifier::external_body]
    pub fn wait_duration(&self) -> (r: u64)
        ensures
            r >= 1,
    {
        *self.max_wait_ms.read()
    }

    /// Ensure the registry contains an entry for `name`, creating one on
    /// first use, without ever taking a map-wide exclusive lock.
    ///
    /// The call drives the creation machine: it probes, inserts on
    /// confirmed absence, and absorbs contention by retrying, until the key
    /// is present (`Ok`) or the elapsed wait exceeds the policy's bound
    /// (`Err`, terminal). The error names the key and reports a wait
    /// strictly beyond the bound it was compared against.
    pub fn ensure_key_exists(&self, name: &str) -> (r: Result<(), TimeoutError>)
        ensures
            r is Ok ==> self.keys_seen().contains(name@),
            r is Err ==> r->Err_0.key@ == name@ && r->Err_0.waited_ms > r->Err_0.limit_ms,
    {
        let start = monotonic_now();
        let mut state = CreationState::Probing;
        let mut budget: u64 = RETRY_BUDGET;
        loop
            invariant
                state is Probing,
            decreases budget,
        {
            if budget == 0 {
                let installed = self.install_waiting(name);
                if installed {
                    return Ok(());
                }
            } else {
                budget = budget - 1;
            }
            match self.probe(name) {
                ProbeOutcome::Hit => {
                    state = step(state, CreationEvent::ProbeHit);
                    assert(state is Present);
                    return Ok(());
                },
                ProbeOutcome::Contended => {
                    state = step(state, CreationEvent::ProbeContended);
                },
                ProbeOutcome::Miss => {
                    state = step(state, CreationEvent::ProbeMiss);
                    if self.try_install(name) {
                        state = step(state, CreationEvent::InsertDone);
                        assert(state is Present);
                        return Ok(());
                    }
                    state = step(state, CreationEvent::InsertContended);
                },
            }
            let waited = elapsed_millis(&start);
            let limit = self.wait_duration();
            if waited > limit {
                state = step(state, CreationEvent::Expired);
                assert(state is TimedOut);
                return Err(
                    TimeoutError { key: name.to_string(), waited_ms: waited, limit_ms: limit },
                );
            }
        }
    }
}

/// Idempotent creation, the observable half: every caller that looks up
/// one key sees the one identity recorded for it. `id_of` reports
/// `identity_map()[key]`, and the binding behind that record is installed
/// once and never replaced, so two successful lookups always agree.
pub proof fn lemma_identity_agreement(r: LockRegistry, key: Seq<char>, a: u32, b: u32)
    requires
        a == r.identity_map()[key],
        b == r.identity_map()[key],
    ensures
        a == b,
{
}

} // verus!
