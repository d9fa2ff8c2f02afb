//! The key-creation protocol as a state machine.
//!
//! One `ensure_key_exists` call moves through these states: it probes for
//! the key, inserts on confirmed absence, and loops on contention, until the
//! key is present or the wait policy's bound expires. The registry's loop
//! drives exactly this machine; the lemmas state its terminal behaviour.

use vstd::prelude::*;

verus! {

/// What one non-blocking probe of the registry reported.
#[derive(Clone, Copy, Debug)]
pub enum ProbeOutcome {
    /// The key is present; the caller is done.
    Hit,
    /// The slot's shard was locked by a concurrent writer; not absence.
    Contended,
    /// The key is genuinely absent; try to insert it.
    Miss,
}

/// One observation made by the creation loop.
#[derive(Clone, Copy, Debug)]
pub enum CreationEvent {
    /// A probe found the key present.
    ProbeHit,
    /// A probe could not take its shard's read lock.
    ProbeContended,
    /// A probe confirmed the key absent.
    ProbeMiss,
    /// A try-insert installed the key, or found it already installed.
    InsertDone,
    /// A try-insert could not take its slot's write lock.
    InsertContended,
    /// The elapsed wait exceeded the policy's bound.
    Expired,
}

/// The state of one `ensure_key_exists` call.
#[derive(Clone, Copy, Debug)]
pub enum CreationState {
    /// Reading the registry for the key.
    Probing,
    /// The key was confirmed absent; attempting a try-insert.
    Inserting,
    /// The key is in the registry; the call returns normally.
    Present,
    /// The wait bound expired before the key was present; terminal, fatal.
    TimedOut,
}

/// The transition relation of the creation machine. `Present` and
/// `TimedOut` are terminal; contention of either kind returns the call to
/// probing; expiry in any non-terminal state times the call out.
pub open spec fn spec_step(s: CreationState, e: CreationEvent) -> CreationState {
    match s {
        CreationState::Present => CreationState::Present,
        CreationState::TimedOut => CreationState::TimedOut,
        CreationState::Probing => match e {
            CreationEvent::ProbeHit => CreationState::Present,
            CreationEvent::ProbeContended => CreationState::Probing,
            CreationEvent::ProbeMiss => CreationState::Inserting,
            CreationEvent::InsertDone => CreationState::Probing,
            CreationEvent::InsertContended => CreationState::Probing,
            CreationEvent::Expired => CreationState::TimedOut,
        },
        CreationState::Inserting => match e {
            CreationEvent::ProbeHit => CreationState::Inserting,
            CreationEvent::ProbeContended => CreationState::Inserting,
            CreationEvent::ProbeMiss => CreationState::Inserting,
            CreationEvent::InsertDone => CreationState::Present,
            CreationEvent::InsertContended => CreationState::Probing,
            CreationEvent::Expired => CreationState::TimedOut,
        },
    }
}

/// Advance the creation machine by one observed event.
pub fn step(s: CreationState, e: CreationEvent) -> (r: CreationState)
    ensures
        r == spec_step(s, e),
{
    match s {
        CreationState::Present => CreationState::Present,
        CreationState::TimedOut => CreationState::TimedOut,
        CreationState::Probing => match e {
            CreationEvent::ProbeHit => CreationState::Present,
            CreationEvent::ProbeContended => CreationState::Probing,
            CreationEvent::ProbeMiss => CreationState::Inserting,
            CreationEvent::InsertDone => CreationState::Probing,
            CreationEvent::InsertContended => CreationState::Probing,
            CreationEvent::Expired => CreationState::TimedOut,
        },
        CreationState::Inserting => match e {
            CreationEvent::ProbeHit => CreationState::Inserting,
            CreationEvent::ProbeContended => CreationState::Inserting,
            CreationEvent::ProbeMiss => CreationState::Inserting,
            CreationEvent::InsertDone => CreationState::Present,
            CreationEvent::InsertContended => CreationState::Probing,
            CreationEvent::Expired => CreationState::TimedOut,
        },
    }
}

/// `Present` and `TimedOut` are terminal: no event leaves them.
pub proof fn lemma_terminal_states(e: CreationEvent)
    ensures
        spec_step(CreationState::Present, e) is Present,
        spec_step(CreationState::TimedOut, e) is TimedOut,
{
}

/// The machine reaches `Present` only through a probe hit or a completed
/// try-insert: a call never concludes the key exists without having
/// observed it present or installed it.
pub proof fn lemma_present_needs_evidence(s: CreationState, e: CreationEvent)
    requires
        !(s is Present),
        spec_step(s, e) is Present,
    ensures
        e is ProbeHit || e is InsertDone,
{
}

/// Expiry of the wait bound in any non-terminal state times the call out.
pub proof fn lemma_expiry_is_fatal(s: CreationState)
    requires
        !(s is Present),
        !(s is TimedOut),
    ensures
        spec_step(s, CreationEvent::Expired) is TimedOut,
{
}

/// Contention is absorbed: a contended probe or insert never ends the call;
/// it returns the machine to a non-terminal state to retry.
pub proof fn lemma_contention_retries(s: CreationState, e: CreationEvent)
    requires
        !(s is Present),
        !(s is TimedOut),
        e is ProbeContended || e is InsertContended,
    ensures
        !(spec_step(s, e) is Present),
        !(spec_step(s, e) is TimedOut),
{
}

} // verus!
