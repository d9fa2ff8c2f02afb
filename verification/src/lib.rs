//! Named-resource lock coordination.
//!
//! A registry maps string keys to lazily created, identity-tagged reentrant
//! lock wrappers shared by many concurrent callers. The registry's creation
//! protocol never takes a map-wide exclusive lock: it retries non-blocking
//! probe and insert steps, bounded by a configurable wait policy that turns
//! a stuck creation into a diagnosable timeout instead of a hang.

pub mod coordination;
pub mod identity;
pub mod mutex;
pub mod protocol;
pub mod registry;
