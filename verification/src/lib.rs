//! Portable readiness-notification core.
//!
//! A caller registers interest in I/O readiness on a set of raw OS handles
//! and then blocks until one of them becomes ready.  The native notification
//! primitives (kernel event queues on the BSD family, completion ports on
//! Windows) are mutually incompatible; this crate holds the platform-neutral
//! logic that a backend for either primitive is built on: the interest model,
//! the construction of batched change lists, the filtering of per-entry
//! receipt codes, and the translation of fired kernel records into uniform
//! events.  The thin layer that issues the native system calls themselves is
//! platform-specific and lives outside this crate.

use vstd::prelude::*;

pub mod iocp;
pub mod kqueue;
pub mod notify;
pub mod semantics;

verus! {

/// Interest in a single registration, as reported back to the caller.
///
/// `key` is an opaque caller-chosen identifier echoed back verbatim on every
/// firing for the registration.  `readable` and `writable` are independent;
/// both may be set at once.
#[derive(Clone, Copy, Debug, PartialEq, Eq, Structural)]
pub struct Event {
    /// Caller-chosen identifier of the registration that fired.
    pub key: usize,
    /// Interest in (or report of) read readiness.
    pub readable: bool,
    /// Interest in (or report of) write readiness.
    pub writable: bool,
}

impl Event {
    /// Interest in both read and write readiness.
    pub fn all(key: usize) -> (r: Event)
        ensures
            r == (Event { key, readable: true, writable: true }),
    {
        Event { key, readable: true, writable: true }
    }

    /// Interest in read readiness only.
    pub fn readable(key: usize) -> (r: Event)
        ensures
            r == (Event { key, readable: true, writable: false }),
    {
        Event { key, readable: true, writable: false }
    }

    /// Interest in write readiness only.
    pub fn writable(key: usize) -> (r: Event)
        ensures
            r == (Event { key, readable: false, writable: true }),
    {
        Event { key, readable: false, writable: true }
    }

    /// No interest in either direction.
    pub fn none(key: usize) -> (r: Event)
        ensures
            r == (Event { key, readable: false, writable: false }),
    {
        Event { key, readable: false, writable: false }
    }
}

/// Governs how a registration re-arms after it fires.
#[derive(Clone, Copy, Debug, PartialEq, Eq, Structural)]
pub enum PollMode {
    /// Interest is cleared after one firing; the caller must re-register.
    Oneshot,
    /// The registration fires on every wait while the condition holds.
    Level,
    /// The registration fires once per transition into the ready state.
    Edge,
    /// Fires once on a transition, then requires re-registration.
    EdgeOneshot,
}

/// The key reserved for the backend's own wake-up channel.
///
/// Callers must never register interest under this key; every backend uses it
/// for the registration through which `notify` unblocks a pending `wait`.
pub const NOTIFY_KEY: usize = usize::MAX;

/// A failed native operation, carrying the OS's numeric error code.
#[derive(Clone, Copy, Debug, PartialEq, Eq, Structural)]
pub struct OsError {
    /// The raw OS error code.
    pub code: i64,
}

} // verus!
