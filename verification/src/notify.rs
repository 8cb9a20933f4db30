//! Logic of the self-notification channel.
//!
//! Any thread may wake a thread blocked in a wait on the kernel queue.  Two
//! strategies exist behind one interface: where the kernel offers a
//! user-triggerable event filter, the channel is that filter, registered
//! under the reserved key; elsewhere the channel is a connected pair of
//! non-blocking byte-stream endpoints, the read end registered under the
//! reserved key and one byte written to the write end per wake.  This module
//! holds the change entries and registration requests either variant
//! submits; writing the wake byte and draining it back out are I/O done by
//! the platform layer.

use vstd::prelude::*;

use crate::kqueue::{
    modify_changes, spec_read_change, spec_write_change, Filter, Kevent, EV_ADD, EV_CLEAR,
    EV_DELETE, EV_RECEIPT, NOTE_TRIGGER,
};
use crate::{Event, PollMode, NOTIFY_KEY};

verus! {

/// The entry that registers the user-triggerable event filter under the
/// reserved key, flagged to clear automatically after it fires.
pub open spec fn spec_user_register() -> Kevent {
    Kevent {
        filter: Filter::User(0),
        flags: EV_ADD | EV_RECEIPT | EV_CLEAR,
        fflags: 0,
        data: 0,
        key: NOTIFY_KEY,
    }
}

/// The entry that fires the user-triggerable event filter.
pub open spec fn spec_user_trigger() -> Kevent {
    Kevent {
        filter: Filter::User(0),
        flags: EV_ADD | EV_RECEIPT,
        fflags: NOTE_TRIGGER,
        data: 0,
        key: NOTIFY_KEY,
    }
}

/// The entry that removes the user-triggerable event filter.
pub open spec fn spec_user_deregister() -> Kevent {
    Kevent {
        filter: Filter::User(0),
        flags: EV_DELETE | EV_RECEIPT,
        fflags: 0,
        data: 0,
        key: NOTIFY_KEY,
    }
}

/// The change entry that registers the user-triggerable event filter under
/// the reserved key.
///
/// The entry is flagged to clear automatically after it fires, so a single
/// registration serves every later wake and no re-arming is needed.
pub fn user_register_change() -> (r: Kevent)
    ensures
        r == spec_user_register(),
{
    Kevent {
        filter: Filter::User(0),
        flags: EV_ADD | EV_RECEIPT | EV_CLEAR,
        fflags: 0,
        data: 0,
        key: NOTIFY_KEY,
    }
}

/// The change entry that fires the user-triggerable event filter, waking a
/// pending or future wait.
///
/// Because the registration clears automatically after firing, triggering it
/// leaves it ready to be triggered again; no separate re-arm entry exists.
pub fn user_trigger_change() -> (r: Kevent)
    ensures
        r == spec_user_trigger(),
{
    Kevent {
        filter: Filter::User(0),
        flags: EV_ADD | EV_RECEIPT,
        fflags: NOTE_TRIGGER,
        data: 0,
        key: NOTIFY_KEY,
    }
}

/// The change entry that removes the user-triggerable event filter when the
/// backend is torn down.
pub fn user_deregister_change() -> (r: Kevent)
    ensures
        r == spec_user_deregister(),
{
    Kevent {
        filter: Filter::User(0),
        flags: EV_DELETE | EV_RECEIPT,
        fflags: 0,
        data: 0,
        key: NOTIFY_KEY,
    }
}

/// The interest under which the byte-channel variant registers its read
/// endpoint: read readiness, under the reserved key, armed for one firing.
pub open spec fn spec_pipe_interest() -> Event {
    Event { key: NOTIFY_KEY, readable: true, writable: false }
}

/// The change list that registers (or, after every wait, re-arms) the read
/// endpoint of the byte channel.
///
/// The registration is deliberately one-shot: after a wake fires it, the
/// platform layer first drains every buffered wake byte and only then
/// submits this list again.  Draining before re-arming is mandatory — a byte
/// written between drain and re-arm still fires the fresh registration,
/// while a one-shot registration fires at most once per arming no matter how
/// many bytes are pending.
pub fn pipe_register_changes(read_fd: i32) -> (r: Vec<Kevent>)
    ensures
        r@.len() == 2,
        r@[0] == spec_read_change(read_fd, spec_pipe_interest(), PollMode::Oneshot),
        r@[1] == spec_write_change(read_fd, spec_pipe_interest(), PollMode::Oneshot),
{
    modify_changes(read_fd, Event::readable(NOTIFY_KEY), PollMode::Oneshot)
}

/// The change list that removes the byte channel's read endpoint when the
/// backend is torn down.
pub fn pipe_deregister_changes(read_fd: i32) -> (r: Vec<Kevent>)
    ensures
        r@.len() == 2,
        r@[0] == spec_read_change(
            read_fd,
            (Event { key: 0, readable: false, writable: false }),
            PollMode::Oneshot,
        ),
        r@[1] == spec_write_change(
            read_fd,
            (Event { key: 0, readable: false, writable: false }),
            PollMode::Oneshot,
        ),
{
    crate::kqueue::delete_changes(read_fd)
}

} // verus!
