//! Logic of the kernel-event-queue backend.
//!
//! The native queue is driven through one batched call that submits a list of
//! change entries and retrieves fired entries.  This module holds the logic
//! around that call: which change entries a registration request turns into,
//! which per-entry receipt codes are benign, and how a fired entry is
//! translated into the uniform [`Event`](crate::Event) shape.  The system
//! call itself exists only on the BSD family and is issued by a
//! platform-specific layer outside this crate.

use vstd::prelude::*;

use crate::{Event, OsError, PollMode};

verus! {

/// Flag: add (or re-arm) the registration named by the entry.
pub const EV_ADD: u16 = 0x0001;
/// Flag: delete the registration named by the entry.
pub const EV_DELETE: u16 = 0x0002;
/// Flag: clear the registration's interest after it fires once.
pub const EV_ONESHOT: u16 = 0x0010;
/// Flag: report only transitions into the ready state.
pub const EV_CLEAR: u16 = 0x0020;
/// Flag: request a per-entry receipt for this change.
pub const EV_RECEIPT: u16 = 0x0040;
/// Flag set by the kernel on a receipt or error entry.
pub const EV_ERROR: u16 = 0x4000;
/// Flag set by the kernel when the resource reached end-of-stream.
pub const EV_EOF: u16 = 0x8000;

/// Filter-specific flag of the user-triggerable filter: fire the event.
pub const NOTE_TRIGGER: u32 = 0x01000000;

/// Receipt code: the named registration was not found in the queue.
pub const CODE_NOT_FOUND: i64 = 2;
/// Receipt code: the peer of a pipe-like resource has vanished.
pub const CODE_BROKEN_PIPE: i64 = 32;
/// Error code: the blocking call was interrupted before anything fired.
pub const CODE_INTERRUPTED: i64 = 4;

/// The condition a kernel-queue entry watches, together with the identifier
/// it watches it on.  A registration is named by this pair: registering the
/// same filter on the same identifier again replaces the earlier entry.
#[derive(Clone, Copy, Debug, PartialEq, Eq, Structural)]
pub enum Filter {
    /// Read readiness of a file descriptor.
    Read(i32),
    /// Write readiness of a file descriptor.
    Write(i32),
    /// A change to a watched file or directory node.
    Vnode(i32),
    /// A change to a watched process.
    Proc(i32),
    /// Delivery of a signal.
    Signal(i32),
    /// Expiry of a kernel timer.
    Timer(i32),
    /// A user-triggerable event on an arbitrary identifier.
    User(i32),
}

/// One kernel-queue record: a change entry on the way in, a fired or receipt
/// entry on the way out.
#[derive(Clone, Copy, Debug, PartialEq, Eq, Structural)]
pub struct Kevent {
    /// What is watched, and on which identifier.
    pub filter: Filter,
    /// Action and state flags (`EV_ADD`, `EV_DELETE`, ...).
    pub flags: u16,
    /// Filter-specific flags (`NOTE_TRIGGER`, ...).
    pub fflags: u32,
    /// Filter-specific payload; on a receipt entry, the error code.
    pub data: i64,
    /// The caller's key, echoed back verbatim when the entry fires.
    pub key: usize,
}

/// The flag bits that a trigger mode adds to an arming change entry.
pub open spec fn spec_mode_flags(mode: PollMode) -> u16 {
    match mode {
        PollMode::Oneshot => EV_ONESHOT,
        PollMode::Level => 0u16,
        PollMode::Edge => EV_CLEAR,
        PollMode::EdgeOneshot => EV_ONESHOT | EV_CLEAR,
    }
}

/// Maps a trigger mode to the kernel-queue flag bits that request it.
pub fn mode_to_flags(mode: PollMode) -> (r: u16)
    ensures
        r == spec_mode_flags(mode),
{
    match mode {
        PollMode::Oneshot => EV_ONESHOT,
        PollMode::Level => 0u16,
        PollMode::Edge => EV_CLEAR,
        PollMode::EdgeOneshot => EV_ONESHOT | EV_CLEAR,
    }
}

/// The change entry that arms or disarms read interest: add with the mode's
/// flags when read interest is requested, delete otherwise, always with a
/// receipt requested.
pub open spec fn spec_read_change(fd: i32, ev: Event, mode: PollMode) -> Kevent {
    Kevent {
        filter: Filter::Read(fd),
        flags: if ev.readable {
            EV_ADD | spec_mode_flags(mode) | EV_RECEIPT
        } else {
            EV_DELETE | EV_RECEIPT
        },
        fflags: 0,
        data: 0,
        key: ev.key,
    }
}

/// The change entry that arms or disarms write interest.
pub open spec fn spec_write_change(fd: i32, ev: Event, mode: PollMode) -> Kevent {
    Kevent {
        filter: Filter::Write(fd),
        flags: if ev.writable {
            EV_ADD | spec_mode_flags(mode) | EV_RECEIPT
        } else {
            EV_DELETE | EV_RECEIPT
        },
        fflags: 0,
        data: 0,
        key: ev.key,
    }
}

/// Builds the batched change list that registers or modifies interest in a
/// file descriptor.
///
/// Each direction is instructed independently: a requested direction becomes
/// an add entry carrying the mode's flags, an unrequested one becomes a
/// delete entry.  A single submission can therefore enable one direction and
/// disable the other atomically from the caller's perspective.  Every entry
/// requests a receipt so the submitter can inspect per-entry outcome codes.
pub fn modify_changes(fd: i32, ev: Event, mode: PollMode) -> (r: Vec<Kevent>)
    ensures
        r@.len() == 2,
        r@[0] == spec_read_change(fd, ev, mode),
        r@[1] == spec_write_change(fd, ev, mode),
{
    let mode_flags = mode_to_flags(mode);

    let read_flags: u16 = if ev.readable {
        EV_ADD | mode_flags | EV_RECEIPT
    } else {
        EV_DELETE | EV_RECEIPT
    };
    let write_flags: u16 = if ev.writable {
        EV_ADD | mode_flags | EV_RECEIPT
    } else {
        EV_DELETE | EV_RECEIPT
    };

    let mut changelist: Vec<Kevent> = Vec::new();
    changelist.push(Kevent { filter: Filter::Read(fd), flags: read_flags, fflags: 0, data: 0, key: ev.key });
    changelist.push(Kevent { filter: Filter::Write(fd), flags: write_flags, fflags: 0, data: 0, key: ev.key });
    changelist
}

/// Builds the change list that registers new interest in a file descriptor.
///
/// The same list a modification submits: the kernel queue needs no separate
/// creation step, because adding interest in a not-yet-known registration
/// both creates and arms it.
pub fn add_changes(fd: i32, ev: Event, mode: PollMode) -> (r: Vec<Kevent>)
    ensures
        r@.len() == 2,
        r@[0] == spec_read_change(fd, ev, mode),
        r@[1] == spec_write_change(fd, ev, mode),
{
    modify_changes(fd, ev, mode)
}

/// Builds the change list that removes all interest in a file descriptor:
/// the same list a modification to no interest at all would submit.
pub fn delete_changes(fd: i32) -> (r: Vec<Kevent>)
    ensures
        r@.len() == 2,
        r@[0] == spec_read_change(fd, (Event { key: 0, readable: false, writable: false }), PollMode::Oneshot),
        r@[1] == spec_write_change(fd, (Event { key: 0, readable: false, writable: false }), PollMode::Oneshot),
{
    modify_changes(fd, Event::none(0), PollMode::Oneshot)
}

/// Whether a receipt entry reports a failure that must be surfaced.
///
/// A receipt carries the error flag and its code in `data`.  A zero code is
/// success.  "Not found" is benign: it means interest was deleted that the
/// kernel had already dropped, as happens when the handle was closed first.
/// "Broken pipe" is benign too: the peer of a pipe-like resource vanished,
/// which this interface has no other way to report.
pub open spec fn receipt_offending(k: Kevent) -> bool {
    &&& k.flags & EV_ERROR != 0
    &&& k.data != 0
    &&& k.data != CODE_NOT_FOUND
    &&& k.data != CODE_BROKEN_PIPE
}

/// Checks the receipt entries that a batched change submission returned.
///
/// Succeeds exactly when no entry reports a non-benign error; otherwise the
/// first offending entry's code is surfaced as the whole submission's
/// failure.
pub fn check_receipts(receipts: &Vec<Kevent>) -> (r: Result<(), OsError>)
    ensures
        r is Ok <==> forall|i: int| 0 <= i < receipts@.len() ==> !receipt_offending(receipts@[i]),
        r matches Err(e) ==> exists|i: int|
            0 <= i < receipts@.len() && receipt_offending(receipts@[i]) && receipts@[i].data == e.code,
{
    let n = receipts.len();
    let mut i: usize = 0;
    while i < n
        invariant
            n == receipts@.len(),
            0 <= i <= n,
            forall|j: int| 0 <= j < i ==> !receipt_offending(receipts@[j]),
        decreases n - i,
    {
        let ev = receipts[i];
        if (ev.flags & EV_ERROR != 0)
            && ev.data != 0
            && ev.data != CODE_NOT_FOUND
            && ev.data != CODE_BROKEN_PIPE
        {
            return Err(OsError { code: ev.data });
        }
        i += 1;
    }
    Ok(())
}

/// Whether this backend supports level-triggered registrations.
pub fn supports_level() -> (r: bool)
    ensures
        r,
{
    true
}

/// Whether this backend supports edge-triggered registrations.
pub fn supports_edge() -> (r: bool)
    ensures
        r,
{
    true
}

/// Whether a failed retrieval call is to be retried rather than surfaced.
///
/// An interrupted call is retried internally and never shown to the caller;
/// every other error is surfaced.  A retrieval that merely timed out is not
/// an error at all: it returns normally with zero fired entries.
pub fn wait_should_retry(code: i64) -> (r: bool)
    ensures
        r == (code == CODE_INTERRUPTED),
{
    code == CODE_INTERRUPTED
}

/// Whether a fired entry of this filter is reported on the readable channel.
///
/// Besides read readiness proper, file, process, signal and timer filters are
/// mapped to "readable" so that generic non-socket event sources surface
/// through the same channel.
pub open spec fn spec_filter_reads(f: Filter) -> bool {
    match f {
        Filter::Read(_) => true,
        Filter::Vnode(_) => true,
        Filter::Proc(_) => true,
        Filter::Signal(_) => true,
        Filter::Timer(_) => true,
        _ => false,
    }
}

/// The uniform event that a fired kernel entry is reported as.
///
/// A write-filter entry is writable.  A read-filter entry flagged
/// end-of-stream is *also* writable: closing the read side of a pipe-like
/// resource wakes blocked writers, but the kernel reports that only on the
/// read filter with the end-of-stream flag, so the readiness must be
/// translated or writers would hang.
pub open spec fn spec_translate(k: Kevent) -> Event {
    Event {
        key: k.key,
        readable: spec_filter_reads(k.filter),
        writable: k.filter matches Filter::Write(_) || (k.filter matches Filter::Read(_)
            && k.flags & EV_EOF != 0),
    }
}

/// Translates one fired kernel entry into the uniform event shape.
pub fn translate(k: &Kevent) -> (r: Event)
    ensures
        r == spec_translate(*k),
{
    let readable = match k.filter {
        Filter::Read(_) => true,
        Filter::Vnode(_) => true,
        Filter::Proc(_) => true,
        Filter::Signal(_) => true,
        Filter::Timer(_) => true,
        _ => false,
    };
    let writable = match k.filter {
        Filter::Write(_) => true,
        Filter::Read(_) => k.flags & EV_EOF != 0,
        _ => false,
    };
    Event { key: k.key, readable, writable }
}

/// How many fired entries one retrieval call may deliver at most.
pub const EVENT_BATCH: usize = 1024;

/// A reusable buffer of raw fired kernel entries.
///
/// One retrieval call replaces its whole contents; translation into uniform
/// events is done on demand and any number of times against the same
/// snapshot.
pub struct Events {
    list: Vec<Kevent>,
}

impl Events {
    /// The raw fired entries currently buffered.
    pub closed spec fn view(&self) -> Seq<Kevent> {
        self.list@
    }

    /// Creates an empty buffer, preallocated for one full retrieval batch.
    pub fn new() -> (r: Events)
        ensures
            r@.len() == 0,
    {
        Events { list: Vec::with_capacity(EVENT_BATCH) }
    }

    /// How many fired entries the buffer currently holds.
    pub fn len(&self) -> (r: usize)
        ensures
            r == self@.len(),
    {
        self.list.len()
    }

    /// Replaces the buffered entries with the outcome of one retrieval call.
    ///
    /// The previous contents are discarded, never appended to.
    pub fn replace(&mut self, fired: Vec<Kevent>)
        ensures
            final(self)@ == fired@,
    {
        self.list = fired;
    }

    /// Translates every buffered entry into the uniform event shape, in
    /// order, without consuming the buffer.
    pub fn iter(&self) -> (r: Vec<Event>)
        ensures
            r@.len() == self@.len(),
            forall|i: int| 0 <= i < r@.len() ==> r@[i] == spec_translate(self@[i]),
    {
        let n = self.list.len();
        let mut out: Vec<Event> = Vec::with_capacity(n);
        let mut i: usize = 0;
        while i < n
            invariant
                n == self.list@.len(),
                0 <= i <= n,
                out@.len() == i,
                forall|j: int| 0 <= j < i ==> out@[j] == spec_translate(self.list@[j]),
            decreases n - i,
        {
            out.push(translate(&self.list[i]));
            i += 1;
        }
        out
    }
}

} // verus!
