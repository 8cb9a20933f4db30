//! The registration semantics that the change lists rely on.
//!
//! The kernel queue is, to this backend, a table from filters to armed
//! registrations: an add entry inserts or replaces, a delete entry removes,
//! a receipt reports "not found" exactly when a delete named a registration
//! the table does not hold, and a firing clears a one-shot registration.
//! This module states that table as a map, says how a change list and a
//! firing transform it, and proves the guarantees the backend gives its
//! callers: deletes are idempotent, the two directions of one descriptor are
//! armed independently, one-shot registrations never fire twice per arming,
//! and level registrations persist across firings.

use vstd::prelude::*;

use crate::kqueue::{
    receipt_offending, spec_mode_flags, spec_read_change, spec_translate, spec_write_change,
    Filter, Kevent, CODE_BROKEN_PIPE, CODE_NOT_FOUND, EV_ADD, EV_CLEAR, EV_DELETE, EV_EOF,
    EV_ERROR, EV_ONESHOT, EV_RECEIPT,
};
use crate::notify::{spec_pipe_interest, spec_user_register, spec_user_trigger};
use crate::{Event, PollMode, NOTIFY_KEY};

verus! {

/// One armed registration as the kernel holds it: the caller's key and the
/// re-arming behaviour its flags requested.
#[derive(Clone, Copy, Debug, PartialEq, Eq, Structural)]
pub struct Registration {
    /// The key echoed back when the registration fires.
    pub key: usize,
    /// Whether the registration disarms after one firing.
    pub oneshot: bool,
    /// Whether only transitions into readiness are reported.
    pub clear: bool,
}

/// Whether a change entry asks to add (or re-arm) a registration.
pub open spec fn change_is_add(c: Kevent) -> bool {
    c.flags & EV_ADD != 0
}

/// Whether a change entry asks to delete a registration.
pub open spec fn change_is_delete(c: Kevent) -> bool {
    c.flags & EV_DELETE != 0
}

/// The registration that an add entry arms.
pub open spec fn armed_by(c: Kevent) -> Registration {
    Registration { key: c.key, oneshot: c.flags & EV_ONESHOT != 0, clear: c.flags & EV_CLEAR != 0 }
}

/// The registration table after one change entry is applied.
pub open spec fn queue_after(m: Map<Filter, Registration>, c: Kevent) -> Map<Filter, Registration> {
    if change_is_add(c) {
        m.insert(c.filter, armed_by(c))
    } else if change_is_delete(c) {
        m.remove(c.filter)
    } else {
        m
    }
}

/// The code the kernel reports on the receipt for one change entry: "not
/// found" for a delete that named no armed registration, success otherwise.
pub open spec fn receipt_data(m: Map<Filter, Registration>, c: Kevent) -> i64 {
    if change_is_delete(c) && !change_is_add(c) && !m.contains_key(c.filter) {
        CODE_NOT_FOUND
    } else {
        0
    }
}

/// The receipt entry returned for one change entry.
pub open spec fn receipt_of(m: Map<Filter, Registration>, c: Kevent) -> Kevent {
    Kevent { filter: c.filter, flags: EV_ERROR, fflags: 0, data: receipt_data(m, c), key: c.key }
}

/// The registration table after a whole change list is applied, in order.
pub open spec fn queue_after_list(
    m: Map<Filter, Registration>,
    s: Seq<Kevent>,
) -> Map<Filter, Registration>
    decreases s.len(),
{
    if s.len() == 0 {
        m
    } else {
        queue_after_list(queue_after(m, s[0]), s.drop_first())
    }
}

/// The receipts returned for a whole change list, in submission order.
pub open spec fn receipts_for(m: Map<Filter, Registration>, s: Seq<Kevent>) -> Seq<Kevent>
    decreases s.len(),
{
    if s.len() == 0 {
        Seq::<Kevent>::empty()
    } else {
        seq![receipt_of(m, s[0])] + receipts_for(queue_after(m, s[0]), s.drop_first())
    }
}

/// Whether a wait may report the given filter: only an armed registration
/// fires.
pub open spec fn can_fire(m: Map<Filter, Registration>, f: Filter) -> bool {
    m.contains_key(f)
}

/// The registration table after the given filter fires: a one-shot
/// registration is disarmed, any other is left as it was.
pub open spec fn queue_after_fire(
    m: Map<Filter, Registration>,
    f: Filter,
) -> Map<Filter, Registration> {
    if m.contains_key(f) && m[f].oneshot {
        m.remove(f)
    } else {
        m
    }
}

/// The raw record a firing of the given filter puts into the event buffer.
pub open spec fn fired_entry(m: Map<Filter, Registration>, f: Filter, eof: bool) -> Kevent {
    Kevent { filter: f, flags: if eof { EV_EOF } else { 0u16 }, fflags: 0, data: 0, key: m[f].key }
}

/// The change list one modification of interest in `fd` submits: first the
/// read-direction entry, then the write-direction entry.
pub open spec fn spec_modify_list(fd: i32, ev: Event, mode: PollMode) -> Seq<Kevent> {
    seq![spec_read_change(fd, ev, mode), spec_write_change(fd, ev, mode)]
}

/// Whether a trigger mode disarms a registration after one firing.
pub open spec fn mode_is_oneshot(mode: PollMode) -> bool {
    mode == PollMode::Oneshot || mode == PollMode::EdgeOneshot
}

/// Whether a trigger mode reports only transitions into readiness.
pub open spec fn mode_is_edge(mode: PollMode) -> bool {
    mode == PollMode::Edge || mode == PollMode::EdgeOneshot
}

/// The flag bits of an arming change entry, read back as the actions and
/// behaviour they request.
pub proof fn lemma_arm_flags(mode: PollMode)
    ensures
        (EV_ADD | spec_mode_flags(mode) | EV_RECEIPT) & EV_ADD != 0,
        (EV_ADD | spec_mode_flags(mode) | EV_RECEIPT) & EV_DELETE == 0,
        ((EV_ADD | spec_mode_flags(mode) | EV_RECEIPT) & EV_ONESHOT != 0) == mode_is_oneshot(mode),
        ((EV_ADD | spec_mode_flags(mode) | EV_RECEIPT) & EV_CLEAR != 0) == mode_is_edge(mode),
{
    match mode {
        PollMode::Oneshot => {
            assert((EV_ADD | EV_ONESHOT | EV_RECEIPT) & EV_ADD != 0) by (bit_vector);
            assert((EV_ADD | EV_ONESHOT | EV_RECEIPT) & EV_DELETE == 0) by (bit_vector);
            assert((EV_ADD | EV_ONESHOT | EV_RECEIPT) & EV_ONESHOT != 0) by (bit_vector);
            assert((EV_ADD | EV_ONESHOT | EV_RECEIPT) & EV_CLEAR == 0) by (bit_vector);
        },
        PollMode::Level => {
            assert((EV_ADD | 0u16 | EV_RECEIPT) & EV_ADD != 0) by (bit_vector);
            assert((EV_ADD | 0u16 | EV_RECEIPT) & EV_DELETE == 0) by (bit_vector);
            assert((EV_ADD | 0u16 | EV_RECEIPT) & EV_ONESHOT == 0) by (bit_vector);
            assert((EV_ADD | 0u16 | EV_RECEIPT) & EV_CLEAR == 0) by (bit_vector);
        },
        PollMode::Edge => {
            assert((EV_ADD | EV_CLEAR | EV_RECEIPT) & EV_ADD != 0) by (bit_vector);
            assert((EV_ADD | EV_CLEAR | EV_RECEIPT) & EV_DELETE == 0) by (bit_vector);
            assert((EV_ADD | EV_CLEAR | EV_RECEIPT) & EV_ONESHOT == 0) by (bit_vector);
            assert((EV_ADD | EV_CLEAR | EV_RECEIPT) & EV_CLEAR != 0) by (bit_vector);
        },
        PollMode::EdgeOneshot => {
            assert((EV_ADD | (EV_ONESHOT | EV_CLEAR) | EV_RECEIPT) & EV_ADD != 0) by (bit_vector);
            assert((EV_ADD | (EV_ONESHOT | EV_CLEAR) | EV_RECEIPT) & EV_DELETE == 0) by (bit_vector);
            assert((EV_ADD | (EV_ONESHOT | EV_CLEAR) | EV_RECEIPT) & EV_ONESHOT != 0)
                by (bit_vector);
            assert((EV_ADD | (EV_ONESHOT | EV_CLEAR) | EV_RECEIPT) & EV_CLEAR != 0) by (bit_vector);
        },
    }
}

/// The flag bits of a disarming change entry: a delete, not an add.
pub proof fn lemma_disarm_flags()
    ensures
        (EV_DELETE | EV_RECEIPT) & EV_ADD == 0,
        (EV_DELETE | EV_RECEIPT) & EV_DELETE != 0,
{
    assert((EV_DELETE | EV_RECEIPT) & EV_ADD == 0) by (bit_vector);
    assert((EV_DELETE | EV_RECEIPT) & EV_DELETE != 0) by (bit_vector);
}

/// What one modification of interest in `fd` does to the registration
/// table, and that it always succeeds.
///
/// Each direction follows its own request: afterwards the direction is
/// armed exactly if it was asked for, under the given key and mode, and no
/// registration of any other filter is touched.  Both receipts are benign —
/// an add succeeds, and a delete of a direction that was not armed reports
/// only "not found", which is suppressed — so a modification never fails in
/// the model, whatever was armed before.
pub proof fn lemma_modify_semantics(
    m: Map<Filter, Registration>,
    fd: i32,
    ev: Event,
    mode: PollMode,
)
    ensures
        queue_after_list(m, spec_modify_list(fd, ev, mode)).contains_key(Filter::Read(fd))
            == ev.readable,
        queue_after_list(m, spec_modify_list(fd, ev, mode)).contains_key(Filter::Write(fd))
            == ev.writable,
        ev.readable ==> queue_after_list(m, spec_modify_list(fd, ev, mode))[Filter::Read(fd)]
            == (Registration {
                key: ev.key,
                oneshot: mode_is_oneshot(mode),
                clear: mode_is_edge(mode),
            }),
        ev.writable ==> queue_after_list(m, spec_modify_list(fd, ev, mode))[Filter::Write(fd)]
            == (Registration {
                key: ev.key,
                oneshot: mode_is_oneshot(mode),
                clear: mode_is_edge(mode),
            }),
        forall|f: Filter|
            f != Filter::Read(fd) && f != Filter::Write(fd) ==> {
                &&& #[trigger] queue_after_list(m, spec_modify_list(fd, ev, mode)).contains_key(f)
                    == m.contains_key(f)
                &&& (m.contains_key(f) ==> queue_after_list(m, spec_modify_list(fd, ev, mode))[f]
                    == m[f])
            },
        forall|i: int|
            0 <= i < receipts_for(m, spec_modify_list(fd, ev, mode)).len()
                ==> !receipt_offending(#[trigger] receipts_for(m, spec_modify_list(fd, ev, mode))[i]),
{
    reveal_with_fuel(queue_after_list, 3);
    reveal_with_fuel(receipts_for, 3);
    lemma_arm_flags(mode);
    lemma_disarm_flags();
    let s = spec_modify_list(fd, ev, mode);
    let m1 = queue_after(m, s[0]);
    assert(s.drop_first() =~= seq![spec_write_change(fd, ev, mode)]);
    assert(s.drop_first().drop_first() =~= Seq::<Kevent>::empty());
    assert(queue_after_list(m, s) == queue_after(m1, s[1]));
    let r = receipts_for(m, s);
    assert(r =~= seq![receipt_of(m, s[0]), receipt_of(m1, s[1])]);
    assert(!receipt_offending(r[0]));
    assert(!receipt_offending(r[1]));
}

/// Idempotent delete: removing all interest in a descriptor that holds no
/// registration succeeds, whatever trigger mode the disarming request
/// carries, and leaves the registration table exactly as it was.
///
/// The kernel reports "not found" on both receipts, and that code is
/// suppressed as benign, so the caller sees success.
pub proof fn lemma_delete_idempotent(m: Map<Filter, Registration>, fd: i32, mode: PollMode)
    requires
        !m.contains_key(Filter::Read(fd)),
        !m.contains_key(Filter::Write(fd)),
    ensures
        queue_after_list(
            m,
            spec_modify_list(fd, (Event { key: 0, readable: false, writable: false }), mode),
        ) == m,
        forall|i: int|
            0 <= i < receipts_for(
                m,
                spec_modify_list(fd, (Event { key: 0, readable: false, writable: false }), mode),
            ).len() ==> !receipt_offending(
                #[trigger] receipts_for(
                    m,
                    spec_modify_list(
                        fd,
                        (Event { key: 0, readable: false, writable: false }),
                        mode,
                    ),
                )[i],
            ),
{
    let ev = Event { key: 0, readable: false, writable: false };
    lemma_modify_semantics(m, fd, ev, mode);
    let m2 = queue_after_list(m, spec_modify_list(fd, ev, mode));
    assert(m2 =~= m);
}

/// Direction independence: arming read interest and then re-modifying to
/// write interest alone leaves only the write direction armed, and a firing
/// of that direction is reported writable and not readable, under the second
/// request's key.
pub proof fn lemma_direction_independence(
    m: Map<Filter, Registration>,
    fd: i32,
    key_read: usize,
    key_write: usize,
)
    ensures
        !queue_after_list(
            queue_after_list(
                m,
                spec_modify_list(
                    fd,
                    (Event { key: key_read, readable: true, writable: false }),
                    PollMode::Level,
                ),
            ),
            spec_modify_list(
                fd,
                (Event { key: key_write, readable: false, writable: true }),
                PollMode::Level,
            ),
        ).contains_key(Filter::Read(fd)),
        queue_after_list(
            queue_after_list(
                m,
                spec_modify_list(
                    fd,
                    (Event { key: key_read, readable: true, writable: false }),
                    PollMode::Level,
                ),
            ),
            spec_modify_list(
                fd,
                (Event { key: key_write, readable: false, writable: true }),
                PollMode::Level,
            ),
        ).contains_key(Filter::Write(fd)),
        spec_translate(
            fired_entry(
                queue_after_list(
                    queue_after_list(
                        m,
                        spec_modify_list(
                            fd,
                            (Event { key: key_read, readable: true, writable: false }),
                            PollMode::Level,
                        ),
                    ),
                    spec_modify_list(
                        fd,
                        (Event { key: key_write, readable: false, writable: true }),
                        PollMode::Level,
                    ),
                ),
                Filter::Write(fd),
                false,
            ),
        ) == (Event { key: key_write, readable: false, writable: true }),
{
    let ev1 = Event { key: key_read, readable: true, writable: false };
    let ev2 = Event { key: key_write, readable: false, writable: true };
    let m1 = queue_after_list(m, spec_modify_list(fd, ev1, PollMode::Level));
    lemma_modify_semantics(m, fd, ev1, PollMode::Level);
    lemma_modify_semantics(m1, fd, ev2, PollMode::Level);
}

/// One-shot registrations need re-arming: once an armed one-shot
/// registration fires, it is disarmed, so it cannot fire again until an
/// intervening modification re-arms it.
pub proof fn lemma_oneshot_no_refire(m: Map<Filter, Registration>, f: Filter)
    requires
        can_fire(m, f),
        m[f].oneshot,
    ensures
        !can_fire(queue_after_fire(m, f), f),
{
}

/// Level persistence: a firing leaves a registration that is not one-shot
/// exactly as it was, so while its condition holds it fires on every wait
/// until it is deleted or changed.
pub proof fn lemma_level_persists(m: Map<Filter, Registration>, f: Filter)
    requires
        can_fire(m, f),
        !m[f].oneshot,
    ensures
        queue_after_fire(m, f) == m,
        can_fire(queue_after_fire(m, f), f),
{
}

/// End-of-stream surfaces as writable: a read-direction firing that carries
/// the end-of-stream flag is reported writable, so a writer whose pipe-like
/// peer closed its read side is woken even though the kernel reported the
/// condition on the read filter.
pub proof fn lemma_eof_reports_writable(m: Map<Filter, Registration>, fd: i32)
    requires
        m.contains_key(Filter::Read(fd)),
    ensures
        spec_translate(fired_entry(m, Filter::Read(fd), true)).writable,
        spec_translate(fired_entry(m, Filter::Read(fd), true)).key == m[Filter::Read(fd)].key,
{
    assert(EV_EOF & EV_EOF != 0) by (bit_vector);
}

/// Benign-error suppression: a receipt list whose every code is success,
/// "not found" or "broken pipe" surfaces no failure at all.
pub proof fn lemma_benign_receipts_suppressed(receipts: Seq<Kevent>)
    requires
        forall|i: int|
            0 <= i < receipts.len() ==> (#[trigger] receipts[i].data == 0
                || receipts[i].data == CODE_NOT_FOUND
                || receipts[i].data == CODE_BROKEN_PIPE),
    ensures
        forall|i: int| 0 <= i < receipts.len() ==> !receipt_offending(#[trigger] receipts[i]),
{
}

/// The user-filter wake channel needs no re-arming: its registration is
/// armed under the reserved key, is not one-shot, survives its own firing,
/// and is left armed again by the very trigger entry that fires it.  A wake
/// is therefore never lost to a disarmed channel, however many trigger and
/// fire rounds have gone before.
pub proof fn lemma_user_channel_stays_armed(m: Map<Filter, Registration>)
    ensures
        queue_after(m, spec_user_register()).contains_key(Filter::User(0)),
        queue_after(m, spec_user_register())[Filter::User(0)] == (Registration {
            key: NOTIFY_KEY,
            oneshot: false,
            clear: true,
        }),
        queue_after_fire(queue_after(m, spec_user_register()), Filter::User(0)) == queue_after(
            m,
            spec_user_register(),
        ),
        queue_after(m, spec_user_trigger()).contains_key(Filter::User(0)),
        !queue_after(m, spec_user_trigger())[Filter::User(0)].oneshot,
        queue_after(m, spec_user_trigger())[Filter::User(0)].key == NOTIFY_KEY,
{
    assert((EV_ADD | EV_RECEIPT | EV_CLEAR) & EV_ADD != 0) by (bit_vector);
    assert((EV_ADD | EV_RECEIPT | EV_CLEAR) & EV_ONESHOT == 0) by (bit_vector);
    assert((EV_ADD | EV_RECEIPT | EV_CLEAR) & EV_CLEAR != 0) by (bit_vector);
    assert((EV_ADD | EV_RECEIPT) & EV_ADD != 0) by (bit_vector);
    assert((EV_ADD | EV_RECEIPT) & EV_ONESHOT == 0) by (bit_vector);
}

/// The byte-channel wake registration is one-shot by design: arming it
/// registers read interest under the reserved key, a firing consumes the
/// arming, and submitting the same list again restores it exactly.  The
/// drain-then-re-arm step after every wait therefore brings the channel back
/// to the state the wait started from.
pub proof fn lemma_pipe_channel_rearm(m: Map<Filter, Registration>, read_fd: i32)
    ensures
        queue_after_list(
            m,
            spec_modify_list(read_fd, spec_pipe_interest(), PollMode::Oneshot),
        ).contains_key(Filter::Read(read_fd)),
        queue_after_list(m, spec_modify_list(read_fd, spec_pipe_interest(), PollMode::Oneshot))[
            Filter::Read(read_fd)] == (Registration { key: NOTIFY_KEY, oneshot: true, clear: false }),
        !can_fire(
            queue_after_fire(
                queue_after_list(
                    m,
                    spec_modify_list(read_fd, spec_pipe_interest(), PollMode::Oneshot),
                ),
                Filter::Read(read_fd),
            ),
            Filter::Read(read_fd),
        ),
        queue_after_list(
            queue_after_fire(
                queue_after_list(
                    m,
                    spec_modify_list(read_fd, spec_pipe_interest(), PollMode::Oneshot),
                ),
                Filter::Read(read_fd),
            ),
            spec_modify_list(read_fd, spec_pipe_interest(), PollMode::Oneshot),
        )[Filter::Read(read_fd)] == (Registration { key: NOTIFY_KEY, oneshot: true, clear: false }),
{
    let arm = spec_modify_list(read_fd, spec_pipe_interest(), PollMode::Oneshot);
    let m1 = queue_after_list(m, arm);
    lemma_modify_semantics(m, read_fd, spec_pipe_interest(), PollMode::Oneshot);
    lemma_oneshot_no_refire(m1, Filter::Read(read_fd));
    lemma_modify_semantics(
        queue_after_fire(m1, Filter::Read(read_fd)),
        read_fd,
        spec_pipe_interest(),
        PollMode::Oneshot,
    );
}

/// A caller's registration changes cannot touch the wake channel: whatever
/// interest a modification arms or disarms on whatever descriptor, every
/// user-filter registration is exactly as armed afterwards as before.
pub proof fn lemma_channel_isolated(
    m: Map<Filter, Registration>,
    fd: i32,
    ev: Event,
    mode: PollMode,
    ident: i32,
)
    ensures
        queue_after_list(m, spec_modify_list(fd, ev, mode)).contains_key(Filter::User(ident))
            == m.contains_key(Filter::User(ident)),
        m.contains_key(Filter::User(ident)) ==> queue_after_list(
            m,
            spec_modify_list(fd, ev, mode),
        )[Filter::User(ident)] == m[Filter::User(ident)],
{
    lemma_modify_semantics(m, fd, ev, mode);
    let m2 = queue_after_list(m, spec_modify_list(fd, ev, mode));
    assert(m2.contains_key(Filter::User(ident)) == m.contains_key(Filter::User(ident)));
    if m.contains_key(Filter::User(ident)) {
        assert(m2[Filter::User(ident)] == m[Filter::User(ident)]);
    }
}

} // verus!
