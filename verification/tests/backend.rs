//! Tests of the kernel-queue backend logic: interest model, change lists,
//! receipt filtering and event translation.

use polling::kqueue::{
    add_changes, check_receipts, delete_changes, mode_to_flags, modify_changes, supports_edge,
    supports_level, translate, wait_should_retry, Events, Filter, Kevent, CODE_BROKEN_PIPE,
    CODE_INTERRUPTED, CODE_NOT_FOUND, EV_ADD, EV_CLEAR, EV_DELETE, EV_EOF, EV_ERROR, EV_ONESHOT,
    EV_RECEIPT,
};
use polling::{Event, OsError, PollMode, NOTIFY_KEY};

#[test]
fn event_constructors() {
    assert_eq!(Event::all(7), Event { key: 7, readable: true, writable: true });
    assert_eq!(Event::readable(8), Event { key: 8, readable: true, writable: false });
    assert_eq!(Event::writable(9), Event { key: 9, readable: false, writable: true });
    assert_eq!(Event::none(0), Event { key: 0, readable: false, writable: false });
}

#[test]
fn notify_key_is_reserved_extreme() {
    assert_eq!(NOTIFY_KEY, usize::MAX);
}

#[test]
fn mode_flags_exact() {
    assert_eq!(mode_to_flags(PollMode::Oneshot), 0x10);
    assert_eq!(mode_to_flags(PollMode::Level), 0);
    assert_eq!(mode_to_flags(PollMode::Edge), 0x20);
    assert_eq!(mode_to_flags(PollMode::EdgeOneshot), 0x30);
}

#[test]
fn capability_queries() {
    assert!(supports_level());
    assert!(supports_edge());
}

#[test]
fn modify_arms_each_direction_independently() {
    // Read interest requested, write interest not: the read entry adds with
    // the mode's flags, the write entry deletes; both request receipts.
    let changes = modify_changes(5, Event::readable(7), PollMode::Level);
    assert_eq!(changes.len(), 2);
    assert_eq!(
        changes[0],
        Kevent { filter: Filter::Read(5), flags: EV_ADD | EV_RECEIPT, fflags: 0, data: 0, key: 7 }
    );
    assert_eq!(
        changes[1],
        Kevent { filter: Filter::Write(5), flags: EV_DELETE | EV_RECEIPT, fflags: 0, data: 0, key: 7 }
    );
}

#[test]
fn modify_carries_mode_flags() {
    let changes = modify_changes(3, Event::all(1), PollMode::EdgeOneshot);
    assert_eq!(changes[0].flags, EV_ADD | EV_ONESHOT | EV_CLEAR | EV_RECEIPT);
    assert_eq!(changes[1].flags, EV_ADD | EV_ONESHOT | EV_CLEAR | EV_RECEIPT);
    let oneshot = modify_changes(3, Event::all(1), PollMode::Oneshot);
    assert_eq!(oneshot[0].flags, EV_ADD | EV_ONESHOT | EV_RECEIPT);
    let edge = modify_changes(3, Event::all(1), PollMode::Edge);
    assert_eq!(edge[0].flags, EV_ADD | EV_CLEAR | EV_RECEIPT);
}

#[test]
fn add_submits_the_same_list_as_modify() {
    assert_eq!(
        add_changes(5, Event::readable(7), PollMode::Level),
        modify_changes(5, Event::readable(7), PollMode::Level)
    );
}

#[test]
fn direction_swap_changelists() {
    // Enabling one direction while disabling the other is one submission.
    let first = modify_changes(4, Event::readable(11), PollMode::Level);
    assert_eq!(first[0].flags, EV_ADD | EV_RECEIPT);
    assert_eq!(first[1].flags, EV_DELETE | EV_RECEIPT);
    let second = modify_changes(4, Event::writable(11), PollMode::Level);
    assert_eq!(second[0].flags, EV_DELETE | EV_RECEIPT);
    assert_eq!(second[1].flags, EV_ADD | EV_RECEIPT);
}

#[test]
fn delete_disarms_both_directions() {
    let changes = delete_changes(9);
    assert_eq!(changes.len(), 2);
    assert_eq!(
        changes[0],
        Kevent { filter: Filter::Read(9), flags: EV_DELETE | EV_RECEIPT, fflags: 0, data: 0, key: 0 }
    );
    assert_eq!(
        changes[1],
        Kevent { filter: Filter::Write(9), flags: EV_DELETE | EV_RECEIPT, fflags: 0, data: 0, key: 0 }
    );
}

#[test]
fn empty_receipts_succeed() {
    assert_eq!(check_receipts(&Vec::new()), Ok(()));
}

#[test]
fn not_found_receipts_are_benign() {
    // Deleting a registration the kernel had already dropped reports "not
    // found" on every receipt; the caller still sees success.
    let receipts = vec![
        Kevent { filter: Filter::Read(9), flags: EV_ERROR, fflags: 0, data: CODE_NOT_FOUND, key: 0 },
        Kevent { filter: Filter::Write(9), flags: EV_ERROR, fflags: 0, data: CODE_NOT_FOUND, key: 0 },
    ];
    assert_eq!(check_receipts(&receipts), Ok(()));
}

#[test]
fn broken_pipe_receipt_is_benign() {
    let receipts = vec![
        Kevent { filter: Filter::Write(2), flags: EV_ERROR, fflags: 0, data: CODE_BROKEN_PIPE, key: 1 },
        Kevent { filter: Filter::Read(2), flags: EV_ERROR, fflags: 0, data: 0, key: 1 },
    ];
    assert_eq!(check_receipts(&receipts), Ok(()));
}

#[test]
fn offending_receipt_is_surfaced() {
    // Code 9 stands for a closed or invalid descriptor: not whitelisted.
    let receipts = vec![
        Kevent { filter: Filter::Read(1), flags: EV_ERROR, fflags: 0, data: 0, key: 3 },
        Kevent { filter: Filter::Write(1), flags: EV_ERROR, fflags: 0, data: 9, key: 3 },
    ];
    assert_eq!(check_receipts(&receipts), Err(OsError { code: 9 }));
}

#[test]
fn first_offending_receipt_wins() {
    let receipts = vec![
        Kevent { filter: Filter::Read(1), flags: EV_ERROR, fflags: 0, data: CODE_NOT_FOUND, key: 0 },
        Kevent { filter: Filter::Read(2), flags: EV_ERROR, fflags: 0, data: 9, key: 0 },
        Kevent { filter: Filter::Read(3), flags: EV_ERROR, fflags: 0, data: 13, key: 0 },
    ];
    assert_eq!(check_receipts(&receipts), Err(OsError { code: 9 }));
}

#[test]
fn error_flag_is_required_for_offence() {
    // Without the error flag, the data field is filter payload, not a code.
    let receipts = vec![Kevent { filter: Filter::Read(1), flags: EV_ADD, fflags: 0, data: 77, key: 3 }];
    assert_eq!(check_receipts(&receipts), Ok(()));
}

#[test]
fn interrupted_wait_is_retried() {
    assert!(wait_should_retry(CODE_INTERRUPTED));
    assert!(!wait_should_retry(9));
    assert!(!wait_should_retry(0));
}

#[test]
fn read_firing_translates_readable() {
    let fired = Kevent { filter: Filter::Read(6), flags: 0, fflags: 0, data: 0, key: 21 };
    assert_eq!(translate(&fired), Event { key: 21, readable: true, writable: false });
}

#[test]
fn write_firing_translates_writable() {
    let fired = Kevent { filter: Filter::Write(6), flags: 0, fflags: 0, data: 0, key: 22 };
    assert_eq!(translate(&fired), Event { key: 22, readable: false, writable: true });
}

#[test]
fn eof_on_read_filter_also_reports_writable() {
    // Closing the read side of a pipe-like pair is reported on the read
    // filter with the end-of-stream flag; writers must see it as writable.
    let fired = Kevent { filter: Filter::Read(6), flags: EV_EOF, fflags: 0, data: 0, key: 23 };
    assert_eq!(translate(&fired), Event { key: 23, readable: true, writable: true });
}

#[test]
fn generic_sources_translate_readable() {
    for fired in [
        Kevent { filter: Filter::Vnode(1), flags: 0, fflags: 0, data: 0, key: 1 },
        Kevent { filter: Filter::Proc(2), flags: 0, fflags: 0, data: 0, key: 2 },
        Kevent { filter: Filter::Signal(3), flags: 0, fflags: 0, data: 0, key: 3 },
        Kevent { filter: Filter::Timer(4), flags: 0, fflags: 0, data: 0, key: 4 },
    ] {
        let ev = translate(&fired);
        assert!(ev.readable);
        assert!(!ev.writable);
    }
}

#[test]
fn user_firing_translates_neither_direction() {
    let fired = Kevent { filter: Filter::User(0), flags: 0, fflags: 0, data: 0, key: 5 };
    assert_eq!(translate(&fired), Event { key: 5, readable: false, writable: false });
}

#[test]
fn events_buffer_starts_empty() {
    let events = Events::new();
    assert_eq!(events.len(), 0);
    assert_eq!(events.iter().len(), 0);
}

#[test]
fn events_buffer_replaces_not_appends() {
    let mut events = Events::new();
    events.replace(vec![
        Kevent { filter: Filter::Read(1), flags: 0, fflags: 0, data: 0, key: 10 },
        Kevent { filter: Filter::Write(2), flags: 0, fflags: 0, data: 0, key: 11 },
    ]);
    assert_eq!(events.len(), 2);
    events.replace(vec![Kevent { filter: Filter::Read(3), flags: EV_EOF, fflags: 0, data: 0, key: 12 }]);
    assert_eq!(events.len(), 1);
    let translated = events.iter();
    assert_eq!(translated, vec![Event { key: 12, readable: true, writable: true }]);
}

#[test]
fn events_iter_is_restartable() {
    let mut events = Events::new();
    events.replace(vec![Kevent { filter: Filter::Write(4), flags: 0, fflags: 0, data: 0, key: 2 }]);
    let once = events.iter();
    let again = events.iter();
    assert_eq!(once, again);
    assert_eq!(once, vec![Event { key: 2, readable: false, writable: true }]);
}
