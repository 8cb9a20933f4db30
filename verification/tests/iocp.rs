//! Tests of the completion-port primitive layer's data model.

use polling::iocp::{
    UNICODE_STRING,
    error_is_pending, status_kind, StatusKind, ERROR_INVALID_HANDLE, ERROR_IO_PENDING,
    FILE_SKIP_SET_EVENT_ON_HANDLE, INFINITE, INVALID_HANDLE_VALUE, OVERLAPPED, OVERLAPPED_0_0,
    OVERLAPPED_ENTRY, SOCKET_ERROR, STATUS_CANCELLED, STATUS_NOT_FOUND, STATUS_PENDING,
    STATUS_SUCCESS,
};

#[test]
fn distinguished_status_values() {
    assert_eq!(STATUS_SUCCESS, 0);
    assert_eq!(STATUS_PENDING, 259);
    assert_eq!(STATUS_NOT_FOUND, -1073741275);
    assert_eq!(STATUS_CANCELLED, -1073741536);
    assert_eq!(ERROR_INVALID_HANDLE, 6);
    assert_eq!(ERROR_IO_PENDING, 997);
    assert_eq!(SOCKET_ERROR, -1);
    assert_eq!(INVALID_HANDLE_VALUE, -1);
    assert_eq!(INFINITE, u32::MAX);
    assert_eq!(FILE_SKIP_SET_EVENT_ON_HANDLE, 2);
}

#[test]
fn status_classification() {
    assert_eq!(status_kind(STATUS_SUCCESS), StatusKind::Success);
    assert_eq!(status_kind(STATUS_PENDING), StatusKind::Pending);
    assert_eq!(status_kind(STATUS_CANCELLED), StatusKind::Cancelled);
    assert_eq!(status_kind(STATUS_NOT_FOUND), StatusKind::NotFound);
    assert_eq!(status_kind(-1), StatusKind::Failure);
    assert_eq!(status_kind(5), StatusKind::Failure);
}

#[test]
fn pending_error_code_is_not_a_failure() {
    assert!(error_is_pending(ERROR_IO_PENDING));
    assert!(!error_is_pending(ERROR_INVALID_HANDLE));
    assert!(!error_is_pending(0));
}

#[test]
fn overlapped_starts_zeroed() {
    let block = OVERLAPPED::zeroed();
    assert_eq!(block.Internal, 0);
    assert_eq!(block.InternalHigh, 0);
    assert_eq!(block.Anonymous, 0);
    assert_eq!(block.hEvent, 0);
    assert_eq!(block.offsets(), OVERLAPPED_0_0 { Offset: 0, OffsetHigh: 0 });
}

#[test]
fn offset_views_round_trip() {
    let mut block = OVERLAPPED::zeroed();
    block.set_offsets(OVERLAPPED_0_0 { Offset: 0x1234_5678, OffsetHigh: 0x9ABC_DEF0 });
    assert_eq!(block.offsets(), OVERLAPPED_0_0 { Offset: 0x1234_5678, OffsetHigh: 0x9ABC_DEF0 });
    assert_eq!(block.pointer_bits(), 0x9ABC_DEF0_1234_5678);
    assert_eq!(block.Internal, 0);
    assert_eq!(block.hEvent, 0);
}

#[test]
fn offset_views_extremes() {
    let mut block = OVERLAPPED::zeroed();
    block.set_offsets(OVERLAPPED_0_0 { Offset: u32::MAX, OffsetHigh: 0 });
    assert_eq!(block.pointer_bits(), u64::from(u32::MAX));
    block.set_offsets(OVERLAPPED_0_0 { Offset: 0, OffsetHigh: u32::MAX });
    assert_eq!(block.pointer_bits(), 0xFFFF_FFFF_0000_0000);
    assert_eq!(block.offsets(), OVERLAPPED_0_0 { Offset: 0, OffsetHigh: u32::MAX });
}

#[test]
fn counted_string_well_formedness() {
    let ok = UNICODE_STRING { Length: 10, MaximumLength: 12, Buffer: 0 };
    assert!(ok.is_well_formed());
    let odd = UNICODE_STRING { Length: 9, MaximumLength: 12, Buffer: 0 };
    assert!(!odd.is_well_formed());
    let overlong = UNICODE_STRING { Length: 14, MaximumLength: 12, Buffer: 0 };
    assert!(!overlong.is_well_formed());
}

#[test]
fn completion_entry_holds_plain_fields() {
    let entry = OVERLAPPED_ENTRY {
        lpCompletionKey: 42,
        lpOverlapped: 0,
        Internal: 0,
        dwNumberOfBytesTransferred: 128,
    };
    assert_eq!(entry.lpCompletionKey, 42);
    assert_eq!(entry.dwNumberOfBytesTransferred, 128);
}
