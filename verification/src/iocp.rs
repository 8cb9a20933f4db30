//! Data model of the completion-port primitive layer.
//!
//! A completion-port backend is built on a small family of native
//! operations: create or associate a port, retrieve a batch of completion
//! entries, post a synthetic entry, and tune per-handle notification.  Those
//! operations live in a platform-specific layer outside this crate; what
//! belongs here is everything about them that is plain data: the field
//! layout of the overlapped I/O control block and of a completion-port
//! entry, and the classification of the status values that must be
//! recognized rather than treated as generic failures.
//!
//! Raw pointers in the native records are held as their numeric address
//! values: this layer never dereferences them.

#![allow(non_camel_case_types)]
#![allow(non_snake_case)]

use vstd::prelude::*;

verus! {

/// A numeric error code of the Win32 family.
pub type WIN32_ERROR = u32;

/// Win32 error: the given handle is invalid.
pub const ERROR_INVALID_HANDLE: WIN32_ERROR = 6;

/// Win32 error: the operation will complete asynchronously; its result
/// arrives later through the port.  Not a failure.
pub const ERROR_IO_PENDING: WIN32_ERROR = 997;

/// A native status code: zero is success, positive values are informational,
/// negative values are errors.
pub type NTSTATUS = i32;

/// Status: the operation completed successfully.
pub const STATUS_SUCCESS: NTSTATUS = 0;

/// Status: the operation is still in flight; its completion arrives later
/// through the port.  Not a failure.
pub const STATUS_PENDING: NTSTATUS = 259;

/// Status: nothing by the given name was found.  Benign on cleanup races.
pub const STATUS_NOT_FOUND: NTSTATUS = -1073741275;

/// Status: the operation was cancelled.
pub const STATUS_CANCELLED: NTSTATUS = -1073741536;

/// The sentinel a failed socket operation returns.
pub const SOCKET_ERROR: i32 = -1;

/// Control code: retrieve the base service-provider handle of a socket.
pub const SIO_BASE_HANDLE: u32 = 1207959586;

/// Control code: retrieve the service-provider handle used for readiness
/// polling.
pub const SIO_BSP_HANDLE_POLL: u32 = 1207959581;

/// A native boolean: zero is false, anything else is true.
pub type BOOL = i32;

/// A raw handle value, owned by the caller.
pub type HANDLE = isize;

/// The sentinel value of an invalid handle.
pub const INVALID_HANDLE_VALUE: HANDLE = -1;

/// A raw socket value.
pub type SOCKET = usize;

/// The timeout value that means "wait without limit".
pub const INFINITE: u32 = 4294967295;

/// Per-handle flag: when an operation completes synchronously on the calling
/// thread, do not also queue a redundant completion to the port.
pub const FILE_SKIP_SET_EVENT_ON_HANDLE: u32 = 2;

/// Create disposition: open the named object only if it exists.
pub const FILE_OPEN: u32 = 1;

/// Sharing flag: others may read while the handle is open.
pub const FILE_SHARE_READ: u32 = 1;

/// Sharing flag: others may write while the handle is open.
pub const FILE_SHARE_WRITE: u32 = 2;

/// Access flag: the handle may be waited on.
pub const SYNCHRONIZE: u32 = 1048576;

/// The file-position view of the overlapped control block's aliased region:
/// the low and high halves of a 64-bit offset.
#[derive(Clone, Copy, Debug, PartialEq, Eq, Structural)]
pub struct OVERLAPPED_0_0 {
    /// Low 32 bits of the file position.
    pub Offset: u32,
    /// High 32 bits of the file position.
    pub OffsetHigh: u32,
}

/// The low 32 bits of an aliased 64-bit region.
pub open spec fn region_lo(x: u64) -> u32 {
    (x & 0xFFFF_FFFF) as u32
}

/// The high 32 bits of an aliased 64-bit region.
pub open spec fn region_hi(x: u64) -> u32 {
    (x >> 32) as u32
}

/// The 64-bit region that holds the given low and high halves.
pub open spec fn region_pack(lo: u32, hi: u32) -> u64 {
    lo as u64 | ((hi as u64) << 32)
}

/// The per-operation control block the native layer uses to track an
/// in-flight asynchronous I/O request.
///
/// The third field is a platform-width region that the native layout aliases
/// two ways: as the (offset, offset-high) pair of a file position, or as one
/// pointer-wide value.  The two views are mutually exclusive — which one is
/// valid depends on the operation the block was submitted with — so the
/// region is held as raw bits and read through the accessors below, never as
/// two simultaneously valid fields.
#[derive(Clone, Copy, Debug, PartialEq, Eq, Structural)]
pub struct OVERLAPPED {
    /// Kernel-owned status word of the in-flight operation.
    pub Internal: usize,
    /// Kernel-owned count of bytes transferred so far.
    pub InternalHigh: usize,
    /// The aliased offset-pair / pointer region, as raw bits.
    pub Anonymous: u64,
    /// An optional event handle signalled on completion, as its numeric
    /// value.
    pub hEvent: HANDLE,
}

impl OVERLAPPED {
    /// A zeroed control block, ready to be submitted.
    pub fn zeroed() -> (r: OVERLAPPED)
        ensures
            r == (OVERLAPPED { Internal: 0, InternalHigh: 0, Anonymous: 0, hEvent: 0 }),
    {
        OVERLAPPED { Internal: 0, InternalHigh: 0, Anonymous: 0, hEvent: 0 }
    }

    /// Reads the aliased region as a file position: valid only for a block
    /// submitted with an offset, not for one carrying a pointer.
    pub fn offsets(&self) -> (r: OVERLAPPED_0_0)
        ensures
            r == (OVERLAPPED_0_0 {
                Offset: region_lo(self.Anonymous),
                OffsetHigh: region_hi(self.Anonymous),
            }),
    {
        let x = self.Anonymous;
        proof {
            assert(x & 0xFFFF_FFFF <= 0xFFFF_FFFF) by (bit_vector);
            assert(x >> 32 <= 0xFFFF_FFFF) by (bit_vector);
        }
        OVERLAPPED_0_0 { Offset: (x & 0xFFFF_FFFF) as u32, OffsetHigh: (x >> 32) as u32 }
    }

    /// Writes the aliased region as a file position, leaving every other
    /// field as it was.
    pub fn set_offsets(&mut self, pair: OVERLAPPED_0_0)
        ensures
            final(self).Anonymous == region_pack(pair.Offset, pair.OffsetHigh),
            final(self).Internal == old(self).Internal,
            final(self).InternalHigh == old(self).InternalHigh,
            final(self).hEvent == old(self).hEvent,
    {
        self.Anonymous = pair.Offset as u64 | ((pair.OffsetHigh as u64) << 32);
    }

    /// Reads the aliased region as one pointer-wide value: valid only for a
    /// block whose operation carries a pointer there.
    pub fn pointer_bits(&self) -> (r: u64)
        ensures
            r == self.Anonymous,
    {
        self.Anonymous
    }
}

/// Reading the file-position view back out of a freshly written region
/// returns exactly the halves that were written: the two views alias the
/// same bits without interfering with either half.
pub proof fn lemma_region_round_trip(lo: u32, hi: u32)
    ensures
        region_lo(region_pack(lo, hi)) == lo,
        region_hi(region_pack(lo, hi)) == hi,
{
    assert(((lo as u64 | ((hi as u64) << 32)) & 0xFFFF_FFFF) as u32 == lo) by (bit_vector);
    assert(((lo as u64 | ((hi as u64) << 32)) >> 32) as u32 == hi) by (bit_vector);
}

/// A counted UTF-16 string as the native object layer passes it: a length
/// in bytes, the capacity of the backing buffer in bytes, and the buffer's
/// address.  The address is a raw pointer held as its numeric value; this
/// layer never dereferences it.
#[derive(Clone, Copy, Debug, PartialEq, Eq, Structural)]
pub struct UNICODE_STRING {
    /// Length of the string in bytes, excluding any terminator.
    pub Length: u16,
    /// Capacity of the backing buffer in bytes.
    pub MaximumLength: u16,
    /// Address of the UTF-16 buffer.
    pub Buffer: usize,
}

/// Whether a counted string is coherent: the length is a whole number of
/// 16-bit units and fits inside the backing buffer.
pub open spec fn unicode_string_wf(s: UNICODE_STRING) -> bool {
    s.Length % 2 == 0 && s.Length <= s.MaximumLength
}

impl UNICODE_STRING {
    /// Checks that the counted string is coherent before it is handed to a
    /// native call that would otherwise read past the buffer.
    pub fn is_well_formed(&self) -> (r: bool)
        ensures
            r == unicode_string_wf(*self),
    {
        self.Length % 2 == 0 && self.Length <= self.MaximumLength
    }
}

/// One record retrieved from (or posted to) a completion port.
#[derive(Clone, Copy, Debug, PartialEq, Eq, Structural)]
pub struct OVERLAPPED_ENTRY {
    /// The completion key the handle was associated with.
    pub lpCompletionKey: usize,
    /// Address of the control block whose operation completed; a raw
    /// pointer, held as its numeric value.
    pub lpOverlapped: usize,
    /// The raw status code of the completed operation.
    pub Internal: usize,
    /// How many bytes the operation transferred.
    pub dwNumberOfBytesTransferred: u32,
}

/// How a status code is to be acted on.
#[derive(Clone, Copy, Debug, PartialEq, Eq, Structural)]
pub enum StatusKind {
    /// The operation completed successfully.
    Success,
    /// The operation is in flight; its result arrives later through the
    /// port.
    Pending,
    /// The operation was cancelled.
    Cancelled,
    /// Nothing by the given name was found; benign on cleanup races.
    NotFound,
    /// Any other non-zero status: a genuine failure.
    Failure,
}

/// The classification every status code falls under.
pub open spec fn spec_status_kind(status: NTSTATUS) -> StatusKind {
    if status == STATUS_SUCCESS {
        StatusKind::Success
    } else if status == STATUS_PENDING {
        StatusKind::Pending
    } else if status == STATUS_CANCELLED {
        StatusKind::Cancelled
    } else if status == STATUS_NOT_FOUND {
        StatusKind::NotFound
    } else {
        StatusKind::Failure
    }
}

/// Classifies a native status code.
///
/// The three distinguished non-success codes — pending, cancelled, not
/// found — must be recognized by every caller rather than treated as
/// generic failures; everything else non-zero is a failure.
pub fn status_kind(status: NTSTATUS) -> (r: StatusKind)
    ensures
        r == spec_status_kind(status),
{
    if status == STATUS_SUCCESS {
        StatusKind::Success
    } else if status == STATUS_PENDING {
        StatusKind::Pending
    } else if status == STATUS_CANCELLED {
        StatusKind::Cancelled
    } else if status == STATUS_NOT_FOUND {
        StatusKind::NotFound
    } else {
        StatusKind::Failure
    }
}

/// Whether a Win32 error code means "in flight" rather than failed.
pub fn error_is_pending(code: WIN32_ERROR) -> (r: bool)
    ensures
        r == (code == ERROR_IO_PENDING),
{
    code == ERROR_IO_PENDING
}

} // verus!
