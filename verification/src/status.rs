//! Status codes reported by the runtime.
//!
//! Every fallible runtime operation reports one of the status codes below;
//! `STATUS_OK` encodes success and every other value a specific failure
//! classification.  A status is a plain copyable value; rendering it as a
//! human-readable message goes through an allocator, mirroring the way the
//! runtime hands the message buffer to the caller.

use vstd::prelude::*;

use crate::allocator::IreeAllocator;
use crate::err::IreeError;

verus! {

/// The operation succeeded.
pub const STATUS_OK: u32 = 0;
/// The operation was cancelled by the caller.
pub const STATUS_CANCELLED: u32 = 1;
/// The failure could not be classified.
pub const STATUS_UNKNOWN: u32 = 2;
/// An argument was malformed or out of the accepted domain.
pub const STATUS_INVALID_ARGUMENT: u32 = 3;
/// A deadline expired before the operation completed.
pub const STATUS_DEADLINE_EXCEEDED: u32 = 4;
/// A requested entity (driver, entry point, ...) does not exist.
pub const STATUS_NOT_FOUND: u32 = 5;
/// An entity the operation tried to create already exists.
pub const STATUS_ALREADY_EXISTS: u32 = 6;
/// The caller lacks permission for the operation.
pub const STATUS_PERMISSION_DENIED: u32 = 7;
/// A resource (memory, quota) was exhausted.
pub const STATUS_RESOURCE_EXHAUSTED: u32 = 8;
/// The system is not in the state the operation requires.
pub const STATUS_FAILED_PRECONDITION: u32 = 9;
/// The operation was aborted.
pub const STATUS_ABORTED: u32 = 10;
/// The operation ran past a bound (queue drained, capacity exceeded).
pub const STATUS_OUT_OF_RANGE: u32 = 11;
/// The operation is not implemented.
pub const STATUS_UNIMPLEMENTED: u32 = 12;
/// An internal invariant of the runtime was broken.
pub const STATUS_INTERNAL: u32 = 13;
/// The service is currently unavailable.
pub const STATUS_UNAVAILABLE: u32 = 14;
/// Unrecoverable data loss or corruption.
pub const STATUS_DATA_LOSS: u32 = 15;
/// The request lacks valid authentication credentials.
pub const STATUS_UNAUTHENTICATED: u32 = 16;

/// The canonical message text for a status code; an unrecognized code
/// renders as the empty string.
pub open spec fn spec_status_message(code: u32) -> Seq<char> {
    if code == STATUS_OK {
        "OK"@
    } else if code == STATUS_CANCELLED {
        "CANCELLED"@
    } else if code == STATUS_UNKNOWN {
        "UNKNOWN"@
    } else if code == STATUS_INVALID_ARGUMENT {
        "INVALID_ARGUMENT"@
    } else if code == STATUS_DEADLINE_EXCEEDED {
        "DEADLINE_EXCEEDED"@
    } else if code == STATUS_NOT_FOUND {
        "NOT_FOUND"@
    } else if code == STATUS_ALREADY_EXISTS {
        "ALREADY_EXISTS"@
    } else if code == STATUS_PERMISSION_DENIED {
        "PERMISSION_DENIED"@
    } else if code == STATUS_RESOURCE_EXHAUSTED {
        "RESOURCE_EXHAUSTED"@
    } else if code == STATUS_FAILED_PRECONDITION {
        "FAILED_PRECONDITION"@
    } else if code == STATUS_ABORTED {
        "ABORTED"@
    } else if code == STATUS_OUT_OF_RANGE {
        "OUT_OF_RANGE"@
    } else if code == STATUS_UNIMPLEMENTED {
        "UNIMPLEMENTED"@
    } else if code == STATUS_INTERNAL {
        "INTERNAL"@
    } else if code == STATUS_UNAVAILABLE {
        "UNAVAILABLE"@
    } else if code == STATUS_DATA_LOSS {
        "DATA_LOSS"@
    } else if code == STATUS_UNAUTHENTICATED {
        "UNAUTHENTICATED"@
    } else {
        ""@
    }
}

/// A result code of the runtime: success, or one specific failure
/// classification.  Wrapper functions that hit a non-success status turn it
/// into an [`IreeError`] rather than exposing the bare code.
#[derive(Clone, Copy, Debug)]
pub struct IreeStatus {
    code: u32,
}

impl IreeStatus {
    /// The raw status code this value carries.
    pub closed spec fn spec_code(&self) -> u32 {
        self.code
    }

    /// Wraps a raw status code.
    pub fn from_code(code: u32) -> (r: Self)
        ensures
            r.spec_code() == code,
    {
        IreeStatus { code }
    }

    /// The raw status code this value carries.
    pub fn code(&self) -> (c: u32)
        ensures
            c == self.spec_code(),
    {
        self.code
    }

    /// True exactly when the status encodes success.
    pub fn is_ok(&self) -> (r: bool)
        ensures
            r == (self.spec_code() == STATUS_OK),
    {
        self.code == STATUS_OK
    }

    /// Renders the canonical message for this status.  The allocator is the
    /// one that owns the rendered buffer for the duration of the call; the
    /// rendering itself consults only the status code.
    #[allow(unused_variables)]
    pub(crate) fn message_string(&self, allocator: &IreeAllocator) -> (r: String)
        ensures
            r@ == spec_status_message(self.spec_code()),
    {
        let text: &str = if self.code == STATUS_OK {
            "OK"
        } else if self.code == STATUS_CANCELLED {
            "CANCELLED"
        } else if self.code == STATUS_UNKNOWN {
            "UNKNOWN"
        } else if self.code == STATUS_INVALID_ARGUMENT {
            "INVALID_ARGUMENT"
        } else if self.code == STATUS_DEADLINE_EXCEEDED {
            "DEADLINE_EXCEEDED"
        } else if self.code == STATUS_NOT_FOUND {
            "NOT_FOUND"
        } else if self.code == STATUS_ALREADY_EXISTS {
            "ALREADY_EXISTS"
        } else if self.code == STATUS_PERMISSION_DENIED {
            "PERMISSION_DENIED"
        } else if self.code == STATUS_RESOURCE_EXHAUSTED {
            "RESOURCE_EXHAUSTED"
        } else if self.code == STATUS_FAILED_PRECONDITION {
            "FAILED_PRECONDITION"
        } else if self.code == STATUS_ABORTED {
            "ABORTED"
        } else if self.code == STATUS_OUT_OF_RANGE {
            "OUT_OF_RANGE"
        } else if self.code == STATUS_UNIMPLEMENTED {
            "UNIMPLEMENTED"
        } else if self.code == STATUS_INTERNAL {
            "INTERNAL"
        } else if self.code == STATUS_UNAVAILABLE {
            "UNAVAILABLE"
        } else if self.code == STATUS_DATA_LOSS {
            "DATA_LOSS"
        } else if self.code == STATUS_UNAUTHENTICATED {
            "UNAUTHENTICATED"
        } else {
            ""
        };
        String::from_str(text)
    }

    /// Renders this status as a descriptive string using `allocator` for the
    /// message buffer.  Rendering a recognized or unrecognized code always
    /// succeeds; the fallible signature is part of the wrapper surface, so a
    /// caller treats message rendering as recoverable.
    pub fn to_string(&self, allocator: &IreeAllocator) -> (r: Result<String, IreeError>)
        ensures
            r matches Ok(m) && m@ == spec_status_message(self.spec_code()),
    {
        Ok(self.message_string(allocator))
    }
}

} // verus!
