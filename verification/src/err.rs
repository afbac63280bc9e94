//! Typed errors of the wrapper layer.
//!
//! Every fallible wrapper operation returns an [`IreeError`].  The error
//! never silently drops a status code: a non-success status is carried along
//! with a rendered message when an allocator was available at the failure
//! site, and bare otherwise.

use vstd::prelude::*;

use crate::allocator::IreeAllocator;
use crate::status::spec_status_message;
use crate::status::IreeStatus;
use crate::text::decimal_string;
use crate::text::spec_decimal;

verus! {

/// The classification an [`IreeError`] carries.
#[derive(Debug)]
pub enum IreeErrorKind {
    /// A non-success status, together with the message that was rendered for
    /// it when the failure site had an allocator available.
    Status(IreeStatus, String),
    /// A non-success status from a site with no allocator at hand, so no
    /// message string could be rendered for it.
    UnallocatedStatus(IreeStatus),
    /// A failure of a collaborator outside the runtime (text conversion and
    /// the like), carried as its rendered description.
    Other(String),
    /// A wrapper-level failure described directly by a string, not tied to a
    /// status code.
    Unknown(String),
}

/// An error returned by a wrapper operation.  Runtime functions report a
/// status code; this type treats the code it carries as a failure and keeps
/// enough information to reconstruct a diagnostic message.
#[derive(Debug)]
pub struct IreeError {
    kind: IreeErrorKind,
}

/// The diagnostic message an error renders, by kind.
pub open spec fn spec_error_message(kind: IreeErrorKind) -> Seq<char> {
    match kind {
        IreeErrorKind::Status(status, msg) => "IREE status: "@ + spec_decimal(
            status.spec_code() as nat,
        ) + " "@ + msg@,
        IreeErrorKind::UnallocatedStatus(status) => "IREE unallocated status: "@ + spec_decimal(
            status.spec_code() as nat,
        ) + " (try allocating the error message string using an allocator!)"@,
        IreeErrorKind::Unknown(msg) => "IREE unknown error: "@ + msg@,
        IreeErrorKind::Other(msg) => "IREE other error: "@ + msg@,
    }
}

/// Holds when `e` carries status `code` together with the canonical message
/// rendered for that code.
pub open spec fn spec_is_status_error(e: IreeError, code: u32) -> bool {
    e.spec_kind() matches IreeErrorKind::Status(s, m) && s.spec_code() == code && m@
        == spec_status_message(code)
}

/// Builds the status error for failure sites that have no caller-supplied
/// allocator at hand: the message is rendered through the system allocator.
pub(crate) fn status_error(code: u32) -> (e: IreeError)
    ensures
        spec_is_status_error(e, code),
{
    IreeError::from_status(IreeStatus::from_code(code), &IreeAllocator::system_allocator())
}

impl IreeError {
    /// The classification this error carries.
    pub closed spec fn spec_kind(&self) -> IreeErrorKind {
        self.kind
    }

    /// Wraps a classification as an error value.
    pub fn new(kind: IreeErrorKind) -> (r: Self)
        ensures
            r.spec_kind() == kind,
    {
        IreeError { kind }
    }

    /// Builds an error from a non-success status, rendering its message
    /// through `allocator`.
    pub fn from_status(status: IreeStatus, allocator: &IreeAllocator) -> (r: Self)
        ensures
            r.spec_kind() matches IreeErrorKind::Status(s, m) && s.spec_code()
                == status.spec_code() && m@ == spec_status_message(status.spec_code()),
    {
        let msg = status.message_string(allocator);
        IreeError { kind: IreeErrorKind::Status(status, msg) }
    }

    /// The classification this error carries.
    pub fn kind(&self) -> (k: &IreeErrorKind)
        ensures
            *k == self.spec_kind(),
    {
        &self.kind
    }

    /// Renders the diagnostic message for this error.
    pub fn message(&self) -> (m: String)
        ensures
            m@ == spec_error_message(self.spec_kind()),
    {
        match &self.kind {
            IreeErrorKind::Status(status, msg) => {
                let mut out = String::from_str("IREE status: ");
                out.append(decimal_string(status.code() as usize).as_str());
                out.append(" ");
                out.append(msg.as_str());
                out
            },
            IreeErrorKind::UnallocatedStatus(status) => {
                let mut out = String::from_str("IREE unallocated status: ");
                out.append(decimal_string(status.code() as usize).as_str());
                out.append(" (try allocating the error message string using an allocator!)");
                out
            },
            IreeErrorKind::Unknown(msg) => {
                let mut out = String::from_str("IREE unknown error: ");
                out.append(msg.as_str());
                out
            },
            IreeErrorKind::Other(msg) => {
                let mut out = String::from_str("IREE other error: ");
                out.append(msg.as_str());
                out
            },
        }
    }
}

impl From<String> for IreeError {
    /// Wraps a bare description as an [`IreeErrorKind::Unknown`] error.
    fn from(s: String) -> (r: Self) {
        IreeError { kind: IreeErrorKind::Unknown(s) }
    }
}

impl vstd::std_specs::convert::FromSpecImpl<String> for IreeError {
    open spec fn obeys_from_spec() -> bool {
        true
    }

    closed spec fn from_spec(s: String) -> Self {
        IreeError { kind: IreeErrorKind::Unknown(s) }
    }
}

} // verus!
