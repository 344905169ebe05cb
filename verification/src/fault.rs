//! Operating-system failures as plain values.
//!
//! The outside hands failures in as a category, an optional raw error number,
//! and a rendered text; rules which react to a failure read only those.

use vstd::prelude::*;
use vstd::string::*;

verus! {

/// Category of an operating-system failure.
#[derive(Clone, Copy, Debug, PartialEq, Eq, Structural)]
pub enum FaultKind {
    /// The entry does not exist.
    NotFound,
    /// The operation is not permitted.
    PermissionDenied,
    /// The entry exists already.
    AlreadyExists,
    /// An argument is invalid.
    InvalidInput,
    /// Data is malformed.
    InvalidData,
    /// The peer aborted the connection.
    ConnectionAborted,
    /// The peer reset the connection.
    ConnectionReset,
    /// The operation was interrupted.
    Interrupted,
    /// The operation would block.
    WouldBlock,
    /// The other end of a pipe is gone.
    BrokenPipe,
    /// Any other failure.
    Other,
}

/// One operating-system failure.
#[derive(Clone, Debug, PartialEq, Eq)]
pub struct Fault {
    /// Failure category.
    pub kind: FaultKind,
    /// Raw error number, when the operating system reported one.
    pub os_error: Option<i32>,
    /// Rendered explanation.
    pub text: String,
}

/// Pure view of a failure.
#[verifier::ext_equal]
pub struct FaultModel {
    pub kind: FaultKind,
    pub os_error: Option<i32>,
    pub text: Seq<char>,
}

impl View for Fault {
    type V = FaultModel;

    open spec fn view(&self) -> FaultModel {
        FaultModel { kind: self.kind, os_error: self.os_error, text: self.text@ }
    }
}

/// A failure raised by a rule rather than by the operating system.
pub open spec fn raised(kind: FaultKind, text: Seq<char>) -> FaultModel {
    FaultModel { kind, os_error: None, text }
}

impl Fault {
    /// A failure raised by a rule.
    #[must_use]
    pub fn new(kind: FaultKind, text: &str) -> (fault: Self)
        ensures
            fault@ == raised(kind, text@),
    {
        Fault { kind, os_error: None, text: text.to_owned() }
    }
}

} // verus!
