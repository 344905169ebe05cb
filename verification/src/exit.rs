//! Stable application exit classes based on BSD `sysexits(3)` conventions.

use vstd::prelude::*;

verus! {

/// Process exit classification shared by every Immortal executable.
#[derive(Clone, Copy, Debug, PartialEq, Eq, Structural)]
pub enum ExitClass {
    /// Operation completed successfully (`0`).
    Success,
    /// Command syntax or typed dispatch was invalid (`64`, `EX_USAGE`).
    Usage,
    /// Input data or protocol frame was malformed (`65`, `EX_DATAERR`).
    Data,
    /// Requested file or service does not exist (`66`, `EX_NOINPUT`).
    NotFound,
    /// Required service or capability is unavailable (`69`, `EX_UNAVAILABLE`).
    Unavailable,
    /// Internal invariant or implementation failed (`70`, `EX_SOFTWARE`).
    Software,
    /// Operating-system facility failed (`71`, `EX_OSERR`).
    OsError,
    /// Runtime path or output could not be created (`73`, `EX_CANTCREAT`).
    CantCreate,
    /// Input/output operation failed (`74`, `EX_IOERR`).
    IoError,
    /// Retryable conflict or deadline elapsed (`75`, `EX_TEMPFAIL`).
    TemporaryFailure,
    /// Peer or filesystem permissions rejected the operation (`77`, `EX_NOPERM`).
    Permission,
    /// Service configuration is invalid (`78`, `EX_CONFIG`).
    Configuration,
    /// A multi-service request only partially succeeded (`79`, Immortal extension).
    PartialFailure,
}

impl ExitClass {
    /// The `sysexits(3)` status of each class.
    pub open spec fn status(self) -> u8 {
        match self {
            ExitClass::Success => 0,
            ExitClass::Usage => 64,
            ExitClass::Data => 65,
            ExitClass::NotFound => 66,
            ExitClass::Unavailable => 69,
            ExitClass::Software => 70,
            ExitClass::OsError => 71,
            ExitClass::CantCreate => 73,
            ExitClass::IoError => 74,
            ExitClass::TemporaryFailure => 75,
            ExitClass::Permission => 77,
            ExitClass::Configuration => 78,
            ExitClass::PartialFailure => 79,
        }
    }

    /// Stable numeric status returned to the operating system.
    #[must_use]
    pub fn value(self) -> (code: u8)
        ensures
            code == self.status(),
    {
        match self {
            ExitClass::Success => 0,
            ExitClass::Usage => 64,
            ExitClass::Data => 65,
            ExitClass::NotFound => 66,
            ExitClass::Unavailable => 69,
            ExitClass::Software => 70,
            ExitClass::OsError => 71,
            ExitClass::CantCreate => 73,
            ExitClass::IoError => 74,
            ExitClass::TemporaryFailure => 75,
            ExitClass::Permission => 77,
            ExitClass::Configuration => 78,
            ExitClass::PartialFailure => 79,
        }
    }
}

/// Two exit classes with the same numeric status are the same class.
pub proof fn exit_values_are_unique(left: ExitClass, right: ExitClass)
    ensures
        left.status() == right.status() ==> left == right,
{
}

/// Only success ends with zero, and every failure ends inside the range which
/// `sysexits` reserves, or with the one value just behind it.
pub proof fn failures_end_in_the_reserved_range(class: ExitClass)
    ensures
        class.status() == 0 <==> class == ExitClass::Success,
        class != ExitClass::Success ==> 64 <= class.status() <= 79,
        class.status() == 79 <==> class == ExitClass::PartialFailure,
        class.status() == 64 <==> class == ExitClass::Usage,
        class.status() == 78 <==> class == ExitClass::Configuration,
        class.status() == 77 <==> class == ExitClass::Permission,
        class.status() == 75 <==> class == ExitClass::TemporaryFailure,
        class.status() == 74 <==> class == ExitClass::IoError,
        class.status() == 73 <==> class == ExitClass::CantCreate,
        class.status() == 71 <==> class == ExitClass::OsError,
        class.status() == 70 <==> class == ExitClass::Software,
        class.status() == 69 <==> class == ExitClass::Unavailable,
        class.status() == 66 <==> class == ExitClass::NotFound,
        class.status() == 65 <==> class == ExitClass::Data,
{
}

} // verus!
