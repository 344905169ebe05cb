//! Daemon startup reporting.
//!
//! A detached supervisor owns a one-shot readiness report: successful startup
//! consumes it exactly once, and an initialization failure consumes it with the
//! failure instead.

use vstd::prelude::*;
use vstd::string::*;

use crate::fault;
use crate::fault::{Fault, FaultKind};

use super::context;
use super::error::{ErrorModel, ExecutorError};

verus! {

/// Who waits for the outcome of startup.
#[derive(Clone, Copy, Debug, PartialEq, Eq, Structural)]
pub enum StartupReporter {
    /// Nobody: the supervisor runs in the foreground.
    Foreground,
    /// The original invoker of a detached supervisor.
    Daemon {
        /// Whether the report is still owed.
        pending: bool,
    },
}

/// Failure of a second readiness report.
pub open spec fn already_reported() -> ErrorModel {
    context::os_failure(FaultKind::Other, "daemon readiness was already reported"@)
}

impl StartupReporter {
    /// Whether a report is still owed.
    pub open spec fn owes(self) -> bool {
        self == (StartupReporter::Daemon { pending: true })
    }

    /// A reporter which owes nothing any more.
    pub open spec fn settled(self) -> StartupReporter {
        match self {
            StartupReporter::Foreground => StartupReporter::Foreground,
            StartupReporter::Daemon { .. } => StartupReporter::Daemon { pending: false },
        }
    }

    /// Settle the report with readiness. Returns whether the invoker has to be
    /// told.
    ///
    /// # Errors
    ///
    /// Fails when readiness of a detached supervisor was reported before.
    pub fn notify_ready(&mut self) -> (result: Result<bool, ExecutorError>)
        ensures
            *final(self) == old(self).settled(),
            match result {
                Ok(told) => told == old(self).owes() && (told || *old(self)
                    == StartupReporter::Foreground),
                Err(error) => *old(self) == (StartupReporter::Daemon { pending: false }) && error@
                    == already_reported(),
            },
    {
        match *self {
            StartupReporter::Foreground => Ok(false),
            StartupReporter::Daemon { pending } => {
                *self = StartupReporter::Daemon { pending: false };
                if pending {
                    Ok(true)
                } else {
                    Err(
                        ExecutorError::OperatingSystem(
                            Fault::new(FaultKind::Other, "daemon readiness was already reported"),
                        ),
                    )
                }
            },
        }
    }

    /// Settle the report with a failure. Returns whether the invoker has to be
    /// told.
    pub fn fail_if_pending(&mut self) -> (told: bool)
        ensures
            *final(self) == old(self).settled(),
            told == old(self).owes(),
    {
        match *self {
            StartupReporter::Foreground => false,
            StartupReporter::Daemon { pending } => {
                *self = StartupReporter::Daemon { pending: false };
                pending
            },
        }
    }
}

/// Failure which the invoker of a detached supervisor is told: the
/// operating-system failure behind an error, or its rendered text.
pub open spec fn startup_failure(error: ErrorModel, rendered: Seq<char>) -> fault::FaultModel {
    match error {
        ErrorModel::OperatingSystem(fault) => fault,
        ErrorModel::Daemon(fault) => fault,
        ErrorModel::Broker(fault) => fault,
        _ => fault::raised(FaultKind::Other, rendered),
    }
}

/// Failure which the invoker of a detached supervisor is told. `rendered` is the
/// complete text of the error.
#[must_use]
pub fn startup_fault(error: ExecutorError, rendered: &str) -> (told: Fault)
    ensures
        told@ == startup_failure(error@, rendered@),
{
    match error {
        ExecutorError::OperatingSystem(fault)
        | ExecutorError::Daemon(fault)
        | ExecutorError::Broker(fault) => fault,
        _ => Fault::new(FaultKind::Other, rendered),
    }
}

// ---------------------------------------------------------------------------
// Laws
// ---------------------------------------------------------------------------

/// A report is owed at most once: once settled, a reporter owes nothing.
pub proof fn startup_is_reported_once(reporter: StartupReporter)
    ensures
        !reporter.settled().owes(),
        reporter.settled().settled() == reporter.settled(),
{
}

} // verus!
