//! Executor failure contract.
//!
//! Every fallible boundary stays classified: operating-system, daemon, broker,
//! and state-machine failures keep their source, and supervisor-facing sentinel
//! failures stay stable.

use vstd::prelude::*;
use vstd::string::*;

use crate::fault::{Fault, FaultModel};
use crate::process::{ChildEvent, ProcessBrokerEvent};
use crate::text::concat2;
use crate::supervisor::{SupervisorState, TransitionError};

verus! {

/// Failure to initialize or drive one foreground supervisor.
#[derive(Debug)]
pub enum ExecutorError {
    /// The configuration asks for something this executor cannot do.
    Unsupported(&'static str),
    /// An operating-system facility failed.
    OperatingSystem(Fault),
    /// Checked daemon startup failed.
    Daemon(Fault),
    /// The broker connection failed.
    Broker(Fault),
    /// A lifecycle transition was refused.
    Transition(TransitionError),
    /// The broker did not answer in time.
    BrokerTimedOut(&'static str),
    /// A process group could not be cleaned up.
    ContainmentFailed(ProcessBrokerEvent),
    /// The broker reported something which cannot happen now.
    UnexpectedBrokerEvent(ProcessBrokerEvent),
    /// The broker process ended unsuccessfully.
    BrokerExited(ChildEvent),
    /// The control server ended before the supervisor.
    ControlServerStopped,
}

/// Pure view of an executor failure.
pub enum ErrorModel {
    Unsupported(Seq<char>),
    OperatingSystem(FaultModel),
    Daemon(FaultModel),
    Broker(FaultModel),
    Transition(SupervisorState, Seq<char>),
    BrokerTimedOut(Seq<char>),
    ContainmentFailed(ProcessBrokerEvent),
    UnexpectedBrokerEvent(ProcessBrokerEvent),
    BrokerExited(ChildEvent),
    ControlServerStopped,
}

impl View for ExecutorError {
    type V = ErrorModel;

    open spec fn view(&self) -> ErrorModel {
        match *self {
            ExecutorError::Unsupported(capability) => ErrorModel::Unsupported(capability@),
            ExecutorError::OperatingSystem(fault) => ErrorModel::OperatingSystem(fault@),
            ExecutorError::Daemon(fault) => ErrorModel::Daemon(fault@),
            ExecutorError::Broker(fault) => ErrorModel::Broker(fault@),
            ExecutorError::Transition(error) => ErrorModel::Transition(
                error.refused_in(),
                error.event_name(),
            ),
            ExecutorError::BrokerTimedOut(operation) => ErrorModel::BrokerTimedOut(operation@),
            ExecutorError::ContainmentFailed(event) => ErrorModel::ContainmentFailed(event),
            ExecutorError::UnexpectedBrokerEvent(event) => ErrorModel::UnexpectedBrokerEvent(
                event,
            ),
            ExecutorError::BrokerExited(event) => ErrorModel::BrokerExited(event),
            ExecutorError::ControlServerStopped => ErrorModel::ControlServerStopped,
        }
    }
}

/// Text without the event which some failures carry.
pub open spec fn summary_text(error: ErrorModel) -> Seq<char> {
    match error {
        ErrorModel::Unsupported(capability) => "foreground supervision does not yet support "@
            + capability,
        ErrorModel::OperatingSystem(fault) => fault.text,
        ErrorModel::Daemon(fault) => fault.text,
        ErrorModel::Broker(fault) => fault.text,
        ErrorModel::Transition(_, event) => "invalid lifecycle transition: "@ + event,
        ErrorModel::BrokerTimedOut(operation) => "process broker timed out during "@ + operation,
        ErrorModel::ContainmentFailed(_) => "process-group containment failed"@,
        ErrorModel::UnexpectedBrokerEvent(_) => "unexpected process broker event"@,
        ErrorModel::BrokerExited(_) => "process broker exited unsuccessfully"@,
        ErrorModel::ControlServerStopped => "authenticated control server stopped unexpectedly"@,
    }
}

impl ExecutorError {
    /// Rendered explanation, without the event which some failures carry.
    #[must_use]
    pub fn summary(&self) -> (summary: String)
        ensures
            summary@ == summary_text(self@),
    {
        match self {
            ExecutorError::Unsupported(capability) => concat2(
                "foreground supervision does not yet support ",
                capability,
            ),
            ExecutorError::OperatingSystem(fault)
            | ExecutorError::Daemon(fault)
            | ExecutorError::Broker(fault) => fault.text.clone(),
            ExecutorError::Transition(error) => match error {
                TransitionError::Invalid { event, .. } => concat2(
                    "invalid lifecycle transition: ",
                    event,
                ),
            },
            ExecutorError::BrokerTimedOut(operation) => concat2(
                "process broker timed out during ",
                operation,
            ),
            ExecutorError::ContainmentFailed(_) => "process-group containment failed".to_owned(),
            ExecutorError::UnexpectedBrokerEvent(_) => {
                "unexpected process broker event".to_owned()
            },
            ExecutorError::BrokerExited(_) => "process broker exited unsuccessfully".to_owned(),
            ExecutorError::ControlServerStopped => {
                "authenticated control server stopped unexpectedly".to_owned()
            },
        }
    }
}

} // verus!
