//! Ordered broker shutdown and reap decisions.
//!
//! The broker is asked to clean up its children and is then reaped. A timeout
//! escalates to killing only the known broker process. After an abnormal broker
//! exit its surviving children reparent to this supervisor, so other children may
//! be reaped ahead of the broker itself.

use vstd::prelude::*;
use vstd::string::*;

use crate::process::{ChildEvent, ProcessBrokerEvent, ProcessId};

use super::error::{ErrorModel, ExecutorError};

verus! {

/// Whether a late event may be ignored while the broker shuts down.
pub open spec fn ignorable(event: ProcessBrokerEvent) -> bool {
    ||| event is Child
    ||| event is TaskStarted
    ||| event is TaskSpawnFailed
    ||| event is TaskChild
    ||| event is TaskSignalDelivered
    ||| event is TaskSignalFailed
}

/// Judge one event, or the absence of one, while the broker shuts down. Returns
/// whether the shutdown is complete.
///
/// # Errors
///
/// Fails when the broker could not clean up, reported something which cannot
/// happen now, or reported nothing in time.
pub fn shutdown_progress(event: Option<ProcessBrokerEvent>) -> (result: Result<
    bool,
    ExecutorError,
>)
    ensures
        match (event, result) {
            (None, Err(error)) => error@ == ErrorModel::BrokerTimedOut("shutdown"@),
            (Some(event), Ok(complete)) => complete == (event is ShutdownComplete) && (complete
                || ignorable(event)),
            (Some(event), Err(error)) => !(event is ShutdownComplete) && !ignorable(event)
                && error@ == (if event is ShutdownFailed {
                ErrorModel::BrokerTimedOut("shutdown cleanup"@)
            } else {
                ErrorModel::UnexpectedBrokerEvent(event)
            }),
            (None, Ok(_)) => false,
        },
{
    match event {
        None => Err(ExecutorError::BrokerTimedOut("shutdown")),
        Some(event) => match event {
            ProcessBrokerEvent::ShutdownComplete => Ok(true),
            ProcessBrokerEvent::Child { .. }
            | ProcessBrokerEvent::TaskStarted { .. }
            | ProcessBrokerEvent::TaskSpawnFailed { .. }
            | ProcessBrokerEvent::TaskChild { .. }
            | ProcessBrokerEvent::TaskSignalDelivered { .. }
            | ProcessBrokerEvent::TaskSignalFailed { .. } => Ok(false),
            ProcessBrokerEvent::ShutdownFailed => Err(
                ExecutorError::BrokerTimedOut("shutdown cleanup"),
            ),
            _ => Err(ExecutorError::UnexpectedBrokerEvent(event)),
        },
    }
}

/// What to do after one poll for ended children.
#[derive(Debug)]
pub enum ReapStep {
    /// The broker ended; drain what it left behind and report the result.
    Ended(Result<(), ExecutorError>),
    /// The broker overran its time; kill it and wait for it.
    Kill,
    /// Poll again.
    Poll,
}

/// Whether an observation is the end of the broker.
pub open spec fn ends_broker(event: Option<ChildEvent>, broker: ProcessId) -> bool {
    event matches Some(event) && event.process() == broker && event.result() is Some
}

/// Judge one poll for ended children. An orphan reaped ahead of the broker and an
/// idle poll both leave the broker to be awaited, until it overruns its time.
#[must_use]
pub fn reap_step(event: Option<ChildEvent>, broker: ProcessId, overdue: bool) -> (step: ReapStep)
    ensures
        step is Ended <==> ends_broker(event, broker),
        step matches ReapStep::Ended(result) ==> match result {
            Ok(()) => event->0 matches ChildEvent::Exited { code, .. } && code == 0,
            Err(error) => error@ == ErrorModel::BrokerExited(event->0) && !(event->0 matches
                ChildEvent::Exited { code, .. } && code == 0),
        },
        !ends_broker(event, broker) ==> (step is Kill <==> overdue),
{
    if let Some(event) = event {
        if event.pid() == broker && event.is_terminal() {
            return ReapStep::Ended(
                if matches!(event, ChildEvent::Exited { code: 0, .. }) {
                    Ok(())
                } else {
                    Err(ExecutorError::BrokerExited(event))
                },
            );
        }
    }
    if overdue {
        ReapStep::Kill
    } else {
        ReapStep::Poll
    }
}

} // verus!
