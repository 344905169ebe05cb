//! Public executor result types.
//!
//! These small value types are the stable observation boundary for foreground
//! and daemon execution.

use vstd::prelude::*;

use crate::supervisor::{ChildResult, FailureReason, SupervisorState};

use super::context::{ExecutionContext, ExecutionModel};

verus! {

/// Final observation returned by the foreground executor.
#[derive(Clone, Copy, Debug, PartialEq, Eq, Structural)]
pub struct SupervisionOutcome {
    /// Terminal supervisor state reached by this foreground invocation.
    pub state: SupervisorState,
    /// Restart-limit failure which requested terminal cleanup instead of persistent failure.
    pub terminal_failure: Option<FailureReason>,
    /// Last reaped generation result, absent when shutdown preceded the first start.
    pub last_result: Option<ChildResult>,
    /// Whether the last recorded result represents a failed exec handshake.
    pub last_start_failed: bool,
    /// Whether the last generation failed its descriptor readiness contract.
    pub last_readiness_failed: bool,
    /// Number of generation attempts, including failed exec handshakes.
    pub starts: u64,
}

/// Result observed by a process which participates in checked daemon startup.
#[derive(Clone, Copy, Debug, PartialEq, Eq, Structural)]
pub enum DaemonRunOutcome {
    /// The original invoking process may return success to its caller.
    Parent,
    /// The detached supervisor eventually completed its lifecycle.
    Daemon(SupervisionOutcome),
}

/// Final observation of a context.
pub open spec fn observed_outcome(context: ExecutionModel) -> SupervisionOutcome {
    SupervisionOutcome {
        state: context.machine.state,
        terminal_failure: context.terminal_failure,
        last_result: context.status.last_result,
        last_start_failed: context.status.last_start_failed,
        last_readiness_failed: context.status.last_readiness_failed,
        starts: context.tracker.total_starts,
    }
}

/// Final observation of a context.
#[must_use]
pub fn outcome(execution: &ExecutionContext) -> (observed: SupervisionOutcome)
    ensures
        observed == observed_outcome(execution@),
{
    SupervisionOutcome {
        state: execution.machine.state(),
        terminal_failure: execution.terminal_failure,
        last_result: execution.status.last_result,
        last_start_failed: execution.status.last_start_failed,
        last_readiness_failed: execution.status.last_readiness_failed,
        starts: execution.tracker.total_starts(),
    }
}

} // verus!
