//! Stopping of owned process groups.

use vstd::prelude::*;

use crate::control::decision::StopCompletion;
use crate::process::{BrokerSignalScope, ProcessSignal};
use crate::supervisor::Generation;

use super::clock::Moment;
use super::context;
use super::context::{
    BrokerAction, ExecutionContext, ExecutionModel, PendingSignal, SERVICE_STOP_GRACE,
};

verus! {

/// A group is asked to end and then continued, so that a stopped group can react.
/// Each signal owes one acknowledgement.
pub open spec fn group_stop_requested(
    context: ExecutionModel,
    generation: Generation,
) -> ExecutionModel {
    let terminated = context::requested(
        context,
        BrokerAction::Signal {
            generation,
            scope: BrokerSignalScope::Group,
            signal: ProcessSignal::Terminate,
        },
    );
    let continued = context::requested(
        terminated,
        BrokerAction::Signal {
            generation,
            scope: BrokerSignalScope::Group,
            signal: ProcessSignal::Continue,
        },
    );
    ExecutionModel {
        pending_signals: context.pending_signals.push(PendingSignal::Lifecycle).push(
            PendingSignal::Lifecycle,
        ),
        ..continued
    }
}

/// A group stop with its completion action and grace period.
pub open spec fn group_stop_begun(
    context: ExecutionModel,
    generation: Generation,
    after: StopCompletion,
    now: Moment,
) -> ExecutionModel {
    ExecutionModel {
        pending_stop: Some(after),
        stop_kill_sent: false,
        deadline: Some(now.after(SERVICE_STOP_GRACE)),
        ..group_stop_requested(context, generation)
    }
}

/// Ask a group to end and continue it.
pub fn request_group_stop(execution: &mut ExecutionContext, generation: Generation)
    ensures
        final(execution)@ == group_stop_requested(old(execution)@, generation),
{
    execution.request(
        BrokerAction::Signal {
            generation,
            scope: BrokerSignalScope::Group,
            signal: ProcessSignal::Terminate,
        },
    );
    execution.pending_signals.push_back(PendingSignal::Lifecycle);
    execution.request(
        BrokerAction::Signal {
            generation,
            scope: BrokerSignalScope::Group,
            signal: ProcessSignal::Continue,
        },
    );
    execution.pending_signals.push_back(PendingSignal::Lifecycle);
    assert(execution@ =~= group_stop_requested(old(execution)@, generation));
}

/// Begin stopping a group, with the action which follows once it is reaped.
pub fn begin_group_stop(
    execution: &mut ExecutionContext,
    generation: Generation,
    after: StopCompletion,
    now: Moment,
)
    ensures
        final(execution)@ == group_stop_begun(old(execution)@, generation, after, now),
{
    request_group_stop(execution, generation);
    execution.pending_stop = Some(after);
    execution.stop_kill_sent = false;
    execution.deadline = Some(now.plus_seconds(SERVICE_STOP_GRACE));
}

} // verus!
