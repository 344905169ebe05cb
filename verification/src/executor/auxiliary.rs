//! Auxiliary condition and post-exit task handling.
//!
//! Auxiliary broker tasks never own the main service generation. Start
//! conditions can pass, retry with bounded jitter, or be cancelled before the
//! service starts; post-exit hooks run after a generation has already been
//! recorded and only unblock the pending restart decision.

use vstd::prelude::*;
use vstd::string::*;

use crate::config::StartConditionConfig;
use crate::fault::FaultKind;
use crate::process::{BrokerTaskId, ChildEvent, ProcessBrokerEvent};
use crate::supervisor::restart;
use crate::supervisor::ConditionTracker;

use super::clock;
use super::clock::jittered_backoff_seed;
use super::completion;
use super::completion::finish_completion;
use super::context;
use super::context::{
    os_error, AuxiliaryExecution, ExecutionContext, ExecutionModel, Step, Surroundings,
};
use super::error::{ErrorModel, ExecutorError};

verus! {

/// Whether a post-exit hook is in flight as `task`, in any of the given phases.
pub open spec fn hook_in(
    auxiliary: AuxiliaryExecution,
    task: BrokerTaskId,
    starting: bool,
    running: bool,
    killing: bool,
) -> bool {
    ||| starting && auxiliary == AuxiliaryExecution::HookStarting(task)
    ||| running && auxiliary == AuxiliaryExecution::HookRunning(task)
    ||| killing && auxiliary == AuxiliaryExecution::HookKilling(task)
}

/// Whether a killed condition is in flight as `task`.
pub open spec fn condition_killed(auxiliary: AuxiliaryExecution, task: BrokerTaskId) -> bool {
    auxiliary matches AuxiliaryExecution::Killing { task: current, .. } && current == task
}

/// An event which cannot happen now.
pub open spec fn unexpected(context: ExecutionModel, event: ProcessBrokerEvent) -> Step {
    context::failed(context, ErrorModel::UnexpectedBrokerEvent(event))
}

/// Apply the restart decision which waited for the post-exit hook.
pub open spec fn post_exit_finished(context: ExecutionModel, env: Surroundings) -> Step {
    match context.pending_completion {
        Some(completion) => completion::completion_finished(context, env, completion, true),
        None => context::failed(
            context,
            context::os_failure(
                FaultKind::InvalidData,
                "post-exit task has no pending service completion"@,
            ),
        ),
    }
}

/// Reaction of a post-exit hook to one task event.
#[verifier::opaque]
pub open spec fn post_exit_handled(
    context: ExecutionModel,
    env: Surroundings,
    event: ProcessBrokerEvent,
) -> Step {
    let auxiliary = context.auxiliary;
    match env.config.post_exit {
        None => unexpected(context, event),
        Some(hook) => match event {
            ProcessBrokerEvent::TaskStarted { task } => if hook_in(
                auxiliary,
                task,
                true,
                false,
                false,
            ) {
                context::done(
                    ExecutionModel {
                        auxiliary: AuxiliaryExecution::HookRunning(task),
                        deadline: Some(env.now.after(hook.timeout_seconds)),
                        ..context
                    },
                )
            } else if hook_in(auxiliary, task, false, false, true) {
                context::done(context)
            } else {
                unexpected(context, event)
            },
            ProcessBrokerEvent::TaskSpawnFailed { task, .. } => if hook_in(
                auxiliary,
                task,
                true,
                false,
                true,
            ) {
                post_exit_finished(context, env)
            } else {
                unexpected(context, event)
            },
            ProcessBrokerEvent::TaskChild { task, event: child } => if child.result() is Some
                && hook_in(auxiliary, task, false, true, true) {
                post_exit_finished(context, env)
            } else if hook_in(auxiliary, task, false, true, false) {
                context::done(context)
            } else {
                unexpected(context, event)
            },
            ProcessBrokerEvent::TaskSignalDelivered { task } => if hook_in(
                auxiliary,
                task,
                false,
                false,
                true,
            ) {
                context::done(context)
            } else {
                unexpected(context, event)
            },
            ProcessBrokerEvent::TaskSignalFailed { task, .. } => if hook_in(
                auxiliary,
                task,
                false,
                false,
                true,
            ) {
                post_exit_finished(context, env)
            } else {
                unexpected(context, event)
            },
            _ => unexpected(context, event),
        },
    }
}

/// Wait before the condition is evaluated again.
#[verifier::opaque]
pub open spec fn condition_rescheduled(
    context: ExecutionModel,
    env: Surroundings,
    task: BrokerTaskId,
    condition: StartConditionConfig,
) -> ExecutionModel {
    let streak = context.condition_tracker.streak;
    let retry = restart::condition_retry(streak, condition);
    ExecutionModel {
        condition_tracker: ConditionTracker { streak: restart::next_streak(streak) },
        auxiliary: AuxiliaryExecution::Idle,
        deadline: Some(
            env.now.after(
                clock::jittered(
                    retry.base_delay_seconds,
                    retry.jitter_percent,
                    task.number(),
                    env.broker,
                ),
            ),
        ),
        ..context
    }
}

/// A cancelled condition leaves nothing behind.
pub open spec fn condition_abandoned(context: ExecutionModel) -> ExecutionModel {
    ExecutionModel { auxiliary: AuxiliaryExecution::Idle, deadline: None, ..context }
}

/// What follows a killed condition once it is gone.
pub open spec fn killed_condition_finished(
    context: ExecutionModel,
    env: Surroundings,
    task: BrokerTaskId,
    condition: StartConditionConfig,
) -> ExecutionModel {
    if context.auxiliary matches AuxiliaryExecution::Killing { retry, .. } && retry {
        condition_rescheduled(context, env, task, condition)
    } else {
        condition_abandoned(context)
    }
}

/// Reaction of a start condition to one task event.
#[verifier::opaque]
pub open spec fn condition_handled(
    context: ExecutionModel,
    env: Surroundings,
    event: ProcessBrokerEvent,
) -> Step {
    let auxiliary = context.auxiliary;
    match env.config.start_condition {
        None => unexpected(context, event),
        Some(condition) => match event {
            ProcessBrokerEvent::TaskStarted { task } => if auxiliary
                == AuxiliaryExecution::Starting(task) {
                context::done(
                    ExecutionModel {
                        auxiliary: AuxiliaryExecution::Running(task),
                        deadline: Some(env.now.after(condition.timeout_seconds)),
                        ..context
                    },
                )
            } else if condition_killed(auxiliary, task) {
                context::done(context)
            } else {
                unexpected(context, event)
            },
            ProcessBrokerEvent::TaskSpawnFailed { task, .. } => if auxiliary
                == AuxiliaryExecution::Starting(task) {
                context::done(condition_rescheduled(context, env, task, condition))
            } else if condition_killed(auxiliary, task) {
                context::done(context)
            } else {
                unexpected(context, event)
            },
            ProcessBrokerEvent::TaskChild { task, event: child } => if auxiliary
                == AuxiliaryExecution::Running(task) {
                if child matches ChildEvent::Exited { code, .. } && code == 0 {
                    context::done(
                        ExecutionModel {
                            condition_tracker: ConditionTracker { streak: 0 },
                            auxiliary: AuxiliaryExecution::Passed,
                            deadline: Some(env.now),
                            ..context
                        },
                    )
                } else if child.result() is Some {
                    context::done(condition_rescheduled(context, env, task, condition))
                } else {
                    context::done(context)
                }
            } else if condition_killed(auxiliary, task) && child.result() is Some {
                context::done(killed_condition_finished(context, env, task, condition))
            } else {
                unexpected(context, event)
            },
            ProcessBrokerEvent::TaskSignalDelivered { task } => if condition_killed(
                auxiliary,
                task,
            ) {
                context::done(context)
            } else {
                unexpected(context, event)
            },
            ProcessBrokerEvent::TaskSignalFailed { task, .. } => if condition_killed(
                auxiliary,
                task,
            ) {
                context::done(killed_condition_finished(context, env, task, condition))
            } else {
                unexpected(context, event)
            },
            _ => unexpected(context, event),
        },
    }
}

/// Reaction of an auxiliary task to one event.
pub open spec fn auxiliary_handled(
    context: ExecutionModel,
    env: Surroundings,
    event: ProcessBrokerEvent,
) -> Step {
    if context.auxiliary.hook() {
        post_exit_handled(context, env, event)
    } else {
        condition_handled(context, env, event)
    }
}

/// Route one task event to the hook or the condition in flight.
///
/// # Errors
///
/// Fails for an event which cannot happen now.
pub fn handle_auxiliary_event(
    execution: &mut ExecutionContext,
    env: &Surroundings<'_>,
    event: ProcessBrokerEvent,
) -> (result: Result<(), ExecutorError>)
    ensures
        context::stepped(
            auxiliary_handled(old(execution)@, *env, event),
            final(execution)@,
            result,
        ),
{
    if execution.auxiliary.is_hook() {
        handle_post_exit_event(execution, env, event)
    } else {
        handle_condition_event(execution, env, event)
    }
}

/// React to one event of a post-exit hook.
///
/// # Errors
///
/// Fails for an event which cannot happen now.
pub fn handle_post_exit_event(
    execution: &mut ExecutionContext,
    env: &Surroundings<'_>,
    event: ProcessBrokerEvent,
) -> (result: Result<(), ExecutorError>)
    ensures
        context::stepped(
            post_exit_handled(old(execution)@, *env, event),
            final(execution)@,
            result,
        ),
{
    reveal(post_exit_handled);
    let timeout_seconds: u64 = match &env.config.post_exit {
        Some(hook) => hook.timeout_seconds,
        None => return Err(ExecutorError::UnexpectedBrokerEvent(event)),
    };
    let auxiliary = execution.auxiliary;
    match event {
        ProcessBrokerEvent::TaskStarted { task } => {
            if auxiliary == AuxiliaryExecution::HookStarting(task) {
                execution.auxiliary = AuxiliaryExecution::HookRunning(task);
                execution.deadline = Some(env.now.plus_seconds(timeout_seconds));
                return Ok(());
            }
            if auxiliary == AuxiliaryExecution::HookKilling(task) {
                return Ok(());
            }
        },
        ProcessBrokerEvent::TaskSpawnFailed { task, .. } => {
            if auxiliary == AuxiliaryExecution::HookStarting(task) || auxiliary
                == AuxiliaryExecution::HookKilling(task) {
                return finish_post_exit(execution, env);
            }
        },
        ProcessBrokerEvent::TaskChild { task, event: child } => {
            let running = auxiliary == AuxiliaryExecution::HookRunning(task);
            if child.is_terminal() && (running || auxiliary == AuxiliaryExecution::HookKilling(
                task,
            )) {
                return finish_post_exit(execution, env);
            }
            if running {
                return Ok(());
            }
        },
        ProcessBrokerEvent::TaskSignalDelivered { task } => {
            if auxiliary == AuxiliaryExecution::HookKilling(task) {
                return Ok(());
            }
        },
        ProcessBrokerEvent::TaskSignalFailed { task, .. } => {
            if auxiliary == AuxiliaryExecution::HookKilling(task) {
                return finish_post_exit(execution, env);
            }
        },
        _ => {},
    }
    Err(ExecutorError::UnexpectedBrokerEvent(event))
}

/// Apply the restart decision which waited for the post-exit hook.
///
/// # Errors
///
/// Fails when no decision waits or the machine refuses it.
pub fn finish_post_exit(execution: &mut ExecutionContext, env: &Surroundings<'_>) -> (result:
    Result<(), ExecutorError>)
    ensures
        context::stepped(post_exit_finished(old(execution)@, *env), final(execution)@, result),
{
    match execution.pending_completion {
        Some(completion) => finish_completion(execution, env, completion, true),
        None => Err(
            os_error(
                FaultKind::InvalidData,
                "post-exit task has no pending service completion",
            ),
        ),
    }
}

fn is_killed(auxiliary: AuxiliaryExecution, task: BrokerTaskId) -> (killed: bool)
    ensures
        killed == condition_killed(auxiliary, task),
{
    match auxiliary {
        AuxiliaryExecution::Killing { task: current, .. } => current == task,
        _ => false,
    }
}

fn finish_killed_condition(
    execution: &mut ExecutionContext,
    env: &Surroundings<'_>,
    task: BrokerTaskId,
    condition: &StartConditionConfig,
)
    ensures
        final(execution)@ == killed_condition_finished(old(execution)@, *env, task, *condition),
{
    if let AuxiliaryExecution::Killing { retry, .. } = execution.auxiliary {
        if retry {
            schedule_condition_retry(execution, env, task, condition);
            return;
        }
    }
    execution.auxiliary = AuxiliaryExecution::Idle;
    execution.deadline = None;
}

/// React to one event of a start condition.
///
/// # Errors
///
/// Fails for an event which cannot happen now.
pub fn handle_condition_event(
    execution: &mut ExecutionContext,
    env: &Surroundings<'_>,
    event: ProcessBrokerEvent,
) -> (result: Result<(), ExecutorError>)
    ensures
        context::stepped(
            condition_handled(old(execution)@, *env, event),
            final(execution)@,
            result,
        ),
{
    reveal(condition_handled);
    let condition = match &env.config.start_condition {
        Some(condition) => condition,
        None => return Err(ExecutorError::UnexpectedBrokerEvent(event)),
    };
    let auxiliary = execution.auxiliary;
    match event {
        ProcessBrokerEvent::TaskStarted { task } => {
            if auxiliary == AuxiliaryExecution::Starting(task) {
                execution.auxiliary = AuxiliaryExecution::Running(task);
                execution.deadline = Some(env.now.plus_seconds(condition.timeout_seconds));
                return Ok(());
            }
            if is_killed(auxiliary, task) {
                return Ok(());
            }
        },
        ProcessBrokerEvent::TaskSpawnFailed { task, .. } => {
            if auxiliary == AuxiliaryExecution::Starting(task) {
                schedule_condition_retry(execution, env, task, condition);
                return Ok(());
            }
            if is_killed(auxiliary, task) {
                return Ok(());
            }
        },
        ProcessBrokerEvent::TaskChild { task, event: child } => {
            if auxiliary == AuxiliaryExecution::Running(task) {
                if matches!(child, ChildEvent::Exited { code: 0, .. }) {
                    execution.condition_tracker.passed();
                    execution.auxiliary = AuxiliaryExecution::Passed;
                    execution.deadline = Some(env.now);
                } else if child.is_terminal() {
                    schedule_condition_retry(execution, env, task, condition);
                }
                return Ok(());
            }
            if is_killed(auxiliary, task) && child.is_terminal() {
                finish_killed_condition(execution, env, task, condition);
                return Ok(());
            }
        },
        ProcessBrokerEvent::TaskSignalDelivered { task } => {
            if is_killed(auxiliary, task) {
                return Ok(());
            }
        },
        ProcessBrokerEvent::TaskSignalFailed { task, .. } => {
            if is_killed(auxiliary, task) {
                finish_killed_condition(execution, env, task, condition);
                return Ok(());
            }
        },
        _ => {},
    }
    Err(ExecutorError::UnexpectedBrokerEvent(event))
}

/// Wait before the condition is evaluated again.
pub fn schedule_condition_retry(
    execution: &mut ExecutionContext,
    env: &Surroundings<'_>,
    task: BrokerTaskId,
    condition: &StartConditionConfig,
)
    ensures
        final(execution)@ == condition_rescheduled(old(execution)@, *env, task, *condition),
{
    reveal(condition_rescheduled);
    let retry = execution.condition_tracker.failed(condition);
    execution.auxiliary = AuxiliaryExecution::Idle;
    execution.deadline =
    Some(
        env.now.plus_seconds(
            jittered_backoff_seed(
                retry.base_delay_seconds,
                retry.jitter_percent,
                task.get(),
                env.broker,
            ),
        ),
    );
}

} // verus!
