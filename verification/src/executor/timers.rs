//! Deadline-driven lifecycle transitions.
//!
//! Timer handling starts delayed services, launches and cancels pre-start
//! conditions, enforces startup, readiness, and stop deadlines, and escalates
//! timed out lifecycle hooks. Each transition either changes the single
//! execution context or asks the broker to signal an owned group.

use vstd::prelude::*;
use vstd::string::*;

use crate::config::{ProcessMode, ReadinessMode, ServiceConfig};
use crate::fault::FaultKind;
use crate::process::{BrokerSignalScope, BrokerTaskId, ProcessSignal};
use crate::supervisor::machine;
use crate::supervisor::machine::MachineModel;
use crate::supervisor::restart;
use crate::supervisor::{
    DesiredState, Generation, StateMachine, SupervisorState, Transition, TransitionError,
};

use super::clock::Moment;
use super::context;
use super::context::{
    os_error, transition_error, AuxiliaryExecution, BrokerAction, DescriptorExecution,
    ExecutionContext, ExecutionModel, LifecycleExecution, LifecycleHookState, PendingSignal,
    RuntimeStatus, Step, Surroundings, TaskCommand, BROKER_EVENT_TIMEOUT, CHILD_STARTUP_TIMEOUT,
    STARTUP_DEADLINE,
};
use super::error::{ErrorModel, ExecutorError};
use super::events;
use super::events::finish_lifecycle_failure;

verus! {

// ---------------------------------------------------------------------------
// Meaning
// ---------------------------------------------------------------------------

/// What advancing a childless machine leaves behind and reports.
pub struct ChildlessStep {
    pub machine: MachineModel,
    pub first_start: bool,
    pub deadline: Option<Moment>,
    pub advanced: Result<bool, ErrorModel>,
}

/// Message for a start delay beyond every clock.
pub open spec fn unrepresentable_delay() -> ErrorModel {
    context::os_failure(
        FaultKind::Other,
        "start delay exceeds the representable monotonic deadline"@,
    )
}

/// A machine which is down starts when the operator wants it up, and a machine
/// without a child exits when the operator wants it gone. Only the first start is
/// delayed.
pub open spec fn childless_advanced(
    machine: MachineModel,
    first_start: bool,
    start_delay_seconds: u64,
    deadline: Option<Moment>,
    now: Moment,
) -> ChildlessStep {
    let delay = if first_start {
        start_delay_seconds
    } else {
        0
    };
    if machine.state is Down && (machine.desired is Up || machine.desired is Once) {
        ChildlessStep {
            machine: machine::advanced(machine, Transition::BeginStart),
            first_start: false,
            deadline: if now.representable_after(delay) {
                Some(now.after(delay))
            } else {
                deadline
            },
            advanced: if now.representable_after(delay) {
                Ok(true)
            } else {
                Err(unrepresentable_delay())
            },
        }
    } else if (machine.state is Down || machine.state is Failed) && (machine.desired is Halt
        || machine.desired is Exit) {
        ChildlessStep {
            machine: machine::advanced(machine, Transition::ExitWithoutChild),
            first_start,
            deadline,
            advanced: Ok(true),
        }
    } else {
        ChildlessStep { machine, first_start, deadline, advanced: Ok(false) }
    }
}

/// Command which executes a generation.
pub open spec fn service_spawn(config: ServiceConfig, generation: Generation) -> BrokerAction {
    if config.process_mode == ProcessMode::DescriptorTracking {
        BrokerAction::SpawnWithLifetime {
            generation,
            timeout_seconds: CHILD_STARTUP_TIMEOUT,
            readiness_seconds: if config.readiness.mode == ReadinessMode::NotifyFd {
                Some(config.readiness.timeout_seconds)
            } else {
                None
            },
        }
    } else if config.readiness.mode == ReadinessMode::Immediate {
        BrokerAction::Spawn { generation, timeout_seconds: CHILD_STARTUP_TIMEOUT }
    } else {
        BrokerAction::SpawnWithReadiness {
            generation,
            timeout_seconds: CHILD_STARTUP_TIMEOUT,
            readiness_seconds: config.readiness.timeout_seconds,
        }
    }
}

/// Allocate the next generation and ask the broker to execute it.
#[verifier::opaque]
pub open spec fn service_started(context: ExecutionModel, env: Surroundings) -> Step {
    let allocated = context::transited(context, Transition::PreconditionsReady);
    if allocated.error is Some {
        allocated
    } else {
        let generation = Generation::of((context.machine.allocated + 1) as u64);
        context::done(
            context::requested(
                ExecutionModel {
                    auxiliary: AuxiliaryExecution::Idle,
                    tracker: restart::start_recorded(
                        context.tracker,
                        env.now.since(context.epoch),
                    ),
                    status: RuntimeStatus {
                        started_at: Some(env.now),
                        down_since: None,
                        readiness_failed: false,
                        ..context.status
                    },
                    descriptor: if env.config.process_mode == ProcessMode::DescriptorTracking {
                        Some(DescriptorExecution::fresh(generation))
                    } else {
                        context.descriptor
                    },
                    deadline: Some(env.now.after(STARTUP_DEADLINE)),
                    ..allocated.context
                },
                service_spawn(*env.config, generation),
            ),
        )
    }
}

/// Kill the group of one task.
pub open spec fn task_killed(context: ExecutionModel, task: BrokerTaskId) -> ExecutionModel {
    context::requested(
        context,
        BrokerAction::SignalTask {
            task,
            scope: BrokerSignalScope::Group,
            signal: ProcessSignal::Kill,
        },
    )
}

/// Kill a condition or hook which is in flight.
#[verifier::opaque]
pub open spec fn auxiliary_cancelled(context: ExecutionModel, now: Moment) -> ExecutionModel {
    let deadline = Some(now.after(BROKER_EVENT_TIMEOUT));
    match context.auxiliary {
        AuxiliaryExecution::Starting(task) => ExecutionModel {
            auxiliary: AuxiliaryExecution::Killing { task, retry: false },
            deadline,
            ..task_killed(context, task)
        },
        AuxiliaryExecution::Running(task) => ExecutionModel {
            auxiliary: AuxiliaryExecution::Killing { task, retry: false },
            deadline,
            ..task_killed(context, task)
        },
        AuxiliaryExecution::HookStarting(task) => ExecutionModel {
            auxiliary: AuxiliaryExecution::HookKilling(task),
            deadline,
            ..task_killed(context, task)
        },
        AuxiliaryExecution::HookRunning(task) => ExecutionModel {
            auxiliary: AuxiliaryExecution::HookKilling(task),
            deadline,
            ..task_killed(context, task)
        },
        _ => context,
    }
}

/// Reaction to the deadline of a pending start.
#[verifier::opaque]
pub open spec fn waiting_timer_handled(context: ExecutionModel, env: Surroundings) -> Step {
    let wanted = env.config.start_condition is Some;
    let prepared = env.commands.condition;
    if !wanted && !prepared || wanted && prepared && context.auxiliary is Passed {
        service_started(context, env)
    } else if wanted && prepared {
        match context.auxiliary {
            AuxiliaryExecution::Idle => {
                let numbered = context::allocated(context);
                if numbered.error is Some {
                    numbered
                } else {
                    let task = BrokerTaskId::of(context.next_task);
                    context::done(
                        context::requested(
                            ExecutionModel {
                                auxiliary: AuxiliaryExecution::Starting(task),
                                deadline: Some(env.now.after(STARTUP_DEADLINE)),
                                ..numbered.context
                            },
                            BrokerAction::SpawnTask {
                                task,
                                command: TaskCommand::Condition,
                                timeout_seconds: CHILD_STARTUP_TIMEOUT,
                            },
                        ),
                    )
                }
            },
            AuxiliaryExecution::Running(task) => context::done(
                ExecutionModel {
                    auxiliary: AuxiliaryExecution::Killing { task, retry: true },
                    deadline: Some(env.now.after(BROKER_EVENT_TIMEOUT)),
                    ..task_killed(context, task)
                },
            ),
            AuxiliaryExecution::Starting(_) => context::failed(
                context,
                ErrorModel::BrokerTimedOut("condition startup"@),
            ),
            AuxiliaryExecution::Killing { .. } => context::failed(
                context,
                ErrorModel::BrokerTimedOut("condition cleanup"@),
            ),
            _ => context::failed(context, mismatched_condition()),
        }
    } else {
        context::failed(context, mismatched_condition())
    }
}

/// Failure of a preparation which does not match its configuration.
pub open spec fn mismatched_condition() -> ErrorModel {
    context::os_failure(
        FaultKind::InvalidData,
        "prepared condition does not match validated configuration"@,
    )
}

/// Reaction to the deadline of a descriptor lifecycle hook.
#[verifier::opaque]
pub open spec fn lifecycle_timer_handled(context: ExecutionModel, env: Surroundings) -> Step {
    match context.lifecycle {
        None => context::done(context),
        Some(lifecycle) => match lifecycle.state {
            LifecycleHookState::Running => context::done(
                ExecutionModel {
                    lifecycle: Some(
                        LifecycleExecution { state: LifecycleHookState::Killing, ..lifecycle },
                    ),
                    deadline: Some(env.now.after(BROKER_EVENT_TIMEOUT)),
                    ..task_killed(context, lifecycle.task)
                },
            ),
            LifecycleHookState::WaitingLifetime => events::lifecycle_failed(
                context,
                env,
                "descriptor lifetime did not close before its configured deadline"@,
            ),
            LifecycleHookState::Starting => context::failed(
                context,
                ErrorModel::BrokerTimedOut("descriptor lifecycle hook startup"@),
            ),
            LifecycleHookState::Killing => context::failed(
                context,
                ErrorModel::BrokerTimedOut("descriptor lifecycle hook cleanup"@),
            ),
        },
    }
}

/// Reaction to the deadline of the current state.
#[verifier::opaque]
pub open spec fn executor_timer_handled(context: ExecutionModel, env: Surroundings) -> Step {
    if context.lifecycle is Some {
        lifecycle_timer_handled(context, env)
    } else {
        match context.machine.state {
            SupervisorState::WaitingCondition => waiting_timer_handled(context, env),
            SupervisorState::Backoff { generation, .. } => context::transited(
                ExecutionModel { deadline: None, ..context },
                Transition::BackoffElapsed(generation),
            ),
            SupervisorState::Stopping(generation) => if context.stop_kill_sent {
                context::failed(context, ErrorModel::BrokerTimedOut("service termination"@))
            } else {
                context::done(
                    context::requested(
                        ExecutionModel {
                            pending_signals: context.pending_signals.push(
                                PendingSignal::Lifecycle,
                            ),
                            stop_kill_sent: true,
                            deadline: Some(env.now.after(BROKER_EVENT_TIMEOUT)),
                            ..context
                        },
                        BrokerAction::Signal {
                            generation,
                            scope: BrokerSignalScope::Group,
                            signal: ProcessSignal::Kill,
                        },
                    ),
                )
            },
            SupervisorState::Starting(_) => context::failed(
                context,
                ErrorModel::BrokerTimedOut("service startup"@),
            ),
            SupervisorState::Running(_) => context::failed(
                context,
                ErrorModel::BrokerTimedOut("service readiness"@),
            ),
            SupervisorState::Completed(_) => match context.auxiliary {
                AuxiliaryExecution::HookRunning(task) => context::done(
                    ExecutionModel {
                        auxiliary: AuxiliaryExecution::HookKilling(task),
                        deadline: Some(env.now.after(BROKER_EVENT_TIMEOUT)),
                        ..task_killed(context, task)
                    },
                ),
                AuxiliaryExecution::HookStarting(_) => context::failed(
                    context,
                    ErrorModel::BrokerTimedOut("post-exit hook startup"@),
                ),
                AuxiliaryExecution::HookKilling(_) => context::failed(
                    context,
                    ErrorModel::BrokerTimedOut("post-exit hook cleanup"@),
                ),
                _ => context::failed(
                    context,
                    ErrorModel::Transition(context.machine.state, "post_exit_timer"@),
                ),
            },
            _ => context::failed(
                context,
                ErrorModel::Transition(context.machine.state, "executor_timer"@),
            ),
        }
    }
}

// ---------------------------------------------------------------------------
// Handlers
// ---------------------------------------------------------------------------

/// Start or leave a machine which has no child.
///
/// # Errors
///
/// Fails when no monotonic clock can represent the start delay. Refusing the
/// start beats aborting the supervisor.
pub fn advance_childless_state(
    machine: &mut StateMachine,
    first_start: &mut bool,
    start_delay_seconds: u64,
    deadline: &mut Option<Moment>,
    now: Moment,
) -> (result: Result<bool, ExecutorError>)
    ensures
        ({
            let step = childless_advanced(
                old(machine)@,
                *old(first_start),
                start_delay_seconds,
                *old(deadline),
                now,
            );
            &&& final(machine)@ == step.machine
            &&& *final(first_start) == step.first_start
            &&& *final(deadline) == step.deadline
            &&& match result {
                Ok(advanced) => step.advanced == Ok::<bool, ErrorModel>(advanced),
                Err(error) => step.advanced == Err::<bool, ErrorModel>(error@),
            }
        }),
{
    let state = machine.state();
    let desired = machine.desired();
    if matches!(state, SupervisorState::Down) && matches!(
        desired,
        DesiredState::Up | DesiredState::Once
    ) {
        match machine.begin_start() {
            Ok(()) => {},
            Err(error) => return Err(transition_error(error)),
        }
        let delay: u64 = if *first_start {
            start_delay_seconds
        } else {
            0
        };
        *first_start = false;
        return match now.checked_plus_seconds(delay) {
            Some(later) => {
                *deadline = Some(later);
                Ok(true)
            },
            None => Err(
                os_error(
                    FaultKind::Other,
                    "start delay exceeds the representable monotonic deadline",
                ),
            ),
        };
    }
    if matches!(state, SupervisorState::Down | SupervisorState::Failed(_)) && matches!(
        desired,
        DesiredState::Halt | DesiredState::Exit
    ) {
        return match machine.exit_without_child() {
            Ok(()) => Ok(true),
            Err(error) => Err(transition_error(error)),
        };
    }
    Ok(false)
}

fn kill_task(execution: &mut ExecutionContext, task: BrokerTaskId)
    ensures
        final(execution)@ == task_killed(old(execution)@, task),
{
    execution.request(
        BrokerAction::SignalTask {
            task,
            scope: BrokerSignalScope::Group,
            signal: ProcessSignal::Kill,
        },
    );
}

/// Kill a condition or hook which is in flight.
pub fn cancel_auxiliary(execution: &mut ExecutionContext, now: Moment)
    ensures
        final(execution)@ == auxiliary_cancelled(old(execution)@, now),
{
    reveal(auxiliary_cancelled);
    let (task, hook): (BrokerTaskId, bool) = match execution.auxiliary {
        AuxiliaryExecution::Starting(task) | AuxiliaryExecution::Running(task) => (task, false),
        AuxiliaryExecution::HookStarting(task) | AuxiliaryExecution::HookRunning(task) => (
            task,
            true,
        ),
        AuxiliaryExecution::Idle
        | AuxiliaryExecution::Killing { .. }
        | AuxiliaryExecution::Passed
        | AuxiliaryExecution::HookKilling(_) => return,
    };
    kill_task(execution, task);
    execution.auxiliary = if hook {
        AuxiliaryExecution::HookKilling(task)
    } else {
        AuxiliaryExecution::Killing { task, retry: false }
    };
    execution.deadline = Some(now.plus_seconds(BROKER_EVENT_TIMEOUT));
}

/// Allocate the next generation and ask the broker to execute it.
///
/// # Errors
///
/// Fails when no start is pending or no generation is left.
pub fn start_service(execution: &mut ExecutionContext, env: &Surroundings<'_>) -> (result: Result<
    (),
    ExecutorError,
>)
    ensures
        context::stepped(service_started(old(execution)@, *env), final(execution)@, result),
{
    broadcast use machine::generation_is_its_number;

    reveal(service_started);
    let generation = match execution.machine.preconditions_ready() {
        Ok(generation) => generation,
        Err(error) => return Err(transition_error(error)),
    };
    execution.auxiliary = AuxiliaryExecution::Idle;
    let elapsed: u64 = env.now.seconds_since(execution.epoch);
    execution.tracker.record_start(elapsed);
    execution.status.started_at = Some(env.now);
    execution.status.down_since = None;
    execution.status.readiness_failed = false;
    let spawn = if env.config.process_mode == ProcessMode::DescriptorTracking {
        execution.descriptor = Some(DescriptorExecution::new(generation));
        BrokerAction::SpawnWithLifetime {
            generation,
            timeout_seconds: CHILD_STARTUP_TIMEOUT,
            readiness_seconds: if env.config.readiness.mode == ReadinessMode::NotifyFd {
                Some(env.config.readiness.timeout_seconds)
            } else {
                None
            },
        }
    } else if env.config.readiness.mode == ReadinessMode::Immediate {
        BrokerAction::Spawn { generation, timeout_seconds: CHILD_STARTUP_TIMEOUT }
    } else {
        BrokerAction::SpawnWithReadiness {
            generation,
            timeout_seconds: CHILD_STARTUP_TIMEOUT,
            readiness_seconds: env.config.readiness.timeout_seconds,
        }
    };
    execution.deadline = Some(env.now.plus_seconds(STARTUP_DEADLINE));
    execution.request(spawn);
    Ok(())
}

/// React to the deadline of a pending start.
///
/// # Errors
///
/// Fails when the broker overran its time, and for a preparation which does not
/// match its configuration.
pub fn handle_waiting_timer(execution: &mut ExecutionContext, env: &Surroundings<'_>) -> (result:
    Result<(), ExecutorError>)
    ensures
        context::stepped(waiting_timer_handled(old(execution)@, *env), final(execution)@, result),
{
    reveal(waiting_timer_handled);
    let wanted = env.config.start_condition.is_some();
    let prepared = env.commands.condition;
    if wanted != prepared {
        return Err(
            os_error(
                FaultKind::InvalidData,
                "prepared condition does not match validated configuration",
            ),
        );
    }
    if !wanted {
        return start_service(execution, env);
    }
    match execution.auxiliary {
        AuxiliaryExecution::Passed => start_service(execution, env),
        AuxiliaryExecution::Idle => {
            let task = match execution.allocate_task() {
                Ok(task) => task,
                Err(error) => return Err(error),
            };
            execution.auxiliary = AuxiliaryExecution::Starting(task);
            execution.deadline = Some(env.now.plus_seconds(STARTUP_DEADLINE));
            execution.request(
                BrokerAction::SpawnTask {
                    task,
                    command: TaskCommand::Condition,
                    timeout_seconds: CHILD_STARTUP_TIMEOUT,
                },
            );
            Ok(())
        },
        AuxiliaryExecution::Running(task) => {
            kill_task(execution, task);
            execution.auxiliary = AuxiliaryExecution::Killing { task, retry: true };
            execution.deadline = Some(env.now.plus_seconds(BROKER_EVENT_TIMEOUT));
            Ok(())
        },
        AuxiliaryExecution::Starting(_) => Err(ExecutorError::BrokerTimedOut("condition startup")),
        AuxiliaryExecution::Killing { .. } => Err(
            ExecutorError::BrokerTimedOut("condition cleanup"),
        ),
        AuxiliaryExecution::HookStarting(_)
        | AuxiliaryExecution::HookRunning(_)
        | AuxiliaryExecution::HookKilling(_) => Err(
            os_error(
                FaultKind::InvalidData,
                "prepared condition does not match validated configuration",
            ),
        ),
    }
}

/// React to the deadline of a descriptor lifecycle hook.
///
/// # Errors
///
/// Fails when the broker overran its time or the failed hook cannot be undone.
pub fn handle_lifecycle_timer(execution: &mut ExecutionContext, env: &Surroundings<'_>) -> (result:
    Result<(), ExecutorError>)
    ensures
        context::stepped(lifecycle_timer_handled(old(execution)@, *env), final(execution)@, result),
{
    reveal(lifecycle_timer_handled);
    let mut lifecycle = match execution.lifecycle {
        Some(lifecycle) => lifecycle,
        None => return Ok(()),
    };
    match lifecycle.state {
        LifecycleHookState::Running => {
            lifecycle.state = LifecycleHookState::Killing;
            execution.lifecycle = Some(lifecycle);
            execution.deadline = Some(env.now.plus_seconds(BROKER_EVENT_TIMEOUT));
            kill_task(execution, lifecycle.task);
            Ok(())
        },
        LifecycleHookState::WaitingLifetime => finish_lifecycle_failure(
            execution,
            env,
            "descriptor lifetime did not close before its configured deadline",
        ),
        LifecycleHookState::Starting => Err(
            ExecutorError::BrokerTimedOut("descriptor lifecycle hook startup"),
        ),
        LifecycleHookState::Killing => Err(
            ExecutorError::BrokerTimedOut("descriptor lifecycle hook cleanup"),
        ),
    }
}

/// React to the deadline of the current state.
///
/// # Errors
///
/// Fails when the broker or the service overran its time, and for a state which
/// has no deadline.
pub fn handle_executor_timer(execution: &mut ExecutionContext, env: &Surroundings<'_>) -> (result:
    Result<(), ExecutorError>)
    ensures
        context::stepped(executor_timer_handled(old(execution)@, *env), final(execution)@, result),
{
    reveal(executor_timer_handled);
    if execution.lifecycle.is_some() {
        return handle_lifecycle_timer(execution, env);
    }
    let state = execution.machine.state();
    match state {
        SupervisorState::WaitingCondition => handle_waiting_timer(execution, env),
        SupervisorState::Backoff { generation, .. } => {
            execution.deadline = None;
            match execution.machine.backoff_elapsed(generation) {
                Ok(()) => Ok(()),
                Err(error) => Err(transition_error(error)),
            }
        },
        SupervisorState::Stopping(generation) => {
            if execution.stop_kill_sent {
                return Err(ExecutorError::BrokerTimedOut("service termination"));
            }
            execution.request(
                BrokerAction::Signal {
                    generation,
                    scope: BrokerSignalScope::Group,
                    signal: ProcessSignal::Kill,
                },
            );
            execution.pending_signals.push_back(PendingSignal::Lifecycle);
            execution.stop_kill_sent = true;
            execution.deadline = Some(env.now.plus_seconds(BROKER_EVENT_TIMEOUT));
            Ok(())
        },
        SupervisorState::Starting(_) => Err(ExecutorError::BrokerTimedOut("service startup")),
        SupervisorState::Running(_) => Err(ExecutorError::BrokerTimedOut("service readiness")),
        SupervisorState::Completed(_) => match execution.auxiliary {
            AuxiliaryExecution::HookRunning(task) => {
                kill_task(execution, task);
                execution.auxiliary = AuxiliaryExecution::HookKilling(task);
                execution.deadline = Some(env.now.plus_seconds(BROKER_EVENT_TIMEOUT));
                Ok(())
            },
            AuxiliaryExecution::HookStarting(_) => Err(
                ExecutorError::BrokerTimedOut("post-exit hook startup"),
            ),
            AuxiliaryExecution::HookKilling(_) => Err(
                ExecutorError::BrokerTimedOut("post-exit hook cleanup"),
            ),
            AuxiliaryExecution::Idle
            | AuxiliaryExecution::Starting(_)
            | AuxiliaryExecution::Running(_)
            | AuxiliaryExecution::Killing { .. }
            | AuxiliaryExecution::Passed => Err(
                transition_error(TransitionError::Invalid { state, event: "post_exit_timer" }),
            ),
        },
        SupervisorState::Initializing
        | SupervisorState::Down
        | SupervisorState::Ready(_)
        | SupervisorState::Paused { .. }
        | SupervisorState::Failed(_)
        | SupervisorState::Exited => Err(
            transition_error(TransitionError::Invalid { state, event: "executor_timer" }),
        ),
    }
}

} // verus!
