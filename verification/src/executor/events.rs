//! Broker event routing for service, logger, and lifecycle tasks.
//!
//! Containment failures are classified first, then logger-input shutdown
//! advances, then task events are routed to lifecycle hooks, logger pipelines, or
//! auxiliary condition and post-exit handlers, and at last service-generation
//! events are handled.

use vstd::prelude::*;
use vstd::string::*;

use crate::config::{LoggerRestartConfig, ProcessMode, ReadinessMode};
use crate::control::response::ResponseCode;
use crate::fault::FaultKind;
use crate::process::{BrokerTaskId, ProcessBrokerEvent, ProcessId};
use crate::supervisor::{ChildResult, Generation, SupervisorState, Transition};

use super::auxiliary;
use super::auxiliary::handle_auxiliary_event;
use super::clock::Moment;
use super::completion;
use super::completion::{
    complete_generation, finish_descriptor_generation, finish_detach, finish_signal_request,
    handle_lifetime_event, handle_service_child_event, respond_lifecycle, LifetimeResult,
};
use super::context;
use super::context::{
    os_error, transition_error, BrokerAction, ExecutionContext, ExecutionModel,
    LifecycleExecution, LifecycleHookKind, LifecycleHookState, LoggerExecution,
    LoggerExecutionState, LoggerShutdownState, LoggerShutdownTier, RuntimeStatus, Step,
    Surroundings, BROKER_EVENT_TIMEOUT, LOGGER_DRAIN_GRACE, SERVICE_STOP_GRACE,
    SPAWN_FAILURE_EXIT,
};
use super::control;
use super::control::{begin_lifecycle_hook, LifecycleHookRequest};
use super::error::{ErrorModel, ExecutorError};
use super::logger;
use super::logger::{logger_tier_is_down, schedule_logger_restart};
use super::stopping;
use super::stopping::request_group_stop;

verus! {

// ---------------------------------------------------------------------------
// Lifecycle hooks
// ---------------------------------------------------------------------------

/// A lifecycle hook which failed: a stop is undone, the client is told, and a
/// generation which ended meanwhile completes.
#[verifier::opaque]
pub open spec fn lifecycle_failed(
    context: ExecutionModel,
    env: Surroundings,
    message: Seq<char>,
) -> Step {
    match context.lifecycle {
        None => context::failed(
            context,
            context::os_failure(
                FaultKind::InvalidData,
                "failed descriptor lifecycle hook is absent"@,
            ),
        ),
        Some(lifecycle) => {
            let released = ExecutionModel { lifecycle: None, ..context };
            let undone = if lifecycle.kind is Stop {
                context::transited(
                    released,
                    Transition::AbortStop {
                        generation: lifecycle.generation,
                        resume_ready: lifecycle.resume_ready,
                        previous_desired: lifecycle.previous_desired,
                    },
                )
            } else {
                context::done(released)
            };
            if undone.error is Some {
                undone
            } else {
                let settled = ExecutionModel {
                    pending_stop: if lifecycle.kind is Stop {
                        None
                    } else {
                        context.pending_stop
                    },
                    deadline: None,
                    ..undone.context
                };
                completion::descriptor_finished(
                    completion::lifecycle_replied(
                        settled,
                        Some(lifecycle),
                        ResponseCode::Internal,
                        message,
                    ),
                    env,
                    lifecycle.generation,
                )
            }
        },
    }
}

/// A lifecycle hook which succeeded: a reload is answered, and a stop waits for
/// the lifetime descriptor.
#[verifier::opaque]
pub open spec fn lifecycle_succeeded(context: ExecutionModel, env: Surroundings) -> Step {
    match context.lifecycle {
        None => context::failed(
            context,
            context::os_failure(
                FaultKind::InvalidData,
                "completed descriptor lifecycle hook is absent"@,
            ),
        ),
        Some(lifecycle) => if lifecycle.kind is Reload {
            let replied = completion::lifecycle_replied(
                ExecutionModel { lifecycle: None, ..context },
                Some(lifecycle),
                ResponseCode::Success,
                completion::acceptance_message(),
            );
            context::done(ExecutionModel { deadline: None, ..replied })
        } else {
            let waiting = ExecutionModel {
                lifecycle: Some(
                    LifecycleExecution {
                        state: LifecycleHookState::WaitingLifetime,
                        ..lifecycle
                    },
                ),
                pending_stop: lifecycle.after,
                ..context
            };
            match env.config.descriptor_tracking {
                None => context::failed(
                    waiting,
                    context::os_failure(
                        FaultKind::InvalidData,
                        "descriptor lifecycle configuration is absent"@,
                    ),
                ),
                Some(tracking) => completion::descriptor_finished(
                    ExecutionModel {
                        deadline: Some(env.now.after(tracking.lifetime_timeout_seconds)),
                        ..waiting
                    },
                    env,
                    lifecycle.generation,
                ),
            }
        },
    }
}

/// Reaction of a lifecycle hook to one task event.
#[verifier::opaque]
pub open spec fn lifecycle_handled(
    context: ExecutionModel,
    env: Surroundings,
    event: ProcessBrokerEvent,
) -> Step {
    let unexpected = auxiliary::unexpected(context, event);
    match context.lifecycle {
        None => unexpected,
        Some(lifecycle) => if task_of(event) != Some(lifecycle.task) {
            unexpected
        } else {
            let killing = lifecycle.state is Killing;
            match event {
                ProcessBrokerEvent::TaskStarted { .. } => if lifecycle.state is Starting {
                    context::done(
                        ExecutionModel {
                            lifecycle: Some(
                                LifecycleExecution {
                                    state: LifecycleHookState::Running,
                                    ..lifecycle
                                },
                            ),
                            deadline: Some(env.now.after(lifecycle.timeout_seconds)),
                            ..context
                        },
                    )
                } else if killing {
                    context::done(context)
                } else {
                    unexpected
                },
                ProcessBrokerEvent::TaskSpawnFailed { .. } => lifecycle_failed(
                    context,
                    env,
                    "descriptor lifecycle hook could not be started"@,
                ),
                ProcessBrokerEvent::TaskChild { event: child, .. } => if child.result()
                    is Some {
                    if !killing && child.result() == Some(ChildResult::Exited(0)) {
                        lifecycle_succeeded(context, env)
                    } else {
                        lifecycle_failed(
                            context,
                            env,
                            "descriptor lifecycle hook did not complete successfully"@,
                        )
                    }
                } else if lifecycle.state is Running {
                    context::done(context)
                } else {
                    unexpected
                },
                ProcessBrokerEvent::TaskSignalDelivered { .. } => if killing {
                    context::done(context)
                } else {
                    unexpected
                },
                ProcessBrokerEvent::TaskSignalFailed { .. } => if killing {
                    lifecycle_failed(
                        context,
                        env,
                        "descriptor lifecycle hook could not be killed"@,
                    )
                } else {
                    unexpected
                },
                _ => unexpected,
            }
        },
    }
}

/// Undo and report a lifecycle hook which failed.
///
/// # Errors
///
/// Fails without a hook, and when the stop cannot be undone.
pub fn finish_lifecycle_failure(
    execution: &mut ExecutionContext,
    env: &Surroundings<'_>,
    message: &str,
) -> (result: Result<(), ExecutorError>)
    ensures
        context::stepped(
            lifecycle_failed(old(execution)@, *env, message@),
            final(execution)@,
            result,
        ),
{
    reveal(lifecycle_failed);
    let lifecycle = match execution.lifecycle {
        Some(lifecycle) => lifecycle,
        None => return Err(
            os_error(FaultKind::InvalidData, "failed descriptor lifecycle hook is absent"),
        ),
    };
    execution.lifecycle = None;
    if lifecycle.kind == LifecycleHookKind::Stop {
        match execution.machine.abort_stop(
            lifecycle.generation,
            lifecycle.resume_ready,
            lifecycle.previous_desired,
        ) {
            Ok(()) => {},
            Err(error) => return Err(transition_error(error)),
        }
        execution.pending_stop = None;
    }
    execution.deadline = None;
    respond_lifecycle(execution, Some(lifecycle), ResponseCode::Internal, message);
    finish_descriptor_generation(execution, env, lifecycle.generation)
}

/// Continue after a lifecycle hook which succeeded.
///
/// # Errors
///
/// Fails without a hook, without its configuration, and when the generation
/// cannot complete.
pub fn finish_lifecycle_success(execution: &mut ExecutionContext, env: &Surroundings<'_>) -> (
result: Result<(), ExecutorError>)
    ensures
        context::stepped(lifecycle_succeeded(old(execution)@, *env), final(execution)@, result),
{
    reveal(lifecycle_succeeded);
    let mut lifecycle = match execution.lifecycle {
        Some(lifecycle) => lifecycle,
        None => return Err(
            os_error(FaultKind::InvalidData, "completed descriptor lifecycle hook is absent"),
        ),
    };
    if lifecycle.kind == LifecycleHookKind::Reload {
        execution.lifecycle = None;
        respond_lifecycle(
            execution,
            Some(lifecycle),
            ResponseCode::Success,
            "accepted; awaiting lifecycle completion",
        );
        execution.deadline = None;
        return Ok(());
    }
    lifecycle.state = LifecycleHookState::WaitingLifetime;
    execution.lifecycle = Some(lifecycle);
    execution.pending_stop = lifecycle.after;
    let lifetime_seconds: u64 = match &env.config.descriptor_tracking {
        Some(tracking) => tracking.lifetime_timeout_seconds,
        None => return Err(
            os_error(FaultKind::InvalidData, "descriptor lifecycle configuration is absent"),
        ),
    };
    execution.deadline = Some(env.now.plus_seconds(lifetime_seconds));
    finish_descriptor_generation(execution, env, lifecycle.generation)
}

/// React to one event of a lifecycle hook.
///
/// # Errors
///
/// Fails for an event which cannot happen now.
pub fn handle_lifecycle_event(
    execution: &mut ExecutionContext,
    env: &Surroundings<'_>,
    event: ProcessBrokerEvent,
) -> (result: Result<(), ExecutorError>)
    ensures
        context::stepped(
            lifecycle_handled(old(execution)@, *env, event),
            final(execution)@,
            result,
        ),
{
    reveal(lifecycle_handled);
    let mut lifecycle = match execution.lifecycle {
        Some(lifecycle) => lifecycle,
        None => return Err(ExecutorError::UnexpectedBrokerEvent(event)),
    };
    match task_id(&event) {
        Some(task) => {
            if task != lifecycle.task {
                return Err(ExecutorError::UnexpectedBrokerEvent(event));
            }
        },
        None => return Err(ExecutorError::UnexpectedBrokerEvent(event)),
    }
    let killing = lifecycle.state == LifecycleHookState::Killing;
    match event {
        ProcessBrokerEvent::TaskStarted { .. } => {
            if lifecycle.state == LifecycleHookState::Starting {
                lifecycle.state = LifecycleHookState::Running;
                execution.lifecycle = Some(lifecycle);
                execution.deadline = Some(env.now.plus_seconds(lifecycle.timeout_seconds));
                return Ok(());
            }
            if killing {
                return Ok(());
            }
        },
        ProcessBrokerEvent::TaskSpawnFailed { .. } => return finish_lifecycle_failure(
            execution,
            env,
            "descriptor lifecycle hook could not be started",
        ),
        ProcessBrokerEvent::TaskChild { event: child, .. } => {
            if let Some(outcome) = child.terminal_result() {
                if !killing && outcome == ChildResult::Exited(0) {
                    return finish_lifecycle_success(execution, env);
                }
                return finish_lifecycle_failure(
                    execution,
                    env,
                    "descriptor lifecycle hook did not complete successfully",
                );
            }
            if lifecycle.state == LifecycleHookState::Running {
                return Ok(());
            }
        },
        ProcessBrokerEvent::TaskSignalDelivered { .. } => {
            if killing {
                return Ok(());
            }
        },
        ProcessBrokerEvent::TaskSignalFailed { .. } => {
            if killing {
                return finish_lifecycle_failure(
                    execution,
                    env,
                    "descriptor lifecycle hook could not be killed",
                );
            }
        },
        _ => {},
    }
    Err(ExecutorError::UnexpectedBrokerEvent(event))
}

// ---------------------------------------------------------------------------
// Service generation
// ---------------------------------------------------------------------------

/// Whether the supervisor still owns `generation`.
pub open spec fn owns(context: ExecutionModel, generation: Generation) -> bool {
    context.machine.state.spec_generation() == Some(generation)
}

/// Publish readiness. A running generation becomes ready and a paused one
/// remembers it; every other owned generation already has a lifecycle decision
/// and drops the observation.
#[verifier::opaque]
pub open spec fn readiness_observed(context: ExecutionModel, generation: Generation) -> Step {
    let records = match context.machine.state {
        SupervisorState::Running(_) => true,
        SupervisorState::Paused { ready, .. } => !ready,
        _ => false,
    };
    if records {
        readiness_published(context, generation)
    } else {
        context::done(context)
    }
}

/// Record readiness and drop its deadline.
pub open spec fn readiness_published(context: ExecutionModel, generation: Generation) -> Step {
    let ready = context::transited(context, Transition::ChildReady(generation));
    if ready.error is Some {
        ready
    } else {
        context::done(ExecutionModel { deadline: None, ..ready.context })
    }
}

/// Context with a published main process.
pub open spec fn pid_published(context: ExecutionModel, process: ProcessId) -> ExecutionModel {
    let published = ExecutionModel {
        status: RuntimeStatus { main_pid: Some(process.number() as u32), ..context.status },
        ..context
    };
    if context.status.publishes_main_pid {
        context::requested(
            published,
            BrokerAction::PublishMainPid { process: process.number() as u32 },
        )
    } else {
        published
    }
}

/// Reaction to an executed generation.
#[verifier::opaque]
pub open spec fn service_start_observed(
    context: ExecutionModel,
    env: Surroundings,
    generation: Generation,
    process: ProcessId,
    group: ProcessId,
) -> Step {
    if context.machine.state == SupervisorState::Starting(generation) {
        let running = context::transited(context, Transition::ChildStarted(generation));
        if running.error is Some {
            running
        } else {
            let published = pid_published(running.context, process);
            if env.config.readiness.mode == ReadinessMode::Immediate {
                readiness_published(published, generation)
            } else {
                context::done(
                    ExecutionModel {
                        deadline: Some(
                            env.now.after(env.config.readiness.timeout_seconds).after(
                                BROKER_EVENT_TIMEOUT,
                            ),
                        ),
                        ..published
                    },
                )
            }
        }
    } else if context.machine.state == SupervisorState::Stopping(generation) {
        context::done(pid_published(context, process))
    } else {
        auxiliary::unexpected(
            context,
            ProcessBrokerEvent::Started { generation, process, group },
        )
    }
}

/// Reaction to a broken readiness contract of a running generation.
#[verifier::opaque]
pub open spec fn readiness_failure_handled(
    context: ExecutionModel,
    env: Surroundings,
    generation: Generation,
) -> Step {
    let noted = readiness_failure_noted(context);
    let stopping = context::transited(noted, Transition::BeginStop(generation));
    if stopping.error is Some {
        stopping
    } else if env.config.process_mode == ProcessMode::DescriptorTracking {
        control::hook_begun(
            stopping.context,
            env,
            LifecycleHookRequest {
                after: None,
                reply: None,
                generation,
                kind: LifecycleHookKind::Stop,
                previous_desired: context.machine.desired,
                resume_ready: false,
            },
        )
    } else {
        context::done(
            ExecutionModel {
                stop_kill_sent: false,
                deadline: Some(env.now.after(SERVICE_STOP_GRACE)),
                ..stopping::group_stop_requested(stopping.context, generation)
            },
        )
    }
}

/// Context which remembers a broken readiness contract.
pub open spec fn readiness_failure_noted(context: ExecutionModel) -> ExecutionModel {
    ExecutionModel {
        status: RuntimeStatus { readiness_failed: true, ..context.status },
        ..context
    }
}

/// Reaction to one event of the service generation.
#[verifier::opaque]
pub open spec fn service_handled(
    context: ExecutionModel,
    env: Surroundings,
    event: ProcessBrokerEvent,
) -> Step {
    let live = context.machine.state.spec_live_generation();
    match event {
        ProcessBrokerEvent::Started { generation, process, group } => service_start_observed(
            context,
            env,
            generation,
            process,
            group,
        ),
        ProcessBrokerEvent::SpawnFailed { generation } => if live == Some(generation) {
            completion::generation_completed(
                ExecutionModel { descriptor: None, ..context },
                env,
                generation,
                ChildResult::Exited(SPAWN_FAILURE_EXIT),
                true,
            )
        } else {
            auxiliary::unexpected(context, event)
        },
        ProcessBrokerEvent::Child { generation, event: child } => if live == Some(generation) {
            completion::service_child_handled(context, env, generation, child)
        } else {
            auxiliary::unexpected(context, event)
        },
        ProcessBrokerEvent::SignalDelivered { generation } => completion::signal_finished(
            context,
            generation,
            None,
        ),
        ProcessBrokerEvent::SignalFailed { generation, os_error } => completion::signal_finished(
            context,
            generation,
            os_error,
        ),
        ProcessBrokerEvent::GenerationReady { generation } => if owns(context, generation) {
            readiness_observed(context, generation)
        } else {
            auxiliary::unexpected(context, event)
        },
        ProcessBrokerEvent::ReadinessFailed { generation } => if context.machine.state
            == SupervisorState::Running(generation) {
            readiness_failure_handled(context, env, generation)
        } else if owns(context, generation) {
            context::done(readiness_failure_noted(context))
        } else {
            auxiliary::unexpected(context, event)
        },
        ProcessBrokerEvent::LifetimeClosed { generation } => completion::lifetime_handled(
            context,
            env,
            generation,
            LifetimeResult::Closed,
        ),
        ProcessBrokerEvent::LifetimeFailed { generation } => completion::lifetime_handled(
            context,
            env,
            generation,
            LifetimeResult::Failed,
        ),
        ProcessBrokerEvent::Detached { generation } => completion::detach_finished(
            context,
            generation,
            true,
        ),
        ProcessBrokerEvent::DetachFailed { generation } => completion::detach_finished(
            context,
            generation,
            false,
        ),
        _ => auxiliary::unexpected(context, event),
    }
}

/// Whether the supervisor still owns `generation`.
///
/// Readiness observations are handled for every owned generation, including one
/// the supervisor has already decided to stop, pause, back off, or complete.
/// Only a generation it does not own at all is a protocol fault.
#[must_use]
pub fn owns_generation(execution: &ExecutionContext, generation: Generation) -> (owned: bool)
    ensures
        owned == owns(execution@, generation),
{
    match execution.machine.state().generation() {
        Some(current) => current == generation,
        None => false,
    }
}

/// Record readiness and drop its deadline.
///
/// # Errors
///
/// Fails when the machine is not waiting for the generation's readiness.
pub fn publish_readiness(execution: &mut ExecutionContext, generation: Generation) -> (result:
    Result<(), ExecutorError>)
    ensures
        context::stepped(
            readiness_published(old(execution)@, generation),
            final(execution)@,
            result,
        ),
{
    match execution.machine.child_ready(generation) {
        Ok(()) => {},
        Err(error) => return Err(transition_error(error)),
    }
    execution.deadline = None;
    Ok(())
}

/// Apply a readiness observation which may arrive after the supervisor moved on.
///
/// The broker's readiness watcher is independent of supervisor state, so a stop,
/// a restart, or a job-control stop during startup races a completed readiness
/// check. A paused generation records readiness in place so continuation resumes
/// ready; any other owned generation drops it.
///
/// # Errors
///
/// Fails when the waiting generation is a different one.
pub fn handle_generation_ready(generation: Generation, execution: &mut ExecutionContext) -> (
result: Result<(), ExecutorError>)
    ensures
        context::stepped(
            readiness_observed(old(execution)@, generation),
            final(execution)@,
            result,
        ),
{
    reveal(readiness_observed);
    if matches!(
        execution.machine.state(),
        SupervisorState::Running(_) | SupervisorState::Paused { ready: false, .. }
    ) {
        return publish_readiness(execution, generation);
    }
    Ok(())
}

fn publish_main_pid(execution: &mut ExecutionContext, process: ProcessId)
    ensures
        final(execution)@ == pid_published(old(execution)@, process),
{
    let number: u32 = process.get() as u32;
    execution.status.main_pid = Some(number);
    if execution.status.publishes_main_pid {
        execution.request(BrokerAction::PublishMainPid { process: number });
    }
}

/// React to an executed generation.
///
/// # Errors
///
/// Fails for a generation which is neither starting nor stopping.
pub fn handle_service_started(
    execution: &mut ExecutionContext,
    env: &Surroundings<'_>,
    generation: Generation,
    process: ProcessId,
    group: ProcessId,
) -> (result: Result<(), ExecutorError>)
    ensures
        context::stepped(
            service_start_observed(old(execution)@, *env, generation, process, group),
            final(execution)@,
            result,
        ),
{
    reveal(service_start_observed);
    if execution.machine.state() == SupervisorState::Starting(generation) {
        match execution.machine.child_started(generation) {
            Ok(()) => {},
            Err(error) => return Err(transition_error(error)),
        }
        publish_main_pid(execution, process);
        if env.config.readiness.mode == ReadinessMode::Immediate {
            return publish_readiness(execution, generation);
        }
        execution.deadline =
        Some(
            env.now.plus_seconds(env.config.readiness.timeout_seconds).plus_seconds(
                BROKER_EVENT_TIMEOUT,
            ),
        );
        return Ok(());
    }
    if execution.machine.state() == SupervisorState::Stopping(generation) {
        publish_main_pid(execution, process);
        return Ok(());
    }
    Err(
        ExecutorError::UnexpectedBrokerEvent(
            ProcessBrokerEvent::Started { generation, process, group },
        ),
    )
}

/// React to a broken readiness contract of a running generation.
///
/// # Errors
///
/// Fails when the machine refuses the stop or the stop hook cannot run.
pub fn handle_readiness_failure(
    execution: &mut ExecutionContext,
    env: &Surroundings<'_>,
    generation: Generation,
) -> (result: Result<(), ExecutorError>)
    ensures
        context::stepped(
            readiness_failure_handled(old(execution)@, *env, generation),
            final(execution)@,
            result,
        ),
{
    reveal(readiness_failure_handled);
    execution.status.readiness_failed = true;
    let previous_desired = execution.machine.desired();
    match execution.machine.begin_stop(generation) {
        Ok(()) => {},
        Err(error) => return Err(transition_error(error)),
    }
    if env.config.process_mode == ProcessMode::DescriptorTracking {
        return begin_lifecycle_hook(
            execution,
            env,
            LifecycleHookRequest {
                after: None,
                reply: None,
                generation,
                kind: LifecycleHookKind::Stop,
                previous_desired,
                resume_ready: false,
            },
        );
    }
    request_group_stop(execution, generation);
    execution.stop_kill_sent = false;
    execution.deadline = Some(env.now.plus_seconds(SERVICE_STOP_GRACE));
    Ok(())
}

fn is_live(execution: &ExecutionContext, generation: Generation) -> (live: bool)
    ensures
        live == (execution@.machine.state.spec_live_generation() == Some(generation)),
{
    match execution.machine.state().live_generation() {
        Some(current) => current == generation,
        None => false,
    }
}

/// React to one event of the service generation.
///
/// # Errors
///
/// Fails for an event which cannot happen now.
pub fn handle_service_broker_event(
    execution: &mut ExecutionContext,
    env: &Surroundings<'_>,
    event: ProcessBrokerEvent,
) -> (result: Result<(), ExecutorError>)
    ensures
        context::stepped(
            service_handled(old(execution)@, *env, event),
            final(execution)@,
            result,
        ),
{
    reveal(service_handled);
    match event {
        ProcessBrokerEvent::Started { generation, process, group } => {
            return handle_service_started(execution, env, generation, process, group);
        },
        ProcessBrokerEvent::SpawnFailed { generation } => {
            if is_live(execution, generation) {
                execution.descriptor = None;
                return complete_generation(
                    execution,
                    env,
                    generation,
                    ChildResult::Exited(SPAWN_FAILURE_EXIT),
                    true,
                );
            }
        },
        ProcessBrokerEvent::Child { generation, event: child } => {
            if is_live(execution, generation) {
                return handle_service_child_event(execution, env, generation, child);
            }
        },
        ProcessBrokerEvent::SignalDelivered { generation } => {
            return finish_signal_request(execution, generation, None);
        },
        ProcessBrokerEvent::SignalFailed { generation, os_error } => {
            return finish_signal_request(execution, generation, os_error);
        },
        ProcessBrokerEvent::GenerationReady { generation } => {
            if owns_generation(execution, generation) {
                return handle_generation_ready(generation, execution);
            }
        },
        ProcessBrokerEvent::ReadinessFailed { generation } => {
            if execution.machine.state() == SupervisorState::Running(generation) {
                return handle_readiness_failure(execution, env, generation);
            }
            if owns_generation(execution, generation) {
                execution.status.readiness_failed = true;
                return Ok(());
            }
        },
        ProcessBrokerEvent::LifetimeClosed { generation } => {
            return handle_lifetime_event(execution, env, generation, LifetimeResult::Closed);
        },
        ProcessBrokerEvent::LifetimeFailed { generation } => {
            return handle_lifetime_event(execution, env, generation, LifetimeResult::Failed);
        },
        ProcessBrokerEvent::Detached { generation } => {
            return finish_detach(execution, generation, true);
        },
        ProcessBrokerEvent::DetachFailed { generation } => {
            return finish_detach(execution, generation, false);
        },
        _ => {},
    }
    Err(ExecutorError::UnexpectedBrokerEvent(event))
}

// ---------------------------------------------------------------------------
// Loggers
// ---------------------------------------------------------------------------

/// Restart rules of a logger: only the shared logger is configured.
pub open spec fn restart_rules(env: Surroundings, logger: LoggerExecution) -> LoggerRestartConfig {
    if logger.logger.shared {
        env.config.logging.restart
    } else {
        LoggerRestartConfig::standard()
    }
}

/// A logger process which is gone: it is restarted unless loggers are being shut
/// down.
pub open spec fn logger_gone(
    shutdown: LoggerShutdownState,
    env: Surroundings,
    logger: LoggerExecution,
) -> LoggerExecution {
    if shutdown.restartable() {
        logger::logger_rescheduled(logger, env.broker, restart_rules(env, logger), env.now)
    } else {
        LoggerExecution { state: LoggerExecutionState::Down, ..logger }
    }
}

/// Logger after one task event, or nothing for an event which cannot happen now.
pub open spec fn logger_after(
    context: ExecutionModel,
    env: Surroundings,
    logger: LoggerExecution,
    task: BrokerTaskId,
    event: ProcessBrokerEvent,
) -> Option<LoggerExecution> {
    let starting = logger.state is Starting;
    match event {
        ProcessBrokerEvent::TaskStarted { .. } => if starting {
            Some(
                LoggerExecution {
                    state: LoggerExecutionState::Running { task, started_at: env.now },
                    ..logger
                },
            )
        } else if logger.state is Killing {
            Some(logger)
        } else {
            None
        },
        ProcessBrokerEvent::TaskSpawnFailed { cleanup_pending, .. } => if !starting {
            None
        } else if cleanup_pending {
            Some(
                LoggerExecution {
                    state: LoggerExecutionState::Killing {
                        task,
                        deadline: env.now.after(BROKER_EVENT_TIMEOUT),
                    },
                    ..logger
                },
            )
        } else {
            Some(logger_gone(context.logger_shutdown, env, logger))
        },
        ProcessBrokerEvent::TaskChild { event: child, .. } => if child.result() is Some {
            Some(logger_gone(context.logger_shutdown, env, logger))
        } else {
            Some(logger)
        },
        ProcessBrokerEvent::TaskSignalDelivered { .. } => Some(logger),
        ProcessBrokerEvent::TaskSignalFailed { .. } => Some(logger),
        _ => None,
    }
}

/// Position of the first logger which runs as `task`, from `from` on.
pub open spec fn logger_position(
    loggers: Seq<LoggerExecution>,
    task: BrokerTaskId,
    from: int,
) -> Option<int>
    decreases loggers.len() - from,
{
    if from < 0 || from >= loggers.len() {
        None
    } else if loggers[from].state.spec_task() == Some(task) {
        Some(from)
    } else {
        logger_position(loggers, task, from + 1)
    }
}

/// Reaction of a logger to one task event.
#[verifier::opaque]
pub open spec fn logger_handled(
    context: ExecutionModel,
    env: Surroundings,
    event: ProcessBrokerEvent,
) -> Step {
    match task_of(event) {
        None => auxiliary::unexpected(context, event),
        Some(task) => match logger_position(context.loggers, task, 0) {
            None => auxiliary::unexpected(context, event),
            Some(position) => match logger_after(
                context,
                env,
                context.loggers[position],
                task,
                event,
            ) {
                None => auxiliary::unexpected(context, event),
                Some(logger) => context::done(
                    ExecutionModel {
                        loggers: context.loggers.update(position, logger),
                        ..context
                    },
                ),
            },
        },
    }
}

/// Auxiliary task which an event is about.
pub open spec fn task_of(event: ProcessBrokerEvent) -> Option<BrokerTaskId> {
    match event {
        ProcessBrokerEvent::TaskStarted { task } => Some(task),
        ProcessBrokerEvent::TaskSpawnFailed { task, .. } => Some(task),
        ProcessBrokerEvent::TaskChild { task, .. } => Some(task),
        ProcessBrokerEvent::TaskSignalDelivered { task } => Some(task),
        ProcessBrokerEvent::TaskSignalFailed { task, .. } => Some(task),
        ProcessBrokerEvent::TaskContainmentFailed { task } => Some(task),
        _ => None,
    }
}

/// Auxiliary task which an event is about.
#[must_use]
pub fn task_id(event: &ProcessBrokerEvent) -> (task: Option<BrokerTaskId>)
    ensures
        task == task_of(*event),
{
    match *event {
        ProcessBrokerEvent::TaskStarted { task }
        | ProcessBrokerEvent::TaskSpawnFailed { task, .. }
        | ProcessBrokerEvent::TaskChild { task, .. }
        | ProcessBrokerEvent::TaskSignalDelivered { task }
        | ProcessBrokerEvent::TaskSignalFailed { task, .. }
        | ProcessBrokerEvent::TaskContainmentFailed { task } => Some(task),
        _ => None,
    }
}

/// A position as a spec integer.
pub open spec fn found(position: Option<usize>) -> Option<int> {
    match position {
        Some(position) => Some(position as int),
        None => None,
    }
}

fn position_of(loggers: &Vec<LoggerExecution>, task: BrokerTaskId) -> (position: Option<usize>)
    ensures
        found(position) == logger_position(loggers@, task, 0),
        position matches Some(index) ==> index < loggers@.len(),
{
    let mut index: usize = 0;
    while index < loggers.len()
        invariant
            index <= loggers@.len(),
            logger_position(loggers@, task, index as int) == logger_position(loggers@, task, 0),
        decreases loggers@.len() - index,
    {
        if let Some(current) = loggers[index].state.task() {
            if current == task {
                return Some(index);
            }
        }
        index = index + 1;
    }
    None
}

/// Replace a logger process which is gone.
fn release_logger(
    logger: &mut LoggerExecution,
    shutdown: LoggerShutdownState,
    env: &Surroundings<'_>,
)
    ensures
        *final(logger) == logger_gone(shutdown, *env, *old(logger)),
{
    if shutdown.permits_restart() {
        let adapter_restart = LoggerRestartConfig::default();
        let restart = if logger.logger.is_shared_logger() {
            &env.config.logging.restart
        } else {
            &adapter_restart
        };
        schedule_logger_restart(logger, env.broker, restart, env.now);
    } else {
        logger.state = LoggerExecutionState::Down;
    }
}

/// React to one event of a logger.
///
/// # Errors
///
/// Fails for an event which cannot happen now.
pub fn handle_logger_event(
    execution: &mut ExecutionContext,
    env: &Surroundings<'_>,
    event: ProcessBrokerEvent,
) -> (result: Result<(), ExecutorError>)
    ensures
        context::stepped(
            logger_handled(old(execution)@, *env, event),
            final(execution)@,
            result,
        ),
{
    reveal(logger_handled);
    let task = match task_id(&event) {
        Some(task) => task,
        None => return Err(ExecutorError::UnexpectedBrokerEvent(event)),
    };
    let position: usize = match position_of(&execution.loggers, task) {
        Some(position) => position,
        None => return Err(ExecutorError::UnexpectedBrokerEvent(event)),
    };
    let shutdown = execution.logger_shutdown;
    let mut logger: LoggerExecution = execution.loggers[position];
    let starting = matches!(logger.state, LoggerExecutionState::Starting { .. });
    match event {
        ProcessBrokerEvent::TaskStarted { .. } => {
            if starting {
                logger.state = LoggerExecutionState::Running { task, started_at: env.now };
            } else if !matches!(logger.state, LoggerExecutionState::Killing { .. }) {
                return Err(ExecutorError::UnexpectedBrokerEvent(event));
            }
        },
        ProcessBrokerEvent::TaskSpawnFailed { cleanup_pending, .. } => {
            if !starting {
                return Err(ExecutorError::UnexpectedBrokerEvent(event));
            }
            if cleanup_pending {
                logger.state =
                LoggerExecutionState::Killing {
                    task,
                    deadline: env.now.plus_seconds(BROKER_EVENT_TIMEOUT),
                };
            } else {
                release_logger(&mut logger, shutdown, env);
            }
        },
        ProcessBrokerEvent::TaskChild { event: child, .. } => {
            if child.is_terminal() {
                release_logger(&mut logger, shutdown, env);
            }
        },
        ProcessBrokerEvent::TaskSignalDelivered { .. }
        | ProcessBrokerEvent::TaskSignalFailed { .. } => {},
        _ => return Err(ExecutorError::UnexpectedBrokerEvent(event)),
    }
    execution.loggers.set(position, logger);
    assert(execution@ =~= logger_handled(old(execution)@, *env, event).context);
    Ok(())
}

// ---------------------------------------------------------------------------
// Routing
// ---------------------------------------------------------------------------

/// Whether an event reports that a group could not be cleaned up.
pub open spec fn breaks_containment(event: ProcessBrokerEvent) -> bool {
    event is ContainmentFailed || event is TaskContainmentFailed
}

/// Logger shutdown once every service input is closed.
pub open spec fn inputs_closed(context: ExecutionModel, now: Moment) -> ExecutionModel {
    ExecutionModel {
        logger_shutdown: LoggerShutdownState::Draining {
            deadline: now.after(LOGGER_DRAIN_GRACE),
            tier: if logger::tier_down(context.loggers, LoggerShutdownTier::FileAdapters) {
                LoggerShutdownTier::SharedLogger
            } else {
                LoggerShutdownTier::FileAdapters
            },
        },
        ..context
    }
}

/// Reaction to one broker event.
#[verifier::opaque]
pub open spec fn broker_handled(
    context: ExecutionModel,
    env: Surroundings,
    event: ProcessBrokerEvent,
) -> Step {
    if breaks_containment(event) {
        context::failed(context, ErrorModel::ContainmentFailed(event))
    } else if event is LoggerInputsClosed && context.logger_shutdown is ClosingInputs {
        context::done(inputs_closed(context, env.now))
    } else {
        match task_of(event) {
            None => service_handled(context, env, event),
            Some(task) => if context.lifecycle matches Some(lifecycle) && lifecycle.task
                == task {
                lifecycle_handled(context, env, event)
            } else if logger_position(context.loggers, task, 0) is Some {
                logger_handled(context, env, event)
            } else {
                auxiliary::auxiliary_handled(context, env, event)
            },
        }
    }
}

/// React to one broker event.
///
/// # Errors
///
/// Fails for a broken containment and for an event which cannot happen now.
pub fn handle_broker_event(
    execution: &mut ExecutionContext,
    env: &Surroundings<'_>,
    event: ProcessBrokerEvent,
) -> (result: Result<(), ExecutorError>)
    ensures
        context::stepped(
            broker_handled(old(execution)@, *env, event),
            final(execution)@,
            result,
        ),
{
    reveal(broker_handled);
    if matches!(
        event,
        ProcessBrokerEvent::ContainmentFailed { .. }
            | ProcessBrokerEvent::TaskContainmentFailed { .. }
    ) {
        return Err(ExecutorError::ContainmentFailed(event));
    }
    if matches!(event, ProcessBrokerEvent::LoggerInputsClosed) && matches!(
        execution.logger_shutdown,
        LoggerShutdownState::ClosingInputs { .. }
    ) {
        let tier = if logger_tier_is_down(
            execution.loggers.as_slice(),
            LoggerShutdownTier::FileAdapters,
        ) {
            LoggerShutdownTier::SharedLogger
        } else {
            LoggerShutdownTier::FileAdapters
        };
        execution.logger_shutdown =
        LoggerShutdownState::Draining { deadline: env.now.plus_seconds(LOGGER_DRAIN_GRACE), tier };
        return Ok(());
    }
    let task = match task_id(&event) {
        Some(task) => task,
        None => return handle_service_broker_event(execution, env, event),
    };
    if let Some(lifecycle) = execution.lifecycle {
        if lifecycle.task == task {
            return handle_lifecycle_event(execution, env, event);
        }
    }
    if position_of(&execution.loggers, task).is_some() {
        return handle_logger_event(execution, env, event);
    }
    handle_auxiliary_event(execution, env, event)
}

} // verus!
