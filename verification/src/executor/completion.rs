//! Service-generation completion and descriptor lifetime handling.
//!
//! Completion owns the descriptor lifetime/launcher join, readiness publication,
//! detach acknowledgement, signal acknowledgements, and the final restart
//! decision. PID-file state and pending replies change only after the broker
//! confirmed the corresponding child, lifetime, detach, or signal event.

use vstd::prelude::*;
use vstd::string::*;

use crate::config::ProcessMode;
use crate::control::decision::StopCompletion;
use crate::control::response::ResponseCode;
use crate::fields;
use crate::process::{ChildEvent, ProcessBrokerEvent};
use crate::supervisor::machine;
use crate::supervisor::restart;
use crate::supervisor::{
    ChildResult, DesiredState, Generation, RestartDecision, SupervisorState, Transition,
};
use crate::text;
use crate::text::push_decimal;

use super::clock;
use super::clock::{jittered_backoff, Moment};
use super::context;
use super::context::{
    transition_error, AuxiliaryExecution, BrokerAction, DescriptorExecution, ExecutionContext,
    ExecutionModel, LifecycleExecution, LifecycleHookKind, LifecycleHookState, PendingCompletion,
    PendingSignal, PostExitContext, RuntimeStatus, Step, Surroundings, TaskCommand,
    CHILD_STARTUP_TIMEOUT, SERVICE_STOP_GRACE, STARTUP_DEADLINE,
};
use super::error::{ErrorModel, ExecutorError};
use super::stopping;
use super::stopping::request_group_stop;

verus! {

// ---------------------------------------------------------------------------
// Meaning
// ---------------------------------------------------------------------------

/// Restart decision and bookkeeping of an ended generation. An operator-requested
/// stop overrides policy.
pub open spec fn completion_decision(
    context: ExecutionModel,
    env: Surroundings,
    completion: PendingCompletion,
) -> (RestartDecision, restart::TrackerModel) {
    match completion.stop {
        Some(StopCompletion::Down) => (RestartDecision::StayDown, context.tracker),
        Some(StopCompletion::Restart) => (RestartDecision::StayDown, context.tracker),
        Some(StopCompletion::Halt) => (RestartDecision::ExitSupervisor, context.tracker),
        None => restart::restart_decision(
            context.tracker,
            completion.policy_result,
            completion.runtime_seconds,
            env.now.since(context.epoch),
            context.machine.desired,
            env.config.restart,
        ),
    }
}

/// Deadline which follows a restart decision.
pub open spec fn decision_deadline(
    env: Surroundings,
    generation: Generation,
    decision: RestartDecision,
) -> Option<Moment> {
    match decision {
        RestartDecision::Restart { base_delay_seconds, jitter_percent } => Some(
            env.now.after(
                clock::jittered(
                    base_delay_seconds,
                    jitter_percent,
                    generation.number(),
                    env.broker,
                ),
            ),
        ),
        _ => None,
    }
}

/// Apply the restart decision of an ended generation.
#[verifier::opaque]
pub open spec fn completion_finished(
    context: ExecutionModel,
    env: Surroundings,
    completion: PendingCompletion,
    after_hook: bool,
) -> Step {
    let (decision, tracker) = completion_decision(context, env, completion);
    let decided = ExecutionModel {
        tracker,
        terminal_failure: match decision {
            RestartDecision::ExitFailure(reason) => Some(reason),
            _ => context.terminal_failure,
        },
        ..context
    };
    let transition = if after_hook {
        Transition::CompletionFinished(completion.generation, decision)
    } else {
        Transition::ChildReaped(completion.generation, decision)
    };
    let settled = context::transited(decided, transition);
    if settled.error is Some {
        settled
    } else {
        context::done(
            ExecutionModel {
                auxiliary: AuxiliaryExecution::Idle,
                pending_completion: None,
                deadline: decision_deadline(env, completion.generation, decision),
                ..settled.context
            },
        )
    }
}

/// Result which restart policy sees.
pub open spec fn policy_result(runtime: RuntimeStatus, result: ChildResult) -> ChildResult {
    if runtime.readiness_failed {
        ChildResult::Exited(1)
    } else {
        result
    }
}

/// Status of an ended generation.
pub open spec fn ended_status(
    context: ExecutionModel,
    env: Surroundings,
    result: ChildResult,
    start_failed: bool,
) -> RuntimeStatus {
    let runtime = context.status;
    let counts = context.pending_stop is None && (start_failed || !policy_result(
        runtime,
        result,
    ).succeeds(env.config.restart));
    RuntimeStatus {
        last_result: Some(result),
        last_readiness_failed: runtime.readiness_failed,
        last_start_failed: start_failed,
        main_pid: None,
        down_since: Some(env.now),
        started_at: None,
        readiness_failed: false,
        failures: if counts && runtime.failures < u64::MAX {
            (runtime.failures + 1) as u64
        } else {
            runtime.failures
        },
        ..runtime
    }
}

/// Ended generation as its completion sees it.
pub open spec fn ended_completion(
    context: ExecutionModel,
    env: Surroundings,
    generation: Generation,
    result: ChildResult,
) -> PendingCompletion {
    PendingCompletion {
        generation,
        policy_result: policy_result(context.status, result),
        runtime_seconds: match context.status.started_at {
            Some(started) => env.now.since(started),
            None => 0,
        },
        stop: context.pending_stop,
    }
}

/// Context once an ended generation is recorded.
#[verifier::opaque]
pub open spec fn ended_context(
    context: ExecutionModel,
    env: Surroundings,
    result: ChildResult,
    start_failed: bool,
) -> ExecutionModel {
    let recorded = ExecutionModel {
        status: ended_status(context, env, result, start_failed),
        pending_stop: None,
        stop_kill_sent: false,
        ..context::pid_cleared(context)
    };
    if recorded.machine.desired == DesiredState::Once {
        context::intending(recorded, DesiredState::Down)
    } else {
        recorded
    }
}

/// Record an ended generation, then either run its post-exit hook or apply its
/// restart decision.
#[verifier::opaque]
pub open spec fn generation_completed(
    context: ExecutionModel,
    env: Surroundings,
    generation: Generation,
    result: ChildResult,
    start_failed: bool,
) -> Step {
    let completion = ended_completion(context, env, generation, result);
    let ended = ended_context(context, env, result, start_failed);
    if env.commands.post_exit {
        let completed = context::transited(ended, Transition::ChildCompleted(generation));
        if completed.error is Some {
            completed
        } else {
            let numbered = context::allocated(completed.context);
            if numbered.error is Some {
                numbered
            } else {
                let task = crate::process::BrokerTaskId::of(completed.context.next_task);
                let waiting = ExecutionModel {
                    pending_completion: Some(completion),
                    auxiliary: AuxiliaryExecution::HookStarting(task),
                    deadline: Some(env.now.after(STARTUP_DEADLINE)),
                    ..numbered.context
                };
                context::done(
                    context::requested(
                        waiting,
                        BrokerAction::SpawnTask {
                            task,
                            command: TaskCommand::PostExit(
                                PostExitContext {
                                    generation,
                                    result,
                                    start_failed,
                                    readiness_failed: context.status.readiness_failed,
                                },
                            ),
                            timeout_seconds: CHILD_STARTUP_TIMEOUT,
                        },
                    ),
                )
            }
        }
    } else {
        completion_finished(ended, env, completion, false)
    }
}

/// Answer the client of a lifecycle hook, if one waits.
pub open spec fn lifecycle_replied(
    context: ExecutionModel,
    lifecycle: Option<LifecycleExecution>,
    code: ResponseCode,
    message: Seq<char>,
) -> ExecutionModel {
    match lifecycle {
        Some(lifecycle) => match lifecycle.reply {
            Some(reply) => context::replied(context, reply, code, message),
            None => context,
        },
        None => context,
    }
}

/// Whether the running lifecycle hook stops `generation`.
pub open spec fn stops_generation(context: ExecutionModel, generation: Generation) -> bool {
    context.lifecycle matches Some(lifecycle) && lifecycle.generation == generation
        && lifecycle.kind == LifecycleHookKind::Stop
}

/// Result of a tracked generation once both its halves ended.
pub open spec fn joined_result(
    descriptor: DescriptorExecution,
    env: Surroundings,
) -> ChildResult {
    if descriptor.lifetime_preceded_launcher || descriptor.launcher_result->0.succeeds(
        env.config.restart,
    ) {
        descriptor.lifetime_result->0
    } else {
        descriptor.launcher_result->0
    }
}

/// Whether a tracked generation has completely ended and nothing holds its
/// completion back.
pub open spec fn descriptor_ended(context: ExecutionModel, generation: Generation) -> bool {
    &&& context.descriptor matches Some(descriptor) && descriptor.generation == generation
        && descriptor.launcher_result is Some && descriptor.lifetime_result is Some
    &&& !(stops_generation(context, generation) && context.lifecycle->0.state
        != LifecycleHookState::WaitingLifetime)
}

/// Message which every acceptance carries.
pub open spec fn acceptance_message() -> Seq<char> {
    "accepted; awaiting lifecycle completion"@
}

/// Complete a tracked generation once both its halves ended.
#[verifier::opaque]
pub open spec fn descriptor_finished(
    context: ExecutionModel,
    env: Surroundings,
    generation: Generation,
) -> Step {
    if !descriptor_ended(context, generation) {
        context::done(context)
    } else {
        let stopped = stops_generation(context, generation);
        let released = ExecutionModel {
            lifecycle: if stopped {
                None
            } else {
                context.lifecycle
            },
            descriptor: None,
            ..context
        };
        let completed = generation_completed(
            released,
            env,
            generation,
            joined_result(context.descriptor->0, env),
            false,
        );
        if completed.error is Some {
            completed
        } else if stopped {
            context::done(
                lifecycle_replied(
                    completed.context,
                    context.lifecycle,
                    ResponseCode::Success,
                    acceptance_message(),
                ),
            )
        } else {
            completed
        }
    }
}

/// Reaction to a state change of the service's main process.
#[verifier::opaque]
pub open spec fn service_child_handled(
    context: ExecutionModel,
    env: Surroundings,
    generation: Generation,
    event: ChildEvent,
) -> Step {
    let state = context.machine.state;
    if event is Stopped && (state is Running || state is Ready) {
        context::transited(context, Transition::ChildPaused(generation))
    } else if event is Continued && state is Paused {
        context::transited(context, Transition::ChildContinued(generation))
    } else {
        match event.result() {
            None => context::done(context),
            Some(result) => if env.config.process_mode == ProcessMode::DescriptorTracking {
                if context.descriptor matches Some(descriptor) && descriptor.generation
                    == generation && descriptor.launcher_result is None {
                    descriptor_finished(
                        context::pid_cleared(
                            ExecutionModel {
                                descriptor: Some(
                                    DescriptorExecution {
                                        launcher_result: Some(result),
                                        ..context.descriptor->0
                                    },
                                ),
                                ..context
                            },
                        ),
                        env,
                        generation,
                    )
                } else {
                    context::failed(
                        context,
                        ErrorModel::UnexpectedBrokerEvent(
                            ProcessBrokerEvent::Child { generation, event },
                        ),
                    )
                }
            } else {
                generation_completed(context, env, generation, result, false)
            },
        }
    }
}

/// Outcome of a lifetime descriptor.
#[derive(Clone, Copy, Debug, PartialEq, Eq, Structural)]
pub enum LifetimeResult {
    /// The descriptor closed.
    Closed,
    /// The descriptor could not be observed.
    Failed,
}

impl LifetimeResult {
    /// The event which reported the outcome.
    pub open spec fn event(self, generation: Generation) -> ProcessBrokerEvent {
        match self {
            LifetimeResult::Closed => ProcessBrokerEvent::LifetimeClosed { generation },
            LifetimeResult::Failed => ProcessBrokerEvent::LifetimeFailed { generation },
        }
    }

    /// The generation result which the outcome stands for.
    pub open spec fn result(self) -> ChildResult {
        match self {
            LifetimeResult::Closed => ChildResult::LifetimeClosed,
            LifetimeResult::Failed => ChildResult::LifetimeFailed,
        }
    }

    fn broker_event(self, generation: Generation) -> (event: ProcessBrokerEvent)
        ensures
            event == self.event(generation),
    {
        match self {
            LifetimeResult::Closed => ProcessBrokerEvent::LifetimeClosed { generation },
            LifetimeResult::Failed => ProcessBrokerEvent::LifetimeFailed { generation },
        }
    }

    fn child_result(self) -> (result: ChildResult)
        ensures
            result == self.result(),
    {
        match self {
            LifetimeResult::Closed => ChildResult::LifetimeClosed,
            LifetimeResult::Failed => ChildResult::LifetimeFailed,
        }
    }
}

/// Reaction to an ended lifetime descriptor: a launcher which is still alive is
/// stopped, unless a stop hook is already responsible for it.
#[verifier::opaque]
pub open spec fn lifetime_handled(
    context: ExecutionModel,
    env: Surroundings,
    generation: Generation,
    result: LifetimeResult,
) -> Step {
    if context.descriptor matches Some(descriptor) && descriptor.generation == generation
        && descriptor.lifetime_result is None {
        let recorded = ExecutionModel {
            descriptor: Some(
                DescriptorExecution {
                    lifetime_preceded_launcher: context.descriptor->0.launcher_result is None,
                    lifetime_result: Some(result.result()),
                    ..context.descriptor->0
                },
            ),
            ..context
        };
        if context.descriptor->0.launcher_result is None
            && context.machine.state.spec_live_generation() == Some(generation)
            && !stops_generation(context, generation) {
            let stopping = if context.machine.state is Stopping {
                context::done(recorded)
            } else {
                context::transited(recorded, Transition::BeginStop(generation))
            };
            if stopping.error is Some {
                stopping
            } else {
                descriptor_finished(
                    ExecutionModel {
                        stop_kill_sent: false,
                        deadline: Some(env.now.after(SERVICE_STOP_GRACE)),
                        ..stopping::group_stop_requested(stopping.context, generation)
                    },
                    env,
                    generation,
                )
            }
        } else {
            descriptor_finished(recorded, env, generation)
        }
    } else {
        context::failed(
            context,
            ErrorModel::UnexpectedBrokerEvent(result.event(generation)),
        )
    }
}

/// Reaction to the broker's answer to a detach request.
#[verifier::opaque]
pub open spec fn detach_finished(
    context: ExecutionModel,
    generation: Generation,
    succeeded: bool,
) -> Step {
    let unexpected = ErrorModel::UnexpectedBrokerEvent(
        if succeeded {
            ProcessBrokerEvent::Detached { generation }
        } else {
            ProcessBrokerEvent::DetachFailed { generation }
        },
    );
    let taken = ExecutionModel { pending_detach: None, ..context };
    match context.pending_detach {
        None => context::failed(context, unexpected),
        Some(pending) => if pending.generation != generation {
            context::failed(taken, unexpected)
        } else if succeeded {
            let detached = context::transited(
                context::intending(taken, DesiredState::Exit),
                Transition::ChildDetached(generation),
            );
            if detached.error is Some {
                detached
            } else {
                let cleared = context::pid_cleared(detached.context);
                context::done(
                    context::replied(
                        ExecutionModel {
                            status: RuntimeStatus { started_at: None, ..cleared.status },
                            ..cleared
                        },
                        pending.reply,
                        ResponseCode::Success,
                        acceptance_message(),
                    ),
                )
            }
        } else {
            context::done(
                context::replied(
                    context::intending(taken, pending.previous_desired),
                    pending.reply,
                    ResponseCode::Internal,
                    "broker could not detach the requested live generation"@,
                ),
            )
        },
    }
}

/// Answer for a signal request whose delivery the broker reported.
pub open spec fn signal_message(os_error: Option<i32>) -> Seq<char> {
    match os_error {
        Some(number) => "signal delivery failed with operating-system error "@
            + text::signed_decimal(number as int),
        None => acceptance_message(),
    }
}

/// Reaction to a signal acknowledgement: the oldest owed acknowledgement is
/// settled.
#[verifier::opaque]
pub open spec fn signal_finished(
    context: ExecutionModel,
    generation: Generation,
    os_error: Option<i32>,
) -> Step {
    if context.pending_signals.len() == 0 {
        context::failed(
            context,
            ErrorModel::UnexpectedBrokerEvent(
                match os_error {
                    Some(_) => ProcessBrokerEvent::SignalFailed { generation, os_error },
                    None => ProcessBrokerEvent::SignalDelivered { generation },
                },
            ),
        )
    } else {
        let settled = ExecutionModel {
            pending_signals: context.pending_signals.drop_first(),
            ..context
        };
        match context.pending_signals[0] {
            PendingSignal::Lifecycle => context::done(settled),
            PendingSignal::Control(reply) => context::done(
                context::replied(
                    settled,
                    reply,
                    if os_error is Some {
                        ResponseCode::Internal
                    } else {
                        ResponseCode::Success
                    },
                    signal_message(os_error),
                ),
            ),
        }
    }
}

/// Every client whose signal was never acknowledged is told so, in order.
pub open spec fn signals_abandoned(context: ExecutionModel) -> ExecutionModel
    decreases context.pending_signals.len(),
{
    if context.pending_signals.len() == 0 {
        context
    } else {
        let settled = ExecutionModel {
            pending_signals: context.pending_signals.drop_first(),
            ..context
        };
        signals_abandoned(
            match context.pending_signals[0] {
                PendingSignal::Lifecycle => settled,
                PendingSignal::Control(reply) => context::replied(
                    settled,
                    reply,
                    ResponseCode::Internal,
                    "supervisor exited before signal delivery was acknowledged"@,
                ),
            },
        )
    }
}

// ---------------------------------------------------------------------------
// Handlers
// ---------------------------------------------------------------------------

/// Apply the restart decision of an ended generation.
///
/// # Errors
///
/// Fails when the machine is not in a state which such a generation can leave.
pub fn finish_completion(
    execution: &mut ExecutionContext,
    env: &Surroundings<'_>,
    completion: PendingCompletion,
    after_hook: bool,
) -> (result: Result<(), ExecutorError>)
    ensures
        context::stepped(
            completion_finished(old(execution)@, *env, completion, after_hook),
            final(execution)@,
            result,
        ),
{
    reveal(completion_finished);
    let decision = match completion.stop {
        Some(StopCompletion::Down) | Some(StopCompletion::Restart) => RestartDecision::StayDown,
        Some(StopCompletion::Halt) => RestartDecision::ExitSupervisor,
        None => {
            let elapsed: u64 = env.now.seconds_since(execution.epoch);
            let desired = execution.machine.desired();
            execution.tracker.decide(
                completion.policy_result,
                completion.runtime_seconds,
                elapsed,
                desired,
                &env.config.restart,
            )
        },
    };
    if let RestartDecision::ExitFailure(reason) = decision {
        execution.terminal_failure = Some(reason);
    }
    let moved = if after_hook {
        execution.machine.completion_finished(completion.generation, decision)
    } else {
        execution.machine.child_reaped(completion.generation, decision)
    };
    match moved {
        Ok(()) => {},
        Err(error) => return Err(transition_error(error)),
    }
    execution.auxiliary = AuxiliaryExecution::Idle;
    execution.pending_completion = None;
    execution.deadline = match decision {
        RestartDecision::Restart { base_delay_seconds, jitter_percent } => Some(
            env.now.plus_seconds(
                jittered_backoff(
                    base_delay_seconds,
                    jitter_percent,
                    completion.generation,
                    env.broker,
                ),
            ),
        ),
        RestartDecision::StayDown
        | RestartDecision::ExitSupervisor
        | RestartDecision::ExitFailure(_)
        | RestartDecision::Fail(_) => None,
    };
    Ok(())
}

/// Record an ended generation.
fn record_end(
    execution: &mut ExecutionContext,
    env: &Surroundings<'_>,
    result: ChildResult,
    start_failed: bool,
)
    ensures
        final(execution)@ == ended_context(old(execution)@, *env, result, start_failed),
{
    reveal(ended_context);
    let readiness_failed: bool = execution.status.readiness_failed;
    let policy = if readiness_failed {
        ChildResult::Exited(1)
    } else {
        result
    };
    let counts = execution.pending_stop.is_none() && (start_failed || !policy.is_success(
        &env.config.restart,
    ));
    execution.clear_main_pid();
    execution.status.last_result = Some(result);
    execution.status.last_readiness_failed = readiness_failed;
    execution.status.last_start_failed = start_failed;
    execution.status.down_since = Some(env.now);
    execution.status.started_at = None;
    if counts {
        execution.status.failures = execution.status.failures.saturating_add(1);
    }
    execution.status.readiness_failed = false;
    execution.pending_stop = None;
    execution.stop_kill_sent = false;
    if execution.machine.desired() == DesiredState::Once {
        execution.machine.set_desired(DesiredState::Down);
    }
}

/// Record an ended generation, then run its post-exit hook or apply its restart
/// decision.
///
/// # Errors
///
/// Fails when the machine does not own the generation or no task can be
/// allocated.
pub fn complete_generation(
    execution: &mut ExecutionContext,
    env: &Surroundings<'_>,
    generation: Generation,
    result: ChildResult,
    start_failed: bool,
) -> (outcome: Result<(), ExecutorError>)
    ensures
        context::stepped(
            generation_completed(old(execution)@, *env, generation, result, start_failed),
            final(execution)@,
            outcome,
        ),
{
    reveal(generation_completed);
    let readiness_failed: bool = execution.status.readiness_failed;
    let completion = PendingCompletion {
        generation,
        policy_result: if readiness_failed {
            ChildResult::Exited(1)
        } else {
            result
        },
        runtime_seconds: match execution.status.started_at {
            Some(started) => env.now.seconds_since(started),
            None => 0,
        },
        stop: execution.pending_stop,
    };
    record_end(execution, env, result, start_failed);
    if !env.commands.post_exit {
        return finish_completion(execution, env, completion, false);
    }
    match execution.machine.child_completed(generation) {
        Ok(()) => {},
        Err(error) => return Err(transition_error(error)),
    }
    let task = match execution.allocate_task() {
        Ok(task) => task,
        Err(error) => return Err(error),
    };
    execution.pending_completion = Some(completion);
    execution.auxiliary = AuxiliaryExecution::HookStarting(task);
    execution.deadline = Some(env.now.plus_seconds(STARTUP_DEADLINE));
    execution.request(
        BrokerAction::SpawnTask {
            task,
            command: TaskCommand::PostExit(
                PostExitContext { generation, result, start_failed, readiness_failed },
            ),
            timeout_seconds: CHILD_STARTUP_TIMEOUT,
        },
    );
    Ok(())
}

/// Answer the client of a lifecycle hook, if one waits.
pub(crate) fn respond_lifecycle(
    execution: &mut ExecutionContext,
    lifecycle: Option<LifecycleExecution>,
    code: ResponseCode,
    message: &str,
)
    ensures
        final(execution)@ == lifecycle_replied(old(execution)@, lifecycle, code, message@),
{
    if let Some(lifecycle) = lifecycle {
        if let Some(reply) = lifecycle.reply {
            execution.reply(reply, code, message);
        }
    }
}

fn hook_stops(execution: &ExecutionContext, generation: Generation) -> (stops: bool)
    ensures
        stops == stops_generation(execution@, generation),
{
    match execution.lifecycle {
        Some(lifecycle) => lifecycle.generation == generation && lifecycle.kind
            == LifecycleHookKind::Stop,
        None => false,
    }
}

/// Complete a tracked generation once both its halves ended.
///
/// # Errors
///
/// Fails when the generation's completion fails.
pub fn finish_descriptor_generation(
    execution: &mut ExecutionContext,
    env: &Surroundings<'_>,
    generation: Generation,
) -> (result: Result<(), ExecutorError>)
    ensures
        context::stepped(
            descriptor_finished(old(execution)@, *env, generation),
            final(execution)@,
            result,
        ),
{
    reveal(descriptor_finished);
    let descriptor = match execution.descriptor {
        Some(descriptor) => descriptor,
        None => return Ok(()),
    };
    if descriptor.generation != generation {
        return Ok(());
    }
    let stopped = hook_stops(execution, generation);
    if let Some(lifecycle) = execution.lifecycle {
        if stopped && lifecycle.state != LifecycleHookState::WaitingLifetime {
            return Ok(());
        }
    }
    let launcher = match descriptor.launcher_result {
        Some(launcher) => launcher,
        None => return Ok(()),
    };
    let lifetime = match descriptor.lifetime_result {
        Some(lifetime) => lifetime,
        None => return Ok(()),
    };
    let joined = if descriptor.lifetime_preceded_launcher || launcher.is_success(
        &env.config.restart,
    ) {
        lifetime
    } else {
        launcher
    };
    let lifecycle = if stopped {
        let lifecycle = execution.lifecycle;
        execution.lifecycle = None;
        lifecycle
    } else {
        None
    };
    execution.descriptor = None;
    match complete_generation(execution, env, generation, joined, false) {
        Ok(()) => {},
        Err(error) => return Err(error),
    }
    respond_lifecycle(
        execution,
        lifecycle,
        ResponseCode::Success,
        "accepted; awaiting lifecycle completion",
    );
    Ok(())
}

/// React to a state change of the service's main process.
///
/// # Errors
///
/// Fails for an event which the current state cannot explain.
pub fn handle_service_child_event(
    execution: &mut ExecutionContext,
    env: &Surroundings<'_>,
    generation: Generation,
    event: ChildEvent,
) -> (result: Result<(), ExecutorError>)
    ensures
        context::stepped(
            service_child_handled(old(execution)@, *env, generation, event),
            final(execution)@,
            result,
        ),
{
    reveal(service_child_handled);
    let state = execution.machine.state();
    if matches!(event, ChildEvent::Stopped { .. }) && matches!(
        state,
        SupervisorState::Running(_) | SupervisorState::Ready(_)
    ) {
        return match execution.machine.child_paused(generation) {
            Ok(()) => Ok(()),
            Err(error) => Err(transition_error(error)),
        };
    }
    if matches!(event, ChildEvent::Continued { .. }) && matches!(
        state,
        SupervisorState::Paused { .. }
    ) {
        return match execution.machine.child_continued(generation) {
            Ok(()) => Ok(()),
            Err(error) => Err(transition_error(error)),
        };
    }
    let result = match event.terminal_result() {
        Some(result) => result,
        None => return Ok(()),
    };
    if env.config.process_mode != ProcessMode::DescriptorTracking {
        return complete_generation(execution, env, generation, result, false);
    }
    if let Some(descriptor) = execution.descriptor {
        if descriptor.generation == generation && descriptor.launcher_result.is_none() {
            execution.descriptor = Some(
                DescriptorExecution {
                    generation: descriptor.generation,
                    launcher_result: Some(result),
                    lifetime_preceded_launcher: descriptor.lifetime_preceded_launcher,
                    lifetime_result: descriptor.lifetime_result,
                },
            );
            execution.clear_main_pid();
            return finish_descriptor_generation(execution, env, generation);
        }
    }
    Err(
        ExecutorError::UnexpectedBrokerEvent(
            ProcessBrokerEvent::Child { generation, event },
        ),
    )
}

/// React to an ended lifetime descriptor.
///
/// # Errors
///
/// Fails for a generation which is not tracked or whose lifetime already ended.
pub fn handle_lifetime_event(
    execution: &mut ExecutionContext,
    env: &Surroundings<'_>,
    generation: Generation,
    outcome: LifetimeResult,
) -> (result: Result<(), ExecutorError>)
    ensures
        context::stepped(
            lifetime_handled(old(execution)@, *env, generation, outcome),
            final(execution)@,
            result,
        ),
{
    reveal(lifetime_handled);
    let descriptor = match execution.descriptor {
        Some(descriptor) => descriptor,
        None => return Err(
            ExecutorError::UnexpectedBrokerEvent(outcome.broker_event(generation)),
        ),
    };
    if descriptor.generation != generation || descriptor.lifetime_result.is_some() {
        return Err(ExecutorError::UnexpectedBrokerEvent(outcome.broker_event(generation)));
    }
    let launched = descriptor.launcher_result.is_none();
    execution.descriptor = Some(
        DescriptorExecution {
            generation: descriptor.generation,
            launcher_result: descriptor.launcher_result,
            lifetime_preceded_launcher: launched,
            lifetime_result: Some(outcome.child_result()),
        },
    );
    let live = match execution.machine.state().live_generation() {
        Some(current) => current == generation,
        None => false,
    };
    if launched && live && !hook_stops(execution, generation) {
        if !matches!(execution.machine.state(), SupervisorState::Stopping(_)) {
            match execution.machine.begin_stop(generation) {
                Ok(()) => {},
                Err(error) => return Err(transition_error(error)),
            }
        }
        request_group_stop(execution, generation);
        execution.stop_kill_sent = false;
        execution.deadline = Some(env.now.plus_seconds(SERVICE_STOP_GRACE));
    }
    finish_descriptor_generation(execution, env, generation)
}

/// React to the broker's answer to a detach request.
///
/// # Errors
///
/// Fails when no such detach is pending.
pub fn finish_detach(
    execution: &mut ExecutionContext,
    generation: Generation,
    succeeded: bool,
) -> (result: Result<(), ExecutorError>)
    ensures
        context::stepped(
            detach_finished(old(execution)@, generation, succeeded),
            final(execution)@,
            result,
        ),
{
    reveal(detach_finished);
    let unexpected = if succeeded {
        ProcessBrokerEvent::Detached { generation }
    } else {
        ProcessBrokerEvent::DetachFailed { generation }
    };
    let pending = match execution.pending_detach {
        Some(pending) => pending,
        None => return Err(ExecutorError::UnexpectedBrokerEvent(unexpected)),
    };
    execution.pending_detach = None;
    if pending.generation != generation {
        return Err(ExecutorError::UnexpectedBrokerEvent(unexpected));
    }
    if succeeded {
        execution.machine.set_desired(DesiredState::Exit);
        match execution.machine.child_detached(generation) {
            Ok(()) => {},
            Err(error) => return Err(transition_error(error)),
        }
        execution.clear_main_pid();
        execution.status.started_at = None;
        execution.reply(
            pending.reply,
            ResponseCode::Success,
            "accepted; awaiting lifecycle completion",
        );
    } else {
        execution.machine.set_desired(pending.previous_desired);
        execution.reply(
            pending.reply,
            ResponseCode::Internal,
            "broker could not detach the requested live generation",
        );
    }
    Ok(())
}

/// Settle the oldest owed signal acknowledgement.
///
/// # Errors
///
/// Fails when no acknowledgement is owed.
pub fn finish_signal_request(
    execution: &mut ExecutionContext,
    generation: Generation,
    os_error: Option<i32>,
) -> (result: Result<(), ExecutorError>)
    ensures
        context::stepped(
            signal_finished(old(execution)@, generation, os_error),
            final(execution)@,
            result,
        ),
{
    reveal(signal_finished);
    let signal = match execution.pending_signals.pop_front() {
        Some(signal) => signal,
        None => {
            return Err(
                ExecutorError::UnexpectedBrokerEvent(
                    match os_error {
                        Some(_) => ProcessBrokerEvent::SignalFailed { generation, os_error },
                        None => ProcessBrokerEvent::SignalDelivered { generation },
                    },
                ),
            );
        },
    };
    assert(execution@.pending_signals =~= old(execution)@.pending_signals.drop_first());
    if let PendingSignal::Control(reply) = signal {
        match os_error {
            Some(number) => {
                let mut message =
                    "signal delivery failed with operating-system error ".to_owned();
                text::push_signed_decimal(&mut message, number as i64);
                execution.reply(reply, ResponseCode::Internal, message.as_str());
            },
            None => execution.reply(
                reply,
                ResponseCode::Success,
                "accepted; awaiting lifecycle completion",
            ),
        }
    }
    Ok(())
}

/// Tell every client whose signal was never acknowledged.
pub fn respond_abandoned_signals(execution: &mut ExecutionContext)
    ensures
        final(execution)@ == signals_abandoned(old(execution)@),
{
    while execution.pending_signals.len() > 0
        invariant
            signals_abandoned(execution@) == signals_abandoned(old(execution)@),
        decreases execution.pending_signals@.len(),
    {
        let ghost before = execution@;
        let signal = match execution.pending_signals.pop_front() {
            Some(signal) => signal,
            None => return,
        };
        assert(execution@.pending_signals =~= before.pending_signals.drop_first());
        if let PendingSignal::Control(reply) = signal {
            execution.reply(
                reply,
                ResponseCode::Internal,
                "supervisor exited before signal delivery was acknowledged",
            );
        }
    }
}

// ---------------------------------------------------------------------------
// Post-exit environment
// ---------------------------------------------------------------------------

/// Kind and status which a post-exit hook is told.
pub open spec fn exit_report(result: ChildResult) -> (Seq<char>, u8) {
    match result {
        ChildResult::Exited(code) => ("exit"@, code),
        ChildResult::Signaled(signal) => ("signal"@, signal),
        ChildResult::LifetimeClosed => ("lifetime"@, 0),
        ChildResult::LifetimeFailed => ("lifetime-failed"@, 0),
    }
}

/// Spelling of a flag in the environment.
pub open spec fn flag_spelling(set: bool) -> Seq<char> {
    if set {
        "1"@
    } else {
        "0"@
    }
}

/// Variables which a post-exit hook sees, in order.
pub open spec fn post_exit_variables(hook: PostExitContext) -> Seq<(Seq<char>, Seq<char>)> {
    seq![
        ("IMMORTAL_EXIT_KIND"@, exit_report(hook.result).0),
        ("IMMORTAL_EXIT_STATUS"@, text::decimal(exit_report(hook.result).1 as nat)),
        ("IMMORTAL_GENERATION"@, text::decimal(hook.generation.number() as nat)),
        ("IMMORTAL_START_FAILED"@, flag_spelling(hook.start_failed)),
        ("IMMORTAL_READINESS_FAILED"@, flag_spelling(hook.readiness_failed)),
    ]
}

/// Views of name and value pairs.
pub open spec fn variable_views(variables: Seq<(String, String)>) -> Seq<
    (Seq<char>, Seq<char>),
> {
    variables.map_values(|variable: (String, String)| (variable.0@, variable.1@))
}

fn variable(name: &str, value: String) -> (pair: (String, String))
    ensures
        pair.0@ == name@,
        pair.1@ == value@,
{
    (name.to_owned(), value)
}

fn flag_text(set: bool) -> (text: String)
    ensures
        text@ == flag_spelling(set),
{
    if set {
        "1".to_owned()
    } else {
        "0".to_owned()
    }
}

fn decimal_text(value: u64) -> (text: String)
    ensures
        text@ == text::decimal(value as nat),
{
    let mut text = String::new();
    push_decimal(&mut text, value);
    assert(Seq::<char>::empty() + text::decimal(value as nat) =~= text::decimal(value as nat));
    text
}

/// Environment variables added to the post-exit hook.
#[must_use]
pub fn post_exit_environment(hook: PostExitContext) -> (variables: Vec<(String, String)>)
    ensures
        variable_views(variables@) == post_exit_variables(hook),
{
    let (kind, status): (&str, u8) = match hook.result {
        ChildResult::Exited(code) => ("exit", code),
        ChildResult::Signaled(signal) => ("signal", signal),
        ChildResult::LifetimeClosed => ("lifetime", 0),
        ChildResult::LifetimeFailed => ("lifetime-failed", 0),
    };
    let mut variables: Vec<(String, String)> = Vec::new();
    variables.push(variable("IMMORTAL_EXIT_KIND", kind.to_owned()));
    variables.push(variable("IMMORTAL_EXIT_STATUS", decimal_text(status as u64)));
    variables.push(variable("IMMORTAL_GENERATION", decimal_text(hook.generation.get())));
    variables.push(variable("IMMORTAL_START_FAILED", flag_text(hook.start_failed)));
    variables.push(variable("IMMORTAL_READINESS_FAILED", flag_text(hook.readiness_failed)));
    assert(variable_views(variables@) =~= post_exit_variables(hook));
    variables
}

/// A post-exit hook is told what became of its generation: its number and status read
/// back from what it sees, the kinds of result are told apart, and both flags say what
/// happened.
pub proof fn hooks_are_told_the_result(hook: PostExitContext)
    ensures
        ({
            let variables = post_exit_variables(hook);
            &&& variables.len() == 5
            &&& variables[0].0 == "IMMORTAL_EXIT_KIND"@
            &&& variables[0].1 == "exit"@ <==> hook.result is Exited
            &&& variables[0].1 == "signal"@ <==> hook.result is Signaled
            &&& variables[0].1 == "lifetime"@ <==> hook.result is LifetimeClosed
            &&& variables[0].1 == "lifetime-failed"@ <==> hook.result is LifetimeFailed
            &&& variables[1].0 == "IMMORTAL_EXIT_STATUS"@
            &&& hook.result matches ChildResult::Exited(code) ==> fields::value(variables[1].1)
                == code
            &&& hook.result matches ChildResult::Signaled(signal) ==> fields::value(
                variables[1].1,
            ) == signal
            &&& hook.result is LifetimeClosed || hook.result is LifetimeFailed ==> fields::value(
                variables[1].1,
            ) == 0
            &&& variables[2].0 == "IMMORTAL_GENERATION"@
            &&& fields::value(variables[2].1) == hook.generation.number()
            &&& variables[3].0 == "IMMORTAL_START_FAILED"@
            &&& variables[3].1 == "1"@ <==> hook.start_failed
            &&& variables[3].1 == "0"@ <==> !hook.start_failed
            &&& variables[4].0 == "IMMORTAL_READINESS_FAILED"@
            &&& variables[4].1 == "1"@ <==> hook.readiness_failed
            &&& variables[4].1 == "0"@ <==> !hook.readiness_failed
        }),
{
    reveal_strlit("exit");
    reveal_strlit("signal");
    reveal_strlit("lifetime");
    reveal_strlit("lifetime-failed");
    reveal_strlit("1");
    reveal_strlit("0");
    assert("1"@[0] != "0"@[0]);
    assert("exit"@.len() == 4);
    assert("signal"@.len() == 6);
    assert("lifetime"@.len() == 8);
    assert("lifetime-failed"@.len() == 15);
    fields::written_numbers_read_back(exit_report(hook.result).1 as nat);
    fields::written_numbers_read_back(hook.generation.number() as nat);
}

/// A generation which is to be restarted waits for its whole delay when it is not
/// spread, and one which is not to be restarted leaves nothing to wait for.
pub proof fn restarts_wait_for_their_delay(
    env: Surroundings,
    generation: Generation,
    decision: RestartDecision,
)
    ensures
        decision_deadline(env, generation, decision) is Some <==> decision is Restart,
        decision matches RestartDecision::Restart { base_delay_seconds, jitter_percent } ==> (
        jitter_percent == 0 && env.now.nanoseconds + base_delay_seconds * 1_000_000_000 <= u128::MAX
            ==> decision_deadline(env, generation, decision)->0.nanoseconds == env.now.nanoseconds
            + base_delay_seconds * 1_000_000_000),
{
    if decision is Restart {
        clock::jitter_stays_within_its_spread(
            decision->base_delay_seconds,
            0,
            generation.number(),
            env.broker,
        );
    }
}

} // verus!
