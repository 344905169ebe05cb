//! Authenticated control commands and signal conversion.
//!
//! Requests are preflighted against pending detach or descriptor hooks,
//! translated through the state-machine contract, and either answered immediately
//! or paired with a pending broker acknowledgement. Descriptor-tracked services
//! route stop and HUP through lifecycle hooks rather than raw process signals.

use vstd::prelude::*;
use vstd::string::*;

use crate::config::ProcessMode;
use crate::control::decision;
use crate::control::decision::{decide_request, ControlEffect, StopCompletion};
use crate::control::message::{Request, RequestModel};
use crate::control::operation::{Operation, Signal, SignalScope};
use crate::control::response::{Response, ResponseCode, ResponseModel};
use crate::fault::FaultKind;
use crate::process::{BrokerSignalScope, BrokerTaskId, ProcessSignal};
use crate::supervisor::{DesiredState, Generation, SupervisorState, Transition, TransitionError};

use super::context;
use super::context::{
    os_error, transition_error, ActionModel, BrokerAction, CommandToken, ExecutionContext,
    ExecutionModel, LifecycleExecution, LifecycleHookKind, LifecycleHookState, LoggerExecution,
    LoggerExecutionState, PendingDetach, PendingReply, PendingSignal, Step, Surroundings,
    TaskCommand, CHILD_STARTUP_TIMEOUT, STARTUP_DEADLINE,
};
use super::error::{ErrorModel, ExecutorError};
use super::logger;
use super::logger::start_down_loggers;
use super::stopping;
use super::stopping::begin_group_stop;
use super::timers;
use super::timers::cancel_auxiliary;

verus! {

// ---------------------------------------------------------------------------
// Conversions
// ---------------------------------------------------------------------------

/// Broker target of a control target.
pub open spec fn target(scope: SignalScope) -> BrokerSignalScope {
    match scope {
        SignalScope::Main => BrokerSignalScope::Process,
        SignalScope::Group => BrokerSignalScope::Group,
    }
}

/// Broker signal of a control signal.
pub open spec fn delivered(signal: Signal) -> ProcessSignal {
    match signal {
        Signal::User1 => ProcessSignal::User1,
        Signal::User2 => ProcessSignal::User2,
        Signal::Alarm => ProcessSignal::Alarm,
        Signal::Continue => ProcessSignal::Continue,
        Signal::Hangup => ProcessSignal::Hangup,
        Signal::Interrupt => ProcessSignal::Interrupt,
        Signal::Kill => ProcessSignal::Kill,
        Signal::TerminalInput => ProcessSignal::TerminalInput,
        Signal::TerminalOutput => ProcessSignal::TerminalOutput,
        Signal::Quit => ProcessSignal::Quit,
        Signal::Stop => ProcessSignal::Stop,
        Signal::Terminate => ProcessSignal::Terminate,
        Signal::WindowChange => ProcessSignal::WindowChange,
    }
}

/// Broker target of a control target.
#[must_use]
pub fn broker_scope(scope: SignalScope) -> (target_scope: BrokerSignalScope)
    ensures
        target_scope == target(scope),
{
    match scope {
        SignalScope::Main => BrokerSignalScope::Process,
        SignalScope::Group => BrokerSignalScope::Group,
    }
}

/// Broker signal of a control signal.
#[must_use]
pub fn process_signal(signal: Signal) -> (converted: ProcessSignal)
    ensures
        converted == delivered(signal),
{
    match signal {
        Signal::User1 => ProcessSignal::User1,
        Signal::User2 => ProcessSignal::User2,
        Signal::Alarm => ProcessSignal::Alarm,
        Signal::Continue => ProcessSignal::Continue,
        Signal::Hangup => ProcessSignal::Hangup,
        Signal::Interrupt => ProcessSignal::Interrupt,
        Signal::Kill => ProcessSignal::Kill,
        Signal::TerminalInput => ProcessSignal::TerminalInput,
        Signal::TerminalOutput => ProcessSignal::TerminalOutput,
        Signal::Quit => ProcessSignal::Quit,
        Signal::Stop => ProcessSignal::Stop,
        Signal::Terminate => ProcessSignal::Terminate,
        Signal::WindowChange => ProcessSignal::WindowChange,
    }
}

/// Name of a platform signal, in lower case and without its `SIG`.
pub open spec fn platform_name(signal: ProcessSignal) -> Seq<char> {
    match signal {
        ProcessSignal::User1 => "usr1"@,
        ProcessSignal::User2 => "usr2"@,
        ProcessSignal::Alarm => "alrm"@,
        ProcessSignal::Continue => "cont"@,
        ProcessSignal::Hangup => "hup"@,
        ProcessSignal::Interrupt => "int"@,
        ProcessSignal::Kill => "kill"@,
        ProcessSignal::TerminalInput => "ttin"@,
        ProcessSignal::TerminalOutput => "ttou"@,
        ProcessSignal::Quit => "quit"@,
        ProcessSignal::Stop => "stop"@,
        ProcessSignal::Terminate => "term"@,
        ProcessSignal::WindowChange => "winch"@,
    }
}

/// A control signal is delivered as the platform signal which its control name
/// stands for.
pub proof fn signals_are_delivered_by_name(signal: Signal)
    ensures
        platform_name(delivered(signal)) == signal.spelling(),
{
}

/// Each control signal is delivered as the process signal of its own kind.
pub proof fn signals_keep_their_kind(signal: Signal)
    ensures
        signal is User1 <==> delivered(signal) is User1,
        signal is User2 <==> delivered(signal) is User2,
        signal is Alarm <==> delivered(signal) is Alarm,
        signal is Continue <==> delivered(signal) is Continue,
        signal is Hangup <==> delivered(signal) is Hangup,
        signal is Interrupt <==> delivered(signal) is Interrupt,
        signal is Kill <==> delivered(signal) is Kill,
        signal is TerminalInput <==> delivered(signal) is TerminalInput,
        signal is TerminalOutput <==> delivered(signal) is TerminalOutput,
        signal is Quit <==> delivered(signal) is Quit,
        signal is Stop <==> delivered(signal) is Stop,
        signal is Terminate <==> delivered(signal) is Terminate,
        signal is WindowChange <==> delivered(signal) is WindowChange,
{
}

/// A signal for the main process reaches only it, and one for the group reaches
/// the whole group.
pub proof fn signals_keep_their_target(scope: SignalScope)
    ensures
        scope is Main <==> target(scope) is Process,
        scope is Group <==> target(scope) is Group,
{
}

/// Different control signals are delivered as different signals.
pub proof fn signals_are_delivered_distinctly(left: Signal, right: Signal)
    ensures
        delivered(left) == delivered(right) ==> left == right,
{
}

// ---------------------------------------------------------------------------
// Lifecycle hooks
// ---------------------------------------------------------------------------

/// Lifecycle hook to run.
#[derive(Clone, Copy, Debug, PartialEq, Eq, Structural)]
pub struct LifecycleHookRequest {
    /// Action once the generation ended.
    pub after: Option<StopCompletion>,
    /// Client which waits for the hook.
    pub reply: Option<PendingReply>,
    /// Affected generation.
    pub generation: Generation,
    /// Purpose of the hook.
    pub kind: LifecycleHookKind,
    /// Operator intent before the hook.
    pub previous_desired: DesiredState,
    /// Whether a failed stop returns to readiness.
    pub resume_ready: bool,
}

/// Whether `generation` reported readiness.
pub open spec fn ready_generation(state: SupervisorState, generation: Generation) -> bool {
    ||| state == SupervisorState::Ready(generation)
    ||| state == (SupervisorState::Paused { generation, ready: true })
}

/// Whether `generation` reported readiness.
#[must_use]
pub fn generation_is_ready(state: SupervisorState, generation: Generation) -> (ready: bool)
    ensures
        ready == ready_generation(state, generation),
{
    match state {
        SupervisorState::Ready(current) => current == generation,
        SupervisorState::Paused { generation: current, ready } => ready && current == generation,
        _ => false,
    }
}

/// Ask the broker to run a descriptor lifecycle hook.
#[verifier::opaque]
pub open spec fn hook_begun(
    context: ExecutionModel,
    env: Surroundings,
    request: LifecycleHookRequest,
) -> Step {
    let prepared = match request.kind {
        LifecycleHookKind::Reload => env.commands.descriptor_reload,
        LifecycleHookKind::Stop => env.commands.descriptor_stop,
    };
    if context.lifecycle is Some {
        context::failed(
            context,
            context::os_failure(
                FaultKind::AlreadyExists,
                "a descriptor lifecycle hook is already running"@,
            ),
        )
    } else if env.config.descriptor_tracking is None {
        context::failed(
            context,
            context::os_failure(
                FaultKind::InvalidData,
                "descriptor lifecycle configuration is absent"@,
            ),
        )
    } else if !prepared {
        context::failed(
            context,
            context::os_failure(
                FaultKind::InvalidData,
                "prepared descriptor lifecycle command is absent"@,
            ),
        )
    } else {
        let tracking = env.config.descriptor_tracking->0;
        let numbered = context::allocated(context);
        if numbered.error is Some {
            numbered
        } else {
            let task = BrokerTaskId::of(context.next_task);
            context::done(
                context::requested(
                    ExecutionModel {
                        lifecycle: Some(
                            LifecycleExecution {
                                after: request.after,
                                reply: request.reply,
                                generation: request.generation,
                                kind: request.kind,
                                previous_desired: request.previous_desired,
                                resume_ready: request.resume_ready,
                                state: LifecycleHookState::Starting,
                                task,
                                timeout_seconds: match request.kind {
                                    LifecycleHookKind::Reload => tracking.reload.timeout_seconds,
                                    LifecycleHookKind::Stop => tracking.stop.timeout_seconds,
                                },
                            },
                        ),
                        deadline: Some(env.now.after(STARTUP_DEADLINE)),
                        ..numbered.context
                    },
                    BrokerAction::SpawnTask {
                        task,
                        command: match request.kind {
                            LifecycleHookKind::Reload => TaskCommand::DescriptorReload,
                            LifecycleHookKind::Stop => TaskCommand::DescriptorStop,
                        },
                        timeout_seconds: CHILD_STARTUP_TIMEOUT,
                    },
                ),
            )
        }
    }
}

/// Ask the broker to run a descriptor lifecycle hook.
///
/// # Errors
///
/// Fails while another hook runs, for a missing configuration or command, and
/// when no task can be allocated.
pub fn begin_lifecycle_hook(
    execution: &mut ExecutionContext,
    env: &Surroundings<'_>,
    request: LifecycleHookRequest,
) -> (result: Result<(), ExecutorError>)
    ensures
        context::stepped(hook_begun(old(execution)@, *env, request), final(execution)@, result),
{
    reveal(hook_begun);
    if execution.lifecycle.is_some() {
        return Err(
            os_error(
                FaultKind::AlreadyExists,
                "a descriptor lifecycle hook is already running",
            ),
        );
    }
    let tracking = match &env.config.descriptor_tracking {
        Some(tracking) => tracking,
        None => return Err(
            os_error(
                FaultKind::InvalidData,
                "descriptor lifecycle configuration is absent",
            ),
        ),
    };
    let (prepared, command, timeout_seconds): (bool, TaskCommand, u64) = match request.kind {
        LifecycleHookKind::Reload => (
            env.commands.descriptor_reload,
            TaskCommand::DescriptorReload,
            tracking.reload.timeout_seconds,
        ),
        LifecycleHookKind::Stop => (
            env.commands.descriptor_stop,
            TaskCommand::DescriptorStop,
            tracking.stop.timeout_seconds,
        ),
    };
    if !prepared {
        return Err(
            os_error(
                FaultKind::InvalidData,
                "prepared descriptor lifecycle command is absent",
            ),
        );
    }
    let task = match execution.allocate_task() {
        Ok(task) => task,
        Err(error) => return Err(error),
    };
    execution.lifecycle =
    Some(
        LifecycleExecution {
            after: request.after,
            reply: request.reply,
            generation: request.generation,
            kind: request.kind,
            previous_desired: request.previous_desired,
            resume_ready: request.resume_ready,
            state: LifecycleHookState::Starting,
            task,
            timeout_seconds,
        },
    );
    execution.deadline = Some(env.now.plus_seconds(STARTUP_DEADLINE));
    execution.request(
        BrokerAction::SpawnTask { task, command, timeout_seconds: CHILD_STARTUP_TIMEOUT },
    );
    Ok(())
}

/// Begin stopping a descriptor-tracked service because the supervisor ends.
#[verifier::opaque]
pub open spec fn descriptor_shutdown_begun(context: ExecutionModel, env: Surroundings) -> Step {
    if context.lifecycle is Some {
        context::done(context)
    } else {
        match context.machine.state.spec_live_generation() {
            None => context::failed(
                context,
                ErrorModel::Transition(context.machine.state, "descriptor_shutdown"@),
            ),
            Some(generation) => {
                let stopping = context::transited(
                    context::intending(context, DesiredState::Halt),
                    Transition::BeginStop(generation),
                );
                if stopping.error is Some {
                    stopping
                } else {
                    hook_begun(
                        stopping.context,
                        env,
                        LifecycleHookRequest {
                            after: Some(StopCompletion::Halt),
                            reply: None,
                            generation,
                            kind: LifecycleHookKind::Stop,
                            previous_desired: context.machine.desired,
                            resume_ready: ready_generation(context.machine.state, generation),
                        },
                    )
                }
            },
        }
    }
}

/// Begin stopping a descriptor-tracked service because the supervisor ends.
///
/// # Errors
///
/// Fails without a live generation, and when the stop or its hook is refused.
pub fn begin_descriptor_shutdown(execution: &mut ExecutionContext, env: &Surroundings<'_>) -> (
result: Result<(), ExecutorError>)
    ensures
        context::stepped(
            descriptor_shutdown_begun(old(execution)@, *env),
            final(execution)@,
            result,
        ),
{
    reveal(descriptor_shutdown_begun);
    if execution.lifecycle.is_some() {
        return Ok(());
    }
    let state = execution.machine.state();
    let generation = match state.live_generation() {
        Some(generation) => generation,
        None => return Err(
            transition_error(TransitionError::Invalid { state, event: "descriptor_shutdown" }),
        ),
    };
    let previous_desired = execution.machine.desired();
    let resume_ready = generation_is_ready(state, generation);
    execution.machine.set_desired(DesiredState::Halt);
    match execution.machine.begin_stop(generation) {
        Ok(()) => {},
        Err(error) => return Err(transition_error(error)),
    }
    begin_lifecycle_hook(
        execution,
        env,
        LifecycleHookRequest {
            after: Some(StopCompletion::Halt),
            reply: None,
            generation,
            kind: LifecycleHookKind::Stop,
            previous_desired,
            resume_ready,
        },
    )
}

/// Begin ending the supervisor.
#[verifier::opaque]
pub open spec fn supervisor_shutdown_begun(context: ExecutionModel, env: Surroundings) -> Step {
    let halting = context::intending(context, DesiredState::Halt);
    match context.machine.state {
        SupervisorState::WaitingCondition => pending_start_dropped(halting),
        SupervisorState::Backoff { .. } => pending_start_dropped(halting),
        SupervisorState::Starting(generation) => group_halted(halting, env, generation),
        SupervisorState::Running(generation) => group_halted(halting, env, generation),
        SupervisorState::Ready(generation) => group_halted(halting, env, generation),
        SupervisorState::Paused { generation, .. } => group_halted(halting, env, generation),
        SupervisorState::Stopping(_) => context::done(
            ExecutionModel { pending_stop: Some(StopCompletion::Halt), ..halting },
        ),
        SupervisorState::Initializing => context::failed(
            halting,
            ErrorModel::Transition(SupervisorState::Initializing, "supervisor_shutdown"@),
        ),
        _ => context::done(halting),
    }
}

/// Cancel a pending start and its deadline.
pub open spec fn pending_start_dropped(context: ExecutionModel) -> Step {
    let cancelled = context::transited(context, Transition::CancelPending);
    if cancelled.error is Some {
        cancelled
    } else {
        context::done(ExecutionModel { deadline: None, ..cancelled.context })
    }
}

/// Stop a live group and end the supervisor once it is reaped.
pub open spec fn group_halted(
    context: ExecutionModel,
    env: Surroundings,
    generation: Generation,
) -> Step {
    let stopping = context::transited(context, Transition::BeginStop(generation));
    if stopping.error is Some {
        stopping
    } else {
        context::done(
            stopping::group_stop_begun(
                stopping.context,
                generation,
                StopCompletion::Halt,
                env.now,
            ),
        )
    }
}

/// Begin ending the supervisor.
///
/// # Errors
///
/// Fails before initialization and when the machine refuses the stop.
pub fn begin_supervisor_shutdown(execution: &mut ExecutionContext, env: &Surroundings<'_>) -> (
result: Result<(), ExecutorError>)
    ensures
        context::stepped(
            supervisor_shutdown_begun(old(execution)@, *env),
            final(execution)@,
            result,
        ),
{
    reveal(supervisor_shutdown_begun);
    let state = execution.machine.state();
    execution.machine.set_desired(DesiredState::Halt);
    match state {
        SupervisorState::WaitingCondition | SupervisorState::Backoff { .. } => {
            match execution.machine.cancel_pending() {
                Ok(()) => {},
                Err(error) => return Err(transition_error(error)),
            }
            execution.deadline = None;
        },
        SupervisorState::Starting(generation)
        | SupervisorState::Running(generation)
        | SupervisorState::Ready(generation)
        | SupervisorState::Paused { generation, .. } => {
            match execution.machine.begin_stop(generation) {
                Ok(()) => {},
                Err(error) => return Err(transition_error(error)),
            }
            begin_group_stop(execution, generation, StopCompletion::Halt, env.now);
        },
        SupervisorState::Stopping(_) => {
            execution.pending_stop = Some(StopCompletion::Halt);
        },
        SupervisorState::Down
        | SupervisorState::Completed(_)
        | SupervisorState::Failed(_)
        | SupervisorState::Exited => {},
        SupervisorState::Initializing => return Err(
            transition_error(TransitionError::Invalid { state, event: "supervisor_shutdown" }),
        ),
    }
    Ok(())
}

// ---------------------------------------------------------------------------
// Control commands
// ---------------------------------------------------------------------------

/// Refusal which precedes any decision.
pub open spec fn preflight_refusal(
    context: ExecutionModel,
    operation: Operation,
) -> Option<ResponseModel> {
    let generation = context.machine.state.spec_generation();
    if operation is Exit && context.loggers.len() > 0 {
        Some(
            ResponseModel {
                code: ResponseCode::Invalid,
                generation,
                message: "exit cannot detach a service with broker-owned logging pipelines"@,
                status: None,
            },
        )
    } else if context.pending_detach is Some && !(operation is Status) {
        Some(
            ResponseModel {
                code: ResponseCode::Conflict,
                generation,
                message: "a live-child detach operation is already pending"@,
                status: None,
            },
        )
    } else if context.lifecycle is Some && !(operation is Status) {
        Some(
            ResponseModel {
                code: ResponseCode::Conflict,
                generation,
                message: "a descriptor lifecycle hook is already pending"@,
                status: None,
            },
        )
    } else {
        None
    }
}

/// View of an optional response.
pub open spec fn optional_response(response: Option<Response>) -> Option<ResponseModel> {
    match response {
        Some(response) => Some(response@),
        None => None,
    }
}

/// Refuse a request which pending work excludes.
#[must_use]
pub fn control_preflight_rejection(operation: Operation, execution: &ExecutionContext) -> (refusal:
    Option<Response>)
    ensures
        optional_response(refusal) == preflight_refusal(execution@, operation),
{
    let generation = execution.machine.state().generation();
    if operation == Operation::Exit && execution.loggers.len() > 0 {
        return Some(
            Response {
                code: ResponseCode::Invalid,
                generation,
                message: "exit cannot detach a service with broker-owned logging pipelines"
                    .to_owned(),
                status: None,
            },
        );
    }
    if execution.pending_detach.is_some() && operation != Operation::Status {
        return Some(
            Response {
                code: ResponseCode::Conflict,
                generation,
                message: "a live-child detach operation is already pending".to_owned(),
                status: None,
            },
        );
    }
    if execution.lifecycle.is_some() && operation != Operation::Status {
        return Some(
            Response {
                code: ResponseCode::Conflict,
                generation,
                message: "a descriptor lifecycle hook is already pending".to_owned(),
                status: None,
            },
        );
    }
    None
}

/// A failed logger starts over.
pub open spec fn logger_reset(logger: LoggerExecution) -> LoggerExecution {
    if logger.state is Failed {
        LoggerExecution { failure_streak: 0, state: LoggerExecutionState::Down, ..logger }
    } else {
        logger
    }
}

/// Every failed logger starts over.
pub open spec fn failed_loggers_reset(context: ExecutionModel) -> ExecutionModel {
    ExecutionModel {
        loggers: context.loggers.map_values(|logger: LoggerExecution| logger_reset(logger)),
        ..context
    }
}

/// Let every failed logger start over. Returns whether there was one.
pub fn reset_failed_loggers(execution: &mut ExecutionContext) -> (reset: bool)
    ensures
        final(execution)@ == failed_loggers_reset(old(execution)@),
        reset == context::any_failed(old(execution)@.loggers),
{
    let mut reset: bool = false;
    let mut index: usize = 0;
    let ghost before = execution@;
    while index < execution.loggers.len()
        invariant
            index <= execution.loggers@.len(),
            execution.loggers@.len() == before.loggers.len(),
            forall|i: int|
                0 <= i < index ==> #[trigger] execution.loggers@[i] == logger_reset(
                    before.loggers[i],
                ),
            forall|i: int|
                index <= i < before.loggers.len() ==> #[trigger] execution.loggers@[i]
                    == before.loggers[i],
            reset == (exists|i: int|
                0 <= i < index && (#[trigger] before.loggers[i]).state is Failed),
            execution@ == (ExecutionModel { loggers: execution.loggers@, ..before }),
        decreases execution.loggers@.len() - index,
    {
        let mut logger: LoggerExecution = execution.loggers[index];
        assert(logger == before.loggers[index as int]);
        if matches!(logger.state, LoggerExecutionState::Failed) {
            logger.failure_streak = 0;
            logger.state = LoggerExecutionState::Down;
            execution.loggers.set(index, logger);
            reset = true;
        }
        index = index + 1;
    }
    assert(execution@ =~= failed_loggers_reset(old(execution)@));
    reset
}

/// Decided request whose work has not begun.
#[derive(Debug)]
pub struct AcceptedControl {
    /// Waiting client.
    pub command: CommandToken,
    /// Work to begin.
    pub effect: ControlEffect,
    /// Operator intent before the request.
    pub previous_desired: DesiredState,
    /// Immediate answer.
    pub response: Response,
}

/// Pure view of a decided request.
pub struct AcceptedModel {
    pub command: CommandToken,
    pub effect: ControlEffect,
    pub previous_desired: DesiredState,
    pub response: ResponseModel,
}

impl View for AcceptedControl {
    type V = AcceptedModel;

    open spec fn view(&self) -> AcceptedModel {
        AcceptedModel {
            command: self.command,
            effect: self.effect,
            previous_desired: self.previous_desired,
            response: self.response@,
        }
    }
}

impl AcceptedModel {
    /// The client which is answered once the work completes.
    pub open spec fn reply(self) -> PendingReply {
        PendingReply { command: self.command, generation: self.response.generation }
    }

    /// Work which is answered later was accepted.
    pub open spec fn consistent(self) -> bool {
        match self.effect {
            ControlEffect::StopGroup { .. } => self.response == context::acceptance_reply(
                self.reply(),
            ),
            ControlEffect::DeliverSignal { .. } => self.response == context::acceptance_reply(
                self.reply(),
            ),
            ControlEffect::ExitSupervisor { .. } => self.response == context::acceptance_reply(
                self.reply(),
            ),
            _ => true,
        }
    }

    /// The client is answered at once.
    pub open spec fn answered(self, context: ExecutionModel) -> Step {
        context::done(
            context::queued(
                context,
                ActionModel::Respond { command: self.command, response: self.response },
            ),
        )
    }
}

/// Cancel a pending start; its deadline goes unless a cancelled task still has
/// to end.
pub open spec fn pending_cancelled(context: ExecutionModel) -> Step {
    let cancelled = context::transited(context, Transition::CancelPending);
    if cancelled.error is Some {
        cancelled
    } else if cancelled.context.auxiliary.idle() {
        context::done(ExecutionModel { deadline: None, ..cancelled.context })
    } else {
        cancelled
    }
}

/// Begin the work of a decided request.
#[verifier::opaque]
pub open spec fn standard_control_applied(
    context: ExecutionModel,
    env: Surroundings,
    accepted: AcceptedModel,
) -> Step {
    match accepted.effect {
        ControlEffect::Nothing => accepted.answered(context),
        ControlEffect::BeginStart => accepted.answered(context),
        ControlEffect::CancelPending { .. } => {
            let cancelled = pending_cancelled(timers::auxiliary_cancelled(context, env.now));
            if cancelled.error is Some {
                cancelled
            } else {
                accepted.answered(cancelled.context)
            }
        },
        ControlEffect::StopGroup { generation, after } => if context.machine.state is Stopping {
            accepted.answered(ExecutionModel { pending_stop: Some(after), ..context })
        } else {
            let stopping = context::transited(context, Transition::BeginStop(generation));
            if stopping.error is Some {
                stopping
            } else {
                accepted.answered(
                    stopping::group_stop_begun(stopping.context, generation, after, env.now),
                )
            }
        },
        ControlEffect::ExitSupervisor { leave_child } => if leave_child {
            match context.machine.state.spec_live_generation() {
                None => context::failed(
                    context,
                    ErrorModel::Transition(context.machine.state, "begin_detach"@),
                ),
                Some(generation) => context::done(
                    ExecutionModel {
                        pending_detach: Some(
                            PendingDetach {
                                generation,
                                previous_desired: accepted.previous_desired,
                                reply: accepted.reply(),
                            },
                        ),
                        ..context::requested(
                            context::intending(context, accepted.previous_desired),
                            BrokerAction::Detach { generation },
                        )
                    },
                ),
            }
        } else {
            let cancelled = timers::auxiliary_cancelled(context, env.now);
            if context.machine.state is WaitingCondition || context.machine.state is Backoff {
                let dropped = pending_cancelled(cancelled);
                if dropped.error is Some {
                    dropped
                } else {
                    accepted.answered(dropped.context)
                }
            } else {
                accepted.answered(cancelled)
            }
        },
        ControlEffect::DeliverSignal { generation, scope, signal } => context::done(
            ExecutionModel {
                pending_signals: context.pending_signals.push(
                    PendingSignal::Control(accepted.reply()),
                ),
                ..context::requested(
                    context,
                    BrokerAction::Signal {
                        generation,
                        scope: target(scope),
                        signal: delivered(signal),
                    },
                )
            },
        ),
    }
}

fn cancel_pending_start(execution: &mut ExecutionContext) -> (result: Result<(), ExecutorError>)
    ensures
        context::stepped(pending_cancelled(old(execution)@), final(execution)@, result),
{
    match execution.machine.cancel_pending() {
        Ok(()) => {},
        Err(error) => return Err(transition_error(error)),
    }
    if execution.auxiliary.is_idle() {
        execution.deadline = None;
    }
    Ok(())
}

proof fn lemma_cancelling_keeps_the_machine(
    context: ExecutionModel,
    now: super::clock::Moment,
)
    ensures
        timers::auxiliary_cancelled(context, now).machine == context.machine,
{
    reveal(timers::auxiliary_cancelled);
}

/// Begin the work of a decided request.
///
/// # Errors
///
/// Fails when the machine refuses the work.
pub fn apply_standard_control(
    execution: &mut ExecutionContext,
    env: &Surroundings<'_>,
    accepted: AcceptedControl,
) -> (result: Result<(), ExecutorError>)
    requires
        accepted@.consistent(),
    ensures
        context::stepped(
            standard_control_applied(old(execution)@, *env, accepted@),
            final(execution)@,
            result,
        ),
{
    reveal(standard_control_applied);
    let state = execution.machine.state();
    let reply = PendingReply {
        command: accepted.command,
        generation: accepted.response.generation,
    };
    match accepted.effect {
        ControlEffect::Nothing | ControlEffect::BeginStart => {},
        ControlEffect::CancelPending { .. } => {
            cancel_auxiliary(execution, env.now);
            match cancel_pending_start(execution) {
                Ok(()) => {},
                Err(error) => return Err(error),
            }
        },
        ControlEffect::StopGroup { generation, after } => {
            if matches!(state, SupervisorState::Stopping(_)) {
                execution.pending_stop = Some(after);
            } else {
                match execution.machine.begin_stop(generation) {
                    Ok(()) => {},
                    Err(error) => return Err(transition_error(error)),
                }
                begin_group_stop(execution, generation, after, env.now);
            }
        },
        ControlEffect::ExitSupervisor { leave_child } => {
            if leave_child {
                let generation = match state.live_generation() {
                    Some(generation) => generation,
                    None => return Err(
                        transition_error(
                            TransitionError::Invalid { state, event: "begin_detach" },
                        ),
                    ),
                };
                execution.machine.set_desired(accepted.previous_desired);
                execution.request(BrokerAction::Detach { generation });
                execution.pending_detach =
                Some(
                    PendingDetach {
                        generation,
                        previous_desired: accepted.previous_desired,
                        reply,
                    },
                );
                return Ok(());
            }
            proof {
                lemma_cancelling_keeps_the_machine(execution@, env.now);
            }
            cancel_auxiliary(execution, env.now);
            if matches!(
                state,
                SupervisorState::WaitingCondition | SupervisorState::Backoff { .. }
            ) {
                match cancel_pending_start(execution) {
                    Ok(()) => {},
                    Err(error) => return Err(error),
                }
            }
        },
        ControlEffect::DeliverSignal { generation, scope, signal } => {
            execution.request(
                BrokerAction::Signal {
                    generation,
                    scope: broker_scope(scope),
                    signal: process_signal(signal),
                },
            );
            execution.pending_signals.push_back(PendingSignal::Control(reply));
            return Ok(());
        },
    }
    execution.respond(accepted.command, accepted.response);
    Ok(())
}

/// Whether a descriptor-tracked service handles the effect itself.
pub open spec fn descriptor_handles(env: Surroundings, effect: ControlEffect) -> bool {
    env.config.process_mode == ProcessMode::DescriptorTracking && match effect {
        ControlEffect::StopGroup { .. } => true,
        ControlEffect::DeliverSignal { .. } => true,
        ControlEffect::ExitSupervisor { leave_child } => leave_child,
        _ => false,
    }
}

/// Work of a descriptor-tracked service: stops and HUP run hooks, and nothing
/// else may signal or detach it.
#[verifier::opaque]
pub open spec fn descriptor_control_applied(
    context: ExecutionModel,
    env: Surroundings,
    accepted: AcceptedModel,
) -> Step {
    match accepted.effect {
        ControlEffect::StopGroup { generation, after } => {
            let stopping = context::transited(context, Transition::BeginStop(generation));
            if stopping.error is Some {
                stopping
            } else {
                hook_begun(
                    stopping.context,
                    env,
                    LifecycleHookRequest {
                        after: Some(after),
                        reply: Some(accepted.reply()),
                        generation,
                        kind: LifecycleHookKind::Stop,
                        previous_desired: accepted.previous_desired,
                        resume_ready: ready_generation(context.machine.state, generation),
                    },
                )
            }
        },
        ControlEffect::DeliverSignal { generation, signal, .. } => if signal is Hangup {
            hook_begun(
                context,
                env,
                LifecycleHookRequest {
                    after: None,
                    reply: Some(accepted.reply()),
                    generation,
                    kind: LifecycleHookKind::Reload,
                    previous_desired: accepted.previous_desired,
                    resume_ready: true,
                },
            )
        } else {
            context::done(
                context::replied(
                    context,
                    accepted.reply(),
                    ResponseCode::Invalid,
                    "descriptor-tracked services reject raw signals; use stop, restart, halt, or HUP reload"@,
                ),
            )
        },
        ControlEffect::ExitSupervisor { .. } => context::done(
            context::replied(
                context::intending(context, accepted.previous_desired),
                accepted.reply(),
                ResponseCode::Invalid,
                "descriptor-tracked services cannot be detached from their supervisor"@,
            ),
        ),
        _ => context::done(context),
    }
}

/// Begin the work which a descriptor-tracked service handles itself.
///
/// # Errors
///
/// Fails when the machine refuses the stop or the hook cannot run.
pub fn apply_descriptor_control(
    execution: &mut ExecutionContext,
    env: &Surroundings<'_>,
    accepted: &AcceptedControl,
) -> (result: Result<(), ExecutorError>)
    requires
        accepted@.consistent(),
        descriptor_handles(*env, accepted@.effect),
    ensures
        context::stepped(
            descriptor_control_applied(old(execution)@, *env, accepted@),
            final(execution)@,
            result,
        ),
{
    reveal(descriptor_control_applied);
    let state = execution.machine.state();
    let reply = PendingReply {
        command: accepted.command,
        generation: accepted.response.generation,
    };
    match accepted.effect {
        ControlEffect::StopGroup { generation, after } => {
            let resume_ready = generation_is_ready(state, generation);
            match execution.machine.begin_stop(generation) {
                Ok(()) => {},
                Err(error) => return Err(transition_error(error)),
            }
            begin_lifecycle_hook(
                execution,
                env,
                LifecycleHookRequest {
                    after: Some(after),
                    reply: Some(reply),
                    generation,
                    kind: LifecycleHookKind::Stop,
                    previous_desired: accepted.previous_desired,
                    resume_ready,
                },
            )
        },
        ControlEffect::DeliverSignal { generation, signal, .. } => {
            if signal == Signal::Hangup {
                return begin_lifecycle_hook(
                    execution,
                    env,
                    LifecycleHookRequest {
                        after: None,
                        reply: Some(reply),
                        generation,
                        kind: LifecycleHookKind::Reload,
                        previous_desired: accepted.previous_desired,
                        resume_ready: true,
                    },
                );
            }
            execution.reply(
                reply,
                ResponseCode::Invalid,
                "descriptor-tracked services reject raw signals; use stop, restart, halt, or HUP reload",
            );
            Ok(())
        },
        ControlEffect::ExitSupervisor { .. } => {
            execution.machine.set_desired(accepted.previous_desired);
            execution.reply(
                reply,
                ResponseCode::Invalid,
                "descriptor-tracked services cannot be detached from their supervisor",
            );
            Ok(())
        },
        ControlEffect::Nothing
        | ControlEffect::BeginStart
        | ControlEffect::CancelPending { .. } => Ok(()),
    }
}

/// Context once intent changed.
pub open spec fn decided_context(
    context: ExecutionModel,
    service_name: Seq<char>,
    request: RequestModel,
) -> ExecutionModel {
    ExecutionModel {
        machine: decision::decided(service_name, context.machine, request).1,
        ..context
    }
}

/// Request as it was decided, with the complete status for a status request.
pub open spec fn accepted_control(
    context: ExecutionModel,
    env: Surroundings,
    service_name: Seq<char>,
    command: CommandToken,
    request: RequestModel,
    supervisor: u32,
) -> AcceptedModel {
    let decided = decision::decided(service_name, context.machine, request).0;
    AcceptedModel {
        command,
        effect: decided.effect,
        previous_desired: context.machine.desired,
        response: if request.operation is Status && decided.response.code is Success {
            ResponseModel {
                status: Some(
                    context::observed_status(
                        decided_context(context, service_name, request),
                        supervisor,
                        env.now,
                    ),
                ),
                ..decided.response
            }
        } else {
            decided.response
        },
    }
}

/// An accepted start, single run, or restart also revives failed loggers.
pub open spec fn loggers_revived(
    context: ExecutionModel,
    env: Surroundings,
    operation: Operation,
    code: ResponseCode,
) -> Step {
    let starts = operation is Start || operation is Once || operation is Restart;
    if code is Success && starts && context::any_failed(context.loggers) {
        logger::down_loggers_started(failed_loggers_reset(context), env.now)
    } else {
        context::done(context)
    }
}

/// Reaction to one control command.
#[verifier::opaque]
pub open spec fn control_applied(
    context: ExecutionModel,
    env: Surroundings,
    service_name: Seq<char>,
    command: CommandToken,
    request: RequestModel,
    supervisor: u32,
) -> Step {
    match preflight_refusal(context, request.operation) {
        Some(response) => context::done(
            context::queued(context, ActionModel::Respond { command, response }),
        ),
        None => {
            let accepted = accepted_control(
                context,
                env,
                service_name,
                command,
                request,
                supervisor,
            );
            let revived = loggers_revived(
                decided_context(context, service_name, request),
                env,
                request.operation,
                accepted.response.code,
            );
            if revived.error is Some {
                revived
            } else if descriptor_handles(env, accepted.effect) {
                descriptor_control_applied(revived.context, env, accepted)
            } else {
                standard_control_applied(revived.context, env, accepted)
            }
        },
    }
}

fn handles_as_descriptor(env: &Surroundings<'_>, effect: ControlEffect) -> (handles: bool)
    ensures
        handles == descriptor_handles(*env, effect),
{
    if env.config.process_mode != ProcessMode::DescriptorTracking {
        return false;
    }
    match effect {
        ControlEffect::StopGroup { .. } | ControlEffect::DeliverSignal { .. } => true,
        ControlEffect::ExitSupervisor { leave_child } => leave_child,
        ControlEffect::Nothing
        | ControlEffect::BeginStart
        | ControlEffect::CancelPending { .. } => false,
    }
}

fn revive_loggers(
    execution: &mut ExecutionContext,
    env: &Surroundings<'_>,
    operation: Operation,
    code: ResponseCode,
) -> (result: Result<(), ExecutorError>)
    ensures
        context::stepped(
            loggers_revived(old(execution)@, *env, operation, code),
            final(execution)@,
            result,
        ),
{
    if code == ResponseCode::Success && matches!(
        operation,
        Operation::Start | Operation::Once | Operation::Restart
    ) {
        let reset = reset_failed_loggers(execution);
        if reset {
            return start_down_loggers(execution, env.now);
        }
        proof {
            lemma_nothing_to_reset(*old(execution));
        }
    }
    Ok(())
}

proof fn lemma_nothing_to_reset(execution: ExecutionContext)
    requires
        !context::any_failed(execution@.loggers),
    ensures
        failed_loggers_reset(execution@) == execution@,
{
    assert forall|i: int| 0 <= i < execution@.loggers.len() implies logger_reset(
        #[trigger] execution@.loggers[i],
    ) == execution@.loggers[i] by {}
    assert(failed_loggers_reset(execution@).loggers =~= execution@.loggers);
}

/// Every decision which is answered later was accepted.
proof fn lemma_decisions_are_consistent(
    context: ExecutionModel,
    env: Surroundings,
    service_name: Seq<char>,
    command: CommandToken,
    request: RequestModel,
    supervisor: u32,
)
    ensures
        accepted_control(
            context,
            env,
            service_name,
            command,
            request,
            supervisor,
        ).consistent(),
{
}

/// React to one control command. `supervisor` is the process which reports its
/// status.
///
/// # Errors
///
/// Fails when the decided work cannot begin.
pub fn apply_control_command(
    execution: &mut ExecutionContext,
    env: &Surroundings<'_>,
    service_name: &str,
    command: CommandToken,
    request: &Request,
    supervisor: u32,
) -> (result: Result<(), ExecutorError>)
    ensures
        context::stepped(
            control_applied(
                old(execution)@,
                *env,
                service_name@,
                command,
                request@,
                supervisor,
            ),
            final(execution)@,
            result,
        ),
{
    reveal(control_applied);
    if let Some(response) = control_preflight_rejection(request.operation, execution) {
        execution.respond(command, response);
        return Ok(());
    }
    let previous_desired = execution.machine.desired();
    let decision = decide_request(service_name, &mut execution.machine, request);
    let effect = decision.effect;
    let mut response = decision.response;
    if request.operation == Operation::Status && response.code == ResponseCode::Success {
        response.status = Some(execution.snapshot(supervisor, env.now));
    }
    let code = response.code;
    let accepted = AcceptedControl { command, effect, previous_desired, response };
    proof {
        lemma_decisions_are_consistent(
            old(execution)@,
            *env,
            service_name@,
            command,
            request@,
            supervisor,
        );
        assert(execution@ =~= decided_context(old(execution)@, service_name@, request@));
        assert(accepted@ == accepted_control(
            old(execution)@,
            *env,
            service_name@,
            command,
            request@,
            supervisor,
        ));
    }
    match revive_loggers(execution, env, request.operation, code) {
        Ok(()) => {},
        Err(error) => return Err(error),
    }
    if handles_as_descriptor(env, effect) {
        return apply_descriptor_control(execution, env, &accepted);
    }
    apply_standard_control(execution, env, accepted)
}

} // verus!
