//! Mutable supervision context and lifecycle state types.
//!
//! The executor owns all mutable policy state in one context: service
//! generation, restart tracking, deadline selection, logger phase, descriptor
//! lifetime, pending operator replies, and status. Work for the broker, the PID
//! file, and waiting clients is queued in an outbox and carried out in order.

use vstd::prelude::*;
use vstd::string::*;

use crate::config::ServiceConfig;
use crate::control::decision::StopCompletion;
use crate::control::response::{Response, ResponseCode, ResponseModel};
use crate::fault::{Fault, FaultKind};
use crate::process::{BrokerLoggerId, BrokerSignalScope, BrokerTaskId, ProcessId, ProcessSignal};
use crate::status;
use crate::status::{LastResult, LoggerStatus, StatusModel, StatusSnapshot};
use crate::supervisor::machine;
use crate::supervisor::machine::MachineModel;
use crate::supervisor::restart::TrackerModel;
use crate::supervisor::{
    ChildResult, ConditionTracker, DesiredState, FailureReason, Generation, RestartTracker,
    StateMachine, SupervisorState, Transition, TransitionError,
};
use crate::text;

use super::clock::Moment;
use super::error::{ErrorModel, ExecutorError};

verus! {

/// Time the broker may take to answer, in seconds.
pub const BROKER_EVENT_TIMEOUT: u64 = 5;

/// Time a child may take to execute, in seconds.
pub const CHILD_STARTUP_TIMEOUT: u64 = 5;

/// Time the broker process may take to end, in seconds.
pub const BROKER_REAP_TIMEOUT: u64 = 5;

/// Time a detached supervisor may take to start, in seconds.
pub const DAEMON_STARTUP_TIMEOUT: u64 = 10;

/// Time a service may take to stop before it is killed, in seconds.
pub const SERVICE_STOP_GRACE: u64 = 5;

/// Time loggers may take to start before their inputs are closed, in seconds.
pub const LOGGER_PREPARE_GRACE: u64 = 5;

/// Time loggers may take to drain before they are terminated, in seconds.
pub const LOGGER_DRAIN_GRACE: u64 = 5;

/// Time loggers may take to terminate before they are killed, in seconds.
pub const LOGGER_STOP_GRACE: u64 = 2;

/// Time one executed child and one broker answer may take together, in seconds.
pub const STARTUP_DEADLINE: u64 = 10;

/// Exit status recorded for a generation which could not be executed.
pub const SPAWN_FAILURE_EXIT: u8 = 127;

/// Handle of one waiting control client.
#[derive(Clone, Copy, Debug, PartialEq, Eq, Structural)]
pub struct CommandToken {
    /// Number which the connection side assigned.
    pub number: u64,
}

/// Client which is answered once accepted work completes.
#[derive(Clone, Copy, Debug, PartialEq, Eq, Structural)]
pub struct PendingReply {
    /// Waiting client.
    pub command: CommandToken,
    /// Generation reported by the acceptance.
    pub generation: Option<Generation>,
}

/// Acknowledgement which is still owed by the broker.
#[derive(Clone, Copy, Debug, PartialEq, Eq, Structural)]
pub enum PendingSignal {
    /// A signal of the executor's own lifecycle work.
    Lifecycle,
    /// A signal requested by a client.
    Control(PendingReply),
}

/// Purpose of a descriptor lifecycle hook.
#[derive(Clone, Copy, Debug, PartialEq, Eq, Structural)]
pub enum LifecycleHookKind {
    /// Ask the application to reload.
    Reload,
    /// Ask the application to stop.
    Stop,
}

/// Progress of a descriptor lifecycle hook.
#[derive(Clone, Copy, Debug, PartialEq, Eq, Structural)]
pub enum LifecycleHookState {
    /// The hook was requested.
    Starting,
    /// The hook runs.
    Running,
    /// The hook overran and was killed.
    Killing,
    /// The hook succeeded and the lifetime descriptor has to close.
    WaitingLifetime,
}

/// One running descriptor lifecycle hook.
#[derive(Clone, Copy, Debug, PartialEq, Eq, Structural)]
pub struct LifecycleExecution {
    /// Action once the generation ended.
    pub after: Option<StopCompletion>,
    /// Client which waits for the hook.
    pub reply: Option<PendingReply>,
    /// Affected generation.
    pub generation: Generation,
    /// Purpose of the hook.
    pub kind: LifecycleHookKind,
    /// Operator intent before the hook.
    pub previous_desired: DesiredState,
    /// Whether a failed stop returns to readiness.
    pub resume_ready: bool,
    /// Progress of the hook.
    pub state: LifecycleHookState,
    /// Broker task which runs the hook.
    pub task: BrokerTaskId,
    /// Time the hook may run, in seconds.
    pub timeout_seconds: u64,
}

/// Join of a launcher result and a lifetime result.
#[derive(Clone, Copy, Debug, PartialEq, Eq, Structural)]
pub struct DescriptorExecution {
    /// Tracked generation.
    pub generation: Generation,
    /// Result of the launching process.
    pub launcher_result: Option<ChildResult>,
    /// Whether the lifetime ended before the launcher.
    pub lifetime_preceded_launcher: bool,
    /// Result of the lifetime descriptor.
    pub lifetime_result: Option<ChildResult>,
}

impl DescriptorExecution {
    /// A tracked generation of which nothing ended yet.
    pub open spec fn fresh(generation: Generation) -> DescriptorExecution {
        DescriptorExecution {
            generation,
            launcher_result: None,
            lifetime_preceded_launcher: false,
            lifetime_result: None,
        }
    }

    /// A tracked generation of which nothing ended yet.
    #[must_use]
    pub fn new(generation: Generation) -> (descriptor: Self)
        ensures
            descriptor == DescriptorExecution::fresh(generation),
    {
        DescriptorExecution {
            generation,
            launcher_result: None,
            lifetime_preceded_launcher: false,
            lifetime_result: None,
        }
    }
}

/// Order in which loggers are stopped.
#[derive(Clone, Copy, Debug, PartialEq, Eq, Structural)]
pub enum LoggerShutdownTier {
    /// Local file adapters drain first.
    FileAdapters,
    /// The shared external logger drains last.
    SharedLogger,
}

/// Progress of logger shutdown.
#[derive(Clone, Copy, Debug, PartialEq, Eq, Structural)]
pub enum LoggerShutdownState {
    /// Loggers serve the service.
    Running,
    /// Loggers may still start so that buffered output is drained.
    Preparing {
        /// End of the preparation.
        deadline: Moment,
    },
    /// Service inputs are being closed.
    ClosingInputs {
        /// End of the broker's time to answer.
        deadline: Moment,
    },
    /// One tier drains.
    Draining {
        /// End of draining.
        deadline: Moment,
        /// Draining tier.
        tier: LoggerShutdownTier,
    },
    /// One tier was asked to end.
    Terminating {
        /// End of the grace period.
        deadline: Moment,
        /// Whether the tier was killed already.
        kill_sent: bool,
        /// Terminating tier.
        tier: LoggerShutdownTier,
    },
    /// Every logger ended.
    Complete,
}

impl LoggerShutdownState {
    /// Deadline of the current phase.
    pub open spec fn spec_deadline(self) -> Option<Moment> {
        match self {
            LoggerShutdownState::Preparing { deadline } => Some(deadline),
            LoggerShutdownState::ClosingInputs { deadline } => Some(deadline),
            LoggerShutdownState::Draining { deadline, .. } => Some(deadline),
            LoggerShutdownState::Terminating { deadline, .. } => Some(deadline),
            LoggerShutdownState::Running => None,
            LoggerShutdownState::Complete => None,
        }
    }

    /// Whether loggers may still be started.
    pub open spec fn restartable(self) -> bool {
        self is Running || self is Preparing
    }

    /// Deadline of the current phase.
    #[must_use]
    pub fn deadline(self) -> (deadline: Option<Moment>)
        ensures
            deadline == self.spec_deadline(),
    {
        match self {
            LoggerShutdownState::Preparing { deadline }
            | LoggerShutdownState::ClosingInputs { deadline }
            | LoggerShutdownState::Draining { deadline, .. }
            | LoggerShutdownState::Terminating { deadline, .. } => Some(deadline),
            LoggerShutdownState::Running | LoggerShutdownState::Complete => None,
        }
    }

    /// Whether loggers may still be started.
    #[must_use]
    pub fn permits_restart(self) -> (permitted: bool)
        ensures
            permitted == self.restartable(),
    {
        matches!(self, LoggerShutdownState::Running | LoggerShutdownState::Preparing { .. })
    }
}

/// Progress of one logger process.
#[derive(Clone, Copy, Debug, PartialEq, Eq, Structural)]
pub enum LoggerExecutionState {
    /// No process exists.
    Down,
    /// The process was requested.
    Starting {
        /// Broker task of the process.
        task: BrokerTaskId,
        /// End of the time to start.
        deadline: Moment,
    },
    /// The process runs.
    Running {
        /// Broker task of the process.
        task: BrokerTaskId,
        /// When the process started.
        started_at: Moment,
    },
    /// The process ended and waits to be restarted.
    Backoff {
        /// End of the delay.
        deadline: Moment,
    },
    /// The process used up its restarts.
    Failed,
    /// The process was asked to end.
    Killing {
        /// Broker task of the process.
        task: BrokerTaskId,
        /// End of the time to end.
        deadline: Moment,
    },
}

impl LoggerExecutionState {
    /// Broker task of the process.
    pub open spec fn spec_task(self) -> Option<BrokerTaskId> {
        match self {
            LoggerExecutionState::Starting { task, .. } => Some(task),
            LoggerExecutionState::Running { task, .. } => Some(task),
            LoggerExecutionState::Killing { task, .. } => Some(task),
            _ => None,
        }
    }

    /// Deadline of the current phase.
    pub open spec fn spec_deadline(self) -> Option<Moment> {
        match self {
            LoggerExecutionState::Starting { deadline, .. } => Some(deadline),
            LoggerExecutionState::Backoff { deadline } => Some(deadline),
            LoggerExecutionState::Killing { deadline, .. } => Some(deadline),
            _ => None,
        }
    }

    /// Broker task of the process.
    #[must_use]
    pub fn task(self) -> (task: Option<BrokerTaskId>)
        ensures
            task == self.spec_task(),
    {
        match self {
            LoggerExecutionState::Starting { task, .. }
            | LoggerExecutionState::Running { task, .. }
            | LoggerExecutionState::Killing { task, .. } => Some(task),
            LoggerExecutionState::Down
            | LoggerExecutionState::Backoff { .. }
            | LoggerExecutionState::Failed => None,
        }
    }

    /// Deadline of the current phase.
    #[must_use]
    pub fn deadline(self) -> (deadline: Option<Moment>)
        ensures
            deadline == self.spec_deadline(),
    {
        match self {
            LoggerExecutionState::Starting { deadline, .. }
            | LoggerExecutionState::Backoff { deadline }
            | LoggerExecutionState::Killing { deadline, .. } => Some(deadline),
            LoggerExecutionState::Down
            | LoggerExecutionState::Running { .. }
            | LoggerExecutionState::Failed => None,
        }
    }
}

/// One broker-owned logger.
#[derive(Clone, Copy, Debug, PartialEq, Eq, Structural)]
pub struct LoggerExecution {
    /// Consecutive failures since the last sufficiently long run.
    pub failure_streak: u32,
    /// Identity of the logger.
    pub logger: BrokerLoggerId,
    /// Progress of its process.
    pub state: LoggerExecutionState,
}

impl LoggerExecution {
    /// A logger which never started.
    pub open spec fn fresh(logger: BrokerLoggerId) -> LoggerExecution {
        LoggerExecution { failure_streak: 0, logger, state: LoggerExecutionState::Down }
    }

    /// A logger which never started.
    #[must_use]
    pub fn new(logger: BrokerLoggerId) -> (execution: Self)
        ensures
            execution == LoggerExecution::fresh(logger),
    {
        LoggerExecution { failure_streak: 0, logger, state: LoggerExecutionState::Down }
    }
}

/// Auxiliary task which never owns the service generation.
#[derive(Clone, Copy, Debug, PartialEq, Eq, Structural)]
pub enum AuxiliaryExecution {
    /// No task exists.
    Idle,
    /// A start condition was requested.
    Starting(BrokerTaskId),
    /// A start condition runs.
    Running(BrokerTaskId),
    /// A start condition was killed.
    Killing {
        /// Killed task.
        task: BrokerTaskId,
        /// Whether the condition is evaluated again.
        retry: bool,
    },
    /// The start condition passed.
    Passed,
    /// A post-exit hook was requested.
    HookStarting(BrokerTaskId),
    /// A post-exit hook runs.
    HookRunning(BrokerTaskId),
    /// A post-exit hook was killed.
    HookKilling(BrokerTaskId),
}

impl Default for AuxiliaryExecution {
    fn default() -> (auxiliary: Self)
        ensures
            auxiliary == AuxiliaryExecution::Idle,
    {
        AuxiliaryExecution::Idle
    }
}

impl AuxiliaryExecution {
    /// Whether no task is in flight.
    pub open spec fn idle(self) -> bool {
        self is Idle || self is Passed
    }

    /// Whether a post-exit hook is in flight.
    pub open spec fn hook(self) -> bool {
        self is HookStarting || self is HookRunning || self is HookKilling
    }

    /// Whether no task is in flight.
    #[must_use]
    pub fn is_idle(self) -> (idle: bool)
        ensures
            idle == self.idle(),
    {
        matches!(self, AuxiliaryExecution::Idle | AuxiliaryExecution::Passed)
    }

    /// Whether a post-exit hook is in flight.
    #[must_use]
    pub fn is_hook(self) -> (hook: bool)
        ensures
            hook == self.hook(),
    {
        matches!(
            self,
            AuxiliaryExecution::HookStarting(_)
                | AuxiliaryExecution::HookRunning(_)
                | AuxiliaryExecution::HookKilling(_)
        )
    }
}

/// Ended generation whose restart decision waits for its post-exit hook.
#[derive(Clone, Copy, Debug, PartialEq, Eq, Structural)]
pub struct PendingCompletion {
    /// Ended generation.
    pub generation: Generation,
    /// Result which restart policy sees.
    pub policy_result: ChildResult,
    /// How long the generation ran.
    pub runtime_seconds: u64,
    /// Operator-requested action, which overrides policy.
    pub stop: Option<StopCompletion>,
}

/// Live generation which is being handed over.
#[derive(Clone, Copy, Debug, PartialEq, Eq, Structural)]
pub struct PendingDetach {
    /// Generation to hand over.
    pub generation: Generation,
    /// Operator intent before the request.
    pub previous_desired: DesiredState,
    /// Client which waits for the outcome.
    pub reply: PendingReply,
}

/// Observable runtime detail of the service.
#[derive(Clone, Copy, Debug, PartialEq, Eq, Structural)]
pub struct RuntimeStatus {
    /// When the last generation ended.
    pub down_since: Option<Moment>,
    /// Failed generations.
    pub failures: u64,
    /// Result of the last generation.
    pub last_result: Option<ChildResult>,
    /// Whether the last generation broke its readiness contract.
    pub last_readiness_failed: bool,
    /// Whether the last generation could not be executed.
    pub last_start_failed: bool,
    /// Main process of the current generation.
    pub main_pid: Option<u32>,
    /// Whether the main process is published in a PID file.
    pub publishes_main_pid: bool,
    /// Whether the current generation broke its readiness contract.
    pub readiness_failed: bool,
    /// When the current generation started.
    pub started_at: Option<Moment>,
}

/// Commands which preparation made available.
#[derive(Clone, Copy, Debug, PartialEq, Eq, Structural)]
pub struct PreparedCommands {
    /// The start condition.
    pub condition: bool,
    /// The descriptor reload hook.
    pub descriptor_reload: bool,
    /// The descriptor stop hook.
    pub descriptor_stop: bool,
    /// The post-exit hook.
    pub post_exit: bool,
}

/// What a post-exit hook is told about the generation which ended.
#[derive(Clone, Copy, Debug, PartialEq, Eq, Structural)]
pub struct PostExitContext {
    /// Ended generation.
    pub generation: Generation,
    /// Its result.
    pub result: ChildResult,
    /// Whether it could not be executed.
    pub start_failed: bool,
    /// Whether it broke its readiness contract.
    pub readiness_failed: bool,
}

/// Prepared command run by an auxiliary task.
#[derive(Clone, Copy, Debug, PartialEq, Eq, Structural)]
pub enum TaskCommand {
    /// Evaluate the start condition.
    Condition,
    /// Ask the application to reload.
    DescriptorReload,
    /// Ask the application to stop.
    DescriptorStop,
    /// Run the post-exit hook.
    PostExit(PostExitContext),
}

/// Work for the broker or the main PID file.
#[derive(Clone, Copy, Debug, PartialEq, Eq, Structural)]
pub enum BrokerAction {
    /// Execute a generation which is ready at once.
    Spawn {
        /// Generation to execute.
        generation: Generation,
        /// Time to execute, in seconds.
        timeout_seconds: u64,
    },
    /// Execute a generation which reports readiness.
    SpawnWithReadiness {
        /// Generation to execute.
        generation: Generation,
        /// Time to execute, in seconds.
        timeout_seconds: u64,
        /// Time to report readiness, in seconds.
        readiness_seconds: u64,
    },
    /// Execute a generation which is tracked by a lifetime descriptor.
    SpawnWithLifetime {
        /// Generation to execute.
        generation: Generation,
        /// Time to execute, in seconds.
        timeout_seconds: u64,
        /// Time to report readiness, in seconds.
        readiness_seconds: Option<u64>,
    },
    /// Run an auxiliary command.
    SpawnTask {
        /// Task to run it as.
        task: BrokerTaskId,
        /// Prepared command.
        command: TaskCommand,
        /// Time to execute, in seconds.
        timeout_seconds: u64,
    },
    /// Start a logger.
    SpawnLogger {
        /// Task to run it as.
        task: BrokerTaskId,
        /// Logger to start.
        logger: BrokerLoggerId,
        /// Time to execute, in seconds.
        timeout_seconds: u64,
    },
    /// Signal a generation.
    Signal {
        /// Signalled generation.
        generation: Generation,
        /// Signal target.
        scope: BrokerSignalScope,
        /// Signal to deliver.
        signal: ProcessSignal,
    },
    /// Signal an auxiliary task.
    SignalTask {
        /// Signalled task.
        task: BrokerTaskId,
        /// Signal target.
        scope: BrokerSignalScope,
        /// Signal to deliver.
        signal: ProcessSignal,
    },
    /// Hand a live generation over.
    Detach {
        /// Generation to hand over.
        generation: Generation,
    },
    /// Close the service's logger inputs.
    CloseLoggerInputs,
    /// Publish the main process in its PID file.
    PublishMainPid {
        /// Main process.
        process: u32,
    },
    /// Remove the published PID file.
    RemoveMainPid,
}

/// One piece of queued work.
#[derive(Debug)]
pub enum ExecutorAction {
    /// Work for the broker or the PID file.
    Broker(BrokerAction),
    /// Answer a waiting client.
    Respond {
        /// Waiting client.
        command: CommandToken,
        /// Answer.
        response: Response,
    },
}

/// Pure view of queued work.
pub enum ActionModel {
    Broker(BrokerAction),
    Respond { command: CommandToken, response: ResponseModel },
}

impl View for ExecutorAction {
    type V = ActionModel;

    open spec fn view(&self) -> ActionModel {
        match *self {
            ExecutorAction::Broker(action) => ActionModel::Broker(action),
            ExecutorAction::Respond { command, response } => ActionModel::Respond {
                command,
                response: response@,
            },
        }
    }
}

/// Views of queued work in order.
pub open spec fn action_views(actions: Seq<ExecutorAction>) -> Seq<ActionModel> {
    actions.map_values(|action: ExecutorAction| action@)
}

/// What a handler sees besides the context: configuration, prepared commands,
/// the broker's identity, and the time of the event.
#[derive(Clone, Copy, Debug)]
pub struct Surroundings<'a> {
    /// Validated service definition.
    pub config: &'a ServiceConfig,
    /// Commands which preparation made available.
    pub commands: PreparedCommands,
    /// Broker process, which seeds jitter.
    pub broker: ProcessId,
    /// Time of the event.
    pub now: Moment,
}

/// Pure view of the supervision context.
#[verifier::ext_equal]
pub struct ExecutionModel {
    pub auxiliary: AuxiliaryExecution,
    pub condition_tracker: ConditionTracker,
    pub deadline: Option<Moment>,
    pub descriptor: Option<DescriptorExecution>,
    pub epoch: Moment,
    pub first_start: bool,
    pub logger_shutdown: LoggerShutdownState,
    pub lifecycle: Option<LifecycleExecution>,
    pub loggers: Seq<LoggerExecution>,
    pub machine: MachineModel,
    pub next_task: u64,
    pub pending_completion: Option<PendingCompletion>,
    pub pending_detach: Option<PendingDetach>,
    pub pending_signals: Seq<PendingSignal>,
    pub pending_stop: Option<StopCompletion>,
    pub status: RuntimeStatus,
    pub stop_kill_sent: bool,
    pub shutdown_requested: bool,
    pub tracker: TrackerModel,
    pub terminal_failure: Option<FailureReason>,
    pub command: Seq<Seq<char>>,
    pub outbox: Seq<ActionModel>,
}

/// Result of one handling step: the context it leaves and whether it failed.
#[verifier::ext_equal]
pub struct Step {
    pub context: ExecutionModel,
    pub error: Option<ErrorModel>,
}

/// A step which succeeded.
pub open spec fn done(context: ExecutionModel) -> Step {
    Step { context, error: None }
}

/// A step which failed.
pub open spec fn failed(context: ExecutionModel, error: ErrorModel) -> Step {
    Step { context, error: Some(error) }
}

/// What a handler did, over its result and the context it left.
pub open spec fn stepped(
    step: Step,
    after: ExecutionModel,
    result: Result<(), ExecutorError>,
) -> bool {
    &&& step.context == after
    &&& match result {
        Ok(()) => step.error is None,
        Err(error) => step.error == Some(error@),
    }
}

/// A context with one more piece of queued work.
pub open spec fn queued(context: ExecutionModel, action: ActionModel) -> ExecutionModel {
    ExecutionModel { outbox: context.outbox.push(action), ..context }
}

/// A context with one more piece of broker work.
pub open spec fn requested(context: ExecutionModel, action: BrokerAction) -> ExecutionModel {
    queued(context, ActionModel::Broker(action))
}

/// Offer a transition to the machine.
pub open spec fn transited(context: ExecutionModel, transition: Transition) -> Step {
    match machine::successor(context.machine, transition) {
        Some(_) => done(
            ExecutionModel {
                machine: machine::advanced(context.machine, transition),
                ..context
            },
        ),
        None => failed(
            context,
            ErrorModel::Transition(context.machine.state, machine::transition_name(transition)),
        ),
    }
}

/// Context with replaced operator intent.
pub open spec fn intending(context: ExecutionModel, desired: DesiredState) -> ExecutionModel {
    ExecutionModel { machine: MachineModel { desired, ..context.machine }, ..context }
}

/// Acceptance which a pending client was promised.
pub open spec fn acceptance_reply(reply: PendingReply) -> ResponseModel {
    ResponseModel {
        code: ResponseCode::Success,
        generation: reply.generation,
        message: "accepted; awaiting lifecycle completion"@,
        status: None,
    }
}

/// Answer a pending client.
pub open spec fn replied(
    context: ExecutionModel,
    reply: PendingReply,
    code: ResponseCode,
    message: Seq<char>,
) -> ExecutionModel {
    queued(
        context,
        ActionModel::Respond {
            command: reply.command,
            response: ResponseModel {
                code,
                message,
                ..acceptance_reply(reply)
            },
        },
    )
}

/// An operating-system failure raised by a rule.
pub open spec fn os_failure(kind: FaultKind, message: Seq<char>) -> ErrorModel {
    ErrorModel::OperatingSystem(crate::fault::raised(kind, message))
}

/// Context without a published main process.
pub open spec fn pid_cleared(context: ExecutionModel) -> ExecutionModel {
    let removed = if context.status.publishes_main_pid && context.status.main_pid is Some {
        requested(context, BrokerAction::RemoveMainPid)
    } else {
        context
    };
    ExecutionModel { status: RuntimeStatus { main_pid: None, ..removed.status }, ..removed }
}

/// Allocation of the next auxiliary task.
pub open spec fn allocated(context: ExecutionModel) -> Step {
    if context.next_task == 0 {
        failed(
            context,
            os_failure(
                FaultKind::Other,
                "pre-start condition task identifier space is exhausted"@,
            ),
        )
    } else if context.next_task == u64::MAX {
        failed(
            context,
            os_failure(
                FaultKind::Other,
                "pre-start condition task identifier overflow"@,
            ),
        )
    } else {
        done(
            ExecutionModel { next_task: (context.next_task + 1) as u64, ..context },
        )
    }
}

/// Single-owner supervision context.
#[derive(Debug)]
pub struct ExecutionContext {
    pub auxiliary: AuxiliaryExecution,
    pub condition_tracker: ConditionTracker,
    pub deadline: Option<Moment>,
    pub descriptor: Option<DescriptorExecution>,
    pub epoch: Moment,
    pub first_start: bool,
    pub logger_shutdown: LoggerShutdownState,
    pub lifecycle: Option<LifecycleExecution>,
    pub loggers: Vec<LoggerExecution>,
    pub machine: StateMachine,
    pub next_task: u64,
    pub pending_completion: Option<PendingCompletion>,
    pub pending_detach: Option<PendingDetach>,
    pub pending_signals: std::collections::VecDeque<PendingSignal>,
    pub pending_stop: Option<StopCompletion>,
    pub status: RuntimeStatus,
    pub stop_kill_sent: bool,
    pub shutdown_requested: bool,
    pub tracker: RestartTracker,
    pub terminal_failure: Option<FailureReason>,
    pub command: Vec<String>,
    pub outbox: Vec<ExecutorAction>,
}

impl View for ExecutionContext {
    type V = ExecutionModel;

    open spec fn view(&self) -> ExecutionModel {
        ExecutionModel {
            auxiliary: self.auxiliary,
            condition_tracker: self.condition_tracker,
            deadline: self.deadline,
            descriptor: self.descriptor,
            epoch: self.epoch,
            first_start: self.first_start,
            logger_shutdown: self.logger_shutdown,
            lifecycle: self.lifecycle,
            loggers: self.loggers@,
            machine: self.machine@,
            next_task: self.next_task,
            pending_completion: self.pending_completion,
            pending_detach: self.pending_detach,
            pending_signals: self.pending_signals@,
            pending_stop: self.pending_stop,
            status: self.status,
            stop_kill_sent: self.stop_kill_sent,
            shutdown_requested: self.shutdown_requested,
            tracker: self.tracker@,
            terminal_failure: self.terminal_failure,
            command: text::texts(self.command@),
            outbox: action_views(self.outbox@),
        }
    }
}

/// Status before anything started.
pub open spec fn initial_status(publishes_main_pid: bool) -> RuntimeStatus {
    RuntimeStatus {
        down_since: None,
        failures: 0,
        last_result: None,
        last_readiness_failed: false,
        last_start_failed: false,
        main_pid: None,
        publishes_main_pid,
        readiness_failed: false,
        started_at: None,
    }
}

/// Context before anything started.
pub open spec fn initial_context(
    config: ServiceConfig,
    loggers: Seq<BrokerLoggerId>,
    initializing: bool,
    now: Moment,
) -> ExecutionModel {
    ExecutionModel {
        auxiliary: AuxiliaryExecution::Idle,
        condition_tracker: ConditionTracker { streak: 0 },
        deadline: None,
        descriptor: None,
        epoch: now,
        first_start: true,
        logger_shutdown: LoggerShutdownState::Running,
        lifecycle: None,
        loggers: loggers.map_values(|logger: BrokerLoggerId| LoggerExecution::fresh(logger)),
        machine: MachineModel {
            desired: DesiredState::Up,
            state: if initializing {
                SupervisorState::Initializing
            } else {
                SupervisorState::Down
            },
            allocated: 0,
        },
        next_task: 1,
        pending_completion: None,
        pending_detach: None,
        pending_signals: Seq::empty(),
        pending_stop: None,
        status: initial_status(config.pid_files.main is Some),
        stop_kill_sent: false,
        shutdown_requested: false,
        tracker: TrackerModel { total_starts: 0, streak: 0, recent: Seq::empty() },
        terminal_failure: None,
        command: text::texts(config.command@),
        outbox: Seq::empty(),
    }
}

/// Whether every logger runs.
pub open spec fn all_running(loggers: Seq<LoggerExecution>) -> bool {
    forall|i: int| 0 <= i < loggers.len() ==> (#[trigger] loggers[i]).state is Running
}

/// Whether some logger used up its restarts.
pub open spec fn any_failed(loggers: Seq<LoggerExecution>) -> bool {
    exists|i: int| 0 <= i < loggers.len() && (#[trigger] loggers[i]).state is Failed
}

/// Whether some logger waits to be restarted.
pub open spec fn any_backoff(loggers: Seq<LoggerExecution>) -> bool {
    exists|i: int| 0 <= i < loggers.len() && (#[trigger] loggers[i]).state is Backoff
}

/// Combined logger health: failure outweighs backoff, which outweighs start.
pub open spec fn logger_health(loggers: Seq<LoggerExecution>) -> LoggerStatus {
    if loggers.len() == 0 {
        LoggerStatus::NotConfigured
    } else if any_failed(loggers) {
        LoggerStatus::Failed
    } else if any_backoff(loggers) {
        LoggerStatus::Backoff
    } else if all_running(loggers) {
        LoggerStatus::Ready
    } else {
        LoggerStatus::Starting
    }
}

/// Combined health of the configured loggers.
#[must_use]
pub fn logger_status(loggers: &[LoggerExecution]) -> (health: LoggerStatus)
    ensures
        health == logger_health(loggers@),
{
    if loggers.len() == 0 {
        return LoggerStatus::NotConfigured;
    }
    let mut failed: bool = false;
    let mut backoff: bool = false;
    let mut running: bool = true;
    let mut index: usize = 0;
    while index < loggers.len()
        invariant
            index <= loggers@.len(),
            failed == (exists|i: int| 0 <= i < index && (#[trigger] loggers@[i]).state is Failed),
            backoff == (exists|i: int|
                0 <= i < index && (#[trigger] loggers@[i]).state is Backoff),
            running == (forall|i: int|
                0 <= i < index ==> (#[trigger] loggers@[i]).state is Running),
        decreases loggers@.len() - index,
    {
        match loggers[index].state {
            LoggerExecutionState::Failed => {
                assert(loggers@[index as int].state is Failed);
                failed = true;
                running = false;
            },
            LoggerExecutionState::Backoff { .. } => {
                assert(loggers@[index as int].state is Backoff);
                backoff = true;
                running = false;
            },
            LoggerExecutionState::Running { .. } => {},
            LoggerExecutionState::Down
            | LoggerExecutionState::Starting { .. }
            | LoggerExecutionState::Killing { .. } => {
                assert(!(loggers@[index as int].state is Running));
                running = false;
            },
        }
        index = index + 1;
    }
    if failed {
        LoggerStatus::Failed
    } else if backoff {
        LoggerStatus::Backoff
    } else if running {
        LoggerStatus::Ready
    } else {
        LoggerStatus::Starting
    }
}

/// The deadline which is due first: the logger-shutdown phase stands in for the
/// service deadline, and every logger may be due earlier.
pub open spec fn first_deadline(context: ExecutionModel, first: Option<Moment>) -> bool {
    let base = match context.logger_shutdown.spec_deadline() {
        Some(deadline) => Some(deadline),
        None => context.deadline,
    };
    let loggers = context.loggers;
    match first {
        None => {
            &&& base is None
            &&& forall|i: int|
                0 <= i < loggers.len() ==> (#[trigger] loggers[i]).state.spec_deadline() is None
        },
        Some(first) => {
            &&& base == Some(first) || exists|i: int|
                0 <= i < loggers.len() && (#[trigger] loggers[i]).state.spec_deadline() == Some(
                    first,
                )
            &&& base matches Some(deadline) ==> first.nanoseconds <= deadline.nanoseconds
            &&& forall|i: int|
                0 <= i < loggers.len() ==> ((#[trigger] loggers[i]).state.spec_deadline() matches
                    Some(deadline) ==> first.nanoseconds <= deadline.nanoseconds)
        },
    }
}

/// Last result as it is shown to clients.
pub open spec fn shown_result(runtime: RuntimeStatus) -> Option<LastResult> {
    match runtime.last_result {
        None => None,
        Some(result) => Some(
            if runtime.last_readiness_failed {
                LastResult::ReadinessTimeout
            } else if runtime.last_start_failed {
                LastResult::SpawnFailed
            } else {
                match result {
                    ChildResult::Exited(code) => LastResult::Exited(code),
                    ChildResult::Signaled(signal) => LastResult::Signaled(signal),
                    ChildResult::LifetimeClosed => LastResult::LifetimeClosed,
                    ChildResult::LifetimeFailed => LastResult::LifetimeFailed,
                }
            },
        ),
    }
}

/// Complete status of a context.
pub open spec fn observed_status(
    context: ExecutionModel,
    supervisor: u32,
    now: Moment,
) -> StatusModel {
    StatusModel {
        supervisor_pid: Some(supervisor),
        main_pid: context.status.main_pid,
        uptime_seconds: match context.status.started_at {
            Some(started) => Some(now.since(started)),
            None => None,
        },
        down_seconds: match context.status.down_since {
            Some(ended) => Some(now.since(ended)),
            None => None,
        },
        starts: context.tracker.total_starts,
        failures: context.status.failures,
        last_result: shown_result(context.status),
        backoff_seconds: if context.machine.state is Backoff {
            match context.deadline {
                Some(deadline) => Some(deadline.since(now)),
                None => None,
            }
        } else {
            None
        },
        logger: logger_health(context.loggers),
        command: context.command,
        ..status::machine_status(context.machine)
    }
}

impl ExecutionContext {
    /// A context before anything started.
    #[must_use]
    pub fn new(
        config: &ServiceConfig,
        loggers: &Vec<BrokerLoggerId>,
        initializing: bool,
        now: Moment,
    ) -> (context: Self)
        ensures
            context@ == initial_context(*config, loggers@, initializing, now),
    {
        let mut executions: Vec<LoggerExecution> = Vec::new();
        let mut index: usize = 0;
        while index < loggers.len()
            invariant
                index <= loggers@.len(),
                executions@.len() == index,
                forall|i: int|
                    0 <= i < index ==> #[trigger] executions@[i] == LoggerExecution::fresh(
                        loggers@[i],
                    ),
            decreases loggers@.len() - index,
        {
            executions.push(LoggerExecution::new(loggers[index]));
            index = index + 1;
        }
        let context = ExecutionContext {
            auxiliary: AuxiliaryExecution::Idle,
            condition_tracker: ConditionTracker::default(),
            deadline: None,
            descriptor: None,
            epoch: now,
            first_start: true,
            logger_shutdown: LoggerShutdownState::Running,
            lifecycle: None,
            loggers: executions,
            machine: if initializing {
                StateMachine::initializing(DesiredState::Up)
            } else {
                StateMachine::default()
            },
            next_task: 1,
            pending_completion: None,
            pending_detach: None,
            pending_signals: std::collections::VecDeque::new(),
            pending_stop: None,
            status: RuntimeStatus {
                down_since: None,
                failures: 0,
                last_result: None,
                last_readiness_failed: false,
                last_start_failed: false,
                main_pid: None,
                publishes_main_pid: config.pid_files.main.is_some(),
                readiness_failed: false,
                started_at: None,
            },
            stop_kill_sent: false,
            shutdown_requested: false,
            tracker: RestartTracker::default(),
            terminal_failure: None,
            command: text::copy_texts(&config.command),
            outbox: Vec::new(),
        };
        assert(context@ =~= initial_context(*config, loggers@, initializing, now));
        context
    }

    /// Whether every logger runs.
    #[must_use]
    pub fn loggers_ready(&self) -> (ready: bool)
        ensures
            ready == all_running(self@.loggers),
    {
        let mut index: usize = 0;
        while index < self.loggers.len()
            invariant
                index <= self.loggers@.len(),
                forall|i: int| 0 <= i < index ==> (#[trigger] self.loggers@[i]).state is Running,
            decreases self.loggers@.len() - index,
        {
            if !matches!(self.loggers[index].state, LoggerExecutionState::Running { .. }) {
                assert(!(self.loggers@[index as int].state is Running));
                return false;
            }
            index = index + 1;
        }
        true
    }

    /// Whether some logger used up its restarts.
    #[must_use]
    pub fn loggers_failed(&self) -> (failed: bool)
        ensures
            failed == any_failed(self@.loggers),
    {
        let mut index: usize = 0;
        while index < self.loggers.len()
            invariant
                index <= self.loggers@.len(),
                forall|i: int|
                    0 <= i < index ==> !((#[trigger] self.loggers@[i]).state is Failed),
            decreases self.loggers@.len() - index,
        {
            if matches!(self.loggers[index].state, LoggerExecutionState::Failed) {
                assert(self.loggers@[index as int].state is Failed);
                return true;
            }
            index = index + 1;
        }
        false
    }

    /// The deadline which is due first.
    #[must_use]
    pub fn next_deadline(&self) -> (first: Option<Moment>)
        ensures
            first_deadline(self@, first),
    {
        let mut first: Option<Moment> = match self.logger_shutdown.deadline() {
            Some(deadline) => Some(deadline),
            None => self.deadline,
        };
        let ghost base = first;
        let mut index: usize = 0;
        while index < self.loggers.len()
            invariant
                index <= self.loggers@.len(),
                first is None ==> base is None && forall|i: int|
                    0 <= i < index ==> (#[trigger] self.loggers@[i]).state.spec_deadline() is None,
                first matches Some(current) ==> {
                    &&& base == Some(current) || exists|i: int|
                        0 <= i < index && (#[trigger] self.loggers@[i]).state.spec_deadline()
                            == Some(current)
                    &&& base matches Some(deadline) ==> current.nanoseconds <= deadline.nanoseconds
                    &&& forall|i: int|
                        0 <= i < index ==> ((#[trigger] self.loggers@[i]).state.spec_deadline()
                            matches Some(deadline) ==> current.nanoseconds
                            <= deadline.nanoseconds)
                },
            decreases self.loggers@.len() - index,
        {
            if let Some(deadline) = self.loggers[index].state.deadline() {
                assert(self.loggers@[index as int].state.spec_deadline() == Some(deadline));
                match first {
                    Some(current) => {
                        if deadline.nanoseconds < current.nanoseconds {
                            first = Some(deadline);
                        }
                    },
                    None => {
                        first = Some(deadline);
                    },
                }
            }
            index = index + 1;
        }
        first
    }

    /// Complete status of this context.
    #[must_use]
    pub fn snapshot(&self, supervisor: u32, now: Moment) -> (snapshot: StatusSnapshot)
        ensures
            snapshot@ == observed_status(self@, supervisor, now),
    {
        let mut snapshot = StatusSnapshot::from_machine(&self.machine);
        snapshot.supervisor_pid = Some(supervisor);
        snapshot.main_pid = self.status.main_pid;
        snapshot.uptime_seconds = match self.status.started_at {
            Some(started) => Some(now.seconds_since(started)),
            None => None,
        };
        snapshot.down_seconds = match self.status.down_since {
            Some(ended) => Some(now.seconds_since(ended)),
            None => None,
        };
        snapshot.starts = self.tracker.total_starts();
        snapshot.failures = self.status.failures;
        snapshot.last_result = match self.status.last_result {
            None => None,
            Some(result) => Some(
                if self.status.last_readiness_failed {
                    LastResult::ReadinessTimeout
                } else if self.status.last_start_failed {
                    LastResult::SpawnFailed
                } else {
                    match result {
                        ChildResult::Exited(code) => LastResult::Exited(code),
                        ChildResult::Signaled(signal) => LastResult::Signaled(signal),
                        ChildResult::LifetimeClosed => LastResult::LifetimeClosed,
                        ChildResult::LifetimeFailed => LastResult::LifetimeFailed,
                    }
                },
            ),
        };
        snapshot.backoff_seconds =
        if matches!(self.machine.state(), SupervisorState::Backoff { .. }) {
            match self.deadline {
                Some(deadline) => Some(deadline.seconds_since(now)),
                None => None,
            }
        } else {
            None
        };
        snapshot.logger = logger_status(self.loggers.as_slice());
        snapshot.command = text::copy_texts(&self.command);
        snapshot
    }

    /// Queue work for the broker or the PID file.
    pub(crate) fn request(&mut self, action: BrokerAction)
        ensures
            final(self)@ == requested(old(self)@, action),
    {
        self.outbox.push(ExecutorAction::Broker(action));
        assert(self@ =~= requested(old(self)@, action));
    }

    /// Queue an answer to a waiting client.
    pub(crate) fn respond(&mut self, command: CommandToken, response: Response)
        ensures
            final(self)@ == queued(
                old(self)@,
                ActionModel::Respond { command, response: response@ },
            ),
    {
        self.outbox.push(ExecutorAction::Respond { command, response });
        assert(self@ =~= queued(
            old(self)@,
            ActionModel::Respond { command, response: response@ },
        ));
    }

    /// Answer a pending client with its acceptance, changed as given.
    pub(crate) fn reply(&mut self, reply: PendingReply, code: ResponseCode, message: &str)
        ensures
            final(self)@ == replied(old(self)@, reply, code, message@),
    {
        self.respond(
            reply.command,
            Response {
                code,
                generation: reply.generation,
                message: message.to_owned(),
                status: None,
            },
        );
    }

    /// Take the queued work.
    pub fn take_actions(&mut self) -> (actions: Vec<ExecutorAction>)
        ensures
            action_views(actions@) == old(self)@.outbox,
            final(self)@ == (ExecutionModel { outbox: Seq::empty(), ..old(self)@ }),
    {
        let mut actions: Vec<ExecutorAction> = Vec::new();
        std::mem::swap(&mut actions, &mut self.outbox);
        assert(self@ =~= (ExecutionModel { outbox: Seq::empty(), ..old(self)@ }));
        actions
    }
}

impl ExecutionContext {
    /// Forget the main process and remove its PID file.
    pub(crate) fn clear_main_pid(&mut self)
        ensures
            final(self)@ == pid_cleared(old(self)@),
    {
        if self.status.publishes_main_pid && self.status.main_pid.is_some() {
            self.request(BrokerAction::RemoveMainPid);
        }
        self.status.main_pid = None;
        assert(self@ =~= pid_cleared(old(self)@));
    }

    /// Allocate the next auxiliary task.
    pub(crate) fn allocate_task(&mut self) -> (result: Result<
        BrokerTaskId,
        ExecutorError,
    >)
        ensures
            match result {
                Ok(task) => {
                    &&& allocated(old(self)@) == done(final(self)@)
                    &&& task == BrokerTaskId::of(old(self)@.next_task)
                },
                Err(error) => allocated(old(self)@) == failed(final(self)@, error@),
            },
    {
        let task = match BrokerTaskId::new(self.next_task) {
            Some(task) => task,
            None => return Err(
                os_error(
                    FaultKind::Other,
                    "pre-start condition task identifier space is exhausted",
                ),
            ),
        };
        if self.next_task == u64::MAX {
            return Err(
                os_error(
                    FaultKind::Other,
                    "pre-start condition task identifier overflow",
                ),
            );
        }
        self.next_task = self.next_task + 1;
        assert(self@ =~= allocated(old(self)@).context);
        Ok(task)
    }
}

/// Convert a refused transition.
pub(crate) fn transition_error(error: TransitionError) -> (converted: ExecutorError)
    ensures
        converted@ == ErrorModel::Transition(error.refused_in(), error.event_name()),
{
    ExecutorError::Transition(error)
}

/// An operating-system failure raised by a rule.
pub(crate) fn os_error(kind: FaultKind, message: &str) -> (error: ExecutorError)
    ensures
        error@ == os_failure(kind, message@),
{
    ExecutorError::OperatingSystem(Fault::new(kind, message))
}

// ---------------------------------------------------------------------------
// Laws
// ---------------------------------------------------------------------------

/// The health which clients see is that of the worst logger: one failed logger shows
/// as failure, one waiting logger without a failed one as backoff, and only loggers
/// which all run as readiness.
pub proof fn the_worst_logger_is_shown(loggers: Seq<LoggerExecution>, at: int)
    ensures
        logger_health(loggers) == LoggerStatus::NotConfigured <==> loggers.len() == 0,
        0 <= at < loggers.len() && loggers[at].state is Failed ==> logger_health(loggers)
            == LoggerStatus::Failed,
        0 <= at < loggers.len() && loggers[at].state is Backoff ==> logger_health(loggers)
            == LoggerStatus::Backoff || logger_health(loggers) == LoggerStatus::Failed,
        0 <= at < loggers.len() && !(loggers[at].state is Running) ==> logger_health(loggers)
            != LoggerStatus::Ready,
        loggers.len() > 0 && (forall|i: int|
            0 <= i < loggers.len() ==> (#[trigger] loggers[i]).state is Running)
            ==> logger_health(loggers) == LoggerStatus::Ready,
        logger_health(loggers) == LoggerStatus::Failed ==> exists|i: int|
            0 <= i < loggers.len() && (#[trigger] loggers[i]).state is Failed,
        logger_health(loggers) == LoggerStatus::Backoff ==> exists|i: int|
            0 <= i < loggers.len() && (#[trigger] loggers[i]).state is Backoff,
{
}

/// The last result which clients see is the one the generation ended with, except that
/// a generation which never became ready or never started shows that instead.
pub proof fn results_are_shown_as_observed(runtime: RuntimeStatus, code: u8)
    ensures
        shown_result(runtime) is None <==> runtime.last_result is None,
        runtime.last_result is Some && runtime.last_readiness_failed ==> shown_result(runtime)
            == Some(LastResult::ReadinessTimeout),
        runtime.last_result is Some && !runtime.last_readiness_failed && runtime.last_start_failed
            ==> shown_result(runtime) == Some(LastResult::SpawnFailed),
        !runtime.last_readiness_failed && !runtime.last_start_failed ==> (shown_result(runtime)
            == Some(LastResult::Exited(code)) <==> runtime.last_result == Some(
            ChildResult::Exited(code),
        )) && (shown_result(runtime) == Some(LastResult::Signaled(code)) <==> runtime.last_result
            == Some(ChildResult::Signaled(code))) && (shown_result(runtime) == Some(
            LastResult::LifetimeClosed,
        ) <==> runtime.last_result == Some(ChildResult::LifetimeClosed)) && (shown_result(runtime)
            == Some(LastResult::LifetimeFailed) <==> runtime.last_result == Some(
            ChildResult::LifetimeFailed,
        )),
{
}

/// Whether `seconds` whole seconds passed from one moment to another: none when the
/// second comes first.
pub open spec fn seconds_between(first: Moment, second: Moment, seconds: u64) -> bool {
    if second.nanoseconds < first.nanoseconds {
        seconds == 0
    } else if second.nanoseconds - first.nanoseconds <= u64::MAX {
        seconds * 1_000_000_000 <= second.nanoseconds - first.nanoseconds < (seconds + 1)
            * 1_000_000_000
    } else {
        seconds > 0
    }
}

/// Status shows the supervisor which answers, what the machine does and is meant to do,
/// how often the service started and failed, and whole seconds: up while a start is
/// recorded, down while an end is, and the rest of the delay only in backoff.
pub proof fn status_reports_what_is_recorded(
    context: ExecutionModel,
    supervisor: u32,
    now: Moment,
)
    ensures
        ({
            let shown = observed_status(context, supervisor, now);
            &&& shown.supervisor_pid == Some(supervisor)
            &&& shown.main_pid == context.status.main_pid
            &&& shown.desired == context.machine.desired
            &&& shown.starts == context.tracker.total_starts
            &&& shown.failures == context.status.failures
            &&& shown.command == context.command
            &&& shown.uptime_seconds is Some <==> context.status.started_at is Some
            &&& shown.down_seconds is Some <==> context.status.down_since is Some
            &&& shown.backoff_seconds is Some <==> context.machine.state is Backoff
                && context.deadline is Some
            &&& context.status.started_at matches Some(started) ==> seconds_between(
                started,
                now,
                shown.uptime_seconds->0,
            )
            &&& context.status.down_since matches Some(ended) ==> seconds_between(
                ended,
                now,
                shown.down_seconds->0,
            )
            &&& context.machine.state is Backoff ==> (context.deadline matches Some(deadline)
                ==> seconds_between(now, deadline, shown.backoff_seconds->0))
        }),
{
}

/// A fresh context supervises nothing yet, is meant to be up, has no logger running, and
/// counts from zero.
pub proof fn contexts_begin_with_nothing_started(
    config: ServiceConfig,
    loggers: Seq<BrokerLoggerId>,
    initializing: bool,
    now: Moment,
)
    ensures
        ({
            let context = initial_context(config, loggers, initializing, now);
            &&& context.machine.desired == DesiredState::Up
            &&& context.machine.state is Initializing <==> initializing
            &&& context.machine.state is Down <==> !initializing
            &&& context.machine.allocated == 0
            &&& context.loggers.len() == loggers.len()
            &&& forall|i: int|
                0 <= i < loggers.len() ==> (#[trigger] context.loggers[i]).logger == loggers[i]
                    && context.loggers[i].state is Down && context.loggers[i].failure_streak == 0
            &&& context.tracker.total_starts == 0
            &&& context.status.failures == 0
            &&& context.status.main_pid is None
            &&& context.status.last_result is None
            &&& context.status.publishes_main_pid <==> config.pid_files.main is Some
            &&& context.deadline is None
            &&& context.outbox.len() == 0
            &&& !context.shutdown_requested
            &&& context.command == text::texts(config.command@)
        }),
{
}

/// Nothing is awaited past the deadline which is shown as the first.
pub proof fn no_deadline_is_earlier_than_the_first(
    context: ExecutionModel,
    first: Option<Moment>,
    at: int,
)
    requires
        first_deadline(context, first),
        0 <= at < context.loggers.len(),
    ensures
        context.loggers[at].state matches LoggerExecutionState::Backoff { deadline } ==> (
        first matches Some(first) && first.nanoseconds <= deadline.nanoseconds),
        context.loggers[at].state matches LoggerExecutionState::Starting { deadline, .. } ==> (
        first matches Some(first) && first.nanoseconds <= deadline.nanoseconds),
        context.loggers[at].state matches LoggerExecutionState::Killing { deadline, .. } ==> (
        first matches Some(first) && first.nanoseconds <= deadline.nanoseconds),
        context.logger_shutdown is Running ==> (context.deadline matches Some(deadline) ==> (
        first matches Some(first) && first.nanoseconds <= deadline.nanoseconds)),
{
    let deadline = context.loggers[at].state.spec_deadline();
}

} // verus!
