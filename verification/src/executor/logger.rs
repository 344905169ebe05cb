//! Logger startup, restart, status, and shutdown orchestration.
//!
//! Logger tasks are broker-owned auxiliary process groups. The shared external
//! logger and local file adapters start before the service can initialize;
//! failures advance independent backoff counters. Shutdown closes service inputs
//! first, drains file adapters before the shared logger, and escalates each tier
//! with bounded terminate and kill deadlines.

use vstd::prelude::*;
use vstd::string::*;

use crate::config::LoggerRestartConfig;
use crate::process::{BrokerLoggerId, BrokerSignalScope, BrokerTaskId, ProcessId, ProcessSignal};
use crate::supervisor::restart;
use crate::supervisor::restart::backoff_delay;
use crate::supervisor::{FailureReason, SupervisorState, Transition};

use super::clock;
use super::clock::{jittered_backoff_seed, Moment};
use super::context;
use super::context::{
    transition_error, ActionModel, AuxiliaryExecution, BrokerAction, ExecutionContext, ExecutionModel,
    LoggerExecution, LoggerExecutionState, LoggerShutdownState, LoggerShutdownTier, Step,
    BROKER_EVENT_TIMEOUT, CHILD_STARTUP_TIMEOUT, LOGGER_DRAIN_GRACE, LOGGER_PREPARE_GRACE,
    LOGGER_STOP_GRACE, STARTUP_DEADLINE,
};
use super::error::{ErrorModel, ExecutorError};
use super::timers;
use super::timers::cancel_auxiliary;

verus! {

// ---------------------------------------------------------------------------
// Tiers
// ---------------------------------------------------------------------------

/// Tier of a logger.
pub open spec fn tier_of(logger: BrokerLoggerId) -> LoggerShutdownTier {
    if logger.shared {
        LoggerShutdownTier::SharedLogger
    } else {
        LoggerShutdownTier::FileAdapters
    }
}

/// Whether every logger of a tier has ended.
pub open spec fn tier_down(loggers: Seq<LoggerExecution>, tier: LoggerShutdownTier) -> bool {
    forall|i: int|
        0 <= i < loggers.len() && tier_of((#[trigger] loggers[i]).logger) == tier
            ==> loggers[i].state is Down
}

/// Tier which still has to end, starting from `tier`. File adapters come before
/// the shared logger.
pub open spec fn next_tier(
    loggers: Seq<LoggerExecution>,
    tier: LoggerShutdownTier,
) -> Option<LoggerShutdownTier> {
    if !tier_down(loggers, tier) {
        Some(tier)
    } else if tier is FileAdapters && !tier_down(loggers, LoggerShutdownTier::SharedLogger) {
        Some(LoggerShutdownTier::SharedLogger)
    } else {
        None
    }
}

/// Tier of a logger.
#[must_use]
pub fn logger_shutdown_tier(logger: BrokerLoggerId) -> (tier: LoggerShutdownTier)
    ensures
        tier == tier_of(logger),
{
    if logger.is_shared_logger() {
        LoggerShutdownTier::SharedLogger
    } else {
        LoggerShutdownTier::FileAdapters
    }
}

/// Whether every logger of a tier has ended.
#[must_use]
pub fn logger_tier_is_down(loggers: &[LoggerExecution], tier: LoggerShutdownTier) -> (down: bool)
    ensures
        down == tier_down(loggers@, tier),
{
    let mut index: usize = 0;
    while index < loggers.len()
        invariant
            index <= loggers@.len(),
            forall|i: int|
                0 <= i < index && tier_of((#[trigger] loggers@[i]).logger) == tier
                    ==> loggers@[i].state is Down,
        decreases loggers@.len() - index,
    {
        if logger_shutdown_tier(loggers[index].logger) == tier && !matches!(
            loggers[index].state,
            LoggerExecutionState::Down
        ) {
            assert(tier_of(loggers@[index as int].logger) == tier);
            return false;
        }
        index = index + 1;
    }
    true
}

/// Tier which still has to end, starting from `tier`.
#[must_use]
pub fn next_logger_shutdown_tier(loggers: &[LoggerExecution], tier: LoggerShutdownTier) -> (next:
    Option<LoggerShutdownTier>)
    ensures
        next == next_tier(loggers@, tier),
{
    if !logger_tier_is_down(loggers, tier) {
        return Some(tier);
    }
    if tier == LoggerShutdownTier::FileAdapters && !logger_tier_is_down(
        loggers,
        LoggerShutdownTier::SharedLogger,
    ) {
        return Some(LoggerShutdownTier::SharedLogger);
    }
    None
}

// ---------------------------------------------------------------------------
// Restart
// ---------------------------------------------------------------------------

/// Seed which separates the jitter of different loggers.
pub open spec fn logger_seed(logger: BrokerLoggerId) -> u64 {
    (logger.route * 65_536 + logger.position) as u64
}

/// Consecutive failures once a sufficiently long run is forgiven.
pub open spec fn forgiven_streak(
    logger: LoggerExecution,
    restart: LoggerRestartConfig,
    now: Moment,
) -> u32 {
    match logger.state {
        LoggerExecutionState::Running { started_at, .. } => {
            let runtime = if started_at.nanoseconds <= now.nanoseconds {
                now.nanoseconds - started_at.nanoseconds
            } else {
                0
            };
            if runtime >= restart.backoff.reset_after_seconds * clock::NANOS_PER_SECOND {
                0
            } else {
                logger.failure_streak
            }
        },
        _ => logger.failure_streak,
    }
}

/// A logger which ended: it fails once its retries are used up, and otherwise
/// waits for a growing delay.
pub open spec fn logger_rescheduled(
    logger: LoggerExecution,
    broker: ProcessId,
    restart: LoggerRestartConfig,
    now: Moment,
) -> LoggerExecution {
    let streak = forgiven_streak(logger, restart, now);
    if streak == u32::MAX {
        LoggerExecution {
            failure_streak: streak,
            state: LoggerExecutionState::Failed,
            ..logger
        }
    } else {
        let failures = (streak + 1) as u32;
        LoggerExecution {
            failure_streak: failures,
            state: if restart.max_retries matches Some(retries) && failures > retries {
                LoggerExecutionState::Failed
            } else {
                LoggerExecutionState::Backoff {
                    deadline: now.after(
                        clock::jittered(
                            restart::exponential_delay(
                                restart.backoff.initial_seconds,
                                restart.backoff.multiplier,
                                streak,
                                restart.backoff.max_seconds,
                            ) as u64,
                            restart.backoff.jitter_percent,
                            logger_seed(logger.logger),
                            broker,
                        ),
                    ),
                }
            },
            ..logger
        }
    }
}

/// Decide what follows a logger which ended.
pub fn schedule_logger_restart(
    logger: &mut LoggerExecution,
    broker: ProcessId,
    restart: &LoggerRestartConfig,
    now: Moment,
)
    ensures
        *final(logger) == logger_rescheduled(*old(logger), broker, *restart, now),
{
    if let LoggerExecutionState::Running { started_at, .. } = logger.state {
        let threshold: u128 = (restart.backoff.reset_after_seconds as u128)
            * clock::NANOS_PER_SECOND;
        if now.nanoseconds.saturating_sub(started_at.nanoseconds) >= threshold {
            logger.failure_streak = 0;
        }
    }
    let streak: u32 = logger.failure_streak;
    if streak == u32::MAX {
        logger.state = LoggerExecutionState::Failed;
        return;
    }
    let failures: u32 = streak + 1;
    logger.failure_streak = failures;
    if let Some(retries) = restart.max_retries {
        if failures > retries {
            logger.state = LoggerExecutionState::Failed;
            return;
        }
    }
    let base: u64 = backoff_delay(
        restart.backoff.initial_seconds,
        restart.backoff.multiplier,
        streak,
        restart.backoff.max_seconds,
    );
    let seed: u64 = (logger.logger.pipeline() as u64) * 65_536 + (logger.logger.stage() as u64);
    logger.state =
    LoggerExecutionState::Backoff {
        deadline: now.plus_seconds(
            jittered_backoff_seed(base, restart.backoff.jitter_percent, seed, broker),
        ),
    };
}

/// Start every logger from position `from` on which is down.
pub open spec fn loggers_started(context: ExecutionModel, now: Moment, from: int) -> Step
    decreases context.loggers.len() - from,
{
    if from < 0 || from >= context.loggers.len() {
        context::done(context)
    } else if context.loggers[from].state is Down {
        let numbered = context::allocated(context);
        if numbered.error is Some {
            numbered
        } else {
            loggers_started(logger_requested(numbered.context, now, from), now, from + 1)
        }
    } else {
        loggers_started(context, now, from + 1)
    }
}

/// Request the logger at `index` as the task which was allocated last.
pub open spec fn logger_requested(
    context: ExecutionModel,
    now: Moment,
    index: int,
) -> ExecutionModel {
    let task = BrokerTaskId::of((context.next_task - 1) as u64);
    context::requested(
        ExecutionModel {
            loggers: context.loggers.update(
                index,
                LoggerExecution {
                    state: LoggerExecutionState::Starting {
                        task,
                        deadline: now.after(STARTUP_DEADLINE),
                    },
                    ..context.loggers[index]
                },
            ),
            ..context
        },
        BrokerAction::SpawnLogger {
            task,
            logger: context.loggers[index].logger,
            timeout_seconds: CHILD_STARTUP_TIMEOUT,
        },
    )
}

/// Start every logger which is down, unless loggers are being shut down.
#[verifier::opaque]
pub open spec fn down_loggers_started(context: ExecutionModel, now: Moment) -> Step {
    if context.logger_shutdown.restartable() {
        loggers_started(context, now, 0)
    } else {
        context::done(context)
    }
}

/// Start every logger which is down.
///
/// # Errors
///
/// Fails when no task can be allocated.
pub fn start_down_loggers(execution: &mut ExecutionContext, now: Moment) -> (result: Result<
    (),
    ExecutorError,
>)
    ensures
        context::stepped(down_loggers_started(old(execution)@, now), final(execution)@, result),
{
    reveal(down_loggers_started);
    if !execution.logger_shutdown.permits_restart() {
        return Ok(());
    }
    let mut index: usize = 0;
    while index < execution.loggers.len()
        invariant
            index <= execution.loggers@.len(),
            loggers_started(execution@, now, index as int) == loggers_started(
                old(execution)@,
                now,
                0,
            ),
            old(execution)@.logger_shutdown.restartable(),
            down_loggers_started(old(execution)@, now) == loggers_started(old(execution)@, now, 0),
        decreases execution.loggers@.len() - index,
    {
        let mut logger: LoggerExecution = execution.loggers[index];
        if matches!(logger.state, LoggerExecutionState::Down) {
            let task = match execution.allocate_task() {
                Ok(task) => task,
                Err(error) => return Err(error),
            };
            let ghost numbered = execution@;
            logger.state =
            LoggerExecutionState::Starting { task, deadline: now.plus_seconds(STARTUP_DEADLINE) };
            execution.loggers.set(index, logger);
            execution.request(
                BrokerAction::SpawnLogger {
                    task,
                    logger: logger.logger,
                    timeout_seconds: CHILD_STARTUP_TIMEOUT,
                },
            );
            assert(execution@ =~= logger_requested(numbered, now, index as int));
        }
        index = index + 1;
    }
    Ok(())
}

// ---------------------------------------------------------------------------
// Exhaustion
// ---------------------------------------------------------------------------

/// A step which also reports whether it changed anything.
pub open spec fn reported(
    step: Step,
    changed: bool,
    after: ExecutionModel,
    result: Result<bool, ExecutorError>,
) -> bool {
    match result {
        Ok(reported) => step == context::done(after) && reported == changed,
        Err(error) => step == context::failed(after, error@),
    }
}

/// A service which never started fails once a logger used up its restarts.
pub open spec fn exhaustion_applies(context: ExecutionModel) -> bool {
    &&& context::any_failed(context.loggers)
    &&& context.machine.state is Initializing || context.machine.state is Down
        || context.machine.state is WaitingCondition || context.machine.state is Backoff
}

/// Reaction to logger exhaustion: pending work is cancelled first, and the
/// machine fails only once no auxiliary task is in flight.
#[verifier::opaque]
pub open spec fn exhaustion_handled(context: ExecutionModel, now: Moment) -> Step {
    let failing = Transition::FailWithoutChild(FailureReason::LoggerRetryLimit);
    if !exhaustion_applies(context) {
        context::done(context)
    } else if context.machine.state is Initializing {
        let initialized = context::transited(context, Transition::Initialized);
        if initialized.error is Some {
            initialized
        } else {
            context::transited(initialized.context, failing)
        }
    } else if context.machine.state is Down {
        context::transited(context, failing)
    } else if !context.auxiliary.idle() {
        context::done(timers::auxiliary_cancelled(context, now))
    } else {
        let cancelled = context::transited(context, Transition::CancelPending);
        if cancelled.error is Some {
            cancelled
        } else {
            context::transited(
                ExecutionModel {
                    auxiliary: AuxiliaryExecution::Idle,
                    deadline: None,
                    ..cancelled.context
                },
                failing,
            )
        }
    }
}

/// Fail a service which never started once a logger used up its restarts.
///
/// # Errors
///
/// Fails when the machine refuses a transition.
pub fn fail_childless_start_on_logger_exhaustion(
    execution: &mut ExecutionContext,
    now: Moment,
) -> (result: Result<bool, ExecutorError>)
    ensures
        reported(
            exhaustion_handled(old(execution)@, now),
            exhaustion_applies(old(execution)@),
            final(execution)@,
            result,
        ),
{
    reveal(exhaustion_handled);
    if !execution.loggers_failed() {
        return Ok(false);
    }
    match execution.machine.state() {
        SupervisorState::Initializing => match execution.machine.initialized() {
            Ok(()) => {},
            Err(error) => return Err(transition_error(error)),
        },
        SupervisorState::Down => {},
        SupervisorState::WaitingCondition | SupervisorState::Backoff { .. } => {
            if !execution.auxiliary.is_idle() {
                cancel_auxiliary(execution, now);
                return Ok(true);
            }
            match execution.machine.cancel_pending() {
                Ok(()) => {},
                Err(error) => return Err(transition_error(error)),
            }
            execution.auxiliary = AuxiliaryExecution::Idle;
            execution.deadline = None;
        },
        SupervisorState::Starting(_)
        | SupervisorState::Running(_)
        | SupervisorState::Ready(_)
        | SupervisorState::Paused { .. }
        | SupervisorState::Stopping(_)
        | SupervisorState::Completed(_)
        | SupervisorState::Failed(_)
        | SupervisorState::Exited => return Ok(false),
    }
    match execution.machine.fail_without_child(FailureReason::LoggerRetryLimit) {
        Ok(()) => Ok(true),
        Err(error) => Err(transition_error(error)),
    }
}

// ---------------------------------------------------------------------------
// Shutdown
// ---------------------------------------------------------------------------

/// A logger which is neither running nor in flight stays down.
pub open spec fn settled_logger(logger: LoggerExecution) -> LoggerExecution {
    if logger.state is Backoff || logger.state is Failed {
        LoggerExecution { state: LoggerExecutionState::Down, ..logger }
    } else {
        logger
    }
}

/// Whether every logger either runs or stays down.
pub open spec fn loggers_settled(loggers: Seq<LoggerExecution>) -> bool {
    forall|i: int|
        0 <= i < loggers.len() ==> ((#[trigger] loggers[i]).state is Running
            || loggers[i].state is Down)
}

/// Begin logger shutdown.
pub open spec fn shutdown_prepared(context: ExecutionModel, now: Moment) -> ExecutionModel {
    if context.logger_shutdown is Running {
        ExecutionModel {
            logger_shutdown: LoggerShutdownState::Preparing {
                deadline: now.after(LOGGER_PREPARE_GRACE),
            },
            loggers: context.loggers.map_values(
                |logger: LoggerExecution| settled_logger(logger),
            ),
            ..context
        }
    } else {
        context
    }
}

/// Ask the broker to close the service's logger inputs.
pub open spec fn inputs_closing(context: ExecutionModel, now: Moment) -> ExecutionModel {
    context::requested(
        ExecutionModel {
            logger_shutdown: LoggerShutdownState::ClosingInputs {
                deadline: now.after(BROKER_EVENT_TIMEOUT),
            },
            ..context
        },
        BrokerAction::CloseLoggerInputs,
    )
}

/// Close the service's logger inputs once no logger is in flight.
pub open spec fn inputs_closed_when_settled(
    context: ExecutionModel,
    now: Moment,
) -> ExecutionModel {
    if context.logger_shutdown is Preparing && loggers_settled(context.loggers) {
        inputs_closing(context, now)
    } else {
        context
    }
}

/// Tier which is being shut down.
pub open spec fn current_tier(state: LoggerShutdownState) -> Option<LoggerShutdownTier> {
    match state {
        LoggerShutdownState::Draining { tier, .. } => Some(tier),
        LoggerShutdownState::Terminating { tier, .. } => Some(tier),
        _ => None,
    }
}

/// Move on to the next tier once the current one ended.
pub open spec fn tier_advanced(context: ExecutionModel, now: Moment) -> ExecutionModel {
    match current_tier(context.logger_shutdown) {
        None => context,
        Some(tier) => match next_tier(context.loggers, tier) {
            None => ExecutionModel { logger_shutdown: LoggerShutdownState::Complete, ..context },
            Some(next) => if next == tier {
                context
            } else {
                ExecutionModel {
                    logger_shutdown: LoggerShutdownState::Draining {
                        deadline: now.after(LOGGER_DRAIN_GRACE),
                        tier: next,
                    },
                    ..context
                }
            },
        },
    }
}

/// One step of logger shutdown once the service's lifecycle is finished.
#[verifier::opaque]
pub open spec fn logger_shutdown_advanced(
    context: ExecutionModel,
    lifecycle_finished: bool,
    now: Moment,
) -> ExecutionModel {
    if !lifecycle_finished {
        context
    } else if context.loggers.len() == 0 {
        ExecutionModel { logger_shutdown: LoggerShutdownState::Complete, ..context }
    } else {
        tier_advanced(
            inputs_closed_when_settled(shutdown_prepared(context, now), now),
            now,
        )
    }
}

fn prepare_shutdown(execution: &mut ExecutionContext, now: Moment)
    requires
        old(execution)@.logger_shutdown is Running,
    ensures
        final(execution)@ == shutdown_prepared(old(execution)@, now),
{
    execution.logger_shutdown =
    LoggerShutdownState::Preparing { deadline: now.plus_seconds(LOGGER_PREPARE_GRACE) };
    let mut index: usize = 0;
    let ghost before = execution@;
    while index < execution.loggers.len()
        invariant
            index <= execution.loggers@.len(),
            execution.loggers@.len() == before.loggers.len(),
            forall|i: int|
                0 <= i < index ==> #[trigger] execution.loggers@[i] == settled_logger(
                    before.loggers[i],
                ),
            forall|i: int|
                index <= i < before.loggers.len() ==> #[trigger] execution.loggers@[i]
                    == before.loggers[i],
            execution@ == (ExecutionModel { loggers: execution.loggers@, ..before }),
        decreases execution.loggers@.len() - index,
    {
        let mut logger: LoggerExecution = execution.loggers[index];
        if matches!(
            logger.state,
            LoggerExecutionState::Down
                | LoggerExecutionState::Backoff { .. }
                | LoggerExecutionState::Failed
        ) {
            logger.state = LoggerExecutionState::Down;
            execution.loggers.set(index, logger);
        }
        index = index + 1;
    }
    assert(execution@ =~= shutdown_prepared(old(execution)@, now));
}

fn are_settled(loggers: &Vec<LoggerExecution>) -> (settled: bool)
    ensures
        settled == loggers_settled(loggers@),
{
    let mut index: usize = 0;
    while index < loggers.len()
        invariant
            index <= loggers@.len(),
            forall|i: int|
                0 <= i < index ==> ((#[trigger] loggers@[i]).state is Running
                    || loggers@[i].state is Down),
        decreases loggers@.len() - index,
    {
        if !matches!(
            loggers[index].state,
            LoggerExecutionState::Running { .. } | LoggerExecutionState::Down
        ) {
            assert(!(loggers@[index as int].state is Running));
            return false;
        }
        index = index + 1;
    }
    true
}

fn close_inputs(execution: &mut ExecutionContext, now: Moment)
    ensures
        final(execution)@ == inputs_closing(old(execution)@, now),
{
    execution.request(BrokerAction::CloseLoggerInputs);
    execution.logger_shutdown =
    LoggerShutdownState::ClosingInputs { deadline: now.plus_seconds(BROKER_EVENT_TIMEOUT) };
    assert(execution@ =~= inputs_closing(old(execution)@, now));
}

/// Advance logger shutdown once the service's lifecycle is finished. Returns
/// whether every logger ended.
pub fn advance_logger_shutdown(
    execution: &mut ExecutionContext,
    lifecycle_finished: bool,
    now: Moment,
) -> (complete: bool)
    ensures
        final(execution)@ == logger_shutdown_advanced(old(execution)@, lifecycle_finished, now),
        complete == (lifecycle_finished && final(execution)@.logger_shutdown is Complete),
{
    reveal(logger_shutdown_advanced);
    if !lifecycle_finished {
        return false;
    }
    if execution.loggers.len() == 0 {
        execution.logger_shutdown = LoggerShutdownState::Complete;
        return true;
    }
    if matches!(execution.logger_shutdown, LoggerShutdownState::Running) {
        prepare_shutdown(execution, now);
    }
    if matches!(execution.logger_shutdown, LoggerShutdownState::Preparing { .. }) && are_settled(
        &execution.loggers,
    ) {
        close_inputs(execution, now);
    }
    advance_logger_shutdown_tier(execution, now);
    matches!(execution.logger_shutdown, LoggerShutdownState::Complete)
}

/// Move on to the next tier once the current one ended.
pub fn advance_logger_shutdown_tier(execution: &mut ExecutionContext, now: Moment)
    ensures
        final(execution)@ == tier_advanced(old(execution)@, now),
{
    let tier = match execution.logger_shutdown {
        LoggerShutdownState::Draining { tier, .. }
        | LoggerShutdownState::Terminating { tier, .. } => tier,
        LoggerShutdownState::Running
        | LoggerShutdownState::Preparing { .. }
        | LoggerShutdownState::ClosingInputs { .. }
        | LoggerShutdownState::Complete => return,
    };
    match next_logger_shutdown_tier(execution.loggers.as_slice(), tier) {
        Some(next) => {
            if next != tier {
                execution.logger_shutdown =
                LoggerShutdownState::Draining {
                    deadline: now.plus_seconds(LOGGER_DRAIN_GRACE),
                    tier: next,
                };
            }
        },
        None => {
            execution.logger_shutdown = LoggerShutdownState::Complete;
        },
    }
}

// ---------------------------------------------------------------------------
// Signals and timers
// ---------------------------------------------------------------------------

/// Signal the group of one logger task.
pub open spec fn task_signalled(
    context: ExecutionModel,
    task: BrokerTaskId,
    signal: ProcessSignal,
) -> ExecutionModel {
    context::requested(
        context,
        BrokerAction::SignalTask { task, scope: BrokerSignalScope::Group, signal },
    )
}

/// Replace the state of the logger at `index`.
pub open spec fn logger_set(
    context: ExecutionModel,
    index: int,
    state: LoggerExecutionState,
) -> ExecutionModel {
    ExecutionModel {
        loggers: context.loggers.update(
            index,
            LoggerExecution { state, ..context.loggers[index] },
        ),
        ..context
    }
}

/// Signal the logger at `index`. A terminated group is also continued, so that a
/// stopped group can react.
pub open spec fn logger_signalled(
    context: ExecutionModel,
    index: int,
    signal: ProcessSignal,
    now: Moment,
) -> ExecutionModel {
    match context.loggers[index].state.spec_task() {
        None => logger_set(context, index, LoggerExecutionState::Down),
        Some(task) => {
            let signalled = task_signalled(context, task, signal);
            let reacting = if signal is Terminate {
                task_signalled(signalled, task, ProcessSignal::Continue)
            } else {
                signalled
            };
            logger_set(
                reacting,
                index,
                LoggerExecutionState::Killing { task, deadline: now.after(BROKER_EVENT_TIMEOUT) },
            )
        },
    }
}

/// Signal every logger of a tier from position `from` on.
pub open spec fn tier_signalled(
    context: ExecutionModel,
    tier: LoggerShutdownTier,
    signal: ProcessSignal,
    now: Moment,
    from: int,
) -> ExecutionModel
    decreases context.loggers.len() - from,
{
    if from < 0 || from >= context.loggers.len() {
        context
    } else if tier_of(context.loggers[from].logger) == tier {
        tier_signalled(logger_signalled(context, from, signal, now), tier, signal, now, from + 1)
    } else {
        tier_signalled(context, tier, signal, now, from + 1)
    }
}

fn signal_task(execution: &mut ExecutionContext, task: BrokerTaskId, signal: ProcessSignal)
    ensures
        final(execution)@ == task_signalled(old(execution)@, task, signal),
        final(execution).loggers == old(execution).loggers,
{
    let ghost loggers = execution.loggers;
    execution.outbox.push(
        super::context::ExecutorAction::Broker(
            BrokerAction::SignalTask { task, scope: BrokerSignalScope::Group, signal },
        ),
    );
    assert(execution@ =~= task_signalled(old(execution)@, task, signal));
}

fn set_logger(execution: &mut ExecutionContext, index: usize, state: LoggerExecutionState)
    requires
        index < old(execution)@.loggers.len(),
    ensures
        final(execution)@ == logger_set(old(execution)@, index as int, state),
{
    let mut logger: LoggerExecution = execution.loggers[index];
    logger.state = state;
    execution.loggers.set(index, logger);
    assert(execution@ =~= logger_set(old(execution)@, index as int, state));
}

fn signal_logger(
    execution: &mut ExecutionContext,
    index: usize,
    signal: ProcessSignal,
    now: Moment,
)
    requires
        index < old(execution)@.loggers.len(),
    ensures
        final(execution)@ == logger_signalled(old(execution)@, index as int, signal, now),
{
    match execution.loggers[index].state.task() {
        None => set_logger(execution, index, LoggerExecutionState::Down),
        Some(task) => {
            signal_task(execution, task, signal);
            if signal == ProcessSignal::Terminate {
                signal_task(execution, task, ProcessSignal::Continue);
            }
            set_logger(
                execution,
                index,
                LoggerExecutionState::Killing {
                    task,
                    deadline: now.plus_seconds(BROKER_EVENT_TIMEOUT),
                },
            );
        },
    }
}

/// Signal every logger of a tier.
pub fn signal_logger_tier(
    execution: &mut ExecutionContext,
    tier: LoggerShutdownTier,
    signal: ProcessSignal,
    now: Moment,
)
    ensures
        final(execution)@ == tier_signalled(old(execution)@, tier, signal, now, 0),
{
    let mut index: usize = 0;
    while index < execution.loggers.len()
        invariant
            index <= execution.loggers@.len(),
            tier_signalled(execution@, tier, signal, now, index as int) == tier_signalled(
                old(execution)@,
                tier,
                signal,
                now,
                0,
            ),
        decreases execution.loggers@.len() - index,
    {
        if logger_shutdown_tier(execution.loggers[index].logger) == tier {
            signal_logger(execution, index, signal, now);
        }
        index = index + 1;
    }
}

/// Handle the deadline of every logger from position `from` on.
pub open spec fn loggers_timed(context: ExecutionModel, now: Moment, from: int) -> Step
    decreases context.loggers.len() - from,
{
    if from < 0 || from >= context.loggers.len() {
        context::done(context)
    } else {
        match context.loggers[from].state {
            LoggerExecutionState::Backoff { deadline } => if deadline.due(now) {
                loggers_timed(
                    logger_set(context, from, LoggerExecutionState::Down),
                    now,
                    from + 1,
                )
            } else {
                loggers_timed(context, now, from + 1)
            },
            LoggerExecutionState::Starting { task, deadline } => if deadline.due(now) {
                loggers_timed(
                    logger_set(
                        task_signalled(context, task, ProcessSignal::Kill),
                        from,
                        LoggerExecutionState::Killing {
                            task,
                            deadline: now.after(BROKER_EVENT_TIMEOUT),
                        },
                    ),
                    now,
                    from + 1,
                )
            } else {
                loggers_timed(context, now, from + 1)
            },
            LoggerExecutionState::Killing { deadline, .. } => if deadline.due(now) {
                context::failed(context, ErrorModel::BrokerTimedOut("logger cleanup"@))
            } else {
                loggers_timed(context, now, from + 1)
            },
            _ => loggers_timed(context, now, from + 1),
        }
    }
}

/// Reaction to the deadline of a shutdown phase which came.
pub open spec fn shutdown_timed(context: ExecutionModel, now: Moment) -> Step {
    match context.logger_shutdown {
        LoggerShutdownState::Preparing { .. } => context::done(inputs_closing(context, now)),
        LoggerShutdownState::ClosingInputs { .. } => context::failed(
            context,
            ErrorModel::BrokerTimedOut("closing logger inputs"@),
        ),
        LoggerShutdownState::Draining { tier, .. } => context::done(
            ExecutionModel {
                logger_shutdown: LoggerShutdownState::Terminating {
                    deadline: now.after(LOGGER_STOP_GRACE),
                    kill_sent: false,
                    tier,
                },
                ..tier_signalled(context, tier, ProcessSignal::Terminate, now, 0)
            },
        ),
        LoggerShutdownState::Terminating { kill_sent, tier, .. } => if kill_sent {
            context::failed(context, ErrorModel::BrokerTimedOut("logger termination"@))
        } else {
            context::done(
                ExecutionModel {
                    logger_shutdown: LoggerShutdownState::Terminating {
                        deadline: now.after(BROKER_EVENT_TIMEOUT),
                        kill_sent: true,
                        tier,
                    },
                    ..tier_signalled(context, tier, ProcessSignal::Kill, now, 0)
                },
            )
        },
        LoggerShutdownState::Running => context::done(context),
        LoggerShutdownState::Complete => context::done(context),
    }
}

/// Reaction to due logger deadlines.
#[verifier::opaque]
pub open spec fn logger_timers_handled(context: ExecutionModel, now: Moment) -> Step {
    if context.logger_shutdown.spec_deadline() matches Some(deadline) && deadline.due(now) {
        shutdown_timed(context, now)
    } else if !context.logger_shutdown.restartable() {
        context::done(context)
    } else {
        let timed = loggers_timed(context, now, 0);
        if timed.error is Some {
            timed
        } else {
            down_loggers_started(timed.context, now)
        }
    }
}

fn handle_shutdown_timer(execution: &mut ExecutionContext, now: Moment) -> (result: Result<
    (),
    ExecutorError,
>)
    ensures
        context::stepped(shutdown_timed(old(execution)@, now), final(execution)@, result),
{
    match execution.logger_shutdown {
        LoggerShutdownState::Preparing { .. } => {
            close_inputs(execution, now);
            Ok(())
        },
        LoggerShutdownState::ClosingInputs { .. } => Err(
            ExecutorError::BrokerTimedOut("closing logger inputs"),
        ),
        LoggerShutdownState::Draining { tier, .. } => {
            signal_logger_tier(execution, tier, ProcessSignal::Terminate, now);
            execution.logger_shutdown =
            LoggerShutdownState::Terminating {
                deadline: now.plus_seconds(LOGGER_STOP_GRACE),
                kill_sent: false,
                tier,
            };
            Ok(())
        },
        LoggerShutdownState::Terminating { kill_sent, tier, .. } => {
            if kill_sent {
                return Err(ExecutorError::BrokerTimedOut("logger termination"));
            }
            signal_logger_tier(execution, tier, ProcessSignal::Kill, now);
            execution.logger_shutdown =
            LoggerShutdownState::Terminating {
                deadline: now.plus_seconds(BROKER_EVENT_TIMEOUT),
                kill_sent: true,
                tier,
            };
            Ok(())
        },
        LoggerShutdownState::Running | LoggerShutdownState::Complete => Ok(()),
    }
}

fn handle_each_logger_timer(execution: &mut ExecutionContext, now: Moment) -> (result: Result<
    (),
    ExecutorError,
>)
    ensures
        context::stepped(loggers_timed(old(execution)@, now, 0), final(execution)@, result),
{
    let mut index: usize = 0;
    while index < execution.loggers.len()
        invariant
            index <= execution.loggers@.len(),
            loggers_timed(execution@, now, index as int) == loggers_timed(
                old(execution)@,
                now,
                0,
            ),
        decreases execution.loggers@.len() - index,
    {
        match execution.loggers[index].state {
            LoggerExecutionState::Backoff { deadline } => {
                if deadline.is_due(now) {
                    set_logger(execution, index, LoggerExecutionState::Down);
                }
            },
            LoggerExecutionState::Starting { task, deadline } => {
                if deadline.is_due(now) {
                    signal_task(execution, task, ProcessSignal::Kill);
                    set_logger(
                        execution,
                        index,
                        LoggerExecutionState::Killing {
                            task,
                            deadline: now.plus_seconds(BROKER_EVENT_TIMEOUT),
                        },
                    );
                }
            },
            LoggerExecutionState::Killing { deadline, .. } => {
                if deadline.is_due(now) {
                    return Err(ExecutorError::BrokerTimedOut("logger cleanup"));
                }
            },
            LoggerExecutionState::Down
            | LoggerExecutionState::Running { .. }
            | LoggerExecutionState::Failed => {},
        }
        index = index + 1;
    }
    Ok(())
}

/// React to due logger deadlines.
///
/// # Errors
///
/// Fails when the broker overran its time or no task can be allocated.
pub fn handle_due_logger_timers(execution: &mut ExecutionContext, now: Moment) -> (result: Result<
    (),
    ExecutorError,
>)
    ensures
        context::stepped(logger_timers_handled(old(execution)@, now), final(execution)@, result),
{
    reveal(logger_timers_handled);
    if let Some(deadline) = execution.logger_shutdown.deadline() {
        if deadline.is_due(now) {
            return handle_shutdown_timer(execution, now);
        }
    }
    if !execution.logger_shutdown.permits_restart() {
        return Ok(());
    }
    match handle_each_logger_timer(execution, now) {
        Ok(()) => start_down_loggers(execution, now),
        Err(error) => Err(error),
    }
}

// ---------------------------------------------------------------------------
// Laws
// ---------------------------------------------------------------------------

/// A logger which ended is tried again as long as its retries last: it fails exactly
/// when it has failed in a row more often than it may, and without a limit it waits.
pub proof fn loggers_are_retried_within_their_limit(
    logger: LoggerExecution,
    broker: ProcessId,
    restart: LoggerRestartConfig,
    now: Moment,
)
    requires
        logger.failure_streak < u32::MAX,
    ensures
        ({
            let next = logger_rescheduled(logger, broker, restart, now);
            &&& next.logger == logger.logger
            &&& next.state is Failed || next.state is Backoff
            &&& restart.max_retries is None ==> next.state is Backoff
            &&& restart.max_retries matches Some(retries) ==> (next.state is Failed
                <==> next.failure_streak > retries)
            &&& next.failure_streak == logger.failure_streak + 1 || (logger.state is Running
                && next.failure_streak == 1)
            &&& !(logger.state is Running) ==> next.failure_streak == logger.failure_streak + 1
        }),
{
}

/// A run at least as long as the configured reset forgives every earlier failure, and a
/// shorter one forgives none.
pub proof fn long_runs_forgive_logger_failures(
    logger: LoggerExecution,
    broker: ProcessId,
    restart: LoggerRestartConfig,
    task: BrokerTaskId,
    started_at: Moment,
    now: Moment,
)
    requires
        logger.state == (LoggerExecutionState::Running { task, started_at }),
        logger.failure_streak < u32::MAX,
        started_at.nanoseconds <= now.nanoseconds,
    ensures
        now.nanoseconds - started_at.nanoseconds >= restart.backoff.reset_after_seconds
            * 1_000_000_000 ==> logger_rescheduled(
            logger,
            broker,
            restart,
            now,
        ).failure_streak == 1,
        now.nanoseconds - started_at.nanoseconds < restart.backoff.reset_after_seconds
            * 1_000_000_000 ==> logger_rescheduled(
            logger,
            broker,
            restart,
            now,
        ).failure_streak == logger.failure_streak + 1,
{
}

/// Without jitter the first retry of a logger waits for the initial delay, and no retry
/// waits longer than the largest.
pub proof fn loggers_wait_between_their_bounds(
    logger: LoggerExecution,
    broker: ProcessId,
    restart: LoggerRestartConfig,
    now: Moment,
    deadline: Moment,
)
    requires
        logger.failure_streak < u32::MAX,
        restart.backoff.jitter_percent == 0,
        restart.backoff.initial_seconds <= restart.backoff.max_seconds,
        now.nanoseconds + restart.backoff.max_seconds * 1_000_000_000 <= u128::MAX,
        logger_rescheduled(logger, broker, restart, now).state == (LoggerExecutionState::Backoff {
            deadline,
        }),
    ensures
        logger_rescheduled(logger, broker, restart, now).failure_streak == 1
            ==> deadline.nanoseconds == now.nanoseconds + restart.backoff.initial_seconds
            * 1_000_000_000,
        deadline.nanoseconds <= now.nanoseconds + restart.backoff.max_seconds * 1_000_000_000,
        restart.backoff.multiplier >= 1 ==> deadline.nanoseconds >= now.nanoseconds
            + restart.backoff.initial_seconds * 1_000_000_000,
{
    let streak = forgiven_streak(logger, restart, now);
    let backoff = restart.backoff;
    let power = vstd::arithmetic::power::pow(backoff.multiplier as int, streak as nat);
    vstd::arithmetic::power::lemma_pow0(backoff.multiplier as int);
    if streak == 0 {
        assert(backoff.initial_seconds * 1 == backoff.initial_seconds);
    }
    if backoff.multiplier >= 1 {
        vstd::arithmetic::power::lemma_pow_positive(backoff.multiplier as int, streak as nat);
        assert(backoff.initial_seconds * power >= backoff.initial_seconds) by (nonlinear_arith)
            requires
                power >= 1,
                backoff.initial_seconds >= 0,
        ;
    } else {
        lemma_power_is_never_negative(backoff.multiplier as int, streak as nat);
        assert(backoff.initial_seconds * power >= 0) by (nonlinear_arith)
            requires
                power >= 0,
                backoff.initial_seconds >= 0,
        ;
    }
    let delay = restart::exponential_delay(
        backoff.initial_seconds,
        backoff.multiplier,
        streak,
        backoff.max_seconds,
    );
    assert(0 <= delay <= backoff.max_seconds);
    clock::jitter_stays_within_its_spread(
        delay as u64,
        0,
        logger_seed(logger.logger),
        broker,
    );
}

/// A power of a natural number is never negative.
proof fn lemma_power_is_never_negative(base: int, exponent: nat)
    requires
        base >= 0,
    ensures
        vstd::arithmetic::power::pow(base, exponent) >= 0,
    decreases exponent,
{
    reveal(vstd::arithmetic::power::pow);
    if exponent > 0 {
        lemma_power_is_never_negative(base, (exponent - 1) as nat);
        assert(base * vstd::arithmetic::power::pow(base, (exponent - 1) as nat) >= 0)
            by (nonlinear_arith)
            requires
                base >= 0,
                vstd::arithmetic::power::pow(base, (exponent - 1) as nat) >= 0,
        ;
    }
}

/// Once output is being shut down no logger is started any more.
pub proof fn closing_loggers_are_not_started(context: ExecutionModel, now: Moment)
    ensures
        context.logger_shutdown is ClosingInputs || context.logger_shutdown is Draining
            || context.logger_shutdown is Terminating || context.logger_shutdown is Complete
            ==> down_loggers_started(context, now) == context::done(context),
{
    reveal(down_loggers_started);
}

/// Starting loggers starts every one which is down, as itself, and touches no other.
pub proof fn every_down_logger_is_started(context: ExecutionModel, now: Moment, from: int)
    requires
        0 <= from <= context.loggers.len(),
    ensures
        ({
            let step = loggers_started(context, now, from);
            step.error is None ==> {
                &&& step.context.loggers.len() == context.loggers.len()
                &&& forall|i: int|
                    from <= i < context.loggers.len() && context.loggers[i].state is Down ==> (
                    #[trigger] step.context.loggers[i]).state is Starting
                        && step.context.loggers[i].logger == context.loggers[i].logger
                        && step.context.loggers[i].failure_streak
                        == context.loggers[i].failure_streak
                &&& forall|i: int|
                    0 <= i < context.loggers.len() && (i < from || !(context.loggers[i].state is Down))
                        ==> #[trigger] step.context.loggers[i] == context.loggers[i]
                &&& step.context.machine == context.machine
            }
        }),
    decreases context.loggers.len() - from,
{
    if from < context.loggers.len() {
        if context.loggers[from].state is Down {
            let numbered = context::allocated(context);
            if numbered.error is None {
                every_down_logger_is_started(
                    logger_requested(numbered.context, now, from),
                    now,
                    from + 1,
                );
            }
        } else {
            every_down_logger_is_started(context, now, from + 1);
        }
    }
}

/// A service which has no child yet fails for its logger once a logger used up its
/// restarts and nothing else is in flight; without such a logger nothing happens, and a
/// live service is never failed for its logger.
pub proof fn exhausted_loggers_fail_idle_services(context: ExecutionModel, now: Moment, at: int)
    ensures
        0 <= at < context.loggers.len() && context.loggers[at].state is Failed && (
        context.machine.state is Down || context.machine.state is Initializing || (
        context.auxiliary is Idle && (context.machine.state is WaitingCondition
            || context.machine.state is Backoff))) ==> exhaustion_handled(
            context,
            now,
        ).context.machine.state == SupervisorState::Failed(FailureReason::LoggerRetryLimit),
        (forall|i: int|
            0 <= i < context.loggers.len() ==> !((#[trigger] context.loggers[i]).state is Failed))
            ==> exhaustion_handled(context, now) == context::done(context),
        context.machine.state is Starting || context.machine.state is Running
            || context.machine.state is Ready || context.machine.state is Paused
            || context.machine.state is Stopping ==> exhaustion_handled(context, now)
            == context::done(context),
{
    reveal(exhaustion_handled);
}

/// Signalling a tier reaches every logger of that tier which has a process, in its whole
/// group, and no logger of the other tier.
pub proof fn tiers_are_signalled_as_a_whole(
    context: ExecutionModel,
    tier: LoggerShutdownTier,
    signal: ProcessSignal,
    now: Moment,
    from: int,
    at: int,
)
    requires
        0 <= from <= at < context.loggers.len(),
    ensures
        ({
            let after = tier_signalled(context, tier, signal, now, from);
            &&& after.loggers.len() == context.loggers.len()
            &&& after.loggers[at].logger == context.loggers[at].logger
            &&& (context.loggers[at].logger.shared == (tier is SharedLogger)) ==> (
            after.loggers[at].state is Killing || after.loggers[at].state is Down)
            &&& (context.loggers[at].logger.shared != (tier is SharedLogger))
                ==> after.loggers[at] == context.loggers[at]
            &&& (context.loggers[at].logger.shared == (tier is SharedLogger))
                && context.loggers[at].state is Running ==> after.outbox.contains(
                ActionModel::Broker(
                    BrokerAction::SignalTask {
                        task: context.loggers[at].state->Running_task,
                        scope: BrokerSignalScope::Group,
                        signal,
                    },
                ),
            )
            &&& forall|action: ActionModel|
                context.outbox.contains(action) ==> #[trigger] after.outbox.contains(action)
        }),
    decreases context.loggers.len() - from,
{
    let here = tier_of(context.loggers[from].logger) == tier;
    let next = if here {
        logger_signalled(context, from, signal, now)
    } else {
        context
    };
    lemma_signalling_keeps_work(context, from, signal, now);
    if from == at {
        lemma_signalling_goes_on(next, tier, signal, now, from + 1, at);
        if here && context.loggers[at].state is Running {
            let action = ActionModel::Broker(
                BrokerAction::SignalTask {
                    task: context.loggers[at].state->Running_task,
                    scope: BrokerSignalScope::Group,
                    signal,
                },
            );
            assert(next.outbox[context.outbox.len() as int] == action);
            assert(next.outbox.contains(action));
        }
    } else {
        tiers_are_signalled_as_a_whole(next, tier, signal, now, from + 1, at);
    }
}

/// Signalling one logger keeps queued work.
proof fn lemma_signalling_keeps_work(
    context: ExecutionModel,
    index: int,
    signal: ProcessSignal,
    now: Moment,
)
    requires
        0 <= index < context.loggers.len(),
    ensures
        forall|action: ActionModel|
            context.outbox.contains(action) ==> #[trigger] logger_signalled(
                context,
                index,
                signal,
                now,
            ).outbox.contains(action),
{
    let after = logger_signalled(context, index, signal, now);
    assert forall|action: ActionModel|
        context.outbox.contains(action) implies #[trigger] after.outbox.contains(action) by {
        let i = choose|i: int| 0 <= i < context.outbox.len() && context.outbox[i] == action;
        assert(after.outbox[i] == action);
    }
}

/// Signalling from a later position on leaves an earlier logger alone and keeps work.
proof fn lemma_signalling_goes_on(
    context: ExecutionModel,
    tier: LoggerShutdownTier,
    signal: ProcessSignal,
    now: Moment,
    from: int,
    at: int,
)
    requires
        0 <= at < from <= context.loggers.len(),
    ensures
        ({
            let after = tier_signalled(context, tier, signal, now, from);
            &&& after.loggers.len() == context.loggers.len()
            &&& after.loggers[at] == context.loggers[at]
            &&& forall|action: ActionModel|
                context.outbox.contains(action) ==> #[trigger] after.outbox.contains(action)
        }),
    decreases context.loggers.len() - from,
{
    if from < context.loggers.len() {
        let next = if tier_of(context.loggers[from].logger) == tier {
            logger_signalled(context, from, signal, now)
        } else {
            context
        };
        lemma_signalling_keeps_work(context, from, signal, now);
        lemma_signalling_goes_on(next, tier, signal, now, from + 1, at);
    }
}

/// Shutdown escalates step by step: a tier which does not drain is terminated, then
/// killed, and only a tier which outlives its kill is a fault.
pub proof fn lingering_tiers_are_terminated_then_killed(
    context: ExecutionModel,
    now: Moment,
    tier: LoggerShutdownTier,
    deadline: Moment,
)
    ensures
        context.logger_shutdown == (LoggerShutdownState::Draining { deadline, tier }) ==> ({
            let step = shutdown_timed(context, now);
            &&& step.error is None
            &&& step.context.logger_shutdown matches LoggerShutdownState::Terminating {
                kill_sent,
                tier: next,
                ..
            } && !kill_sent && next == tier
            &&& step.context.outbox == tier_signalled(
                context,
                tier,
                ProcessSignal::Terminate,
                now,
                0,
            ).outbox
        }),
        context.logger_shutdown == (LoggerShutdownState::Terminating {
            deadline,
            kill_sent: false,
            tier,
        }) ==> ({
            let step = shutdown_timed(context, now);
            &&& step.error is None
            &&& step.context.logger_shutdown matches LoggerShutdownState::Terminating {
                kill_sent,
                tier: next,
                ..
            } && kill_sent && next == tier
            &&& step.context.outbox == tier_signalled(
                context,
                tier,
                ProcessSignal::Kill,
                now,
                0,
            ).outbox
        }),
        context.logger_shutdown == (LoggerShutdownState::Terminating {
            deadline,
            kill_sent: true,
            tier,
        }) ==> shutdown_timed(context, now).error is Some,
{
}

/// File adapters end before the shared logger is drained, and shutdown is complete only
/// once every logger is down.
pub proof fn shutdown_completes_in_order(context: ExecutionModel, now: Moment, at: int)
    requires
        context.logger_shutdown is Draining || context.logger_shutdown is Terminating,
        0 <= at < context.loggers.len(),
        !(context.loggers[at].state is Down),
    ensures
        ({
            let tier = if context.logger_shutdown is Draining {
                context.logger_shutdown->Draining_tier
            } else {
                context.logger_shutdown->Terminating_tier
            };
            let after = tier_advanced(context, now);
            &&& tier is FileAdapters ==> !(after.logger_shutdown is Complete)
            &&& tier is FileAdapters && !context.loggers[at].logger.shared
                ==> after.logger_shutdown == context.logger_shutdown
            &&& tier is SharedLogger && context.loggers[at].logger.shared
                ==> after.logger_shutdown == context.logger_shutdown
        }),
{
    assert(tier_of(context.loggers[at].logger) is SharedLogger
        == context.loggers[at].logger.shared);
}

} // verus!
