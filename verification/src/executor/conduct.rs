//! Laws of how a supervised service is run: how it starts, becomes ready, is
//! signalled, stops, ends, and is started again.

use vstd::prelude::*;

use crate::config::{ProcessMode, ReadinessMode};
use crate::control::decision;
use crate::control::decision::StopCompletion;
use crate::control::message::RequestModel;
use crate::control::operation::Signal;
use crate::control::response::ResponseCode;
use crate::process::{
    BrokerSignalScope, BrokerTaskId, ChildEvent, ProcessBrokerEvent, ProcessId, ProcessSignal,
};
use crate::supervisor::machine;
use crate::supervisor::restart;
use crate::supervisor::{ChildResult, DesiredState, Generation, SupervisorState, Transition};

use super::auxiliary;
use super::clock;
use super::clock::Moment;
use super::completion;
use super::context;
use super::context::{
    ActionModel, AuxiliaryExecution, BrokerAction, CommandToken, ExecutionModel,
    LifecycleExecution, LifecycleHookKind, PendingCompletion, PendingSignal, Surroundings,
    TaskCommand,
};
use super::control;
use super::events;
use super::logger;
use super::runtime;
use super::runtime::{EventModel, Progress};
use super::stopping;
use super::timers;

verus! {

// ---------------------------------------------------------------------------
// Starting
// ---------------------------------------------------------------------------

/// A service which reports readiness runs but is not ready when it starts, in
/// every process mode, and its readiness is awaited at least as long as its
/// configuration permits.
pub proof fn notified_services_start_unready(
    context: ExecutionModel,
    env: Surroundings,
    generation: Generation,
    process: ProcessId,
    group: ProcessId,
)
    requires
        context.machine.state == SupervisorState::Starting(generation),
        env.config.readiness.mode == ReadinessMode::NotifyFd,
        env.now.nanoseconds + env.config.readiness.timeout_seconds * 1_000_000_000
            <= u128::MAX,
    ensures
        ({
            let step = events::broker_handled(
                context,
                env,
                ProcessBrokerEvent::Started { generation, process, group },
            );
            &&& step.error is None
            &&& step.context.machine.state == SupervisorState::Running(generation)
            &&& step.context.deadline matches Some(deadline) && deadline.nanoseconds
                >= env.now.nanoseconds + env.config.readiness.timeout_seconds * 1_000_000_000
        }),
{
    reveal(events::broker_handled);
    reveal(events::service_handled);
    reveal(events::service_start_observed);
}

/// A service which reports nothing is ready as soon as it started, and nothing is
/// awaited any more.
pub proof fn immediate_services_start_ready(
    context: ExecutionModel,
    env: Surroundings,
    generation: Generation,
    process: ProcessId,
    group: ProcessId,
)
    requires
        context.machine.state == SupervisorState::Starting(generation),
        env.config.readiness.mode == ReadinessMode::Immediate,
    ensures
        ({
            let step = events::broker_handled(
                context,
                env,
                ProcessBrokerEvent::Started { generation, process, group },
            );
            &&& step.error is None
            &&& step.context.machine.state == SupervisorState::Ready(generation)
            &&& step.context.deadline is None
        }),
{
    reveal(events::broker_handled);
    reveal(events::service_handled);
    reveal(events::service_start_observed);
}

/// A started service is shown with its main process, which is published exactly
/// when a PID file was configured.
pub proof fn started_services_show_their_process(
    context: ExecutionModel,
    env: Surroundings,
    generation: Generation,
    process: ProcessId,
    group: ProcessId,
)
    requires
        context.machine.state == SupervisorState::Starting(generation) || context.machine.state
            == SupervisorState::Stopping(generation),
    ensures
        ({
            let after = events::broker_handled(
                context,
                env,
                ProcessBrokerEvent::Started { generation, process, group },
            ).context;
            &&& after.status.main_pid == Some(process.number() as u32)
            &&& context.status.publishes_main_pid ==> after.outbox == context.outbox.push(
                ActionModel::Broker(
                    BrokerAction::PublishMainPid { process: process.number() as u32 },
                ),
            )
            &&& !context.status.publishes_main_pid ==> after.outbox == context.outbox
        }),
{
    reveal(events::broker_handled);
    reveal(events::service_handled);
    reveal(events::service_start_observed);
}

/// Generation which a piece of work executes, and how long its readiness is
/// awaited.
pub open spec fn executes(action: ActionModel) -> Option<(Generation, Option<u64>)> {
    match action {
        ActionModel::Broker(BrokerAction::Spawn { generation, .. }) => Some((generation, None)),
        ActionModel::Broker(
            BrokerAction::SpawnWithReadiness { generation, readiness_seconds, .. },
        ) => Some((generation, Some(readiness_seconds))),
        ActionModel::Broker(
            BrokerAction::SpawnWithLifetime { generation, readiness_seconds, .. },
        ) => Some((generation, readiness_seconds)),
        _ => None,
    }
}

/// A start executes the next generation exactly once, asks the broker to watch for
/// readiness exactly when the service reports it, with the configured time, tracks
/// a lifetime exactly when that was configured, and counts the start.
pub proof fn starts_execute_the_next_generation(context: ExecutionModel, env: Surroundings)
    requires
        context.machine.state is WaitingCondition,
        context.machine.allocated < u64::MAX,
    ensures
        ({
            let step = timers::service_started(context, env);
            let after = step.context;
            let generation = Generation::of((context.machine.allocated + 1) as u64);
            let work = after.outbox.last();
            &&& step.error is None
            &&& after.machine.state == SupervisorState::Starting(generation)
            &&& after.outbox.len() == context.outbox.len() + 1
            &&& executes(work) matches Some((executed, readiness)) && executed == generation
                && readiness == (if env.config.readiness.mode == ReadinessMode::NotifyFd {
                Some(env.config.readiness.timeout_seconds)
            } else {
                None
            })
            &&& work matches ActionModel::Broker(action) && (action is SpawnWithLifetime
                <==> env.config.process_mode == ProcessMode::DescriptorTracking)
            &&& env.config.process_mode == ProcessMode::DescriptorTracking ==> (
            after.descriptor matches Some(tracked_half) && tracked_half.generation == generation
                && tracked_half.launcher_result is None && tracked_half.lifetime_result is None)
            &&& after.tracker.recent == context.tracker.recent.push(
                env.now.since(context.epoch),
            )
            &&& context.tracker.total_starts < u64::MAX ==> after.tracker.total_starts
                == context.tracker.total_starts + 1
            &&& after.status.started_at == Some(env.now)
            &&& after.status.down_since is None
            &&& !after.status.readiness_failed
        }),
{
    reveal(timers::service_started);
}

/// Only the first start is delayed, by the configured delay, and a service starts
/// exactly when it is down and should be up or run once.
pub proof fn services_start_when_wanted(
    model: machine::MachineModel,
    first_start: bool,
    start_delay_seconds: u64,
    deadline: Option<Moment>,
    now: Moment,
)
    requires
        model.state is Down,
        now.nanoseconds + start_delay_seconds * 1_000_000_000 < 9_223_372_036_854_775_808
            * 1_000_000_000,
    ensures
        ({
            let step = timers::childless_advanced(
                model,
                first_start,
                start_delay_seconds,
                deadline,
                now,
            );
            &&& step.machine.state is WaitingCondition <==> model.desired is Up || model.desired
                is Once
            &&& step.machine.state is Exited <==> model.desired is Halt || model.desired is Exit
            &&& model.desired is Down ==> step.machine == model
            &&& step.machine.desired == model.desired
            &&& step.machine.state is WaitingCondition ==> {
                &&& !step.first_start
                &&& step.deadline matches Some(due) && due.nanoseconds == now.nanoseconds + (
                if first_start {
                    start_delay_seconds * 1_000_000_000
                } else {
                    0
                })
            }
        }),
{
}

/// A pending start becomes due after its delay; a service without a condition is
/// then executed, and one with a condition only once the condition passed.
pub proof fn conditions_gate_every_start(context: ExecutionModel, env: Surroundings)
    requires
        context.machine.state is WaitingCondition,
        context.lifecycle is None,
        context.machine.allocated < u64::MAX,
    ensures
        ({
            let step = timers::executor_timer_handled(context, env);
            let conditioned = env.config.start_condition is Some;
            &&& !conditioned && !env.commands.condition ==> step.context.machine.state is Starting
            &&& conditioned && step.context.machine.state is Starting ==> context.auxiliary
                is Passed
            &&& conditioned && env.commands.condition && context.auxiliary is Passed
                ==> step.context.machine.state is Starting
        }),
{
    reveal(timers::executor_timer_handled);
    reveal(timers::waiting_timer_handled);
    reveal(timers::service_started);
}

/// A condition which exits with zero lets the start go on at once; any other end
/// delays the next evaluation, and only a pass ends the streak of failures.
pub proof fn conditions_pass_by_exiting_with_zero(
    context: ExecutionModel,
    env: Surroundings,
    task: BrokerTaskId,
    child: ChildEvent,
)
    requires
        env.config.start_condition is Some,
        context.auxiliary == AuxiliaryExecution::Running(task),
    ensures
        ({
            let step = auxiliary::condition_handled(
                context,
                env,
                ProcessBrokerEvent::TaskChild { task, event: child },
            );
            let after = step.context;
            let passed = child matches ChildEvent::Exited { code, .. } && code == 0;
            let ended = child is Exited || child is Signaled;
            &&& step.error is None
            &&& after.machine == context.machine
            &&& after.outbox == context.outbox
            &&& passed <==> after.auxiliary is Passed
            &&& passed ==> after.condition_tracker.streak == 0 && after.deadline == Some(env.now)
            &&& ended && !passed ==> {
                &&& after.auxiliary is Idle
                &&& context.condition_tracker.streak < u32::MAX ==> after.condition_tracker.streak
                    == context.condition_tracker.streak + 1
                &&& after.deadline matches Some(due) && due.nanoseconds >= env.now.nanoseconds
            }
            &&& !ended ==> after == context
        }),
{
    reveal(auxiliary::condition_handled);
    reveal(auxiliary::condition_rescheduled);
}

/// A condition which overruns its time is killed and evaluated again later.
pub proof fn overrunning_conditions_are_killed(
    context: ExecutionModel,
    env: Surroundings,
    task: BrokerTaskId,
)
    requires
        context.machine.state is WaitingCondition,
        context.lifecycle is None,
        env.config.start_condition is Some,
        env.commands.condition,
        context.auxiliary == AuxiliaryExecution::Running(task),
    ensures
        ({
            let step = timers::executor_timer_handled(context, env);
            &&& step.error is None
            &&& step.context.machine == context.machine
            &&& step.context.auxiliary == (AuxiliaryExecution::Killing { task, retry: true })
            &&& step.context.outbox == context.outbox.push(
                ActionModel::Broker(
                    BrokerAction::SignalTask {
                        task,
                        scope: BrokerSignalScope::Group,
                        signal: ProcessSignal::Kill,
                    },
                ),
            )
        }),
{
    reveal(timers::executor_timer_handled);
    reveal(timers::waiting_timer_handled);
}

// ---------------------------------------------------------------------------
// Signals
// ---------------------------------------------------------------------------

/// A signal request is delivered as it was asked for: the broker signals the live
/// generation, at the requested target, with the signal of the requested name, and
/// nothing about the service changes.
pub proof fn signal_requests_signal_the_live_generation(
    context: ExecutionModel,
    env: Surroundings,
    service_name: Seq<char>,
    command: CommandToken,
    request: RequestModel,
    supervisor: u32,
)
    requires
        request.operation is Signal,
        env.config.process_mode != ProcessMode::DescriptorTracking,
        context.pending_detach is None,
        context.lifecycle is None,
        decision::decided(service_name, context.machine, request).0.response.code is Success,
    ensures
        ({
            let step = control::control_applied(
                context,
                env,
                service_name,
                command,
                request,
                supervisor,
            );
            let work = step.context.outbox.last();
            &&& step.error is None
            &&& step.context.machine == context.machine
            &&& step.context.outbox.len() == context.outbox.len() + 1
            &&& work matches ActionModel::Broker(
                BrokerAction::Signal { generation, scope, signal },
            ) && context.machine.state.spec_live_generation() == Some(generation) && (
            request.scope is Main <==> scope is Process) && control::platform_name(signal)
                == request.signal->0.spelling()
            &&& step.context.pending_signals.len() == context.pending_signals.len() + 1
            &&& step.context.pending_signals.last() matches PendingSignal::Control(reply)
                && reply.command == command
        }),
{
    reveal(control::control_applied);
    reveal(control::standard_control_applied);
}

/// Acknowledgements are settled in the order in which signals were sent, and a
/// client hears of success exactly when its own signal was delivered.
pub proof fn signals_are_acknowledged_in_order(
    context: ExecutionModel,
    generation: Generation,
    os_error: Option<i32>,
)
    requires
        context.pending_signals.len() > 0,
    ensures
        ({
            let step = completion::signal_finished(context, generation, os_error);
            &&& step.error is None
            &&& step.context.pending_signals == context.pending_signals.skip(1)
            &&& step.context.machine == context.machine
            &&& context.pending_signals[0] is Lifecycle ==> step.context.outbox == context.outbox
            &&& context.pending_signals[0] matches PendingSignal::Control(reply) ==> {
                &&& step.context.outbox.len() == context.outbox.len() + 1
                &&& step.context.outbox.last() matches ActionModel::Respond { command, response }
                    && command == reply.command && (response.code is Success <==> os_error is None)
            }
        }),
{
    reveal(completion::signal_finished);
    assert(context.pending_signals.drop_first() =~= context.pending_signals.skip(1));
}

// ---------------------------------------------------------------------------
// Stopping
// ---------------------------------------------------------------------------

/// A stop of a running group asks the whole group to terminate, continues it so
/// that a stopped group can react, and waits five seconds before anything harder.
pub proof fn stops_ask_the_group_first(
    context: ExecutionModel,
    env: Surroundings,
    accepted: control::AcceptedModel,
    generation: Generation,
    after: StopCompletion,
)
    requires
        accepted.effect == (decision::ControlEffect::StopGroup { generation, after }),
        context.machine.state.spec_live_generation() == Some(generation),
        !(context.machine.state is Stopping),
    ensures
        ({
            let step = control::standard_control_applied(context, env, accepted);
            let asked = context.outbox.len() as int;
            &&& step.error is None
            &&& step.context.machine.state == SupervisorState::Stopping(generation)
            &&& step.context.pending_stop == Some(after)
            &&& !step.context.stop_kill_sent
            &&& step.context.deadline == Some(env.now.after(5))
            &&& step.context.outbox.len() == asked + 3
            &&& step.context.outbox[asked] == ActionModel::Broker(
                BrokerAction::Signal {
                    generation,
                    scope: BrokerSignalScope::Group,
                    signal: ProcessSignal::Terminate,
                },
            )
            &&& step.context.outbox[asked + 1] == ActionModel::Broker(
                BrokerAction::Signal {
                    generation,
                    scope: BrokerSignalScope::Group,
                    signal: ProcessSignal::Continue,
                },
            )
        }),
{
    reveal(control::standard_control_applied);
}

/// A group which outlives its grace period is killed once, as a whole; a group
/// which outlives even that is a failure.
pub proof fn stops_escalate_to_a_kill(
    context: ExecutionModel,
    env: Surroundings,
    generation: Generation,
)
    requires
        context.machine.state == SupervisorState::Stopping(generation),
        context.lifecycle is None,
    ensures
        ({
            let step = timers::executor_timer_handled(context, env);
            &&& step.context.machine == context.machine
            &&& context.stop_kill_sent ==> step.error is Some && step.context == context
            &&& !context.stop_kill_sent ==> {
                &&& step.error is None
                &&& step.context.stop_kill_sent
                &&& step.context.outbox == context.outbox.push(
                    ActionModel::Broker(
                        BrokerAction::Signal {
                            generation,
                            scope: BrokerSignalScope::Group,
                            signal: ProcessSignal::Kill,
                        },
                    ),
                )
            }
        }),
{
    reveal(timers::executor_timer_handled);
}

/// Terminating the supervisor stops a live group and leaves nothing else to start:
/// the intent is to halt, a pending start is dropped, and a running group is asked
/// to end.
pub proof fn shutdown_stops_the_service(context: ExecutionModel, env: Surroundings)
    requires
        !(context.machine.state is Initializing),
    ensures
        ({
            let step = control::supervisor_shutdown_begun(context, env);
            &&& step.error is None
            &&& step.context.machine.desired is Halt
            &&& context.machine.state.spec_live_generation() matches Some(generation)
                ==> step.context.machine.state == SupervisorState::Stopping(generation)
                && step.context.pending_stop == Some(StopCompletion::Halt)
            &&& context.machine.state is WaitingCondition || context.machine.state is Backoff
                ==> step.context.machine.state is Down && step.context.deadline is None
        }),
{
    reveal(control::supervisor_shutdown_begun);
}

// ---------------------------------------------------------------------------
// Ending
// ---------------------------------------------------------------------------

/// An ended generation without a hook settles at once: an operator's stop leaves
/// the service down or ends the supervisor, a single run leaves it down and turns
/// the intent to down, and otherwise policy decides.
pub proof fn ended_generations_follow_the_operator(
    context: ExecutionModel,
    env: Surroundings,
    generation: Generation,
    result: ChildResult,
    start_failed: bool,
)
    requires
        context.machine.state.spec_live_generation() == Some(generation),
        !env.commands.post_exit,
    ensures
        ({
            let step = completion::generation_completed(
                context,
                env,
                generation,
                result,
                start_failed,
            );
            let after = step.context.machine;
            let desired = context.machine.desired;
            &&& step.error is None
            &&& context.pending_stop matches Some(stop) ==> {
                &&& stop is Halt ==> after.state is Exited
                &&& !(stop is Halt) ==> after.state is Down
            }
            &&& context.pending_stop is None ==> {
                &&& desired is Once || desired is Down ==> after.state is Down
                &&& desired is Halt || desired is Exit ==> after.state is Exited
            }
            &&& desired is Once ==> after.desired is Down
            &&& !(desired is Once) ==> after.desired == desired
            &&& step.context.pending_stop is None
            &&& step.context.status.main_pid is None
            &&& step.context.status.last_result == Some(result)
            &&& step.context.status.last_start_failed == start_failed
            &&& step.context.status.last_readiness_failed == context.status.readiness_failed
            &&& step.context.status.down_since == Some(env.now)
            &&& step.context.status.started_at is None
        }),
{
    reveal(completion::generation_completed);
    reveal(completion::ended_context);
    reveal(completion::completion_finished);
}

/// The `always` policy without limits keeps a wanted service running: whatever its
/// generation's result was, the next start waits its backoff delay, within the
/// permitted jitter of a delay no longer than the configured maximum.
pub proof fn always_services_are_started_again(
    context: ExecutionModel,
    env: Surroundings,
    generation: Generation,
    result: ChildResult,
    start_failed: bool,
)
    requires
        context.machine.state.spec_live_generation() == Some(generation),
        context.machine.desired is Up,
        context.pending_stop is None,
        !env.commands.post_exit,
        env.config.restart.policy is Always,
        env.config.restart.limits.max_retries is None,
        env.config.restart.limits.max_elapsed_seconds is None,
        env.config.restart.limits.burst is None,
    ensures
        ({
            let step = completion::generation_completed(
                context,
                env,
                generation,
                result,
                start_failed,
            );
            &&& step.error is None
            &&& step.context.machine.desired is Up
            &&& step.context.machine.state matches SupervisorState::Backoff {
                generation: ended,
                delay_seconds,
            } && ended == generation && delay_seconds <= env.config.restart.backoff.max_seconds
                && step.context.deadline == Some(
                env.now.after(
                    clock::jittered(
                        delay_seconds,
                        env.config.restart.backoff.jitter_percent,
                        generation.number(),
                        env.broker,
                    ),
                ),
            )
        }),
{
    reveal(completion::generation_completed);
    reveal(completion::ended_context);
    reveal(completion::completion_finished);
    let completed = completion::ended_completion(context, env, generation, result);
    restart::restart_delay_is_bounded(
        context.tracker,
        completed.policy_result,
        completed.runtime_seconds,
        env.now.since(context.epoch),
        DesiredState::Up,
        env.config.restart,
    );
}

/// Policy never sees a broken readiness contract as a success: such a generation
/// counts as one which exited with one, whatever its result was.
pub proof fn broken_readiness_is_a_failure(
    context: ExecutionModel,
    env: Surroundings,
    generation: Generation,
    result: ChildResult,
)
    ensures
        ({
            let completion = completion::ended_completion(context, env, generation, result);
            &&& completion.generation == generation
            &&& completion.stop == context.pending_stop
            &&& completion.policy_result == (if context.status.readiness_failed {
                ChildResult::Exited(1)
            } else {
                result
            })
            &&& context.status.started_at matches Some(started) ==> completion.runtime_seconds
                == env.now.since(started)
        }),
{
}

/// Failures are counted exactly for generations which ended unsuccessfully on their
/// own: a stop which an operator asked for is never a failure.
pub proof fn only_own_failures_are_counted(
    context: ExecutionModel,
    env: Surroundings,
    result: ChildResult,
    start_failed: bool,
)
    requires
        context.status.failures < u64::MAX,
    ensures
        ({
            let failures = completion::ended_status(context, env, result, start_failed).failures;
            let succeeded = match result {
                ChildResult::Exited(code) => env.config.restart.success_exit_codes@.contains(code),
                ChildResult::LifetimeClosed => true,
                _ => false,
            };
            &&& context.pending_stop is Some ==> failures == context.status.failures
            &&& context.pending_stop is None && start_failed ==> failures
                == context.status.failures + 1
            &&& context.pending_stop is None && !start_failed && !context.status.readiness_failed
                ==> failures == context.status.failures + (if succeeded {
                0int
            } else {
                1
            })
        }),
{
}

/// A generation which cannot be executed ends like one which exited with 127, and
/// is remembered as a failed start.
pub proof fn failed_starts_end_the_generation(
    context: ExecutionModel,
    env: Surroundings,
    generation: Generation,
)
    requires
        context.machine.state.spec_live_generation() == Some(generation),
        !env.commands.post_exit,
    ensures
        ({
            let step = events::broker_handled(
                context,
                env,
                ProcessBrokerEvent::SpawnFailed { generation },
            );
            &&& step.error is None
            &&& step.context.status.last_result == Some(ChildResult::Exited(127))
            &&& step.context.status.last_start_failed
            &&& step.context.machine.state.spec_live_generation() is None
            &&& step.context.descriptor is None
        }),
{
    reveal(events::broker_handled);
    reveal(events::service_handled);
    let released = ExecutionModel { descriptor: None, ..context };
    ended_generations_follow_the_operator(
        released,
        env,
        generation,
        ChildResult::Exited(127),
        true,
    );
    reveal(completion::generation_completed);
    reveal(completion::ended_context);
    reveal(completion::completion_finished);
}

/// A hook postpones the end of a generation and changes nothing about it: while it
/// runs the generation is completed, it is told about the generation, and once it
/// ends, however it does, the decision is the one which the ended generation asked
/// for.
pub proof fn hooks_only_postpone_the_decision(
    context: ExecutionModel,
    env: Surroundings,
    generation: Generation,
    result: ChildResult,
    start_failed: bool,
)
    requires
        context.machine.state.spec_live_generation() == Some(generation),
        env.commands.post_exit,
        0 < context.next_task < u64::MAX,
    ensures
        ({
            let step = completion::generation_completed(
                context,
                env,
                generation,
                result,
                start_failed,
            );
            let pending = step.context.pending_completion;
            &&& step.error is None
            &&& step.context.machine.state == SupervisorState::Completed(generation)
            &&& pending == Some(completion::ended_completion(context, env, generation, result))
            &&& step.context.outbox.last() matches ActionModel::Broker(
                BrokerAction::SpawnTask { command: TaskCommand::PostExit(told), .. },
            ) && told.generation == generation && told.result == result && told.start_failed
                == start_failed && told.readiness_failed == context.status.readiness_failed
        }),
{
    reveal(completion::generation_completed);
    reveal(completion::ended_context);
}

/// Once its hook ended, a generation settles exactly as it would have without one.
pub proof fn finished_hooks_settle_the_generation(
    context: ExecutionModel,
    env: Surroundings,
    completion: PendingCompletion,
)
    requires
        context.machine.state == SupervisorState::Completed(completion.generation),
    ensures
        ({
            let step = completion::completion_finished(context, env, completion, true);
            let live = ExecutionModel {
                machine: machine::MachineModel {
                    state: SupervisorState::Stopping(completion.generation),
                    ..context.machine
                },
                ..context
            };
            let direct = completion::completion_finished(live, env, completion, false);
            &&& step.error is None
            &&& step.context == direct.context
            &&& step.context.pending_completion is None
        }),
{
    reveal(completion::completion_finished);
}

/// A generation which job control stops is paused and continues as it was; no
/// other observation of a living child changes anything.
pub proof fn job_control_pauses_and_continues(
    context: ExecutionModel,
    env: Surroundings,
    generation: Generation,
    stopped: ProcessId,
    continued: ProcessId,
)
    requires
        context.machine.state == SupervisorState::Ready(generation) || context.machine.state
            == SupervisorState::Running(generation),
    ensures
        ({
            let paused = completion::service_child_handled(
                context,
                env,
                generation,
                ChildEvent::Stopped { pid: stopped },
            );
            let resumed = completion::service_child_handled(
                paused.context,
                env,
                generation,
                ChildEvent::Continued { pid: continued },
            );
            &&& paused.error is None && resumed.error is None
            &&& paused.context.machine.state is Paused
            &&& paused.context.outbox == context.outbox
            &&& resumed.context == context
        }),
{
    reveal(completion::service_child_handled);
}

/// A detached generation ends the supervisor and leaves the child alone: nothing
/// is signalled, and the client hears of success.
pub proof fn detached_generations_are_left_running(
    context: ExecutionModel,
    generation: Generation,
)
    requires
        context.pending_detach matches Some(pending) && pending.generation == generation,
        context.machine.state.spec_live_generation() == Some(generation),
    ensures
        ({
            let step = completion::detach_finished(context, generation, true);
            let after = step.context;
            &&& step.error is None
            &&& after.machine.state is Exited
            &&& after.pending_detach is None
            &&& after.status.main_pid is None
            &&& after.outbox.last() matches ActionModel::Respond { command, response } && command
                == context.pending_detach->0.reply.command && response.code is Success
            &&& forall|i: int|
                context.outbox.len() <= i < after.outbox.len() - 1 ==> #[trigger] after.outbox[i]
                    == ActionModel::Broker(BrokerAction::RemoveMainPid)
        }),
{
    reveal(completion::detach_finished);
}

/// An exit with a live child hands the child over and keeps supervising it, with
/// the intent it had, until the broker answers.
pub proof fn exits_wait_for_the_handover(
    context: ExecutionModel,
    env: Surroundings,
    accepted: control::AcceptedModel,
    generation: Generation,
)
    requires
        accepted.effect == (decision::ControlEffect::ExitSupervisor { leave_child: true }),
        context.machine.state.spec_live_generation() == Some(generation),
    ensures
        ({
            let step = control::standard_control_applied(context, env, accepted);
            &&& step.error is None
            &&& step.context.machine.state == context.machine.state
            &&& step.context.machine.desired == accepted.previous_desired
            &&& step.context.outbox == context.outbox.push(
                ActionModel::Broker(BrokerAction::Detach { generation }),
            )
            &&& step.context.pending_detach matches Some(pending) && pending.generation
                == generation && pending.reply.command == accepted.command
        }),
{
    reveal(control::standard_control_applied);
}

// ---------------------------------------------------------------------------
// Refusals
// ---------------------------------------------------------------------------

/// While a handover or a lifecycle hook is pending, only a status is answered; an
/// exit is refused for a service whose output the broker owns. A refusal changes
/// nothing but the answer.
pub proof fn pending_work_excludes_requests(
    context: ExecutionModel,
    env: Surroundings,
    service_name: Seq<char>,
    command: CommandToken,
    request: RequestModel,
    supervisor: u32,
)
    requires
        !(request.operation is Status),
        context.pending_detach is Some || context.lifecycle is Some || (request.operation is Exit
            && context.loggers.len() > 0),
    ensures
        ({
            let step = control::control_applied(
                context,
                env,
                service_name,
                command,
                request,
                supervisor,
            );
            &&& step.error is None
            &&& step.context == (ExecutionModel { outbox: step.context.outbox, ..context })
            &&& step.context.outbox.len() == context.outbox.len() + 1
            &&& step.context.outbox.last() matches ActionModel::Respond {
                command: answered,
                response,
            } && answered == command && (response.code is Conflict || response.code is Invalid)
                && response.generation == context.machine.state.spec_generation()
        }),
{
    reveal(control::control_applied);
}

/// A descriptor-tracked service is never signalled or detached by a request: its
/// own hooks stop and reload it, HUP runs the reload hook, and every other signal
/// and an exit are refused with the intent as it was.
pub proof fn descriptor_services_run_their_hooks(
    context: ExecutionModel,
    env: Surroundings,
    accepted: control::AcceptedModel,
)
    requires
        env.config.descriptor_tracking is Some,
        env.commands.descriptor_stop,
        env.commands.descriptor_reload,
        context.lifecycle is None,
        0 < context.next_task < u64::MAX,
    ensures
        ({
            let step = control::descriptor_control_applied(context, env, accepted);
            let hook = step.context.lifecycle;
            let work = step.context.outbox.last();
            &&& accepted.effect matches decision::ControlEffect::StopGroup { generation, after }
                ==> (context.machine.state.spec_live_generation() == Some(generation)
                && !(context.machine.state is Stopping) ==> {
                &&& step.error is None
                &&& step.context.machine.state == SupervisorState::Stopping(generation)
                &&& hook matches Some(run) && run.kind is Stop && run.generation == generation
                    && run.after == Some(after) && run.timeout_seconds
                    == env.config.descriptor_tracking->0.stop.timeout_seconds
                &&& work matches ActionModel::Broker(
                    BrokerAction::SpawnTask { command: TaskCommand::DescriptorStop, .. },
                )
            })
            &&& accepted.effect matches decision::ControlEffect::DeliverSignal { signal, .. } ==> {
                &&& step.error is None
                &&& step.context.machine == context.machine
                &&& signal is Hangup ==> (hook matches Some(run) && run.kind is Reload
                    && run.timeout_seconds
                    == env.config.descriptor_tracking->0.reload.timeout_seconds) && (work matches
                    ActionModel::Broker(
                    BrokerAction::SpawnTask { command: TaskCommand::DescriptorReload, .. },
                ))
                &&& !(signal is Hangup) ==> hook is None && (work matches ActionModel::Respond {
                    response,
                    ..
                } && response.code is Invalid)
            }
            &&& accepted.effect is ExitSupervisor ==> {
                &&& step.error is None
                &&& step.context.machine.state == context.machine.state
                &&& step.context.machine.desired == accepted.previous_desired
                &&& work matches ActionModel::Respond { response, .. } && response.code is Invalid
            }
        }),
{
    reveal(control::descriptor_control_applied);
    reveal(control::hook_begun);
}

/// A tracked generation ends only when both its launcher and its lifetime ended;
/// while either is missing nothing happens.
pub proof fn tracked_generations_end_as_a_whole(
    context: ExecutionModel,
    env: Surroundings,
    generation: Generation,
)
    requires
        context.descriptor matches Some(half) ==> half.generation != generation
            || half.launcher_result is None || half.lifetime_result is None,
    ensures
        completion::descriptor_finished(context, env, generation) == context::done(context),
{
    reveal(completion::descriptor_finished);
}

/// What a tracked generation ended with: a lifetime which ended first, or after a
/// launcher which succeeded, speaks for the service; a failed launcher speaks for
/// itself.
pub proof fn launchers_hand_over_to_the_lifetime(
    half: context::DescriptorExecution,
    env: Surroundings,
    launched: ChildResult,
    lived: ChildResult,
)
    requires
        half.launcher_result == Some(launched),
        half.lifetime_result == Some(lived),
    ensures
        half.lifetime_preceded_launcher ==> completion::joined_result(half, env) == lived,
        !half.lifetime_preceded_launcher && launched is Signaled ==> completion::joined_result(
            half,
            env,
        ) == launched,
        !half.lifetime_preceded_launcher ==> (launched matches ChildResult::Exited(code)
            ==> completion::joined_result(half, env)
            == (if env.config.restart.success_exit_codes@.contains(code) {
            lived
        } else {
            launched
        })),
{
}

/// A failed stop hook gives the generation back: it keeps running with the intent
/// and the readiness it had, and the client hears of the failure.
pub proof fn failed_stop_hooks_give_the_service_back(
    context: ExecutionModel,
    env: Surroundings,
    message: Seq<char>,
)
    requires
        context.lifecycle matches Some(run) && run.kind is Stop && context.machine.state
            == SupervisorState::Stopping(run.generation),
        context.descriptor matches Some(half) ==> half.launcher_result is None
            || half.lifetime_result is None,
    ensures
        ({
            let run = context.lifecycle->0;
            let step = events::lifecycle_failed(context, env, message);
            &&& step.error is None
            &&& step.context.lifecycle is None
            &&& step.context.pending_stop is None
            &&& step.context.machine.desired == run.previous_desired
            &&& run.resume_ready ==> step.context.machine.state == SupervisorState::Ready(
                run.generation,
            )
            &&& !run.resume_ready ==> step.context.machine.state == SupervisorState::Running(
                run.generation,
            )
            &&& run.reply matches Some(reply) ==> (step.context.outbox.last() matches
                ActionModel::Respond { command, response } && command == reply.command
                && response.code is Internal)
        }),
{
    reveal(events::lifecycle_failed);
    reveal(completion::descriptor_finished);
}

/// A broken containment is always a failure of the supervisor and never ignored.
pub proof fn broken_containment_is_never_ignored(
    context: ExecutionModel,
    env: Surroundings,
    event: ProcessBrokerEvent,
)
    requires
        event is ContainmentFailed || event is TaskContainmentFailed,
    ensures
        events::broker_handled(context, env, event).error is Some,
        events::broker_handled(context, env, event).context == context,
{
    reveal(events::broker_handled);
}

/// A running generation which breaks its readiness contract is stopped and
/// remembered as broken; one which already has a lifecycle decision is only
/// remembered.
pub proof fn broken_readiness_stops_the_service(
    context: ExecutionModel,
    env: Surroundings,
    generation: Generation,
)
    requires
        context.machine.state.spec_generation() == Some(generation),
        env.config.process_mode != ProcessMode::DescriptorTracking,
    ensures
        ({
            let step = events::broker_handled(
                context,
                env,
                ProcessBrokerEvent::ReadinessFailed { generation },
            );
            &&& step.error is None
            &&& step.context.status.readiness_failed
            &&& context.machine.state is Running ==> step.context.machine.state
                == SupervisorState::Stopping(generation) && step.context.deadline == Some(
                env.now.after(5),
            )
            &&& !(context.machine.state is Running) ==> step.context.machine == context.machine
                && step.context.outbox == context.outbox
        }),
{
    reveal(events::broker_handled);
    reveal(events::service_handled);
    reveal(events::readiness_failure_handled);
}

// ---------------------------------------------------------------------------
// Readiness
// ---------------------------------------------------------------------------

/// Whether a generation counts as ready: it is shown so, or a stop hook holds it
/// which gives it back as ready.
pub open spec fn counts_ready(context: ExecutionModel, generation: Generation) -> bool {
    ||| context.machine.state == SupervisorState::Ready(generation)
    ||| context.machine.state == (SupervisorState::Paused { generation, ready: true })
    ||| context.lifecycle matches Some(run) && run.kind is Stop && run.generation == generation
        && run.resume_ready
}

/// Whether a step made no generation ready.
#[verifier::opaque]
pub open spec fn none_readied(before: ExecutionModel, after: ExecutionModel) -> bool {
    forall|generation: Generation| #[trigger]
        counts_ready(after, generation) ==> counts_ready(before, generation)
}

proof fn lemma_readied_chain(first: ExecutionModel, second: ExecutionModel, third: ExecutionModel)
    requires
        none_readied(first, second),
        none_readied(second, third),
    ensures
        none_readied(first, third),
{
    reveal(none_readied);
}

proof fn lemma_same_readiness(before: ExecutionModel, after: ExecutionModel)
    requires
        after.machine.state == before.machine.state,
        after.lifecycle == before.lifecycle || after.lifecycle is None,
    ensures
        none_readied(before, after),
{
    reveal(none_readied);
}

proof fn lemma_unready_state(before: ExecutionModel, after: ExecutionModel)
    requires
        !(after.machine.state is Ready),
        !(after.machine.state is Paused),
        after.lifecycle == before.lifecycle || after.lifecycle is None,
    ensures
        none_readied(before, after),
{
    reveal(none_readied);
}

proof fn lemma_completion_readies_none(
    context: ExecutionModel,
    env: Surroundings,
    generation: Generation,
    result: ChildResult,
    start_failed: bool,
)
    ensures
        none_readied(
            context,
            completion::generation_completed(
                context,
                env,
                generation,
                result,
                start_failed,
            ).context,
        ),
{
    reveal(completion::generation_completed);
    reveal(completion::ended_context);
    reveal(completion::completion_finished);
    reveal(none_readied);
}

proof fn lemma_descriptor_readies_none(
    context: ExecutionModel,
    env: Surroundings,
    generation: Generation,
)
    ensures
        none_readied(context, completion::descriptor_finished(context, env, generation).context),
{
    reveal(completion::descriptor_finished);
    if completion::descriptor_ended(context, generation) {
        let released = ExecutionModel {
            lifecycle: if completion::stops_generation(context, generation) {
                None
            } else {
                context.lifecycle
            },
            descriptor: None,
            ..context
        };
        let result = completion::joined_result(context.descriptor->0, env);
        let completed = completion::generation_completed(released, env, generation, result, false);
        lemma_same_readiness(context, released);
        lemma_completion_readies_none(released, env, generation, result, false);
        lemma_readied_chain(context, released, completed.context);
        lemma_same_readiness(
            completed.context,
            completion::descriptor_finished(context, env, generation).context,
        );
        lemma_readied_chain(
            context,
            completed.context,
            completion::descriptor_finished(context, env, generation).context,
        );
    } else {
        lemma_same_readiness(context, context);
    }
}

proof fn lemma_hook_failure_readies_none(
    context: ExecutionModel,
    env: Surroundings,
    message: Seq<char>,
)
    ensures
        none_readied(context, events::lifecycle_failed(context, env, message).context),
{
    reveal(events::lifecycle_failed);
    let after = events::lifecycle_failed(context, env, message).context;
    match context.lifecycle {
        None => lemma_same_readiness(context, after),
        Some(run) => {
            let released = ExecutionModel { lifecycle: None, ..context };
            let undone = if run.kind is Stop {
                context::transited(
                    released,
                    Transition::AbortStop {
                        generation: run.generation,
                        resume_ready: run.resume_ready,
                        previous_desired: run.previous_desired,
                    },
                )
            } else {
                context::done(released)
            };
            assert(none_readied(context, undone.context)) by {
                reveal(none_readied);
            }
            if undone.error is None {
                let settled = ExecutionModel {
                    pending_stop: if run.kind is Stop {
                        None
                    } else {
                        context.pending_stop
                    },
                    deadline: None,
                    ..undone.context
                };
                let replied = completion::lifecycle_replied(
                    settled,
                    Some(run),
                    ResponseCode::Internal,
                    message,
                );
                lemma_same_readiness(undone.context, replied);
                lemma_readied_chain(context, undone.context, replied);
                lemma_descriptor_readies_none(replied, env, run.generation);
                lemma_readied_chain(context, replied, after);
            }
        },
    }
}

proof fn lemma_hook_success_readies_none(context: ExecutionModel, env: Surroundings)
    ensures
        none_readied(context, events::lifecycle_succeeded(context, env).context),
{
    reveal(events::lifecycle_succeeded);
    let after = events::lifecycle_succeeded(context, env).context;
    match context.lifecycle {
        None => lemma_same_readiness(context, after),
        Some(run) => if run.kind is Reload {
            lemma_same_readiness(context, after);
        } else {
            let waiting = ExecutionModel {
                lifecycle: Some(
                    context::LifecycleExecution {
                        state: context::LifecycleHookState::WaitingLifetime,
                        ..run
                    },
                ),
                pending_stop: run.after,
                ..context
            };
            assert(none_readied(context, waiting)) by {
                reveal(none_readied);
            }
            if let Some(tracking) = env.config.descriptor_tracking {
                let timed = ExecutionModel {
                    deadline: Some(env.now.after(tracking.lifetime_timeout_seconds)),
                    ..waiting
                };
                lemma_same_readiness(waiting, timed);
                lemma_readied_chain(context, waiting, timed);
                lemma_descriptor_readies_none(timed, env, run.generation);
                lemma_readied_chain(context, timed, after);
            }
        },
    }
}

proof fn lemma_lifecycle_readies_none(
    context: ExecutionModel,
    env: Surroundings,
    event: ProcessBrokerEvent,
)
    ensures
        none_readied(context, events::lifecycle_handled(context, env, event).context),
{
    reveal(events::lifecycle_handled);
    lemma_hook_failure_readies_none(
        context,
        env,
        "descriptor lifecycle hook could not be started"@,
    );
    lemma_hook_failure_readies_none(
        context,
        env,
        "descriptor lifecycle hook did not complete successfully"@,
    );
    lemma_hook_failure_readies_none(context, env, "descriptor lifecycle hook could not be killed"@);
    lemma_hook_success_readies_none(context, env);
    lemma_same_readiness(context, context);
    if let Some(run) = context.lifecycle {
        let running = ExecutionModel {
            lifecycle: Some(
                context::LifecycleExecution { state: context::LifecycleHookState::Running, ..run },
            ),
            deadline: Some(env.now.after(run.timeout_seconds)),
            ..context
        };
        assert(none_readied(context, running)) by {
            reveal(none_readied);
        }
    }
}

proof fn lemma_hook_begins_unready(
    context: ExecutionModel,
    env: Surroundings,
    request: control::LifecycleHookRequest,
    before: ExecutionModel,
)
    requires
        none_readied(before, context),
        request.kind is Stop && request.resume_ready ==> counts_ready(before, request.generation),
    ensures
        none_readied(before, control::hook_begun(context, env, request).context),
{
    reveal(control::hook_begun);
    reveal(none_readied);
    let after = control::hook_begun(context, env, request).context;
    assert forall|generation: Generation| #[trigger] counts_ready(after, generation) implies
        counts_ready(before, generation) by {
        if !counts_ready(context, generation) {
            assert(request.generation == generation);
        }
    }
}

proof fn lemma_auxiliary_readies_none(
    context: ExecutionModel,
    env: Surroundings,
    event: ProcessBrokerEvent,
)
    ensures
        none_readied(context, auxiliary::auxiliary_handled(context, env, event).context),
{
    reveal(auxiliary::post_exit_handled);
    reveal(auxiliary::condition_handled);
    reveal(auxiliary::condition_rescheduled);
    reveal(completion::completion_finished);
    reveal(none_readied);
}

proof fn lemma_lifetime_readies_none(
    context: ExecutionModel,
    env: Surroundings,
    generation: Generation,
    result: completion::LifetimeResult,
)
    ensures
        none_readied(
            context,
            completion::lifetime_handled(context, env, generation, result).context,
        ),
{
    reveal(completion::lifetime_handled);
    let after = completion::lifetime_handled(context, env, generation, result).context;
    if context.descriptor matches Some(half) && half.generation == generation
        && half.lifetime_result is None {
        let recorded = ExecutionModel {
            descriptor: Some(
                context::DescriptorExecution {
                    lifetime_preceded_launcher: context.descriptor->0.launcher_result is None,
                    lifetime_result: Some(result.result()),
                    ..context.descriptor->0
                },
            ),
            ..context
        };
        lemma_same_readiness(context, recorded);
        if context.descriptor->0.launcher_result is None
            && context.machine.state.spec_live_generation() == Some(generation)
            && !completion::stops_generation(context, generation) {
            let stopping = if context.machine.state is Stopping {
                context::done(recorded)
            } else {
                context::transited(recorded, Transition::BeginStop(generation))
            };
            if stopping.error is None {
                let asked = ExecutionModel {
                    stop_kill_sent: false,
                    deadline: Some(env.now.after(context::SERVICE_STOP_GRACE)),
                    ..stopping::group_stop_requested(stopping.context, generation)
                };
                lemma_unready_state(context, asked);
                lemma_descriptor_readies_none(asked, env, generation);
                lemma_readied_chain(context, asked, after);
            } else {
                lemma_same_readiness(context, after);
            }
        } else {
            lemma_descriptor_readies_none(recorded, env, generation);
            lemma_readied_chain(context, recorded, after);
        }
    } else {
        lemma_same_readiness(context, after);
    }
}

proof fn lemma_child_readies_none(
    context: ExecutionModel,
    env: Surroundings,
    generation: Generation,
    child: ChildEvent,
)
    ensures
        none_readied(
            context,
            completion::service_child_handled(context, env, generation, child).context,
        ),
{
    reveal(completion::service_child_handled);
    let after = completion::service_child_handled(context, env, generation, child).context;
    let state = context.machine.state;
    if child is Stopped && (state is Running || state is Ready) || child is Continued && state
        is Paused || child.result() is None {
        reveal(none_readied);
    } else if env.config.process_mode == ProcessMode::DescriptorTracking {
        if context.descriptor matches Some(half) && half.generation == generation
            && half.launcher_result is None {
            let recorded = context::pid_cleared(
                ExecutionModel {
                    descriptor: Some(
                        context::DescriptorExecution {
                            launcher_result: child.result(),
                            ..context.descriptor->0
                        },
                    ),
                    ..context
                },
            );
            lemma_same_readiness(context, recorded);
            lemma_descriptor_readies_none(recorded, env, generation);
            lemma_readied_chain(context, recorded, after);
        } else {
            lemma_same_readiness(context, after);
        }
    } else {
        lemma_completion_readies_none(context, env, generation, child.result()->0, false);
    }
}

proof fn lemma_service_readies_none(
    context: ExecutionModel,
    env: Surroundings,
    event: ProcessBrokerEvent,
)
    requires
        env.config.readiness.mode == ReadinessMode::NotifyFd,
        !(event is GenerationReady),
    ensures
        none_readied(context, events::service_handled(context, env, event).context),
{
    reveal(events::service_handled);
    let after = events::service_handled(context, env, event).context;
    lemma_same_readiness(context, context);
    match event {
        ProcessBrokerEvent::Started { .. } => {
            reveal(events::service_start_observed);
            reveal(none_readied);
        },
        ProcessBrokerEvent::SpawnFailed { generation } => {
            let released = ExecutionModel { descriptor: None, ..context };
            lemma_same_readiness(context, released);
            lemma_completion_readies_none(
                released,
                env,
                generation,
                ChildResult::Exited(context::SPAWN_FAILURE_EXIT),
                true,
            );
            if context.machine.state.spec_live_generation() == Some(generation) {
                lemma_readied_chain(context, released, after);
            }
        },
        ProcessBrokerEvent::Child { generation, event: child } => {
            lemma_child_readies_none(context, env, generation, child);
        },
        ProcessBrokerEvent::SignalDelivered { .. } => {
            reveal(completion::signal_finished);
            lemma_same_readiness(context, after);
        },
        ProcessBrokerEvent::SignalFailed { .. } => {
            reveal(completion::signal_finished);
            lemma_same_readiness(context, after);
        },
        ProcessBrokerEvent::ReadinessFailed { generation } => {
            reveal(events::readiness_failure_handled);
            let noted = events::readiness_failure_noted(context);
            let stopping = context::transited(noted, Transition::BeginStop(generation));
            lemma_same_readiness(context, noted);
            if context.machine.state == SupervisorState::Running(generation) {
                lemma_unready_state(context, stopping.context);
                if env.config.process_mode == ProcessMode::DescriptorTracking {
                    lemma_hook_begins_unready(
                        stopping.context,
                        env,
                        control::LifecycleHookRequest {
                            after: None,
                            reply: None,
                            generation,
                            kind: LifecycleHookKind::Stop,
                            previous_desired: context.machine.desired,
                            resume_ready: false,
                        },
                        context,
                    );
                } else {
                    lemma_unready_state(context, after);
                }
            }
        },
        ProcessBrokerEvent::LifetimeClosed { generation } => {
            lemma_lifetime_readies_none(
                context,
                env,
                generation,
                completion::LifetimeResult::Closed,
            );
        },
        ProcessBrokerEvent::LifetimeFailed { generation } => {
            lemma_lifetime_readies_none(
                context,
                env,
                generation,
                completion::LifetimeResult::Failed,
            );
        },
        ProcessBrokerEvent::Detached { .. } => {
            reveal(completion::detach_finished);
            reveal(none_readied);
        },
        ProcessBrokerEvent::DetachFailed { .. } => {
            reveal(completion::detach_finished);
            reveal(none_readied);
        },
        _ => {},
    }
}

proof fn lemma_broker_readies_none(
    context: ExecutionModel,
    env: Surroundings,
    event: ProcessBrokerEvent,
)
    requires
        env.config.readiness.mode == ReadinessMode::NotifyFd,
        !(event is GenerationReady),
    ensures
        none_readied(context, events::broker_handled(context, env, event).context),
{
    reveal(events::broker_handled);
    let after = events::broker_handled(context, env, event).context;
    if events::breaks_containment(event) || event is LoggerInputsClosed
        && context.logger_shutdown is ClosingInputs {
        lemma_same_readiness(context, after);
    } else {
        lemma_service_readies_none(context, env, event);
        lemma_lifecycle_readies_none(context, env, event);
        lemma_auxiliary_readies_none(context, env, event);
        if events::task_of(event) is Some {
            reveal(events::logger_handled);
            lemma_same_readiness(
                context,
                events::logger_handled(context, env, event).context,
            );
        }
    }
}

/// A broker's report makes a generation ready only when it is that generation's own
/// readiness: under `notify-fd` no start, no signal, no task, and no other report
/// does.
pub proof fn only_readiness_reports_make_ready(
    context: ExecutionModel,
    env: Surroundings,
    event: ProcessBrokerEvent,
    generation: Generation,
)
    requires
        env.config.readiness.mode == ReadinessMode::NotifyFd,
        !counts_ready(context, generation),
        counts_ready(events::broker_handled(context, env, event).context, generation),
    ensures
        event == (ProcessBrokerEvent::GenerationReady { generation }),
{
    if event is GenerationReady {
        reveal(events::broker_handled);
        reveal(events::service_handled);
        reveal(events::readiness_observed);
    } else {
        lemma_broker_readies_none(context, env, event);
        reveal(none_readied);
    }
}

proof fn lemma_timer_readies_none(context: ExecutionModel, env: Surroundings)
    ensures
        none_readied(context, timers::executor_timer_handled(context, env).context),
{
    reveal(timers::executor_timer_handled);
    reveal(timers::lifecycle_timer_handled);
    reveal(timers::waiting_timer_handled);
    reveal(timers::service_started);
    lemma_hook_failure_readies_none(
        context,
        env,
        "descriptor lifetime did not close before its configured deadline"@,
    );
    reveal(none_readied);
}

/// No deadline makes a generation ready.
pub proof fn deadlines_never_make_ready(
    context: ExecutionModel,
    env: Surroundings,
    generation: Generation,
)
    requires
        counts_ready(timers::executor_timer_handled(context, env).context, generation),
    ensures
        counts_ready(context, generation),
{
    lemma_timer_readies_none(context, env);
    reveal(none_readied);
}

/// No request makes a generation ready, whatever work it begins.
pub proof fn requests_never_make_ready(
    context: ExecutionModel,
    env: Surroundings,
    accepted: control::AcceptedModel,
    generation: Generation,
)
    ensures
        counts_ready(control::standard_control_applied(context, env, accepted).context, generation)
            ==> counts_ready(context, generation),
        counts_ready(
            control::descriptor_control_applied(context, env, accepted).context,
            generation,
        ) ==> counts_ready(context, generation),
        counts_ready(control::supervisor_shutdown_begun(context, env).context, generation)
            ==> counts_ready(context, generation),
        counts_ready(control::descriptor_shutdown_begun(context, env).context, generation)
            ==> counts_ready(context, generation),
{
    reveal(control::standard_control_applied);
    reveal(control::descriptor_control_applied);
    reveal(control::supervisor_shutdown_begun);
    reveal(control::descriptor_shutdown_begun);
    reveal(control::hook_begun);
    reveal(timers::auxiliary_cancelled);
}

/// A report of readiness makes a running generation ready, drops its deadline, and
/// is remembered while the generation is paused.
pub proof fn readiness_reports_make_ready(
    context: ExecutionModel,
    env: Surroundings,
    generation: Generation,
)
    requires
        context.machine.state == SupervisorState::Running(generation) || context.machine.state
            == (SupervisorState::Paused { generation, ready: false }),
    ensures
        ({
            let step = events::broker_handled(
                context,
                env,
                ProcessBrokerEvent::GenerationReady { generation },
            );
            &&& step.error is None
            &&& context.machine.state is Running ==> step.context.machine.state
                == SupervisorState::Ready(generation)
            &&& context.machine.state is Paused ==> step.context.machine.state
                == (SupervisorState::Paused { generation, ready: true })
            &&& step.context.deadline is None
            &&& step.context.outbox == context.outbox
        }),
{
    reveal(events::broker_handled);
    reveal(events::service_handled);
    reveal(events::readiness_observed);
}

proof fn lemma_started_loggers_leave_the_service(context: ExecutionModel, now: Moment, from: int)
    ensures
        logger::loggers_started(context, now, from).context.machine == context.machine,
        logger::loggers_started(context, now, from).context.lifecycle == context.lifecycle,
    decreases context.loggers.len() - from,
{
    if 0 <= from < context.loggers.len() {
        if context.loggers[from].state is Down {
            let numbered = context::allocated(context);
            if numbered.error is None {
                lemma_started_loggers_leave_the_service(
                    logger::logger_requested(numbered.context, now, from),
                    now,
                    from + 1,
                );
            }
        } else {
            lemma_started_loggers_leave_the_service(context, now, from + 1);
        }
    }
}

proof fn lemma_signalled_tiers_leave_the_service(
    context: ExecutionModel,
    tier: context::LoggerShutdownTier,
    signal: ProcessSignal,
    now: Moment,
    from: int,
)
    ensures
        logger::tier_signalled(context, tier, signal, now, from).machine == context.machine,
        logger::tier_signalled(context, tier, signal, now, from).lifecycle == context.lifecycle,
    decreases context.loggers.len() - from,
{
    if 0 <= from < context.loggers.len() {
        if logger::tier_of(context.loggers[from].logger) == tier {
            lemma_signalled_tiers_leave_the_service(
                logger::logger_signalled(context, from, signal, now),
                tier,
                signal,
                now,
                from + 1,
            );
        } else {
            lemma_signalled_tiers_leave_the_service(context, tier, signal, now, from + 1);
        }
    }
}

proof fn lemma_timed_loggers_leave_the_service(context: ExecutionModel, now: Moment, from: int)
    ensures
        logger::loggers_timed(context, now, from).context.machine == context.machine,
        logger::loggers_timed(context, now, from).context.lifecycle == context.lifecycle,
    decreases context.loggers.len() - from,
{
    if 0 <= from < context.loggers.len() {
        lemma_timed_loggers_leave_the_service(context, now, from + 1);
        match context.loggers[from].state {
            context::LoggerExecutionState::Backoff { .. } => {
                lemma_timed_loggers_leave_the_service(
                    logger::logger_set(context, from, context::LoggerExecutionState::Down),
                    now,
                    from + 1,
                );
            },
            context::LoggerExecutionState::Starting { task, .. } => {
                lemma_timed_loggers_leave_the_service(
                    logger::logger_set(
                        logger::task_signalled(context, task, ProcessSignal::Kill),
                        from,
                        context::LoggerExecutionState::Killing {
                            task,
                            deadline: now.after(context::BROKER_EVENT_TIMEOUT),
                        },
                    ),
                    now,
                    from + 1,
                );
            },
            _ => {},
        }
    }
}

/// Deadlines of loggers are the loggers' alone: they never touch the service's
/// lifecycle.
pub proof fn logger_deadlines_leave_the_service(context: ExecutionModel, now: Moment)
    ensures
        logger::logger_timers_handled(context, now).context.machine == context.machine,
        logger::logger_timers_handled(context, now).context.lifecycle == context.lifecycle,
{
    reveal(logger::logger_timers_handled);
    reveal(logger::down_loggers_started);
    lemma_timed_loggers_leave_the_service(context, now, 0);
    lemma_started_loggers_leave_the_service(
        logger::loggers_timed(context, now, 0).context,
        now,
        0,
    );
    if let Some(tier) = logger::current_tier(context.logger_shutdown) {
        lemma_signalled_tiers_leave_the_service(context, tier, ProcessSignal::Terminate, now, 0);
        lemma_signalled_tiers_leave_the_service(context, tier, ProcessSignal::Kill, now, 0);
    }
}

/// Whatever happens, a generation under `notify-fd` becomes ready only by the
/// broker's report of its own readiness: no start, deadline, request, or
/// termination makes it so.
pub proof fn only_reports_make_ready(
    context: ExecutionModel,
    env: Surroundings,
    service_name: Option<Seq<char>>,
    supervisor: u32,
    event: EventModel,
    generation: Generation,
)
    requires
        env.config.readiness.mode == ReadinessMode::NotifyFd,
        !counts_ready(context, generation),
        counts_ready(
            runtime::event_handled(context, env, service_name, supervisor, event).context,
            generation,
        ),
    ensures
        event == EventModel::Broker(ProcessBrokerEvent::GenerationReady { generation }),
{
    reveal(runtime::event_handled);
    match event {
        EventModel::Timer => {
            logger_deadlines_leave_the_service(context, env.now);
            let loggers = logger::logger_timers_handled(context, env.now).context;
            assert(!counts_ready(loggers, generation));
            if counts_ready(timers::executor_timer_handled(loggers, env).context, generation) {
                deadlines_never_make_ready(loggers, env, generation);
            }
        },
        EventModel::Shutdown => {
            reveal(timers::auxiliary_cancelled);
            let cancelled = timers::auxiliary_cancelled(context, env.now);
            assert(!counts_ready(cancelled, generation));
            requests_never_make_ready(cancelled, env, arbitrary(), generation);
        },
        EventModel::Control { command, request } => {
            if let Some(name) = service_name {
                reveal(control::control_applied);
                let intended = control::decided_context(context, name, request);
                let accepted = control::accepted_control(
                    context,
                    env,
                    name,
                    command,
                    request,
                    supervisor,
                );
                let revived = control::loggers_revived(
                    intended,
                    env,
                    request.operation,
                    accepted.response.code,
                ).context;
                reveal(logger::down_loggers_started);
                lemma_started_loggers_leave_the_service(
                    control::failed_loggers_reset(intended),
                    env.now,
                    0,
                );
                decision::decisions_touch_only_intent(name, context.machine, request);
                assert(!counts_ready(revived, generation));
                requests_never_make_ready(revived, env, accepted, generation);
            }
        },
        EventModel::ControlClosed => {},
        EventModel::Broker(report) => only_readiness_reports_make_ready(
            context,
            env,
            report,
            generation,
        ),
    }
}

// ---------------------------------------------------------------------------
// Going on
// ---------------------------------------------------------------------------

/// A controlled supervisor ends only once the operator sent it away; without control it
/// also ends with a failure, and once a service which was started is down.
pub proof fn supervision_ends_when_nothing_is_left(
    model: machine::MachineModel,
    controlled: bool,
    first_start: bool,
)
    ensures
        controlled ==> (runtime::finished(model, controlled, first_start) <==> model.state
            is Exited),
        runtime::finished(model, controlled, first_start) ==> model.state is Exited || model.state
            is Failed || model.state is Down,
        !controlled && model.state is Failed ==> runtime::finished(model, controlled, first_start),
        !controlled && model.state is Down ==> (runtime::finished(model, controlled, first_start)
            <==> !first_start),
        model.state is Exited ==> runtime::finished(model, controlled, first_start),
{
}

/// Supervision is reported as finished only after every logger was shut down, and with
/// the outcome of the service as it was recorded.
pub proof fn outcomes_are_reported_last(
    context: ExecutionModel,
    env: Surroundings,
    controlled: bool,
)
    ensures
        runtime::service_advanced(context, env, controlled).1 matches Progress::Finished(outcome)
            ==> {
            let after = runtime::service_advanced(context, env, controlled).0.context;
            &&& after.logger_shutdown is Complete
            &&& after.machine.state is Exited || after.machine.state is Failed
                || after.machine.state is Down
            &&& outcome.state == after.machine.state
            &&& outcome.last_result == after.status.last_result
            &&& outcome.last_start_failed == after.status.last_start_failed
            &&& outcome.last_readiness_failed == after.status.last_readiness_failed
            &&& outcome.terminal_failure == after.terminal_failure
            &&& outcome.starts == after.tracker.total_starts
        },
{
    reveal(runtime::service_advanced);
    let shut = logger::logger_shutdown_advanced(context, true, env.now);
    assert(shut.machine == context.machine) by {
        reveal(logger::logger_shutdown_advanced);
    }
    lemma_abandoned_signals_keep_the_rest(shut);
}

/// Answering abandoned signals changes nothing but queued work and what is owed.
proof fn lemma_abandoned_signals_keep_the_rest(context: ExecutionModel)
    ensures
        ({
            let after = completion::signals_abandoned(context);
            &&& after.logger_shutdown == context.logger_shutdown
            &&& after.machine == context.machine
            &&& after.status == context.status
            &&& after.terminal_failure == context.terminal_failure
            &&& after.tracker == context.tracker
        }),
    decreases context.pending_signals.len(),
{
    if context.pending_signals.len() > 0 {
        let settled = ExecutionModel {
            pending_signals: context.pending_signals.drop_first(),
            ..context
        };
        lemma_abandoned_signals_keep_the_rest(
            match context.pending_signals[0] {
                PendingSignal::Lifecycle => settled,
                PendingSignal::Control(reply) => context::replied(
                    settled,
                    reply,
                    ResponseCode::Internal,
                    "supervisor exited before signal delivery was acknowledged"@,
                ),
            },
        );
    }
}

/// A backoff whose delay is over leaves the service down with the operator's intent as it
/// was, so that a service which is wanted up starts again.
pub proof fn elapsed_backoffs_start_again(
    context: ExecutionModel,
    env: Surroundings,
    generation: Generation,
    delay_seconds: u64,
)
    requires
        context.machine.state == (SupervisorState::Backoff { generation, delay_seconds }),
        context.lifecycle is None,
    ensures
        ({
            let step = timers::executor_timer_handled(context, env);
            &&& step.error is None
            &&& step.context.machine.state is Down
            &&& step.context.machine.desired == context.machine.desired
            &&& step.context.deadline is None
            &&& step.context.outbox == context.outbox
        }),
{
    reveal(timers::executor_timer_handled);
}

/// Cancelling kills the whole group of a condition or hook in flight and never starts a
/// retry of it; without one nothing happens.
pub proof fn cancelled_tasks_are_killed(
    context: ExecutionModel,
    env: Surroundings,
    task: BrokerTaskId,
)
    ensures
        ({
            let after = timers::auxiliary_cancelled(context, env.now);
            let killed = ActionModel::Broker(
                BrokerAction::SignalTask {
                    task,
                    scope: BrokerSignalScope::Group,
                    signal: ProcessSignal::Kill,
                },
            );
            &&& context.auxiliary == AuxiliaryExecution::Starting(task) || context.auxiliary
                == AuxiliaryExecution::Running(task) ==> after.auxiliary == (
            AuxiliaryExecution::Killing { task, retry: false }) && after.outbox
                == context.outbox.push(killed)
            &&& context.auxiliary == AuxiliaryExecution::HookStarting(task) || context.auxiliary
                == AuxiliaryExecution::HookRunning(task) ==> after.auxiliary
                == AuxiliaryExecution::HookKilling(task) && after.outbox == context.outbox.push(
                killed,
            )
            &&& context.auxiliary is Idle || context.auxiliary is Passed ==> after == context
            &&& after.machine == context.machine
        }),
{
    reveal(timers::auxiliary_cancelled);
}

/// A start gives every failed logger a fresh set of retries and leaves every other one
/// as it is.
pub proof fn starts_forgive_failed_loggers(context: ExecutionModel, at: int)
    requires
        0 <= at < context.loggers.len(),
    ensures
        ({
            let after = control::failed_loggers_reset(context).loggers;
            &&& after.len() == context.loggers.len()
            &&& after[at].logger == context.loggers[at].logger
            &&& context.loggers[at].state is Failed ==> after[at].state is Down
                && after[at].failure_streak == 0
            &&& !(context.loggers[at].state is Failed) ==> after[at] == context.loggers[at]
        }),
{
}

/// A lifecycle hook which overruns its deadline is killed as a whole group.
pub proof fn overrunning_hooks_are_killed(
    context: ExecutionModel,
    env: Surroundings,
    lifecycle: LifecycleExecution,
)
    requires
        context.lifecycle == Some(lifecycle),
        lifecycle.state is Running,
    ensures
        ({
            let step = timers::executor_timer_handled(context, env);
            &&& step.error is None
            &&& step.context.lifecycle matches Some(hook) && hook.state is Killing && hook.task
                == lifecycle.task && hook.generation == lifecycle.generation
            &&& step.context.outbox == context.outbox.push(
                ActionModel::Broker(
                    BrokerAction::SignalTask {
                        task: lifecycle.task,
                        scope: BrokerSignalScope::Group,
                        signal: ProcessSignal::Kill,
                    },
                ),
            )
            &&& step.context.machine == context.machine
        }),
{
    reveal(timers::executor_timer_handled);
    reveal(timers::lifecycle_timer_handled);
}

/// A supervisor which has to end drops a pending start, waits for a stop in progress,
/// and is meant to halt in every case.
pub proof fn ending_supervisors_are_meant_to_halt(context: ExecutionModel, env: Surroundings)
    ensures
        ({
            let step = control::supervisor_shutdown_begun(context, env);
            &&& step.context.machine.desired is Halt
            &&& context.machine.state is WaitingCondition || context.machine.state is Backoff
                ==> step.error is None && step.context.machine.state is Down
                && step.context.deadline is None
            &&& context.machine.state is Stopping ==> step.context.pending_stop == Some(
                StopCompletion::Halt,
            ) && step.context.machine.state == context.machine.state
            &&& context.machine.state is Down || context.machine.state is Failed ==> step.error
                is None && step.context.machine.state == context.machine.state
        }),
{
    reveal(control::supervisor_shutdown_begun);
}

} // verus!
