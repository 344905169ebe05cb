//! Laws which every supervision step keeps.

use vstd::prelude::*;

use crate::control::message::RequestModel;
use crate::control::response::ResponseCode;
use crate::process::{BrokerTaskId, ChildEvent, ProcessBrokerEvent, ProcessId, ProcessSignal};
use crate::supervisor::{ChildResult, DesiredState, Generation, SupervisorState, Transition};

use super::auxiliary;
use super::clock::Moment;
use super::completion;
use super::completion::LifetimeResult;
use super::context;
use super::context::{
    ActionModel, CommandToken, ExecutionModel, LifecycleExecution, LoggerExecution,
    LoggerShutdownTier, PendingCompletion, Step, Surroundings,
};
use super::control;
use super::control::{AcceptedModel, LifecycleHookRequest};
use super::error::ErrorModel;
use super::events;
use super::logger;
use super::runtime;
use super::runtime::EventModel;
use super::stopping;
use super::timers;

verus! {

/// While the shared logger is being shut down, every file adapter has ended.
pub open spec fn tiers_in_order(context: ExecutionModel) -> bool {
    logger::current_tier(context.logger_shutdown) == Some(LoggerShutdownTier::SharedLogger)
        ==> logger::tier_down(context.loggers, LoggerShutdownTier::FileAdapters)
}

/// What every step keeps: queued work, task numbers, generation numbers, and the
/// order of logger shutdown.
#[verifier::opaque]
pub open spec fn sound(before: ExecutionModel, after: ExecutionModel) -> bool {
    &&& before.outbox.len() <= after.outbox.len()
    &&& forall|i: int|
        0 <= i < before.outbox.len() ==> #[trigger] after.outbox[i] == before.outbox[i]
    &&& before.next_task <= after.next_task
    &&& before.machine.allocated <= after.machine.allocated
    &&& before.epoch == after.epoch
    &&& before.command == after.command
    &&& tiers_in_order(before) ==> tiers_in_order(after)
}

proof fn lemma_sound_chain(first: ExecutionModel, second: ExecutionModel, third: ExecutionModel)
    requires
        sound(first, second),
        sound(second, third),
    ensures
        sound(first, third),
{
    reveal(sound);
    assert forall|i: int| 0 <= i < first.outbox.len() implies #[trigger] third.outbox[i]
        == first.outbox[i] by {
        assert(second.outbox[i] == first.outbox[i]);
    }
}

proof fn lemma_quiet(before: ExecutionModel, after: ExecutionModel)
    requires
        after.outbox == before.outbox,
        after.next_task >= before.next_task,
        after.machine.allocated >= before.machine.allocated,
        after.epoch == before.epoch,
        after.command == before.command,
        after.loggers == before.loggers,
        after.logger_shutdown == before.logger_shutdown,
    ensures
        sound(before, after),
{
    reveal(sound);
}

proof fn lemma_queued(before: ExecutionModel, after: ExecutionModel, action: ActionModel)
    requires
        after.outbox == before.outbox.push(action),
        after.next_task >= before.next_task,
        after.machine.allocated >= before.machine.allocated,
        after.epoch == before.epoch,
        after.command == before.command,
        after.loggers == before.loggers,
        after.logger_shutdown == before.logger_shutdown,
    ensures
        sound(before, after),
{
    reveal(sound);
}

proof fn lemma_transited(context: ExecutionModel, transition: Transition)
    ensures
        sound(context, context::transited(context, transition).context),
{
    lemma_quiet(context, context::transited(context, transition).context);
}

proof fn lemma_group_stop(context: ExecutionModel, generation: Generation, after: ExecutionModel)
    requires
        ({
            let stopped = stopping::group_stop_requested(context, generation);
            &&& after.outbox == stopped.outbox
            &&& after.next_task == stopped.next_task
            &&& after.machine == stopped.machine
            &&& after.epoch == stopped.epoch
            &&& after.command == stopped.command
            &&& after.loggers == stopped.loggers
            &&& after.logger_shutdown == stopped.logger_shutdown
        }),
    ensures
        sound(context, after),
{
    reveal(sound);
}

// ---------------------------------------------------------------------------
// Completion
// ---------------------------------------------------------------------------

proof fn lemma_completion_finished(
    context: ExecutionModel,
    env: Surroundings,
    completion: PendingCompletion,
    after_hook: bool,
)
    ensures
        sound(
            context,
            completion::completion_finished(context, env, completion, after_hook).context,
        ),
{
    reveal(completion::completion_finished);
    lemma_quiet(
        context,
        completion::completion_finished(context, env, completion, after_hook).context,
    );
}

proof fn lemma_pid_cleared(context: ExecutionModel, after: ExecutionModel)
    requires
        ({
            let cleared = context::pid_cleared(context);
            &&& after.outbox == cleared.outbox
            &&& after.next_task == cleared.next_task
            &&& after.machine.allocated == cleared.machine.allocated
            &&& after.epoch == cleared.epoch
            &&& after.command == cleared.command
            &&& after.loggers == cleared.loggers
            &&& after.logger_shutdown == cleared.logger_shutdown
        }),
    ensures
        sound(context, after),
{
    reveal(sound);
}

proof fn lemma_generation_completed(
    context: ExecutionModel,
    env: Surroundings,
    generation: Generation,
    result: ChildResult,
    start_failed: bool,
)
    ensures
        sound(
            context,
            completion::generation_completed(
                context,
                env,
                generation,
                result,
                start_failed,
            ).context,
        ),
{
    let after = completion::generation_completed(
        context,
        env,
        generation,
        result,
        start_failed,
    ).context;
    let ended = completion::ended_context(context, env, result, start_failed);
    assert(sound(context, ended)) by {
        reveal(completion::ended_context);
        lemma_pid_cleared(context, ended);
    }
    reveal(completion::generation_completed);
    if env.commands.post_exit {
        let completed = context::transited(ended, Transition::ChildCompleted(generation));
        lemma_transited(ended, Transition::ChildCompleted(generation));
        lemma_sound_chain(context, ended, completed.context);
        if completed.error is None {
            let numbered = context::allocated(completed.context);
            if numbered.error is None {
                lemma_queued(completed.context, after, after.outbox.last());
            } else {
                lemma_quiet(completed.context, after);
            }
            lemma_sound_chain(context, completed.context, after);
        }
    } else {
        let completion = completion::ended_completion(context, env, generation, result);
        lemma_completion_finished(ended, env, completion, false);
        lemma_sound_chain(context, ended, after);
    }
}

proof fn lemma_lifecycle_replied(
    context: ExecutionModel,
    lifecycle: Option<LifecycleExecution>,
    code: ResponseCode,
    message: Seq<char>,
)
    ensures
        sound(context, completion::lifecycle_replied(context, lifecycle, code, message)),
{
    let after = completion::lifecycle_replied(context, lifecycle, code, message);
    if after.outbox.len() > context.outbox.len() {
        lemma_queued(context, after, after.outbox.last());
    } else {
        lemma_quiet(context, after);
    }
}

proof fn lemma_descriptor_finished(
    context: ExecutionModel,
    env: Surroundings,
    generation: Generation,
)
    ensures
        sound(context, completion::descriptor_finished(context, env, generation).context),
{
    reveal(completion::descriptor_finished);
    let after = completion::descriptor_finished(context, env, generation).context;
    if completion::descriptor_ended(context, generation) {
        let stopped = completion::stops_generation(context, generation);
        let released = ExecutionModel {
            lifecycle: if stopped {
                None
            } else {
                context.lifecycle
            },
            descriptor: None,
            ..context
        };
        let joined = completion::joined_result(context.descriptor->0, env);
        let completed = completion::generation_completed(released, env, generation, joined, false);
        lemma_quiet(context, released);
        lemma_generation_completed(released, env, generation, joined, false);
        lemma_sound_chain(context, released, completed.context);
        lemma_lifecycle_replied(
            completed.context,
            context.lifecycle,
            ResponseCode::Success,
            completion::acceptance_message(),
        );
        if completed.error is None && stopped {
            lemma_sound_chain(context, completed.context, after);
        }
    } else {
        lemma_quiet(context, after);
    }
}

proof fn lemma_service_child(
    context: ExecutionModel,
    env: Surroundings,
    generation: Generation,
    event: ChildEvent,
)
    ensures
        sound(context, completion::service_child_handled(context, env, generation, event).context),
{
    reveal(completion::service_child_handled);
    let after = completion::service_child_handled(context, env, generation, event).context;
    let state = context.machine.state;
    if event is Stopped && (state is Running || state is Ready) {
        lemma_transited(context, Transition::ChildPaused(generation));
    } else if event is Continued && state is Paused {
        lemma_transited(context, Transition::ChildContinued(generation));
    } else if event.result() is None {
        lemma_quiet(context, after);
    } else if env.config.process_mode == crate::config::ProcessMode::DescriptorTracking {
        if context.descriptor matches Some(descriptor) && descriptor.generation == generation
            && descriptor.launcher_result is None {
            let recorded = ExecutionModel {
                descriptor: Some(
                    super::context::DescriptorExecution {
                        launcher_result: event.result(),
                        ..context.descriptor->0
                    },
                ),
                ..context
            };
            let cleared = context::pid_cleared(recorded);
            lemma_pid_cleared(context, cleared);
            lemma_descriptor_finished(cleared, env, generation);
            lemma_sound_chain(context, cleared, after);
        } else {
            lemma_quiet(context, after);
        }
    } else {
        lemma_generation_completed(context, env, generation, event.result()->0, false);
    }
}

proof fn lemma_lifetime(
    context: ExecutionModel,
    env: Surroundings,
    generation: Generation,
    result: LifetimeResult,
)
    ensures
        sound(context, completion::lifetime_handled(context, env, generation, result).context),
{
    reveal(completion::lifetime_handled);
    let after = completion::lifetime_handled(context, env, generation, result).context;
    if context.descriptor matches Some(descriptor) && descriptor.generation == generation
        && descriptor.lifetime_result is None {
        let recorded = ExecutionModel {
            descriptor: Some(
                super::context::DescriptorExecution {
                    lifetime_preceded_launcher: context.descriptor->0.launcher_result is None,
                    lifetime_result: Some(result.result()),
                    ..context.descriptor->0
                },
            ),
            ..context
        };
        lemma_quiet(context, recorded);
        if context.descriptor->0.launcher_result is None && context.machine.state.spec_live_generation()
            == Some(generation) && !completion::stops_generation(context, generation) {
            let stopping = if context.machine.state is Stopping {
                context::done(recorded)
            } else {
                context::transited(recorded, Transition::BeginStop(generation))
            };
            lemma_quiet(context, stopping.context);
            if stopping.error is None {
                let asked = ExecutionModel {
                    stop_kill_sent: false,
                    deadline: Some(env.now.after(super::context::SERVICE_STOP_GRACE)),
                    ..stopping::group_stop_requested(stopping.context, generation)
                };
                lemma_group_stop(stopping.context, generation, asked);
                lemma_sound_chain(context, stopping.context, asked);
                lemma_descriptor_finished(asked, env, generation);
                lemma_sound_chain(context, asked, after);
            }
        } else {
            lemma_descriptor_finished(recorded, env, generation);
            lemma_sound_chain(context, recorded, after);
        }
    } else {
        lemma_quiet(context, after);
    }
}

proof fn lemma_detach_finished(context: ExecutionModel, generation: Generation, succeeded: bool)
    ensures
        sound(context, completion::detach_finished(context, generation, succeeded).context),
{
    reveal(completion::detach_finished);
    reveal(sound);
}

proof fn lemma_signal_finished(
    context: ExecutionModel,
    generation: Generation,
    os_error: Option<i32>,
)
    ensures
        sound(context, completion::signal_finished(context, generation, os_error).context),
{
    reveal(completion::signal_finished);
    reveal(sound);
}

proof fn lemma_signals_abandoned(context: ExecutionModel)
    ensures
        sound(context, completion::signals_abandoned(context)),
    decreases context.pending_signals.len(),
{
    if context.pending_signals.len() == 0 {
        lemma_quiet(context, context);
    } else {
        let settled = ExecutionModel {
            pending_signals: context.pending_signals.drop_first(),
            ..context
        };
        let told = match context.pending_signals[0] {
            super::context::PendingSignal::Lifecycle => settled,
            super::context::PendingSignal::Control(reply) => context::replied(
                settled,
                reply,
                ResponseCode::Internal,
                "supervisor exited before signal delivery was acknowledged"@,
            ),
        };
        if told.outbox.len() > context.outbox.len() {
            lemma_queued(context, told, told.outbox.last());
        } else {
            lemma_quiet(context, told);
        }
        lemma_signals_abandoned(told);
        lemma_sound_chain(context, told, completion::signals_abandoned(context));
    }
}

// ---------------------------------------------------------------------------
// Hooks and auxiliary tasks
// ---------------------------------------------------------------------------

proof fn lemma_hook_begun(
    context: ExecutionModel,
    env: Surroundings,
    request: LifecycleHookRequest,
)
    ensures
        sound(context, control::hook_begun(context, env, request).context),
{
    reveal(control::hook_begun);
    let after = control::hook_begun(context, env, request);
    if after.context.outbox.len() > context.outbox.len() {
        lemma_queued(context, after.context, after.context.outbox.last());
    } else {
        lemma_quiet(context, after.context);
    }
}

proof fn lemma_lifecycle_failed(context: ExecutionModel, env: Surroundings, message: Seq<char>)
    ensures
        sound(context, events::lifecycle_failed(context, env, message).context),
{
    reveal(events::lifecycle_failed);
    let after = events::lifecycle_failed(context, env, message).context;
    match context.lifecycle {
        None => lemma_quiet(context, after),
        Some(lifecycle) => {
            let released = ExecutionModel { lifecycle: None, ..context };
            let undone = if lifecycle.kind is Stop {
                context::transited(
                    released,
                    Transition::AbortStop {
                        generation: lifecycle.generation,
                        resume_ready: lifecycle.resume_ready,
                        previous_desired: lifecycle.previous_desired,
                    },
                )
            } else {
                context::done(released)
            };
            if undone.error is Some {
                lemma_quiet(context, after);
            } else {
                let settled = ExecutionModel {
                    pending_stop: if lifecycle.kind is Stop {
                        None
                    } else {
                        context.pending_stop
                    },
                    deadline: None,
                    ..undone.context
                };
                let replied = completion::lifecycle_replied(
                    settled,
                    Some(lifecycle),
                    ResponseCode::Internal,
                    message,
                );
                lemma_quiet(context, settled);
                lemma_lifecycle_replied(
                    settled,
                    Some(lifecycle),
                    ResponseCode::Internal,
                    message,
                );
                lemma_sound_chain(context, settled, replied);
                lemma_descriptor_finished(replied, env, lifecycle.generation);
                lemma_sound_chain(context, replied, after);
            }
        },
    }
}

proof fn lemma_lifecycle_succeeded(context: ExecutionModel, env: Surroundings)
    ensures
        sound(context, events::lifecycle_succeeded(context, env).context),
{
    reveal(events::lifecycle_succeeded);
    let after = events::lifecycle_succeeded(context, env).context;
    match context.lifecycle {
        None => lemma_quiet(context, after),
        Some(lifecycle) => if lifecycle.kind is Reload {
            if after.outbox.len() > context.outbox.len() {
                lemma_queued(context, after, after.outbox.last());
            } else {
                lemma_quiet(context, after);
            }
        } else {
            let waiting = ExecutionModel {
                lifecycle: Some(
                    LifecycleExecution {
                        state: super::context::LifecycleHookState::WaitingLifetime,
                        ..lifecycle
                    },
                ),
                pending_stop: lifecycle.after,
                ..context
            };
            match env.config.descriptor_tracking {
                None => lemma_quiet(context, after),
                Some(tracking) => {
                    let timed = ExecutionModel {
                        deadline: Some(env.now.after(tracking.lifetime_timeout_seconds)),
                        ..waiting
                    };
                    lemma_quiet(context, timed);
                    lemma_descriptor_finished(timed, env, lifecycle.generation);
                    lemma_sound_chain(context, timed, after);
                },
            }
        },
    }
}

proof fn lemma_lifecycle_handled(
    context: ExecutionModel,
    env: Surroundings,
    event: ProcessBrokerEvent,
)
    ensures
        sound(context, events::lifecycle_handled(context, env, event).context),
{
    reveal(events::lifecycle_handled);
    let after = events::lifecycle_handled(context, env, event).context;
    lemma_lifecycle_failed(
        context,
        env,
        "descriptor lifecycle hook could not be started"@,
    );
    lemma_lifecycle_failed(
        context,
        env,
        "descriptor lifecycle hook did not complete successfully"@,
    );
    lemma_lifecycle_failed(context, env, "descriptor lifecycle hook could not be killed"@);
    lemma_lifecycle_succeeded(context, env);
    if after.outbox == context.outbox && after.loggers == context.loggers && after.logger_shutdown
        == context.logger_shutdown && after.machine == context.machine && after.next_task
        == context.next_task && after.epoch == context.epoch && after.command == context.command {
        lemma_quiet(context, after);
    }
}

proof fn lemma_auxiliary_cancelled(context: ExecutionModel, now: Moment)
    ensures
        sound(context, timers::auxiliary_cancelled(context, now)),
        timers::auxiliary_cancelled(context, now).machine == context.machine,
        timers::auxiliary_cancelled(context, now).lifecycle == context.lifecycle,
        timers::auxiliary_cancelled(context, now).loggers == context.loggers,
{
    reveal(timers::auxiliary_cancelled);
    let after = timers::auxiliary_cancelled(context, now);
    if after.outbox.len() > context.outbox.len() {
        lemma_queued(context, after, after.outbox.last());
    } else {
        lemma_quiet(context, after);
    }
}

proof fn lemma_auxiliary_handled(
    context: ExecutionModel,
    env: Surroundings,
    event: ProcessBrokerEvent,
)
    ensures
        sound(context, auxiliary::auxiliary_handled(context, env, event).context),
{
    let after = auxiliary::auxiliary_handled(context, env, event).context;
    if context.auxiliary.hook() {
        reveal(auxiliary::post_exit_handled);
        if let Some(completion) = context.pending_completion {
            lemma_completion_finished(context, env, completion, true);
        }
        if after != auxiliary::post_exit_finished(context, env).context
            || context.pending_completion is None {
            lemma_quiet(context, after);
        }
    } else {
        reveal(auxiliary::condition_handled);
        reveal(auxiliary::condition_rescheduled);
        lemma_quiet(context, after);
    }
}

// ---------------------------------------------------------------------------
// Timers
// ---------------------------------------------------------------------------

proof fn lemma_service_started(context: ExecutionModel, env: Surroundings)
    ensures
        sound(context, timers::service_started(context, env).context),
{
    reveal(timers::service_started);
    let after = timers::service_started(context, env);
    if after.error is None {
        lemma_queued(context, after.context, after.context.outbox.last());
    } else {
        lemma_quiet(context, after.context);
    }
}

proof fn lemma_executor_timer(context: ExecutionModel, env: Surroundings)
    ensures
        sound(context, timers::executor_timer_handled(context, env).context),
{
    reveal(timers::executor_timer_handled);
    reveal(timers::lifecycle_timer_handled);
    reveal(timers::waiting_timer_handled);
    let after = timers::executor_timer_handled(context, env).context;
    lemma_service_started(context, env);
    lemma_lifecycle_failed(
        context,
        env,
        "descriptor lifetime did not close before its configured deadline"@,
    );
    if after.loggers == context.loggers && after.logger_shutdown == context.logger_shutdown
        && after.machine.allocated == context.machine.allocated && after.next_task
        >= context.next_task && after.epoch == context.epoch && after.command
        == context.command {
        if after.outbox == context.outbox {
            lemma_quiet(context, after);
        } else if after.outbox.len() > 0 && after.outbox == context.outbox.push(
            after.outbox.last(),
        ) {
            lemma_queued(context, after, after.outbox.last());
        }
    }
}

// ---------------------------------------------------------------------------
// Loggers
// ---------------------------------------------------------------------------

proof fn lemma_loggers_started(context: ExecutionModel, now: Moment, from: int)
    requires
        context.logger_shutdown.restartable(),
        0 <= from,
    ensures
        sound(context, logger::loggers_started(context, now, from).context),
    decreases context.loggers.len() - from,
{
    reveal(sound);
    if from < context.loggers.len() {
        if context.loggers[from].state is Down {
            let numbered = context::allocated(context);
            if numbered.error is None {
                let requested = logger::logger_requested(numbered.context, now, from);
                assert(sound(context, requested));
                lemma_loggers_started(requested, now, from + 1);
                lemma_sound_chain(
                    context,
                    requested,
                    logger::loggers_started(context, now, from).context,
                );
            }
        } else {
            lemma_loggers_started(context, now, from + 1);
        }
    }
}

proof fn lemma_down_loggers_started(context: ExecutionModel, now: Moment)
    ensures
        sound(context, logger::down_loggers_started(context, now).context),
{
    reveal(logger::down_loggers_started);
    if context.logger_shutdown.restartable() {
        lemma_loggers_started(context, now, 0);
    } else {
        lemma_quiet(context, context);
    }
}

proof fn lemma_tier_signalled(
    context: ExecutionModel,
    tier: LoggerShutdownTier,
    signal: ProcessSignal,
    now: Moment,
    from: int,
)
    requires
        0 <= from,
    ensures
        ({
            let after = logger::tier_signalled(context, tier, signal, now, from);
            &&& context.outbox.len() <= after.outbox.len()
            &&& forall|i: int|
                0 <= i < context.outbox.len() ==> #[trigger] after.outbox[i] == context.outbox[i]
            &&& after.next_task == context.next_task
            &&& after.machine == context.machine
            &&& after.epoch == context.epoch
            &&& after.command == context.command
            &&& after.logger_shutdown == context.logger_shutdown
            &&& after.loggers.len() == context.loggers.len()
            &&& forall|i: int|
                0 <= i < context.loggers.len() ==> {
                    &&& (#[trigger] after.loggers[i]).logger == context.loggers[i].logger
                    &&& logger::tier_of(context.loggers[i].logger) != tier ==> after.loggers[i]
                        == context.loggers[i]
                }
        }),
    decreases context.loggers.len() - from,
{
    if from < context.loggers.len() {
        let next = if logger::tier_of(context.loggers[from].logger) == tier {
            logger::logger_signalled(context, from, signal, now)
        } else {
            context
        };
        lemma_tier_signalled(next, tier, signal, now, from + 1);
        let after = logger::tier_signalled(next, tier, signal, now, from + 1);
        assert(logger::tier_signalled(context, tier, signal, now, from) == after);
        assert forall|i: int| 0 <= i < context.outbox.len() implies #[trigger] after.outbox[i]
            == context.outbox[i] by {
            assert(next.outbox[i] == context.outbox[i]);
        }
        assert forall|i: int| 0 <= i < context.loggers.len() implies {
            &&& (#[trigger] after.loggers[i]).logger == context.loggers[i].logger
            &&& logger::tier_of(context.loggers[i].logger) != tier ==> after.loggers[i]
                == context.loggers[i]
        } by {
            assert(next.loggers[i].logger == context.loggers[i].logger);
        }
    }
}

proof fn lemma_loggers_timed(context: ExecutionModel, now: Moment, from: int)
    requires
        context.logger_shutdown.restartable(),
        0 <= from,
    ensures
        sound(context, logger::loggers_timed(context, now, from).context),
        logger::loggers_timed(context, now, from).context.logger_shutdown
            == context.logger_shutdown,
    decreases context.loggers.len() - from,
{
    reveal(sound);
    if from < context.loggers.len() {
        let next = match context.loggers[from].state {
            super::context::LoggerExecutionState::Backoff { deadline } => if deadline.due(now) {
                logger::logger_set(context, from, super::context::LoggerExecutionState::Down)
            } else {
                context
            },
            super::context::LoggerExecutionState::Starting { task, deadline } => if deadline.due(
                now,
            ) {
                logger::logger_set(
                    logger::task_signalled(context, task, ProcessSignal::Kill),
                    from,
                    super::context::LoggerExecutionState::Killing {
                        task,
                        deadline: now.after(super::context::BROKER_EVENT_TIMEOUT),
                    },
                )
            } else {
                context
            },
            _ => context,
        };
        assert(sound(context, next));
        lemma_loggers_timed(next, now, from + 1);
        lemma_sound_chain(
            context,
            next,
            logger::loggers_timed(next, now, from + 1).context,
        );
    }
}

proof fn lemma_logger_timers(context: ExecutionModel, now: Moment)
    ensures
        sound(context, logger::logger_timers_handled(context, now).context),
{
    reveal(logger::logger_timers_handled);
    let after = logger::logger_timers_handled(context, now).context;
    if context.logger_shutdown.spec_deadline() matches Some(deadline) && deadline.due(now) {
        reveal(sound);
        match context.logger_shutdown {
            super::context::LoggerShutdownState::Draining { tier, .. } => {
                lemma_tier_signalled(context, tier, ProcessSignal::Terminate, now, 0);
                lemma_adapters_stay_down(context, after, tier);
            },
            super::context::LoggerShutdownState::Terminating { tier, .. } => {
                lemma_tier_signalled(context, tier, ProcessSignal::Kill, now, 0);
                lemma_adapters_stay_down(context, after, tier);
            },
            _ => {},
        }
    } else if context.logger_shutdown.restartable() {
        let timed = logger::loggers_timed(context, now, 0);
        lemma_loggers_timed(context, now, 0);
        if timed.error is None {
            lemma_down_loggers_started(timed.context, now);
            lemma_sound_chain(context, timed.context, after);
        }
    } else {
        lemma_quiet(context, after);
    }
}

proof fn lemma_adapters_stay_down(
    context: ExecutionModel,
    after: ExecutionModel,
    tier: LoggerShutdownTier,
)
    requires
        logger::current_tier(context.logger_shutdown) == Some(tier),
        after.loggers.len() == context.loggers.len(),
        forall|i: int|
            0 <= i < context.loggers.len() ==> {
                &&& (#[trigger] after.loggers[i]).logger == context.loggers[i].logger
                &&& logger::tier_of(context.loggers[i].logger) != tier ==> after.loggers[i]
                    == context.loggers[i]
            },
        logger::current_tier(after.logger_shutdown) == Some(tier) || after == context,
    ensures
        tiers_in_order(context) ==> tiers_in_order(after),
{
    if tiers_in_order(context) && tier is SharedLogger {
        assert forall|i: int|
            0 <= i < after.loggers.len() && logger::tier_of((#[trigger] after.loggers[i]).logger)
                == LoggerShutdownTier::FileAdapters implies after.loggers[i].state is Down by {
            assert(logger::tier_of(context.loggers[i].logger)
                == LoggerShutdownTier::FileAdapters);
        }
    }
}

proof fn lemma_logger_shutdown_advanced(context: ExecutionModel, finished: bool, now: Moment)
    ensures
        sound(context, logger::logger_shutdown_advanced(context, finished, now)),
{
    reveal(logger::logger_shutdown_advanced);
    if !finished {
        lemma_quiet(context, context);
    } else {
        reveal(sound);
        let prepared = logger::shutdown_prepared(context, now);
        let closed = logger::inputs_closed_when_settled(prepared, now);
        let after = logger::tier_advanced(closed, now);
        if context.loggers.len() > 0 {
            assert(sound(context, prepared));
            assert(sound(prepared, closed));
            assert(sound(closed, after));
            lemma_sound_chain(context, prepared, closed);
            lemma_sound_chain(context, closed, after);
        }
    }
}

proof fn lemma_position(
    loggers: Seq<LoggerExecution>,
    task: BrokerTaskId,
    from: int,
)
    requires
        0 <= from,
    ensures
        events::logger_position(loggers, task, from) matches Some(position) ==> from <= position
            < loggers.len() && loggers[position].state.spec_task() == Some(task),
    decreases loggers.len() - from,
{
    if from < loggers.len() {
        lemma_position(loggers, task, from + 1);
    }
}

proof fn lemma_logger_handled(
    context: ExecutionModel,
    env: Surroundings,
    event: ProcessBrokerEvent,
)
    ensures
        sound(context, events::logger_handled(context, env, event).context),
{
    reveal(events::logger_handled);
    reveal(sound);
    let after = events::logger_handled(context, env, event).context;
    if let Some(task) = events::task_of(event) {
        lemma_position(context.loggers, task, 0);
        if let Some(position) = events::logger_position(context.loggers, task, 0) {
            let before = context.loggers[position];
            assert(!(before.state is Down));
            if tiers_in_order(context) && logger::current_tier(context.logger_shutdown) == Some(
                LoggerShutdownTier::SharedLogger,
            ) {
                assert(logger::tier_of(before.logger) == LoggerShutdownTier::SharedLogger);
                assert forall|i: int|
                    0 <= i < after.loggers.len() && logger::tier_of(
                        (#[trigger] after.loggers[i]).logger,
                    ) == LoggerShutdownTier::FileAdapters implies after.loggers[i].state is Down by {
                    if i != position {
                        assert(after.loggers[i] == context.loggers[i]);
                    } else {
                        assert(after.loggers[i].logger == before.logger);
                    }
                }
            }
        }
    }
}

proof fn lemma_exhaustion(context: ExecutionModel, now: Moment)
    ensures
        sound(context, logger::exhaustion_handled(context, now).context),
{
    reveal(logger::exhaustion_handled);
    let after = logger::exhaustion_handled(context, now).context;
    lemma_auxiliary_cancelled(context, now);
    if logger::exhaustion_applies(context) && !(context.machine.state is Initializing)
        && !(context.machine.state is Down) && !context.auxiliary.idle() {
    } else {
        lemma_quiet(context, after);
    }
}

// ---------------------------------------------------------------------------
// Control
// ---------------------------------------------------------------------------

proof fn lemma_descriptor_shutdown(context: ExecutionModel, env: Surroundings)
    ensures
        sound(context, control::descriptor_shutdown_begun(context, env).context),
{
    reveal(control::descriptor_shutdown_begun);
    let after = control::descriptor_shutdown_begun(context, env).context;
    if context.lifecycle is None && context.machine.state.spec_live_generation() is Some {
        let generation = context.machine.state.spec_live_generation()->0;
        let stopping = context::transited(
            context::intending(context, DesiredState::Halt),
            Transition::BeginStop(generation),
        );
        lemma_quiet(context, stopping.context);
        if stopping.error is None {
            let request = LifecycleHookRequest {
                after: Some(crate::control::decision::StopCompletion::Halt),
                reply: None,
                generation,
                kind: super::context::LifecycleHookKind::Stop,
                previous_desired: context.machine.desired,
                resume_ready: control::ready_generation(context.machine.state, generation),
            };
            lemma_hook_begun(stopping.context, env, request);
            lemma_sound_chain(context, stopping.context, after);
        }
    } else {
        lemma_quiet(context, after);
    }
}

proof fn lemma_supervisor_shutdown(context: ExecutionModel, env: Surroundings)
    ensures
        sound(context, control::supervisor_shutdown_begun(context, env).context),
{
    reveal(control::supervisor_shutdown_begun);
    let after = control::supervisor_shutdown_begun(context, env);
    if after.context.outbox == context.outbox {
        lemma_quiet(context, after.context);
    } else {
        let generation = context.machine.state.spec_live_generation()->0;
        let stopping = context::transited(
            context::intending(context, DesiredState::Halt),
            Transition::BeginStop(generation),
        );
        lemma_quiet(context, stopping.context);
        lemma_group_stop(stopping.context, generation, after.context);
        lemma_sound_chain(context, stopping.context, after.context);
    }
}

proof fn lemma_answered(context: ExecutionModel, accepted: AcceptedModel)
    ensures
        sound(context, accepted.answered(context).context),
{
    let after = accepted.answered(context).context;
    lemma_queued(context, after, after.outbox.last());
}

proof fn lemma_standard_control(
    context: ExecutionModel,
    env: Surroundings,
    accepted: AcceptedModel,
)
    ensures
        sound(context, control::standard_control_applied(context, env, accepted).context),
{
    reveal(control::standard_control_applied);
    let after = control::standard_control_applied(context, env, accepted).context;
    let cancelled = timers::auxiliary_cancelled(context, env.now);
    lemma_auxiliary_cancelled(context, env.now);
    let dropped = control::pending_cancelled(cancelled);
    lemma_quiet(cancelled, dropped.context);
    lemma_sound_chain(context, cancelled, dropped.context);
    match accepted.effect {
        crate::control::decision::ControlEffect::Nothing => lemma_answered(context, accepted),
        crate::control::decision::ControlEffect::BeginStart => lemma_answered(context, accepted),
        crate::control::decision::ControlEffect::CancelPending { .. } => {
            if dropped.error is None {
                lemma_answered(dropped.context, accepted);
                lemma_sound_chain(context, dropped.context, after);
            }
        },
        crate::control::decision::ControlEffect::StopGroup { generation, after: completion } => {
            if context.machine.state is Stopping {
                let noted = ExecutionModel { pending_stop: Some(completion), ..context };
                lemma_quiet(context, noted);
                lemma_answered(noted, accepted);
                lemma_sound_chain(context, noted, after);
            } else {
                let stopping = context::transited(context, Transition::BeginStop(generation));
                lemma_quiet(context, stopping.context);
                if stopping.error is None {
                    let begun = stopping::group_stop_begun(
                        stopping.context,
                        generation,
                        completion,
                        env.now,
                    );
                    lemma_group_stop(stopping.context, generation, begun);
                    lemma_sound_chain(context, stopping.context, begun);
                    lemma_answered(begun, accepted);
                    lemma_sound_chain(context, begun, after);
                }
            }
        },
        crate::control::decision::ControlEffect::ExitSupervisor { leave_child } => {
            if leave_child {
                if context.machine.state.spec_live_generation() is Some {
                    lemma_queued(context, after, after.outbox.last());
                } else {
                    lemma_quiet(context, after);
                }
            } else if context.machine.state is WaitingCondition || context.machine.state
                is Backoff {
                if dropped.error is None {
                    lemma_answered(dropped.context, accepted);
                    lemma_sound_chain(context, dropped.context, after);
                }
            } else {
                lemma_answered(cancelled, accepted);
                lemma_sound_chain(context, cancelled, after);
            }
        },
        crate::control::decision::ControlEffect::DeliverSignal { .. } => {
            lemma_queued(context, after, after.outbox.last());
        },
    }
}

proof fn lemma_descriptor_control(
    context: ExecutionModel,
    env: Surroundings,
    accepted: AcceptedModel,
)
    ensures
        sound(context, control::descriptor_control_applied(context, env, accepted).context),
{
    reveal(control::descriptor_control_applied);
    let after = control::descriptor_control_applied(context, env, accepted).context;
    match accepted.effect {
        crate::control::decision::ControlEffect::StopGroup { generation, after: completion } => {
            let stopping = context::transited(context, Transition::BeginStop(generation));
            lemma_quiet(context, stopping.context);
            if stopping.error is None {
                let request = LifecycleHookRequest {
                    after: Some(completion),
                    reply: Some(accepted.reply()),
                    generation,
                    kind: super::context::LifecycleHookKind::Stop,
                    previous_desired: accepted.previous_desired,
                    resume_ready: control::ready_generation(context.machine.state, generation),
                };
                lemma_hook_begun(stopping.context, env, request);
                lemma_sound_chain(context, stopping.context, after);
            }
        },
        crate::control::decision::ControlEffect::DeliverSignal { generation, signal, .. } => {
            if signal is Hangup {
                let request = LifecycleHookRequest {
                    after: None,
                    reply: Some(accepted.reply()),
                    generation,
                    kind: super::context::LifecycleHookKind::Reload,
                    previous_desired: accepted.previous_desired,
                    resume_ready: true,
                };
                lemma_hook_begun(context, env, request);
            } else {
                lemma_queued(context, after, after.outbox.last());
            }
        },
        crate::control::decision::ControlEffect::ExitSupervisor { .. } => {
            lemma_queued(context, after, after.outbox.last());
        },
        _ => lemma_quiet(context, after),
    }
}

proof fn lemma_loggers_reset(context: ExecutionModel)
    ensures
        sound(context, control::failed_loggers_reset(context)),
{
    reveal(sound);
    let after = control::failed_loggers_reset(context);
    if tiers_in_order(context) {
        assert forall|i: int|
            0 <= i < after.loggers.len() && logger::tier_of((#[trigger] after.loggers[i]).logger)
                == LoggerShutdownTier::FileAdapters && logger::tier_down(
                context.loggers,
                LoggerShutdownTier::FileAdapters,
            ) implies after.loggers[i].state is Down by {
            assert(context.loggers[i].logger == after.loggers[i].logger);
        }
    }
}

proof fn lemma_control_applied(
    context: ExecutionModel,
    env: Surroundings,
    service_name: Seq<char>,
    command: CommandToken,
    request: RequestModel,
    supervisor: u32,
)
    ensures
        sound(
            context,
            control::control_applied(
                context,
                env,
                service_name,
                command,
                request,
                supervisor,
            ).context,
        ),
{
    reveal(control::control_applied);
    let after = control::control_applied(
        context,
        env,
        service_name,
        command,
        request,
        supervisor,
    ).context;
    if control::preflight_refusal(context, request.operation) is Some {
        lemma_queued(context, after, after.outbox.last());
    } else {
        let accepted = control::accepted_control(
            context,
            env,
            service_name,
            command,
            request,
            supervisor,
        );
        let decided = control::decided_context(context, service_name, request);
        crate::control::decision::decisions_touch_only_intent(
            service_name,
            context.machine,
            request,
        );
        lemma_quiet(context, decided);
        let revived = control::loggers_revived(
            decided,
            env,
            request.operation,
            accepted.response.code,
        );
        let reset = control::failed_loggers_reset(decided);
        lemma_loggers_reset(decided);
        lemma_down_loggers_started(reset, env.now);
        lemma_sound_chain(
            decided,
            reset,
            logger::down_loggers_started(reset, env.now).context,
        );
        lemma_quiet(decided, decided);
        lemma_sound_chain(context, decided, revived.context);
        if revived.error is None {
            lemma_descriptor_control(revived.context, env, accepted);
            lemma_standard_control(revived.context, env, accepted);
            lemma_sound_chain(context, revived.context, after);
        }
    }
}

// ---------------------------------------------------------------------------
// Broker events
// ---------------------------------------------------------------------------

proof fn lemma_started(
    context: ExecutionModel,
    env: Surroundings,
    generation: Generation,
    process: ProcessId,
    group: ProcessId,
)
    ensures
        sound(
            context,
            events::service_start_observed(context, env, generation, process, group).context,
        ),
{
    reveal(events::service_start_observed);
    let after = events::service_start_observed(context, env, generation, process, group).context;
    if after.outbox == context.outbox {
        lemma_quiet(context, after);
    } else {
        lemma_queued(context, after, after.outbox.last());
    }
}

proof fn lemma_readiness_failure(context: ExecutionModel, env: Surroundings, generation: Generation)
    ensures
        sound(context, events::readiness_failure_handled(context, env, generation).context),
{
    reveal(events::readiness_failure_handled);
    let after = events::readiness_failure_handled(context, env, generation).context;
    let stopping = context::transited(
        events::readiness_failure_noted(context),
        Transition::BeginStop(generation),
    );
    lemma_quiet(context, stopping.context);
    if stopping.error is None {
        if env.config.process_mode == crate::config::ProcessMode::DescriptorTracking {
            let request = LifecycleHookRequest {
                after: None,
                reply: None,
                generation,
                kind: super::context::LifecycleHookKind::Stop,
                previous_desired: context.machine.desired,
                resume_ready: false,
            };
            lemma_hook_begun(stopping.context, env, request);
        } else {
            lemma_group_stop(stopping.context, generation, after);
        }
        lemma_sound_chain(context, stopping.context, after);
    }
}

proof fn lemma_service_handled(
    context: ExecutionModel,
    env: Surroundings,
    event: ProcessBrokerEvent,
)
    ensures
        sound(context, events::service_handled(context, env, event).context),
{
    reveal(events::service_handled);
    let after = events::service_handled(context, env, event).context;
    match event {
        ProcessBrokerEvent::Started { generation, process, group } => lemma_started(
            context,
            env,
            generation,
            process,
            group,
        ),
        ProcessBrokerEvent::SpawnFailed { generation } => {
            if context.machine.state.spec_live_generation() == Some(generation) {
                let released = ExecutionModel { descriptor: None, ..context };
                lemma_quiet(context, released);
                lemma_generation_completed(
                    released,
                    env,
                    generation,
                    ChildResult::Exited(super::context::SPAWN_FAILURE_EXIT),
                    true,
                );
                lemma_sound_chain(context, released, after);
            } else {
                lemma_quiet(context, after);
            }
        },
        ProcessBrokerEvent::Child { generation, event: child } => {
            lemma_service_child(context, env, generation, child);
            lemma_quiet(context, context);
        },
        ProcessBrokerEvent::SignalDelivered { generation } => lemma_signal_finished(
            context,
            generation,
            None,
        ),
        ProcessBrokerEvent::SignalFailed { generation, os_error } => lemma_signal_finished(
            context,
            generation,
            os_error,
        ),
        ProcessBrokerEvent::GenerationReady { generation } => {
            reveal(events::readiness_observed);
            lemma_quiet(context, after);
        },
        ProcessBrokerEvent::ReadinessFailed { generation } => {
            lemma_readiness_failure(context, env, generation);
            if context.machine.state != SupervisorState::Running(generation) {
                lemma_quiet(context, after);
            }
        },
        ProcessBrokerEvent::LifetimeClosed { generation } => lemma_lifetime(
            context,
            env,
            generation,
            LifetimeResult::Closed,
        ),
        ProcessBrokerEvent::LifetimeFailed { generation } => lemma_lifetime(
            context,
            env,
            generation,
            LifetimeResult::Failed,
        ),
        ProcessBrokerEvent::Detached { generation } => lemma_detach_finished(
            context,
            generation,
            true,
        ),
        ProcessBrokerEvent::DetachFailed { generation } => lemma_detach_finished(
            context,
            generation,
            false,
        ),
        _ => lemma_quiet(context, after),
    }
}

proof fn lemma_broker_handled(
    context: ExecutionModel,
    env: Surroundings,
    event: ProcessBrokerEvent,
)
    ensures
        sound(context, events::broker_handled(context, env, event).context),
{
    reveal(events::broker_handled);
    let after = events::broker_handled(context, env, event).context;
    if events::breaks_containment(event) {
        lemma_quiet(context, after);
    } else if event is LoggerInputsClosed && context.logger_shutdown is ClosingInputs {
        reveal(sound);
    } else {
        lemma_service_handled(context, env, event);
        lemma_lifecycle_handled(context, env, event);
        lemma_logger_handled(context, env, event);
        lemma_auxiliary_handled(context, env, event);
    }
}

/// Every event keeps queued work, task and generation numbers, and the order of
/// logger shutdown, whether it is handled or refused.
proof fn lemma_event_handled(
    context: ExecutionModel,
    env: Surroundings,
    service_name: Option<Seq<char>>,
    supervisor: u32,
    event: EventModel,
)
    ensures
        sound(
            context,
            runtime::event_handled(context, env, service_name, supervisor, event).context,
        ),
{
    reveal(runtime::event_handled);
    let after = runtime::event_handled(context, env, service_name, supervisor, event).context;
    match event {
        EventModel::Timer => {
            let loggers = logger::logger_timers_handled(context, env.now);
            lemma_logger_timers(context, env.now);
            lemma_executor_timer(loggers.context, env);
            if after != loggers.context {
                lemma_sound_chain(context, loggers.context, after);
            }
        },
        EventModel::Shutdown => {
            let cancelled = timers::auxiliary_cancelled(context, env.now);
            lemma_auxiliary_cancelled(context, env.now);
            lemma_descriptor_shutdown(cancelled, env);
            lemma_supervisor_shutdown(cancelled, env);
            if env.config.process_mode == crate::config::ProcessMode::DescriptorTracking
                && cancelled.machine.state.spec_live_generation() is Some && cancelled.lifecycle
                is Some {
                lemma_quiet(cancelled, after);
            }
            lemma_sound_chain(context, cancelled, after);
        },
        EventModel::Control { command, request } => match service_name {
            None => lemma_quiet(context, after),
            Some(name) => lemma_control_applied(
                context,
                env,
                name,
                command,
                request,
                supervisor,
            ),
        },
        EventModel::ControlClosed => lemma_quiet(context, after),
        EventModel::Broker(event) => lemma_broker_handled(context, env, event),
    }
}

/// Advancing keeps the same.
proof fn lemma_service_advanced(context: ExecutionModel, env: Surroundings, controlled: bool)
    ensures
        sound(context, runtime::service_advanced(context, env, controlled).0.context),
{
    reveal(runtime::service_advanced);
    let after = runtime::service_advanced(context, env, controlled).0.context;
    if context.shutdown_requested && context.lifecycle is None {
        let begun = control::descriptor_shutdown_begun(context, env);
        lemma_descriptor_shutdown(context, env);
        if begun.error is None {
            lemma_quiet(begun.context, after);
            lemma_sound_chain(context, begun.context, after);
        }
    } else if context.machine.state is Initializing && context::all_running(context.loggers) {
        lemma_transited(context, Transition::Initialized);
    } else if logger::exhaustion_applies(context) {
        lemma_exhaustion(context, env.now);
    } else {
        let (step, moved) = if runtime::childless_step_allowed(context) {
            runtime::childless_step(context, env)
        } else {
            (context::done(context), false)
        };
        lemma_quiet(context, step.context);
        if step.error is None && !moved {
            let done = runtime::finished(context.machine, controlled, context.first_start);
            let shut = logger::logger_shutdown_advanced(context, done, env.now);
            lemma_logger_shutdown_advanced(context, done, env.now);
            lemma_signals_abandoned(shut);
            lemma_sound_chain(context, shut, completion::signals_abandoned(shut));
        }
    }
}

// ---------------------------------------------------------------------------
// Laws
// ---------------------------------------------------------------------------

/// Work which was queued stays queued, in order and ahead of later work, whatever
/// event follows.
pub proof fn events_keep_queued_work(
    context: ExecutionModel,
    env: Surroundings,
    service_name: Option<Seq<char>>,
    supervisor: u32,
    event: EventModel,
)
    ensures
        ({
            let after = runtime::event_handled(
                context,
                env,
                service_name,
                supervisor,
                event,
            ).context;
            context.outbox.is_prefix_of(after.outbox)
        }),
{
    reveal(sound);
    lemma_event_handled(context, env, service_name, supervisor, event);
    let after = runtime::event_handled(context, env, service_name, supervisor, event).context;
    assert(after.outbox.subrange(0, context.outbox.len() as int) =~= context.outbox);
}

/// Work which was queued stays queued while supervision advances.
pub proof fn advancing_keeps_queued_work(
    context: ExecutionModel,
    env: Surroundings,
    controlled: bool,
)
    ensures
        context.outbox.is_prefix_of(
            runtime::service_advanced(context, env, controlled).0.context.outbox,
        ),
{
    reveal(sound);
    lemma_service_advanced(context, env, controlled);
    let after = runtime::service_advanced(context, env, controlled).0.context;
    assert(after.outbox.subrange(0, context.outbox.len() as int) =~= context.outbox);
}

/// Task and generation numbers only grow, so none is ever given out twice, and
/// the supervisor's epoch never moves.
pub proof fn numbers_are_never_reused(
    context: ExecutionModel,
    env: Surroundings,
    service_name: Option<Seq<char>>,
    supervisor: u32,
    event: EventModel,
    controlled: bool,
)
    ensures
        ({
            let after = runtime::event_handled(
                context,
                env,
                service_name,
                supervisor,
                event,
            ).context;
            &&& context.next_task <= after.next_task
            &&& context.machine.allocated <= after.machine.allocated
            &&& context.epoch == after.epoch
        }),
        ({
            let after = runtime::service_advanced(context, env, controlled).0.context;
            &&& context.next_task <= after.next_task
            &&& context.machine.allocated <= after.machine.allocated
            &&& context.epoch == after.epoch
        }),
{
    reveal(sound);
    lemma_event_handled(context, env, service_name, supervisor, event);
    lemma_service_advanced(context, env, controlled);
}

/// File adapters drain before the shared logger: whatever happens, the shared
/// logger is shut down only after every file adapter ended.
pub proof fn shared_logger_ends_last(
    context: ExecutionModel,
    env: Surroundings,
    service_name: Option<Seq<char>>,
    supervisor: u32,
    event: EventModel,
    controlled: bool,
)
    requires
        tiers_in_order(context),
    ensures
        tiers_in_order(
            runtime::event_handled(context, env, service_name, supervisor, event).context,
        ),
        tiers_in_order(runtime::service_advanced(context, env, controlled).0.context),
{
    reveal(sound);
    lemma_event_handled(context, env, service_name, supervisor, event);
    lemma_service_advanced(context, env, controlled);
}

/// A fresh context shuts no logger down.
pub proof fn fresh_contexts_are_in_order(
    config: crate::config::ServiceConfig,
    loggers: Seq<crate::process::BrokerLoggerId>,
    initializing: bool,
    now: Moment,
)
    ensures
        tiers_in_order(context::initial_context(config, loggers, initializing, now)),
{
}

/// Nothing starts before every logger runs.
pub proof fn loggers_run_before_the_service(
    context: ExecutionModel,
    env: Surroundings,
    controlled: bool,
)
    requires
        context.machine.state is Down,
        runtime::service_advanced(context, env, controlled).0.context.machine.state
            is WaitingCondition,
        !context.shutdown_requested,
    ensures
        context::all_running(context.loggers),
{
    reveal(runtime::service_advanced);
    reveal(logger::exhaustion_handled);
    let done = runtime::finished(context.machine, controlled, context.first_start);
    let shut = logger::logger_shutdown_advanced(context, done, env.now);
    assert(shut.machine == context.machine) by {
        reveal(logger::logger_shutdown_advanced);
    }
    lemma_abandoning_keeps_the_machine(shut);
}

proof fn lemma_abandoning_keeps_the_machine(context: ExecutionModel)
    ensures
        completion::signals_abandoned(context).machine == context.machine,
    decreases context.pending_signals.len(),
{
    if context.pending_signals.len() > 0 {
        let settled = ExecutionModel {
            pending_signals: context.pending_signals.drop_first(),
            ..context
        };
        match context.pending_signals[0] {
            super::context::PendingSignal::Lifecycle => lemma_abandoning_keeps_the_machine(
                settled,
            ),
            super::context::PendingSignal::Control(reply) => lemma_abandoning_keeps_the_machine(
                context::replied(
                    settled,
                    reply,
                    ResponseCode::Internal,
                    "supervisor exited before signal delivery was acknowledged"@,
                ),
            ),
        }
    }
}

/// A readiness observation for a generation which already has a lifecycle
/// decision is dropped: no state, and in particular no stop deadline, changes.
pub proof fn late_readiness_changes_nothing(context: ExecutionModel, generation: Generation)
    requires
        !(context.machine.state is Running),
        !(context.machine.state matches SupervisorState::Paused { ready, .. } && !ready),
    ensures
        events::readiness_observed(context, generation) == context::done(context),
{
    reveal(events::readiness_observed);
}

/// A readiness observation for a generation which the supervisor does not own is
/// a protocol fault and changes nothing.
pub proof fn foreign_readiness_is_a_fault(
    context: ExecutionModel,
    env: Surroundings,
    generation: Generation,
)
    requires
        !events::owns(context, generation),
    ensures
        events::broker_handled(
            context,
            env,
            ProcessBrokerEvent::GenerationReady { generation },
        ) == context::failed(
            context,
            ErrorModel::UnexpectedBrokerEvent(ProcessBrokerEvent::GenerationReady { generation }),
        ),
{
    reveal(events::broker_handled);
    reveal(events::service_handled);
}

/// A paused generation remembers readiness, so that continuing it makes it ready.
pub proof fn paused_readiness_resumes_ready(
    context: ExecutionModel,
    env: Surroundings,
    generation: Generation,
    pid: ProcessId,
)
    requires
        context.machine.state == (SupervisorState::Paused { generation, ready: false }),
    ensures
        ({
            let observed = events::readiness_observed(context, generation).context;
            let continued = completion::service_child_handled(
                observed,
                env,
                generation,
                ChildEvent::Continued { pid },
            );
            continued.error is None && continued.context.machine.state == SupervisorState::Ready(
                generation,
            )
        }),
{
    reveal(events::readiness_observed);
    reveal(completion::service_child_handled);
}

/// A detach which the broker refuses restores operator intent and leaves the
/// generation supervised.
pub proof fn refused_detach_restores_intent(context: ExecutionModel, generation: Generation)
    requires
        context.pending_detach matches Some(pending) && pending.generation == generation,
    ensures
        ({
            let after = completion::detach_finished(context, generation, false);
            &&& after.error is None
            &&& after.context.machine.state == context.machine.state
            &&& after.context.machine.desired == context.pending_detach->0.previous_desired
            &&& after.context.pending_detach is None
        }),
{
    reveal(completion::detach_finished);
}

/// An operator-requested stop overrides restart policy.
pub proof fn requested_stops_override_policy(
    context: ExecutionModel,
    env: Surroundings,
    completion: PendingCompletion,
)
    requires
        completion.stop is Some,
    ensures
        ({
            let (decision, tracker) = completion::completion_decision(context, env, completion);
            &&& tracker == context.tracker
            &&& decision == (if completion.stop == Some(
                crate::control::decision::StopCompletion::Halt,
            ) {
                crate::supervisor::RestartDecision::ExitSupervisor
            } else {
                crate::supervisor::RestartDecision::StayDown
            })
        }),
{
}

/// Whether a step failed because of an event which cannot happen now.
pub open spec fn refused_event(step: Step) -> bool {
    step.error matches Some(error) && error is UnexpectedBrokerEvent
}

proof fn lemma_completion_accepts_events(
    context: ExecutionModel,
    env: Surroundings,
    generation: Generation,
    result: ChildResult,
    start_failed: bool,
)
    ensures
        !refused_event(
            completion::generation_completed(context, env, generation, result, start_failed),
        ),
{
    reveal(completion::generation_completed);
    reveal(completion::completion_finished);
}

proof fn lemma_descriptor_accepts_events(
    context: ExecutionModel,
    env: Surroundings,
    generation: Generation,
)
    ensures
        !refused_event(completion::descriptor_finished(context, env, generation)),
{
    reveal(completion::descriptor_finished);
    let stopped = completion::stops_generation(context, generation);
    let released = ExecutionModel {
        lifecycle: if stopped {
            None
        } else {
            context.lifecycle
        },
        descriptor: None,
        ..context
    };
    lemma_completion_accepts_events(
        released,
        env,
        generation,
        completion::joined_result(context.descriptor->0, env),
        false,
    );
}

proof fn lemma_failed_hooks_accept_events(
    context: ExecutionModel,
    env: Surroundings,
    message: Seq<char>,
)
    ensures
        !refused_event(events::lifecycle_failed(context, env, message)),
{
    reveal(events::lifecycle_failed);
    assert forall|settled: ExecutionModel, generation: Generation|
        !refused_event(#[trigger] completion::descriptor_finished(settled, env, generation)) by {
        lemma_descriptor_accepts_events(settled, env, generation);
    }
}

proof fn lemma_successful_hooks_accept_events(context: ExecutionModel, env: Surroundings)
    ensures
        !refused_event(events::lifecycle_succeeded(context, env)),
{
    reveal(events::lifecycle_succeeded);
    assert forall|settled: ExecutionModel, generation: Generation|
        !refused_event(#[trigger] completion::descriptor_finished(settled, env, generation)) by {
        lemma_descriptor_accepts_events(settled, env, generation);
    }
}

proof fn lemma_refused_lifecycle_event(
    context: ExecutionModel,
    env: Surroundings,
    event: ProcessBrokerEvent,
)
    requires
        refused_event(events::lifecycle_handled(context, env, event)),
    ensures
        events::lifecycle_handled(context, env, event).context == context,
{
    reveal(events::lifecycle_handled);
    lemma_successful_hooks_accept_events(context, env);
    lemma_failed_hooks_accept_events(
        context,
        env,
        "descriptor lifecycle hook could not be started"@,
    );
    lemma_failed_hooks_accept_events(
        context,
        env,
        "descriptor lifecycle hook did not complete successfully"@,
    );
    lemma_failed_hooks_accept_events(
        context,
        env,
        "descriptor lifecycle hook could not be killed"@,
    );
}

proof fn lemma_refused_service_event(
    context: ExecutionModel,
    env: Surroundings,
    event: ProcessBrokerEvent,
)
    requires
        refused_event(events::service_handled(context, env, event)),
        !(event is Detached),
        !(event is DetachFailed),
    ensures
        events::service_handled(context, env, event).context == context,
{
    reveal(events::service_handled);
    assert forall|settled: ExecutionModel, generation: Generation|
        !refused_event(#[trigger] completion::descriptor_finished(settled, env, generation)) by {
        lemma_descriptor_accepts_events(settled, env, generation);
    }
    match event {
        ProcessBrokerEvent::Started { .. } => {
            reveal(events::service_start_observed);
        },
        ProcessBrokerEvent::SpawnFailed { generation } => {
            lemma_completion_accepts_events(
                ExecutionModel { descriptor: None, ..context },
                env,
                generation,
                ChildResult::Exited(super::context::SPAWN_FAILURE_EXIT),
                true,
            );
        },
        ProcessBrokerEvent::Child { generation, event: child } => {
            reveal(completion::service_child_handled);
            if child.result() is Some {
                lemma_completion_accepts_events(
                    context,
                    env,
                    generation,
                    child.result()->0,
                    false,
                );
            }
        },
        ProcessBrokerEvent::SignalDelivered { .. } => {
            reveal(completion::signal_finished);
        },
        ProcessBrokerEvent::SignalFailed { .. } => {
            reveal(completion::signal_finished);
        },
        ProcessBrokerEvent::GenerationReady { .. } => {
            reveal(events::readiness_observed);
        },
        ProcessBrokerEvent::ReadinessFailed { .. } => {
            reveal(events::readiness_failure_handled);
            reveal(control::hook_begun);
        },
        ProcessBrokerEvent::LifetimeClosed { .. } => {
            reveal(completion::lifetime_handled);
        },
        ProcessBrokerEvent::LifetimeFailed { .. } => {
            reveal(completion::lifetime_handled);
        },
        _ => {},
    }
}

/// An event which cannot happen now changes nothing before it is reported. Only
/// an answer to a detach is different: it always ends the pending detach.
pub proof fn refused_events_change_nothing(
    context: ExecutionModel,
    env: Surroundings,
    event: ProcessBrokerEvent,
)
    requires
        refused_event(events::broker_handled(context, env, event)),
        !(event is Detached),
        !(event is DetachFailed),
    ensures
        events::broker_handled(context, env, event).context == context,
{
    reveal(events::broker_handled);
    if events::task_of(event) is None {
        lemma_refused_service_event(context, env, event);
    } else {
        if context.lifecycle is Some && refused_event(
            events::lifecycle_handled(context, env, event),
        ) {
            lemma_refused_lifecycle_event(context, env, event);
        }
        reveal(events::logger_handled);
        reveal(auxiliary::post_exit_handled);
        reveal(auxiliary::condition_handled);
        reveal(completion::completion_finished);
    }
}

} // verus!
