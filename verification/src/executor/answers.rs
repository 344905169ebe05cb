//! No client is forgotten, and none is answered twice.
//!
//! A client's ledger counts the answers which are queued for it or still owed to
//! it. Handling a command adds one to the ledger of its client; nothing else ever
//! changes a ledger, so every command is answered exactly once.

use vstd::prelude::*;

use crate::control::decision::ControlEffect;
use crate::control::message::RequestModel;
use crate::control::response::ResponseCode;
use crate::process::{ChildEvent, ProcessBrokerEvent, ProcessId, ProcessSignal};
use crate::supervisor::{ChildResult, DesiredState, Generation, SupervisorState, Transition};

use super::auxiliary;
use super::clock::Moment;
use super::completion;
use super::completion::LifetimeResult;
use super::context;
use super::context::{
    ActionModel, CommandToken, ExecutionModel, LifecycleExecution, LoggerShutdownTier,
    PendingReply, PendingSignal, Step, Surroundings,
};
use super::control;
use super::control::{AcceptedModel, LifecycleHookRequest};
use super::events;
use super::logger;
use super::runtime;
use super::runtime::EventModel;
use super::stopping;
use super::timers;

verus! {

/// Client which waits for the running lifecycle hook.
pub open spec fn hook_client(context: ExecutionModel) -> Option<PendingReply> {
    match context.lifecycle {
        Some(lifecycle) => lifecycle.reply,
        None => None,
    }
}

/// One when a pending reply is owed to `command`.
pub open spec fn reply_owed(reply: Option<PendingReply>, command: CommandToken) -> nat {
    if reply matches Some(reply) && reply.command == command {
        1
    } else {
        0
    }
}

/// Client of the pending detach.
pub open spec fn detach_client(context: ExecutionModel) -> Option<PendingReply> {
    match context.pending_detach {
        Some(detach) => Some(detach.reply),
        None => None,
    }
}

/// Client of one acknowledgement.
pub open spec fn signal_client(signal: PendingSignal) -> Option<PendingReply> {
    match signal {
        PendingSignal::Lifecycle => None,
        PendingSignal::Control(reply) => Some(reply),
    }
}

/// Acknowledgements which are owed to `command`.
pub open spec fn signals_owed(signals: Seq<PendingSignal>, command: CommandToken) -> nat
    decreases signals.len(),
{
    if signals.len() == 0 {
        0
    } else {
        signals_owed(signals.drop_last(), command) + reply_owed(
            signal_client(signals.last()),
            command,
        )
    }
}

/// Times a client is remembered as pending.
pub open spec fn pending(context: ExecutionModel, command: CommandToken) -> nat {
    signals_owed(context.pending_signals, command) + reply_owed(detach_client(context), command)
        + reply_owed(hook_client(context), command)
}

/// Answers to `command` among queued work.
pub open spec fn answers(outbox: Seq<ActionModel>, command: CommandToken) -> nat
    decreases outbox.len(),
{
    if outbox.len() == 0 {
        0
    } else {
        answers(outbox.drop_last(), command) + if outbox.last() matches ActionModel::Respond {
            command: told,
            ..
        } && told == command {
            1nat
        } else {
            0
        }
    }
}

/// Answers which are queued for a client or still owed to it.
pub open spec fn ledger(context: ExecutionModel, command: CommandToken) -> nat {
    pending(context, command) + answers(context.outbox, command)
}

/// One more piece of work answers its own client only.
pub broadcast proof fn answers_add_up(
    outbox: Seq<ActionModel>,
    action: ActionModel,
    command: CommandToken,
)
    ensures
        #[trigger] answers(outbox.push(action), command) == answers(outbox, command) + if action
            matches ActionModel::Respond { command: told, .. } && told == command {
            1nat
        } else {
            0
        },
{
    assert(outbox.push(action).drop_last() =~= outbox);
}

/// One more acknowledgement is owed to its own client only.
pub broadcast proof fn owed_signals_add_up(
    signals: Seq<PendingSignal>,
    signal: PendingSignal,
    command: CommandToken,
)
    ensures
        #[trigger] signals_owed(signals.push(signal), command) == signals_owed(signals, command)
            + reply_owed(signal_client(signal), command),
{
    assert(signals.push(signal).drop_last() =~= signals);
}

/// The oldest acknowledgement is owed to its own client only.
proof fn lemma_oldest_signal(signals: Seq<PendingSignal>, command: CommandToken)
    requires
        signals.len() > 0,
    ensures
        signals_owed(signals, command) == reply_owed(signal_client(signals[0]), command)
            + signals_owed(signals.drop_first(), command),
    decreases signals.len(),
{
    if signals.len() == 1 {
        assert(signals.drop_last() =~= Seq::empty());
        assert(signals.drop_first() =~= Seq::empty());
    } else {
        lemma_oldest_signal(signals.drop_last(), command);
        assert(signals.drop_first().drop_last() =~= signals.drop_last().drop_first());
    }
}

/// Whether no client's ledger changed.
#[verifier::opaque]
pub open spec fn kept(before: ExecutionModel, after: ExecutionModel) -> bool {
    forall|command: CommandToken| #[trigger] ledger(after, command) == ledger(before, command)
}

/// Whether one ledger grew by one and no other changed.
#[verifier::opaque]
pub open spec fn charged(
    before: ExecutionModel,
    after: ExecutionModel,
    command: CommandToken,
) -> bool {
    forall|other: CommandToken| #[trigger]
        ledger(after, other) == ledger(before, other) + if other == command {
            1nat
        } else {
            0
        }
}

/// Whether a step changed no ledger, unless it failed.
pub open spec fn keeps(before: ExecutionModel, step: Step) -> bool {
    step.error is None ==> kept(before, step.context)
}

/// Whether queued work holds no new answer.
pub open spec fn silent(before: Seq<ActionModel>, after: Seq<ActionModel>) -> bool {
    forall|command: CommandToken| #[trigger] answers(after, command) == answers(before, command)
}

proof fn lemma_chain(first: ExecutionModel, second: ExecutionModel, third: ExecutionModel)
    requires
        kept(first, second),
        kept(second, third),
    ensures
        kept(first, third),
{
    reveal(kept);
    assert forall|command: CommandToken| #[trigger] ledger(third, command) == ledger(
        first,
        command,
    ) by {
        assert(ledger(second, command) == ledger(first, command));
    }
}

proof fn lemma_charge_chain(
    first: ExecutionModel,
    second: ExecutionModel,
    third: ExecutionModel,
    command: CommandToken,
)
    requires
        kept(first, second),
        charged(second, third, command),
    ensures
        charged(first, third, command),
{
    reveal(kept);
    reveal(charged);
    assert forall|other: CommandToken| #[trigger] ledger(third, other) == ledger(first, other)
        + if other == command {
        1nat
    } else {
        0
    } by {
        assert(ledger(second, other) == ledger(first, other));
    }
}

/// A change which touches no client changes no ledger.
proof fn lemma_unmoved(before: ExecutionModel, after: ExecutionModel)
    requires
        forall|command: CommandToken| #[trigger]
            signals_owed(after.pending_signals, command) == signals_owed(
                before.pending_signals,
                command,
            ),
        detach_client(after) == detach_client(before),
        hook_client(after) == hook_client(before),
        silent(before.outbox, after.outbox),
    ensures
        kept(before, after),
{
    reveal(kept);
}

/// Answering the client of a finished lifecycle hook changes no ledger.
proof fn lemma_hook_answered(
    before: ExecutionModel,
    after: ExecutionModel,
    code: ResponseCode,
    message: Seq<char>,
    settled: ExecutionModel,
)
    requires
        settled.pending_signals == before.pending_signals,
        detach_client(settled) == detach_client(before),
        hook_client(settled) is None,
        silent(before.outbox, settled.outbox),
        after == completion::lifecycle_replied(settled, before.lifecycle, code, message),
    ensures
        kept(before, after),
{
    broadcast use answers_add_up;

    reveal(kept);
}

/// An answer queued beside otherwise untouched clients charges its own client.
proof fn lemma_told(before: ExecutionModel, after: ExecutionModel, action: ActionModel)
    requires
        after == context::queued(before, action),
        action is Respond,
    ensures
        charged(before, after, action->Respond_command),
{
    broadcast use answers_add_up;

    reveal(charged);
}

// ---------------------------------------------------------------------------
// Completion
// ---------------------------------------------------------------------------

/// The end of a generation touches no client.
proof fn lemma_generation_completed(
    context: ExecutionModel,
    env: Surroundings,
    generation: Generation,
    result: ChildResult,
    start_failed: bool,
)
    ensures
        ({
            let after = completion::generation_completed(
                context,
                env,
                generation,
                result,
                start_failed,
            ).context;
            &&& after.pending_signals == context.pending_signals
            &&& after.pending_detach == context.pending_detach
            &&& after.lifecycle == context.lifecycle
            &&& silent(context.outbox, after.outbox)
        }),
{
    broadcast use answers_add_up;

    reveal(completion::generation_completed);
    reveal(completion::ended_context);
    reveal(completion::completion_finished);
}

proof fn lemma_descriptor_finished(
    context: ExecutionModel,
    env: Surroundings,
    generation: Generation,
)
    ensures
        keeps(context, completion::descriptor_finished(context, env, generation)),
{
    reveal(completion::descriptor_finished);
    let after = completion::descriptor_finished(context, env, generation);
    if completion::descriptor_ended(context, generation) {
        let stopped = completion::stops_generation(context, generation);
        let released = ExecutionModel {
            lifecycle: if stopped {
                None
            } else {
                context.lifecycle
            },
            descriptor: None,
            ..context
        };
        let joined = completion::joined_result(context.descriptor->0, env);
        let completed = completion::generation_completed(released, env, generation, joined, false);
        lemma_generation_completed(released, env, generation, joined, false);
        if completed.error is None {
            if stopped {
                lemma_hook_answered(
                    context,
                    after.context,
                    ResponseCode::Success,
                    completion::acceptance_message(),
                    completed.context,
                );
            } else {
                lemma_unmoved(context, after.context);
            }
        }
    } else {
        lemma_unmoved(context, after.context);
    }
}

proof fn lemma_service_child(
    context: ExecutionModel,
    env: Surroundings,
    generation: Generation,
    event: ChildEvent,
)
    ensures
        keeps(context, completion::service_child_handled(context, env, generation, event)),
{
    broadcast use answers_add_up;

    reveal(completion::service_child_handled);
    let after = completion::service_child_handled(context, env, generation, event);
    let state = context.machine.state;
    if (event is Stopped && (state is Running || state is Ready)) || (event is Continued && state
        is Paused) || event.result() is None {
        lemma_unmoved(context, after.context);
    } else if env.config.process_mode == crate::config::ProcessMode::DescriptorTracking {
        if context.descriptor matches Some(descriptor) && descriptor.generation == generation
            && descriptor.launcher_result is None {
            let recorded = ExecutionModel {
                descriptor: Some(
                    super::context::DescriptorExecution {
                        launcher_result: event.result(),
                        ..context.descriptor->0
                    },
                ),
                ..context
            };
            let cleared = context::pid_cleared(recorded);
            lemma_unmoved(context, cleared);
            lemma_descriptor_finished(cleared, env, generation);
            if after.error is None {
                lemma_chain(context, cleared, after.context);
            }
        } else {
            lemma_unmoved(context, after.context);
        }
    } else {
        lemma_generation_completed(context, env, generation, event.result()->0, false);
        lemma_unmoved(context, after.context);
    }
}

proof fn lemma_group_stop(context: ExecutionModel, generation: Generation, after: ExecutionModel)
    requires
        ({
            let stopped = stopping::group_stop_requested(context, generation);
            &&& after.outbox == stopped.outbox
            &&& after.pending_signals == stopped.pending_signals
            &&& after.pending_detach == stopped.pending_detach
            &&& after.lifecycle == stopped.lifecycle
        }),
    ensures
        kept(context, after),
{
    broadcast use {answers_add_up, owed_signals_add_up};

    lemma_unmoved(context, after);
}

proof fn lemma_lifetime(
    context: ExecutionModel,
    env: Surroundings,
    generation: Generation,
    result: LifetimeResult,
)
    ensures
        keeps(context, completion::lifetime_handled(context, env, generation, result)),
{
    reveal(completion::lifetime_handled);
    let after = completion::lifetime_handled(context, env, generation, result);
    if context.descriptor matches Some(descriptor) && descriptor.generation == generation
        && descriptor.lifetime_result is None {
        let recorded = ExecutionModel {
            descriptor: Some(
                super::context::DescriptorExecution {
                    lifetime_preceded_launcher: context.descriptor->0.launcher_result is None,
                    lifetime_result: Some(result.result()),
                    ..context.descriptor->0
                },
            ),
            ..context
        };
        lemma_unmoved(context, recorded);
        if context.descriptor->0.launcher_result is None && context.machine.state.spec_live_generation()
            == Some(generation) && !completion::stops_generation(context, generation) {
            let stopping = if context.machine.state is Stopping {
                context::done(recorded)
            } else {
                context::transited(recorded, Transition::BeginStop(generation))
            };
            lemma_unmoved(context, stopping.context);
            if stopping.error is None {
                let asked = ExecutionModel {
                    stop_kill_sent: false,
                    deadline: Some(env.now.after(super::context::SERVICE_STOP_GRACE)),
                    ..stopping::group_stop_requested(stopping.context, generation)
                };
                lemma_group_stop(stopping.context, generation, asked);
                lemma_chain(context, stopping.context, asked);
                lemma_descriptor_finished(asked, env, generation);
                if after.error is None {
                    lemma_chain(context, asked, after.context);
                }
            }
        } else {
            lemma_descriptor_finished(recorded, env, generation);
            if after.error is None {
                lemma_chain(context, recorded, after.context);
            }
        }
    } else {
        lemma_unmoved(context, after.context);
    }
}

proof fn lemma_detach_finished(context: ExecutionModel, generation: Generation, succeeded: bool)
    ensures
        keeps(context, completion::detach_finished(context, generation, succeeded)),
{
    broadcast use answers_add_up;

    reveal(completion::detach_finished);
    reveal(kept);
}

/// Settling the oldest acknowledgement changes no ledger.
proof fn lemma_signal_settled(
    context: ExecutionModel,
    after: ExecutionModel,
    code: ResponseCode,
    message: Seq<char>,
)
    requires
        context.pending_signals.len() > 0,
        ({
            let settled = ExecutionModel {
                pending_signals: context.pending_signals.drop_first(),
                ..context
            };
            after == match context.pending_signals[0] {
                PendingSignal::Lifecycle => settled,
                PendingSignal::Control(reply) => context::replied(settled, reply, code, message),
            }
        }),
    ensures
        kept(context, after),
{
    broadcast use answers_add_up;

    reveal(kept);
    assert forall|command: CommandToken| #[trigger] ledger(after, command) == ledger(
        context,
        command,
    ) by {
        lemma_oldest_signal(context.pending_signals, command);
    }
}

proof fn lemma_signal_finished(
    context: ExecutionModel,
    generation: Generation,
    os_error: Option<i32>,
)
    ensures
        keeps(context, completion::signal_finished(context, generation, os_error)),
{
    reveal(completion::signal_finished);
    if context.pending_signals.len() > 0 {
        lemma_signal_settled(
            context,
            completion::signal_finished(context, generation, os_error).context,
            if os_error is Some {
                ResponseCode::Internal
            } else {
                ResponseCode::Success
            },
            completion::signal_message(os_error),
        );
    }
}

proof fn lemma_signals_abandoned(context: ExecutionModel)
    ensures
        kept(context, completion::signals_abandoned(context)),
    decreases context.pending_signals.len(),
{
    if context.pending_signals.len() == 0 {
        lemma_unmoved(context, context);
    } else {
        let settled = ExecutionModel {
            pending_signals: context.pending_signals.drop_first(),
            ..context
        };
        let message = "supervisor exited before signal delivery was acknowledged"@;
        let told = match context.pending_signals[0] {
            PendingSignal::Lifecycle => settled,
            PendingSignal::Control(reply) => context::replied(
                settled,
                reply,
                ResponseCode::Internal,
                message,
            ),
        };
        lemma_signal_settled(context, told, ResponseCode::Internal, message);
        lemma_signals_abandoned(told);
        lemma_chain(context, told, completion::signals_abandoned(context));
    }
}

// ---------------------------------------------------------------------------
// Hooks and auxiliary tasks
// ---------------------------------------------------------------------------

/// A hook begins only while none runs, so it displaces no client and charges its
/// own.
proof fn lemma_hook_begun(
    context: ExecutionModel,
    env: Surroundings,
    request: LifecycleHookRequest,
)
    ensures
        ({
            let step = control::hook_begun(context, env, request);
            match request.reply {
                None => keeps(context, step),
                Some(reply) => step.error is None ==> charged(
                    context,
                    step.context,
                    reply.command,
                ),
            }
        }),
{
    broadcast use answers_add_up;

    reveal(control::hook_begun);
    reveal(kept);
    reveal(charged);
}

proof fn lemma_lifecycle_failed(context: ExecutionModel, env: Surroundings, message: Seq<char>)
    ensures
        keeps(context, events::lifecycle_failed(context, env, message)),
{
    reveal(events::lifecycle_failed);
    let after = events::lifecycle_failed(context, env, message);
    match context.lifecycle {
        None => lemma_unmoved(context, after.context),
        Some(lifecycle) => {
            let released = ExecutionModel { lifecycle: None, ..context };
            let undone = if lifecycle.kind is Stop {
                context::transited(
                    released,
                    Transition::AbortStop {
                        generation: lifecycle.generation,
                        resume_ready: lifecycle.resume_ready,
                        previous_desired: lifecycle.previous_desired,
                    },
                )
            } else {
                context::done(released)
            };
            if undone.error is None {
                let settled = ExecutionModel {
                    pending_stop: if lifecycle.kind is Stop {
                        None
                    } else {
                        context.pending_stop
                    },
                    deadline: None,
                    ..undone.context
                };
                let replied = completion::lifecycle_replied(
                    settled,
                    Some(lifecycle),
                    ResponseCode::Internal,
                    message,
                );
                lemma_hook_answered(context, replied, ResponseCode::Internal, message, settled);
                lemma_descriptor_finished(replied, env, lifecycle.generation);
                if after.error is None {
                    lemma_chain(context, replied, after.context);
                }
            }
        },
    }
}

proof fn lemma_lifecycle_succeeded(context: ExecutionModel, env: Surroundings)
    ensures
        keeps(context, events::lifecycle_succeeded(context, env)),
{
    reveal(events::lifecycle_succeeded);
    let after = events::lifecycle_succeeded(context, env);
    match context.lifecycle {
        None => lemma_unmoved(context, after.context),
        Some(lifecycle) => if lifecycle.kind is Reload {
            broadcast use answers_add_up;

            reveal(kept);
        } else {
            match env.config.descriptor_tracking {
                None => {},
                Some(tracking) => {
                    let timed = ExecutionModel {
                        lifecycle: Some(
                            LifecycleExecution {
                                state: super::context::LifecycleHookState::WaitingLifetime,
                                ..lifecycle
                            },
                        ),
                        pending_stop: lifecycle.after,
                        deadline: Some(env.now.after(tracking.lifetime_timeout_seconds)),
                        ..context
                    };
                    lemma_unmoved(context, timed);
                    lemma_descriptor_finished(timed, env, lifecycle.generation);
                    if after.error is None {
                        lemma_chain(context, timed, after.context);
                    }
                },
            }
        },
    }
}

proof fn lemma_lifecycle_handled(
    context: ExecutionModel,
    env: Surroundings,
    event: ProcessBrokerEvent,
)
    ensures
        keeps(context, events::lifecycle_handled(context, env, event)),
{
    reveal(events::lifecycle_handled);
    let after = events::lifecycle_handled(context, env, event).context;
    lemma_lifecycle_failed(
        context,
        env,
        "descriptor lifecycle hook could not be started"@,
    );
    lemma_lifecycle_failed(
        context,
        env,
        "descriptor lifecycle hook did not complete successfully"@,
    );
    lemma_lifecycle_failed(context, env, "descriptor lifecycle hook could not be killed"@);
    lemma_lifecycle_succeeded(context, env);
    if after.outbox == context.outbox && after.pending_signals == context.pending_signals
        && after.pending_detach == context.pending_detach && hook_client(after) == hook_client(
        context,
    ) {
        lemma_unmoved(context, after);
    }
}

proof fn lemma_auxiliary_cancelled(context: ExecutionModel, now: Moment)
    ensures
        kept(context, timers::auxiliary_cancelled(context, now)),
        timers::auxiliary_cancelled(context, now).lifecycle == context.lifecycle,
        timers::auxiliary_cancelled(context, now).machine == context.machine,
{
    broadcast use answers_add_up;

    reveal(timers::auxiliary_cancelled);
    lemma_unmoved(context, timers::auxiliary_cancelled(context, now));
}

proof fn lemma_auxiliary_handled(
    context: ExecutionModel,
    env: Surroundings,
    event: ProcessBrokerEvent,
)
    ensures
        keeps(context, auxiliary::auxiliary_handled(context, env, event)),
{
    let after = auxiliary::auxiliary_handled(context, env, event).context;
    reveal(auxiliary::post_exit_handled);
    reveal(auxiliary::condition_handled);
    reveal(auxiliary::condition_rescheduled);
    reveal(completion::completion_finished);
    lemma_unmoved(context, after);
}

// ---------------------------------------------------------------------------
// Timers
// ---------------------------------------------------------------------------

proof fn lemma_executor_timer(context: ExecutionModel, env: Surroundings)
    ensures
        keeps(context, timers::executor_timer_handled(context, env)),
{
    broadcast use {answers_add_up, owed_signals_add_up};

    reveal(timers::executor_timer_handled);
    reveal(timers::lifecycle_timer_handled);
    reveal(timers::waiting_timer_handled);
    reveal(timers::service_started);
    let after = timers::executor_timer_handled(context, env).context;
    lemma_lifecycle_failed(
        context,
        env,
        "descriptor lifetime did not close before its configured deadline"@,
    );
    if detach_client(after) == detach_client(context) && hook_client(after) == hook_client(context)
        && silent(context.outbox, after.outbox) && (forall|command: CommandToken| #[trigger]
        signals_owed(after.pending_signals, command) == signals_owed(
            context.pending_signals,
            command,
        )) {
        lemma_unmoved(context, after);
    }
}

// ---------------------------------------------------------------------------
// Loggers
// ---------------------------------------------------------------------------

/// Logger work touches no client.
pub open spec fn apart(before: ExecutionModel, after: ExecutionModel) -> bool {
    &&& after.pending_signals == before.pending_signals
    &&& after.pending_detach == before.pending_detach
    &&& after.lifecycle == before.lifecycle
    &&& silent(before.outbox, after.outbox)
}

proof fn lemma_apart(before: ExecutionModel, after: ExecutionModel)
    requires
        apart(before, after),
    ensures
        kept(before, after),
{
    lemma_unmoved(before, after);
}

proof fn lemma_apart_chain(first: ExecutionModel, second: ExecutionModel, third: ExecutionModel)
    requires
        apart(first, second),
        apart(second, third),
    ensures
        apart(first, third),
{
    assert forall|command: CommandToken| #[trigger] answers(third.outbox, command) == answers(
        first.outbox,
        command,
    ) by {
        assert(answers(second.outbox, command) == answers(first.outbox, command));
    }
}

proof fn lemma_loggers_started(context: ExecutionModel, now: Moment, from: int)
    requires
        0 <= from,
    ensures
        apart(context, logger::loggers_started(context, now, from).context),
    decreases context.loggers.len() - from,
{
    broadcast use answers_add_up;

    if from < context.loggers.len() {
        if context.loggers[from].state is Down {
            let numbered = context::allocated(context);
            if numbered.error is None {
                let requested = logger::logger_requested(numbered.context, now, from);
                lemma_loggers_started(requested, now, from + 1);
                lemma_apart_chain(
                    context,
                    requested,
                    logger::loggers_started(context, now, from).context,
                );
            }
        } else {
            lemma_loggers_started(context, now, from + 1);
        }
    }
}

proof fn lemma_down_loggers_started(context: ExecutionModel, now: Moment)
    ensures
        apart(context, logger::down_loggers_started(context, now).context),
{
    reveal(logger::down_loggers_started);
    if context.logger_shutdown.restartable() {
        lemma_loggers_started(context, now, 0);
    }
}

proof fn lemma_tier_signalled(
    context: ExecutionModel,
    tier: LoggerShutdownTier,
    signal: ProcessSignal,
    now: Moment,
    from: int,
)
    requires
        0 <= from,
    ensures
        apart(context, logger::tier_signalled(context, tier, signal, now, from)),
    decreases context.loggers.len() - from,
{
    broadcast use answers_add_up;

    if from < context.loggers.len() {
        let next = if logger::tier_of(context.loggers[from].logger) == tier {
            logger::logger_signalled(context, from, signal, now)
        } else {
            context
        };
        lemma_tier_signalled(next, tier, signal, now, from + 1);
        let after = logger::tier_signalled(next, tier, signal, now, from + 1);
        assert(logger::tier_signalled(context, tier, signal, now, from) == after);
        lemma_apart_chain(context, next, after);
    }
}

proof fn lemma_loggers_timed(context: ExecutionModel, now: Moment, from: int)
    requires
        0 <= from,
    ensures
        apart(context, logger::loggers_timed(context, now, from).context),
    decreases context.loggers.len() - from,
{
    broadcast use answers_add_up;

    if from < context.loggers.len() {
        let next = match context.loggers[from].state {
            super::context::LoggerExecutionState::Backoff { deadline } => if deadline.due(now) {
                logger::logger_set(context, from, super::context::LoggerExecutionState::Down)
            } else {
                context
            },
            super::context::LoggerExecutionState::Starting { task, deadline } => if deadline.due(
                now,
            ) {
                logger::logger_set(
                    logger::task_signalled(context, task, ProcessSignal::Kill),
                    from,
                    super::context::LoggerExecutionState::Killing {
                        task,
                        deadline: now.after(super::context::BROKER_EVENT_TIMEOUT),
                    },
                )
            } else {
                context
            },
            _ => context,
        };
        assert(apart(context, next));
        lemma_loggers_timed(next, now, from + 1);
        lemma_apart_chain(
            context,
            next,
            logger::loggers_timed(next, now, from + 1).context,
        );
    }
}

proof fn lemma_logger_timers(context: ExecutionModel, now: Moment)
    ensures
        apart(context, logger::logger_timers_handled(context, now).context),
{
    broadcast use answers_add_up;

    reveal(logger::logger_timers_handled);
    let after = logger::logger_timers_handled(context, now).context;
    if context.logger_shutdown.spec_deadline() matches Some(deadline) && deadline.due(now) {
        match context.logger_shutdown {
            super::context::LoggerShutdownState::Draining { tier, .. } => {
                lemma_tier_signalled(context, tier, ProcessSignal::Terminate, now, 0);
            },
            super::context::LoggerShutdownState::Terminating { tier, .. } => {
                lemma_tier_signalled(context, tier, ProcessSignal::Kill, now, 0);
            },
            _ => {},
        }
    } else if context.logger_shutdown.restartable() {
        let timed = logger::loggers_timed(context, now, 0);
        lemma_loggers_timed(context, now, 0);
        if timed.error is None {
            lemma_down_loggers_started(timed.context, now);
            lemma_apart_chain(context, timed.context, after);
        }
    }
}

// ---------------------------------------------------------------------------
// Control
// ---------------------------------------------------------------------------

proof fn lemma_descriptor_shutdown(context: ExecutionModel, env: Surroundings)
    ensures
        keeps(context, control::descriptor_shutdown_begun(context, env)),
{
    reveal(control::descriptor_shutdown_begun);
    let after = control::descriptor_shutdown_begun(context, env);
    if context.lifecycle is None && context.machine.state.spec_live_generation() is Some {
        let generation = context.machine.state.spec_live_generation()->0;
        let stopping = context::transited(
            context::intending(context, DesiredState::Halt),
            Transition::BeginStop(generation),
        );
        lemma_unmoved(context, stopping.context);
        if stopping.error is None {
            let request = LifecycleHookRequest {
                after: Some(crate::control::decision::StopCompletion::Halt),
                reply: None,
                generation,
                kind: super::context::LifecycleHookKind::Stop,
                previous_desired: context.machine.desired,
                resume_ready: control::ready_generation(context.machine.state, generation),
            };
            lemma_hook_begun(stopping.context, env, request);
            if after.error is None {
                lemma_chain(context, stopping.context, after.context);
            }
        }
    } else {
        lemma_unmoved(context, after.context);
    }
}

proof fn lemma_supervisor_shutdown(context: ExecutionModel, env: Surroundings)
    ensures
        keeps(context, control::supervisor_shutdown_begun(context, env)),
{
    reveal(control::supervisor_shutdown_begun);
    let after = control::supervisor_shutdown_begun(context, env);
    if after.context.outbox.len() == context.outbox.len() {
        lemma_unmoved(context, after.context);
    } else {
        let generation = context.machine.state.spec_live_generation()->0;
        let stopping = context::transited(
            context::intending(context, DesiredState::Halt),
            Transition::BeginStop(generation),
        );
        lemma_unmoved(context, stopping.context);
        lemma_group_stop(stopping.context, generation, after.context);
        lemma_chain(context, stopping.context, after.context);
    }
}

proof fn lemma_standard_control(
    context: ExecutionModel,
    env: Surroundings,
    accepted: AcceptedModel,
)
    requires
        context.pending_detach is None || !(accepted.effect is ExitSupervisor),
    ensures
        ({
            let step = control::standard_control_applied(context, env, accepted);
            step.error is None ==> charged(context, step.context, accepted.command)
        }),
{
    broadcast use {answers_add_up, owed_signals_add_up};

    reveal(control::standard_control_applied);
    let step = control::standard_control_applied(context, env, accepted);
    let after = step.context;
    let answer = ActionModel::Respond { command: accepted.command, response: accepted.response };
    if step.error is None {
        let cancelled = timers::auxiliary_cancelled(context, env.now);
        lemma_auxiliary_cancelled(context, env.now);
        let dropped = control::pending_cancelled(cancelled);
        if dropped.error is None {
            lemma_unmoved(cancelled, dropped.context);
            lemma_chain(context, cancelled, dropped.context);
        }
        match accepted.effect {
            ControlEffect::Nothing => lemma_told(context, after, answer),
            ControlEffect::BeginStart => lemma_told(context, after, answer),
            ControlEffect::CancelPending { .. } => {
                lemma_told(dropped.context, after, answer);
                lemma_charge_chain(context, dropped.context, after, accepted.command);
            },
            ControlEffect::StopGroup { generation, after: completion } => {
                if context.machine.state is Stopping {
                    let noted = ExecutionModel { pending_stop: Some(completion), ..context };
                    lemma_unmoved(context, noted);
                    lemma_told(noted, after, answer);
                    lemma_charge_chain(context, noted, after, accepted.command);
                } else {
                    let stopping = context::transited(context, Transition::BeginStop(generation));
                    let begun = stopping::group_stop_begun(
                        stopping.context,
                        generation,
                        completion,
                        env.now,
                    );
                    lemma_unmoved(context, stopping.context);
                    lemma_group_stop(stopping.context, generation, begun);
                    lemma_chain(context, stopping.context, begun);
                    lemma_told(begun, after, answer);
                    lemma_charge_chain(context, begun, after, accepted.command);
                }
            },
            ControlEffect::ExitSupervisor { leave_child } => {
                if leave_child {
                    reveal(charged);
                } else if context.machine.state is WaitingCondition || context.machine.state
                    is Backoff {
                    lemma_told(dropped.context, after, answer);
                    lemma_charge_chain(context, dropped.context, after, accepted.command);
                } else {
                    lemma_told(cancelled, after, answer);
                    lemma_charge_chain(context, cancelled, after, accepted.command);
                }
            },
            ControlEffect::DeliverSignal { .. } => {
                reveal(charged);
            },
        }
    }
}

proof fn lemma_descriptor_control(
    context: ExecutionModel,
    env: Surroundings,
    accepted: AcceptedModel,
)
    requires
        control::descriptor_handles(env, accepted.effect),
    ensures
        ({
            let step = control::descriptor_control_applied(context, env, accepted);
            step.error is None ==> charged(context, step.context, accepted.command)
        }),
{
    broadcast use answers_add_up;

    reveal(control::descriptor_control_applied);
    let step = control::descriptor_control_applied(context, env, accepted);
    let after = step.context;
    match accepted.effect {
        ControlEffect::StopGroup { generation, after: completion } => {
            let stopping = context::transited(context, Transition::BeginStop(generation));
            lemma_unmoved(context, stopping.context);
            if stopping.error is None {
                let request = LifecycleHookRequest {
                    after: Some(completion),
                    reply: Some(accepted.reply()),
                    generation,
                    kind: super::context::LifecycleHookKind::Stop,
                    previous_desired: accepted.previous_desired,
                    resume_ready: control::ready_generation(context.machine.state, generation),
                };
                lemma_hook_begun(stopping.context, env, request);
                if step.error is None {
                    lemma_charge_chain(context, stopping.context, after, accepted.command);
                }
            }
        },
        ControlEffect::DeliverSignal { generation, signal, .. } => {
            if signal is Hangup {
                let request = LifecycleHookRequest {
                    after: None,
                    reply: Some(accepted.reply()),
                    generation,
                    kind: super::context::LifecycleHookKind::Reload,
                    previous_desired: accepted.previous_desired,
                    resume_ready: true,
                };
                lemma_hook_begun(context, env, request);
            } else {
                reveal(charged);
            }
        },
        ControlEffect::ExitSupervisor { .. } => {
            reveal(charged);
        },
        _ => {},
    }
}

proof fn lemma_control_applied(
    context: ExecutionModel,
    env: Surroundings,
    service_name: Seq<char>,
    command: CommandToken,
    request: RequestModel,
    supervisor: u32,
)
    ensures
        ({
            let step = control::control_applied(
                context,
                env,
                service_name,
                command,
                request,
                supervisor,
            );
            step.error is None ==> charged(context, step.context, command)
        }),
{
    reveal(control::control_applied);
    let step = control::control_applied(
        context,
        env,
        service_name,
        command,
        request,
        supervisor,
    );
    let after = step.context;
    let refusal = control::preflight_refusal(context, request.operation);
    if let Some(response) = refusal {
        lemma_told(context, after, ActionModel::Respond { command, response });
    } else {
        let accepted = control::accepted_control(
            context,
            env,
            service_name,
            command,
            request,
            supervisor,
        );
        let decided = control::decided_context(context, service_name, request);
        let revived = control::loggers_revived(
            decided,
            env,
            request.operation,
            accepted.response.code,
        );
        let reset = control::failed_loggers_reset(decided);
        lemma_down_loggers_started(reset, env.now);
        if revived.error is None {
            assert(apart(context, revived.context)) by {
                if revived.context == logger::down_loggers_started(reset, env.now).context {
                    lemma_apart_chain(context, reset, revived.context);
                }
            }
            lemma_apart(context, revived.context);
            if control::descriptor_handles(env, accepted.effect) {
                lemma_descriptor_control(revived.context, env, accepted);
            } else {
                assert(request.operation is Status ==> accepted.effect is Nothing);
                lemma_standard_control(revived.context, env, accepted);
            }
            if step.error is None {
                lemma_charge_chain(context, revived.context, after, command);
            }
        }
    }
}

// ---------------------------------------------------------------------------
// Broker events
// ---------------------------------------------------------------------------

proof fn lemma_started(
    context: ExecutionModel,
    env: Surroundings,
    generation: Generation,
    process: ProcessId,
    group: ProcessId,
)
    ensures
        keeps(
            context,
            events::service_start_observed(context, env, generation, process, group),
        ),
{
    broadcast use answers_add_up;

    reveal(events::service_start_observed);
    lemma_unmoved(
        context,
        events::service_start_observed(context, env, generation, process, group).context,
    );
}

proof fn lemma_readiness_failure(context: ExecutionModel, env: Surroundings, generation: Generation)
    ensures
        keeps(context, events::readiness_failure_handled(context, env, generation)),
{
    reveal(events::readiness_failure_handled);
    let after = events::readiness_failure_handled(context, env, generation);
    let stopping = context::transited(
        events::readiness_failure_noted(context),
        Transition::BeginStop(generation),
    );
    lemma_unmoved(context, stopping.context);
    if after.error is None {
        if env.config.process_mode == crate::config::ProcessMode::DescriptorTracking {
            let request = LifecycleHookRequest {
                after: None,
                reply: None,
                generation,
                kind: super::context::LifecycleHookKind::Stop,
                previous_desired: context.machine.desired,
                resume_ready: false,
            };
            lemma_hook_begun(stopping.context, env, request);
        } else {
            lemma_group_stop(stopping.context, generation, after.context);
        }
        lemma_chain(context, stopping.context, after.context);
    }
}

proof fn lemma_service_handled(
    context: ExecutionModel,
    env: Surroundings,
    event: ProcessBrokerEvent,
)
    ensures
        keeps(context, events::service_handled(context, env, event)),
{
    reveal(events::service_handled);
    let after = events::service_handled(context, env, event);
    match event {
        ProcessBrokerEvent::Started { generation, process, group } => lemma_started(
            context,
            env,
            generation,
            process,
            group,
        ),
        ProcessBrokerEvent::SpawnFailed { generation } => {
            let released = ExecutionModel { descriptor: None, ..context };
            lemma_generation_completed(
                released,
                env,
                generation,
                ChildResult::Exited(super::context::SPAWN_FAILURE_EXIT),
                true,
            );
            lemma_unmoved(context, after.context);
        },
        ProcessBrokerEvent::Child { generation, event: child } => {
            lemma_service_child(context, env, generation, child);
            lemma_unmoved(context, context);
        },
        ProcessBrokerEvent::SignalDelivered { generation } => lemma_signal_finished(
            context,
            generation,
            None,
        ),
        ProcessBrokerEvent::SignalFailed { generation, os_error } => lemma_signal_finished(
            context,
            generation,
            os_error,
        ),
        ProcessBrokerEvent::GenerationReady { generation } => {
            reveal(events::readiness_observed);
            lemma_unmoved(context, after.context);
        },
        ProcessBrokerEvent::ReadinessFailed { generation } => {
            lemma_readiness_failure(context, env, generation);
            if context.machine.state != SupervisorState::Running(generation) {
                lemma_unmoved(context, after.context);
            }
        },
        ProcessBrokerEvent::LifetimeClosed { generation } => lemma_lifetime(
            context,
            env,
            generation,
            LifetimeResult::Closed,
        ),
        ProcessBrokerEvent::LifetimeFailed { generation } => lemma_lifetime(
            context,
            env,
            generation,
            LifetimeResult::Failed,
        ),
        ProcessBrokerEvent::Detached { generation } => lemma_detach_finished(
            context,
            generation,
            true,
        ),
        ProcessBrokerEvent::DetachFailed { generation } => lemma_detach_finished(
            context,
            generation,
            false,
        ),
        _ => lemma_unmoved(context, after.context),
    }
}

proof fn lemma_broker_handled(
    context: ExecutionModel,
    env: Surroundings,
    event: ProcessBrokerEvent,
)
    ensures
        keeps(context, events::broker_handled(context, env, event)),
{
    reveal(events::broker_handled);
    let after = events::broker_handled(context, env, event);
    if event is LoggerInputsClosed && context.logger_shutdown is ClosingInputs {
        lemma_unmoved(context, after.context);
    } else {
        lemma_service_handled(context, env, event);
        lemma_lifecycle_handled(context, env, event);
        assert(keeps(context, events::logger_handled(context, env, event))) by {
            reveal(events::logger_handled);
            lemma_unmoved(context, events::logger_handled(context, env, event).context);
        }
        lemma_auxiliary_handled(context, env, event);
    }
}

// ---------------------------------------------------------------------------
// Laws
// ---------------------------------------------------------------------------

/// Every handled control command is answered exactly once: handling it adds one
/// answer, queued or still owed, to its own client and none to any other.
pub proof fn commands_are_answered_once(
    context: ExecutionModel,
    env: Surroundings,
    service_name: Seq<char>,
    supervisor: u32,
    command: CommandToken,
    request: RequestModel,
    other: CommandToken,
)
    requires
        runtime::event_handled(
            context,
            env,
            Some(service_name),
            supervisor,
            EventModel::Control { command, request },
        ).error is None,
    ensures
        ({
            let after = runtime::event_handled(
                context,
                env,
                Some(service_name),
                supervisor,
                EventModel::Control { command, request },
            ).context;
            ledger(after, other) == ledger(context, other) + if other == command {
                1nat
            } else {
                0
            }
        }),
{
    reveal(runtime::event_handled);
    reveal(charged);
    lemma_control_applied(context, env, service_name, command, request, supervisor);
}

/// No client is forgotten and none is answered twice: whatever other event is
/// handled, an answer which is owed stays owed until it is queued.
pub proof fn events_settle_every_answer(
    context: ExecutionModel,
    env: Surroundings,
    service_name: Option<Seq<char>>,
    supervisor: u32,
    event: EventModel,
    command: CommandToken,
)
    requires
        !(event is Control),
        runtime::event_handled(context, env, service_name, supervisor, event).error is None,
    ensures
        ledger(
            runtime::event_handled(context, env, service_name, supervisor, event).context,
            command,
        ) == ledger(context, command),
{
    reveal(runtime::event_handled);
    let step = runtime::event_handled(context, env, service_name, supervisor, event);
    let after = step.context;
    assert(kept(context, after)) by {
        match event {
            EventModel::Timer => {
                let loggers = logger::logger_timers_handled(context, env.now);
                lemma_logger_timers(context, env.now);
                lemma_apart(context, loggers.context);
                lemma_executor_timer(loggers.context, env);
                if after != loggers.context {
                    lemma_chain(context, loggers.context, after);
                }
            },
            EventModel::Shutdown => {
                let cancelled = timers::auxiliary_cancelled(context, env.now);
                lemma_auxiliary_cancelled(context, env.now);
                lemma_descriptor_shutdown(cancelled, env);
                lemma_supervisor_shutdown(cancelled, env);
                if env.config.process_mode == crate::config::ProcessMode::DescriptorTracking
                    && cancelled.machine.state.spec_live_generation() is Some
                    && cancelled.lifecycle is Some {
                    lemma_unmoved(cancelled, after);
                }
                lemma_chain(context, cancelled, after);
            },
            EventModel::Control { .. } => {},
            EventModel::ControlClosed => {},
            EventModel::Broker(event) => lemma_broker_handled(context, env, event),
        }
    }
    reveal(kept);
}

/// No client is forgotten and none is answered twice while supervision advances.
pub proof fn advancing_settles_every_answer(
    context: ExecutionModel,
    env: Surroundings,
    controlled: bool,
    command: CommandToken,
)
    requires
        runtime::service_advanced(context, env, controlled).0.error is None,
    ensures
        ledger(
            runtime::service_advanced(context, env, controlled).0.context,
            command,
        ) == ledger(context, command),
{
    reveal(runtime::service_advanced);
    let after = runtime::service_advanced(context, env, controlled).0.context;
    assert(kept(context, after)) by {
        if context.shutdown_requested && context.lifecycle is None {
            let begun = control::descriptor_shutdown_begun(context, env);
            lemma_descriptor_shutdown(context, env);
            lemma_unmoved(begun.context, after);
            lemma_chain(context, begun.context, after);
        } else if context.machine.state is Initializing && context::all_running(context.loggers) {
            lemma_unmoved(context, after);
        } else if logger::exhaustion_applies(context) {
            reveal(logger::exhaustion_handled);
            lemma_auxiliary_cancelled(context, env.now);
            if context.machine.state is Initializing || context.machine.state is Down
                || context.auxiliary.idle() {
                lemma_unmoved(context, after);
            }
        } else {
            let (step, moved) = if runtime::childless_step_allowed(context) {
                runtime::childless_step(context, env)
            } else {
                (context::done(context), false)
            };
            lemma_unmoved(context, step.context);
            if !moved {
                let done = runtime::finished(context.machine, controlled, context.first_start);
                let shut = logger::logger_shutdown_advanced(context, done, env.now);
                assert(kept(context, shut)) by {
                    broadcast use answers_add_up;

                    reveal(logger::logger_shutdown_advanced);
                    lemma_unmoved(context, shut);
                }
                lemma_signals_abandoned(shut);
                lemma_chain(context, shut, completion::signals_abandoned(shut));
            }
        }
    }
    reveal(kept);
}

} // verus!
