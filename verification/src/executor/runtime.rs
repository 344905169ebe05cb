//! Main broker-driven supervision steps.
//!
//! Supervision alternates between two steps. [`advance_service`] settles
//! everything which needs no event and says whether to go on, to wait, or to
//! finish. [`handle_executor_event`] applies one timer, broker event, operator
//! request, or shutdown. Both leave queued work in the context's outbox.

use vstd::prelude::*;
use vstd::string::*;

use crate::config::ProcessMode;
use crate::control::message::{Request, RequestModel};
use crate::process::ProcessBrokerEvent;
use crate::supervisor::machine::MachineModel;
use crate::supervisor::{DesiredState, StateMachine, SupervisorState, Transition};

use super::completion;
use super::completion::respond_abandoned_signals;
use super::context;
use super::context::{
    transition_error, CommandToken, ExecutionContext, ExecutionModel, Step, Surroundings,
};
use super::control;
use super::control::{
    apply_control_command, begin_descriptor_shutdown, begin_supervisor_shutdown,
};
use super::error::{ErrorModel, ExecutorError};
use super::events;
use super::events::handle_broker_event;
use super::logger;
use super::logger::{
    advance_logger_shutdown, fail_childless_start_on_logger_exhaustion, handle_due_logger_timers,
};
use super::outcome;
use super::outcome::SupervisionOutcome;
use super::timers;
use super::timers::{advance_childless_state, cancel_auxiliary, handle_executor_timer};

verus! {

/// Whether a supervisor has nothing left to do: it exited, or it runs without an
/// operator and either failed or came down after its first start.
pub open spec fn finished(machine: MachineModel, controlled: bool, first_start: bool) -> bool {
    ||| machine.state is Exited
    ||| !controlled && machine.state is Failed
    ||| !controlled && !first_start && machine.state is Down
}

/// Whether a supervisor has nothing left to do.
#[must_use]
pub fn supervision_finished(machine: &StateMachine, controlled: bool, first_start: bool) -> (done:
    bool)
    ensures
        done == finished(machine@, controlled, first_start),
{
    match machine.state() {
        SupervisorState::Exited => true,
        SupervisorState::Failed(_) => !controlled,
        SupervisorState::Down => !controlled && !first_start,
        _ => false,
    }
}

/// How supervision goes on.
#[derive(Clone, Copy, Debug, PartialEq, Eq, Structural)]
pub enum Progress {
    /// Something changed; advance again.
    Again,
    /// Nothing is left to do without an event.
    Wait,
    /// Supervision ended.
    Finished(SupervisionOutcome),
}

/// One event which the executor waits for.
#[derive(Debug)]
pub enum ExecutorEvent {
    /// The next deadline may have come.
    Timer,
    /// The supervisor was asked to end.
    Shutdown,
    /// A client sent a request.
    Control {
        /// Waiting client.
        command: CommandToken,
        /// Its request.
        request: Request,
    },
    /// The control server ended.
    ControlClosed,
    /// The broker reported something.
    Broker(ProcessBrokerEvent),
}

/// Pure view of an event.
pub enum EventModel {
    Timer,
    Shutdown,
    Control { command: CommandToken, request: RequestModel },
    ControlClosed,
    Broker(ProcessBrokerEvent),
}

impl View for ExecutorEvent {
    type V = EventModel;

    open spec fn view(&self) -> EventModel {
        match *self {
            ExecutorEvent::Timer => EventModel::Timer,
            ExecutorEvent::Shutdown => EventModel::Shutdown,
            ExecutorEvent::Control { command, request } => EventModel::Control {
                command,
                request: request@,
            },
            ExecutorEvent::ControlClosed => EventModel::ControlClosed,
            ExecutorEvent::Broker(event) => EventModel::Broker(event),
        }
    }
}

/// Whether a childless machine may be started or left now. Nothing starts before
/// every logger runs, but an operator can always end the supervisor.
pub open spec fn childless_step_allowed(context: ExecutionModel) -> bool {
    &&& context.auxiliary.idle()
    &&& context.lifecycle is None
    &&& context::all_running(context.loggers) || context.machine.desired is Halt
        || context.machine.desired is Exit
}

/// Start or leave a childless machine inside its context.
pub open spec fn childless_step(context: ExecutionModel, env: Surroundings) -> (Step, bool) {
    let step = timers::childless_advanced(
        context.machine,
        context.first_start,
        env.config.start_delay_seconds,
        context.deadline,
        env.now,
    );
    let moved = ExecutionModel {
        machine: step.machine,
        first_start: step.first_start,
        deadline: step.deadline,
        ..context
    };
    match step.advanced {
        Ok(advanced) => (context::done(moved), advanced),
        Err(error) => (context::failed(moved, error), false),
    }
}

/// Shut loggers down once supervision is finished, and report the outcome once
/// they ended.
pub open spec fn finishing_step(
    context: ExecutionModel,
    env: Surroundings,
    controlled: bool,
) -> (Step, Progress) {
    let done = finished(context.machine, controlled, context.first_start);
    let shut = logger::logger_shutdown_advanced(context, done, env.now);
    if done && shut.logger_shutdown is Complete {
        let answered = completion::signals_abandoned(shut);
        (context::done(answered), Progress::Finished(outcome::observed_outcome(answered)))
    } else {
        (context::done(shut), Progress::Wait)
    }
}

/// Settle what needs no event, in order of urgency: a postponed shutdown, the end
/// of initialization, logger exhaustion, a childless machine, and at last logger
/// shutdown.
#[verifier::opaque]
pub open spec fn service_advanced(
    context: ExecutionModel,
    env: Surroundings,
    controlled: bool,
) -> (Step, Progress) {
    if context.shutdown_requested && context.lifecycle is None {
        let begun = control::descriptor_shutdown_begun(context, env);
        if begun.error is Some {
            (begun, Progress::Again)
        } else {
            (
                context::done(ExecutionModel { shutdown_requested: false, ..begun.context }),
                Progress::Again,
            )
        }
    } else if context.machine.state is Initializing && context::all_running(context.loggers) {
        (context::transited(context, Transition::Initialized), Progress::Again)
    } else if logger::exhaustion_applies(context) {
        (logger::exhaustion_handled(context, env.now), Progress::Again)
    } else {
        let (step, moved) = if childless_step_allowed(context) {
            childless_step(context, env)
        } else {
            (context::done(context), false)
        };
        if step.error is Some || moved {
            (step, Progress::Again)
        } else {
            finishing_step(context, env, controlled)
        }
    }
}

/// What advancing reported, over the context it left.
pub open spec fn progressed(
    expected: (Step, Progress),
    after: ExecutionModel,
    result: Result<Progress, ExecutorError>,
) -> bool {
    &&& expected.0.context == after
    &&& match result {
        Ok(progress) => expected.0.error is None && progress == expected.1,
        Err(error) => expected.0.error == Some(error@),
    }
}

/// Settle what needs no event.
///
/// # Errors
///
/// Fails when a decided transition or hook is refused.
pub fn advance_service(
    execution: &mut ExecutionContext,
    env: &Surroundings<'_>,
    controlled: bool,
) -> (result: Result<Progress, ExecutorError>)
    ensures
        progressed(
            service_advanced(old(execution)@, *env, controlled),
            final(execution)@,
            result,
        ),
{
    reveal(service_advanced);
    if execution.shutdown_requested && execution.lifecycle.is_none() {
        match begin_descriptor_shutdown(execution, env) {
            Ok(()) => {},
            Err(error) => return Err(error),
        }
        execution.shutdown_requested = false;
        return Ok(Progress::Again);
    }
    let ready = execution.loggers_ready();
    if matches!(execution.machine.state(), SupervisorState::Initializing) && ready {
        return match execution.machine.initialized() {
            Ok(()) => Ok(Progress::Again),
            Err(error) => Err(transition_error(error)),
        };
    }
    proof {
        reveal(logger::exhaustion_handled);
    }
    match fail_childless_start_on_logger_exhaustion(execution, env.now) {
        Ok(failed) => {
            if failed {
                return Ok(Progress::Again);
            }
        },
        Err(error) => return Err(error),
    }
    assert(execution@ == old(execution)@);
    if execution.auxiliary.is_idle() && execution.lifecycle.is_none() && (ready || matches!(
        execution.machine.desired(),
        DesiredState::Halt | DesiredState::Exit
    )) {
        match advance_childless_state(
            &mut execution.machine,
            &mut execution.first_start,
            env.config.start_delay_seconds,
            &mut execution.deadline,
            env.now,
        ) {
            Ok(advanced) => {
                if advanced {
                    return Ok(Progress::Again);
                }
            },
            Err(error) => return Err(error),
        }
    }
    assert(execution@ == old(execution)@);
    let done = supervision_finished(&execution.machine, controlled, execution.first_start);
    if advance_logger_shutdown(execution, done, env.now) {
        respond_abandoned_signals(execution);
        return Ok(Progress::Finished(super::outcome::outcome(execution)));
    }
    Ok(Progress::Wait)
}

/// Reaction to a passed timer: loggers first, then the service.
pub open spec fn timer_handled(context: ExecutionModel, env: Surroundings) -> Step {
    let loggers = logger::logger_timers_handled(context, env.now);
    if loggers.error is Some {
        loggers
    } else if loggers.context.deadline matches Some(deadline) && deadline.due(env.now) {
        timers::executor_timer_handled(loggers.context, env)
    } else {
        loggers
    }
}

/// Reaction to a termination request. A descriptor-tracked service is stopped by
/// its hook, after any hook which already runs.
pub open spec fn shutdown_handled(context: ExecutionModel, env: Surroundings) -> Step {
    let cancelled = timers::auxiliary_cancelled(context, env.now);
    if env.config.process_mode == ProcessMode::DescriptorTracking
        && cancelled.machine.state.spec_live_generation() is Some {
        if cancelled.lifecycle is Some {
            context::done(ExecutionModel { shutdown_requested: true, ..cancelled })
        } else {
            control::descriptor_shutdown_begun(cancelled, env)
        }
    } else {
        control::supervisor_shutdown_begun(cancelled, env)
    }
}

/// View of an optional service name.
pub open spec fn optional_name(name: Option<&str>) -> Option<Seq<char>> {
    match name {
        Some(name) => Some(name@),
        None => None,
    }
}

/// Reaction to one event.
#[verifier::opaque]
pub open spec fn event_handled(
    context: ExecutionModel,
    env: Surroundings,
    service_name: Option<Seq<char>>,
    supervisor: u32,
    event: EventModel,
) -> Step {
    match event {
        EventModel::Timer => timer_handled(context, env),
        EventModel::Shutdown => shutdown_handled(context, env),
        EventModel::Control { command, request } => match service_name {
            None => context::failed(context, ErrorModel::ControlServerStopped),
            Some(name) => control::control_applied(
                context,
                env,
                name,
                command,
                request,
                supervisor,
            ),
        },
        EventModel::ControlClosed => context::failed(context, ErrorModel::ControlServerStopped),
        EventModel::Broker(event) => events::broker_handled(context, env, event),
    }
}

fn handle_timer(execution: &mut ExecutionContext, env: &Surroundings<'_>) -> (result: Result<
    (),
    ExecutorError,
>)
    ensures
        context::stepped(timer_handled(old(execution)@, *env), final(execution)@, result),
{
    match handle_due_logger_timers(execution, env.now) {
        Ok(()) => {},
        Err(error) => return Err(error),
    }
    if let Some(deadline) = execution.deadline {
        if deadline.is_due(env.now) {
            return handle_executor_timer(execution, env);
        }
    }
    Ok(())
}

fn handle_shutdown(execution: &mut ExecutionContext, env: &Surroundings<'_>) -> (result: Result<
    (),
    ExecutorError,
>)
    ensures
        context::stepped(shutdown_handled(old(execution)@, *env), final(execution)@, result),
{
    cancel_auxiliary(execution, env.now);
    if env.config.process_mode == ProcessMode::DescriptorTracking
        && execution.machine.state().live_generation().is_some() {
        if execution.lifecycle.is_some() {
            execution.shutdown_requested = true;
            return Ok(());
        }
        return begin_descriptor_shutdown(execution, env);
    }
    begin_supervisor_shutdown(execution, env)
}

/// React to one event. `service_name` names the controlled service, and
/// `supervisor` is the process which reports its status.
///
/// # Errors
///
/// Fails when the event cannot happen now, when a broker deadline was overrun,
/// or when the control server ended.
pub fn handle_executor_event(
    execution: &mut ExecutionContext,
    env: &Surroundings<'_>,
    service_name: Option<&str>,
    supervisor: u32,
    event: ExecutorEvent,
) -> (result: Result<(), ExecutorError>)
    ensures
        context::stepped(
            event_handled(
                old(execution)@,
                *env,
                optional_name(service_name),
                supervisor,
                event@,
            ),
            final(execution)@,
            result,
        ),
{
    reveal(event_handled);
    match event {
        ExecutorEvent::Timer => handle_timer(execution, env),
        ExecutorEvent::Shutdown => handle_shutdown(execution, env),
        ExecutorEvent::Control { command, request } => match service_name {
            Some(name) => apply_control_command(
                execution,
                env,
                name,
                command,
                &request,
                supervisor,
            ),
            None => Err(ExecutorError::ControlServerStopped),
        },
        ExecutorEvent::ControlClosed => Err(ExecutorError::ControlServerStopped),
        ExecutorEvent::Broker(event) => handle_broker_event(execution, env, event),
    }
}

/// First observation of a broker which was just started.
#[derive(Clone, Copy, Debug, PartialEq, Eq, Structural)]
pub enum StartupObservation {
    /// The broker reported an event in time.
    Event(ProcessBrokerEvent),
    /// The broker reported nothing in time.
    TimedOut,
}

/// Whether the broker is ready, by its first event.
///
/// # Errors
///
/// Fails for any other event and when none came in time.
pub fn accept_ready(observation: StartupObservation) -> (result: Result<(), ExecutorError>)
    ensures
        match result {
            Ok(()) => observation == StartupObservation::Event(ProcessBrokerEvent::Ready),
            Err(error) => match observation {
                StartupObservation::Event(event) => event != ProcessBrokerEvent::Ready && error@
                    == ErrorModel::UnexpectedBrokerEvent(event),
                StartupObservation::TimedOut => error@ == ErrorModel::BrokerTimedOut("startup"@),
            },
        },
{
    match observation {
        StartupObservation::Event(event) => {
            if event == ProcessBrokerEvent::Ready {
                Ok(())
            } else {
                Err(ExecutorError::UnexpectedBrokerEvent(event))
            }
        },
        StartupObservation::TimedOut => Err(ExecutorError::BrokerTimedOut("startup")),
    }
}

} // verus!
