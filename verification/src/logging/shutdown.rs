//! Ordered service and logger shutdown state machine.
//!
//! Shutdown owns the externally visible phase and accepts only the safe
//! service-before-drain-before-loggers transition sequence. Invalid events are
//! reported as typed logging errors rather than weakening pipe-drain ordering.

use vstd::prelude::*;

use super::LoggingError;

verus! {

/// Ordered shutdown phase for service and logging processes.
#[derive(Clone, Copy, Debug, PartialEq, Eq, Structural)]
pub enum LoggingShutdownPhase {
    /// Normal operation.
    Running,
    /// Service group must stop before pipe writers are closed.
    StoppingService,
    /// Service is reaped; logger chain drains remaining pipe bytes.
    Draining,
    /// Drain completed or timed out; logger stages may stop downstream-first.
    StoppingLoggers,
    /// Every logging child has been reaped.
    Complete,
}

impl Default for LoggingShutdownPhase {
    fn default() -> (phase: Self)
        ensures
            phase == LoggingShutdownPhase::Running,
    {
        LoggingShutdownPhase::Running
    }
}

/// Work selected by one shutdown transition.
#[derive(Clone, Copy, Debug, PartialEq, Eq, Structural)]
pub enum LoggingShutdownEffect {
    /// Stop the service process group.
    StopService,
    /// Close service-side pipe writers and wait for logger drain.
    BeginDrain,
    /// Stop logger processes from final consumer back toward the service.
    StopLoggersDownstreamFirst,
    /// Shutdown is complete.
    Complete,
}

/// Enforces service-before-drain-before-logger shutdown ordering.
#[derive(Clone, Copy, Debug, PartialEq, Eq, Structural)]
pub struct LoggingShutdown {
    phase: LoggingShutdownPhase,
}

impl View for LoggingShutdown {
    type V = LoggingShutdownPhase;

    closed spec fn view(&self) -> LoggingShutdownPhase {
        self.phase
    }
}

impl Default for LoggingShutdown {
    fn default() -> (shutdown: Self)
        ensures
            shutdown@ == LoggingShutdownPhase::Running,
    {
        LoggingShutdown { phase: LoggingShutdownPhase::Running }
    }
}

/// One observation which moves shutdown forward.
pub enum ShutdownEvent {
    Begin { service_is_live: bool },
    ServiceStopped,
    DrainFinished,
    LoggersStopped,
}

/// Phase and work which follow an event, or nothing when it is out of order.
pub open spec fn shutdown_step(phase: LoggingShutdownPhase, event: ShutdownEvent) -> Option<
    (LoggingShutdownPhase, LoggingShutdownEffect),
> {
    match (phase, event) {
        (LoggingShutdownPhase::Running, ShutdownEvent::Begin { service_is_live }) => Some(
            if service_is_live {
                (LoggingShutdownPhase::StoppingService, LoggingShutdownEffect::StopService)
            } else {
                (LoggingShutdownPhase::Draining, LoggingShutdownEffect::BeginDrain)
            },
        ),
        (LoggingShutdownPhase::StoppingService, ShutdownEvent::ServiceStopped) => Some(
            (LoggingShutdownPhase::Draining, LoggingShutdownEffect::BeginDrain),
        ),
        (LoggingShutdownPhase::Draining, ShutdownEvent::DrainFinished) => Some(
            (
                LoggingShutdownPhase::StoppingLoggers,
                LoggingShutdownEffect::StopLoggersDownstreamFirst,
            ),
        ),
        (LoggingShutdownPhase::StoppingLoggers, ShutdownEvent::LoggersStopped) => Some(
            (LoggingShutdownPhase::Complete, LoggingShutdownEffect::Complete),
        ),
        _ => None,
    }
}

/// What an event did: it moved shutdown forward, or it was refused and changed
/// nothing.
pub open spec fn shutdown_stepped(
    before: LoggingShutdownPhase,
    event: ShutdownEvent,
    after: LoggingShutdownPhase,
    result: Result<LoggingShutdownEffect, LoggingError>,
) -> bool {
    match shutdown_step(before, event) {
        Some((phase, effect)) => after == phase && result == Ok::<
            LoggingShutdownEffect,
            LoggingError,
        >(effect),
        None => after == before && result == Err::<LoggingShutdownEffect, LoggingError>(
            LoggingError::InvalidShutdownTransition,
        ),
    }
}

impl LoggingShutdown {
    /// Current externally reportable phase.
    #[must_use]
    pub fn phase(self) -> (phase: LoggingShutdownPhase)
        ensures
            phase == self@,
    {
        self.phase
    }

    /// Start shutdown, accounting for a service which may already be absent.
    ///
    /// # Errors
    ///
    /// Returns an error unless shutdown is starting from normal operation.
    pub fn begin(&mut self, service_is_live: bool) -> (result: Result<
        LoggingShutdownEffect,
        LoggingError,
    >)
        ensures
            shutdown_stepped(
                old(self)@,
                (ShutdownEvent::Begin { service_is_live }),
                final(self)@,
                result,
            ),
    {
        if self.phase != LoggingShutdownPhase::Running {
            return Err(LoggingError::InvalidShutdownTransition);
        }
        if service_is_live {
            self.phase = LoggingShutdownPhase::StoppingService;
            Ok(LoggingShutdownEffect::StopService)
        } else {
            self.phase = LoggingShutdownPhase::Draining;
            Ok(LoggingShutdownEffect::BeginDrain)
        }
    }

    /// Record complete service-group reaping and begin drain.
    ///
    /// # Errors
    ///
    /// Returns an error unless the service was being stopped.
    pub fn service_stopped(&mut self) -> (result: Result<LoggingShutdownEffect, LoggingError>)
        ensures
            shutdown_stepped(old(self)@, ShutdownEvent::ServiceStopped, final(self)@, result),
    {
        if self.phase != LoggingShutdownPhase::StoppingService {
            return Err(LoggingError::InvalidShutdownTransition);
        }
        self.phase = LoggingShutdownPhase::Draining;
        Ok(LoggingShutdownEffect::BeginDrain)
    }

    /// Record successful drain or a bounded drain timeout.
    ///
    /// # Errors
    ///
    /// Returns an error unless bytes are currently draining.
    pub fn drain_finished(&mut self) -> (result: Result<LoggingShutdownEffect, LoggingError>)
        ensures
            shutdown_stepped(old(self)@, ShutdownEvent::DrainFinished, final(self)@, result),
    {
        if self.phase != LoggingShutdownPhase::Draining {
            return Err(LoggingError::InvalidShutdownTransition);
        }
        self.phase = LoggingShutdownPhase::StoppingLoggers;
        Ok(LoggingShutdownEffect::StopLoggersDownstreamFirst)
    }

    /// Record complete logger reaping.
    ///
    /// # Errors
    ///
    /// Returns an error unless logger shutdown is in progress.
    pub fn loggers_stopped(&mut self) -> (result: Result<LoggingShutdownEffect, LoggingError>)
        ensures
            shutdown_stepped(old(self)@, ShutdownEvent::LoggersStopped, final(self)@, result),
    {
        if self.phase != LoggingShutdownPhase::StoppingLoggers {
            return Err(LoggingError::InvalidShutdownTransition);
        }
        self.phase = LoggingShutdownPhase::Complete;
        Ok(LoggingShutdownEffect::Complete)
    }
}

/// Position of a phase in the shutdown order.
pub open spec fn phase_rank(phase: LoggingShutdownPhase) -> nat {
    match phase {
        LoggingShutdownPhase::Running => 0,
        LoggingShutdownPhase::StoppingService => 1,
        LoggingShutdownPhase::Draining => 2,
        LoggingShutdownPhase::StoppingLoggers => 3,
        LoggingShutdownPhase::Complete => 4,
    }
}

/// Shutdown only ever moves forward, and no accepted event skips the drain.
pub proof fn shutdown_moves_forward(phase: LoggingShutdownPhase, event: ShutdownEvent)
    ensures
        shutdown_step(phase, event) matches Some((next, _)) ==> phase_rank(phase) < phase_rank(
            next,
        ),
        shutdown_step(phase, event) matches Some((next, _)) && next
            is StoppingLoggers ==> phase is Draining,
{
}

/// Loggers are stopped only after the service and after the drain.
pub proof fn loggers_stop_after_the_drain(phase: LoggingShutdownPhase, event: ShutdownEvent)
    requires
        shutdown_step(phase, event) matches Some((_, effect)) && effect
            is StopLoggersDownstreamFirst,
    ensures
        phase is Draining,
        event is DrainFinished,
{
}

/// Each phase waits for one thing: a live service is stopped before anything drains, an
/// absent one lets the drain begin at once, and a finished shutdown accepts nothing.
pub proof fn shutdown_waits_for_the_service(
    phase: LoggingShutdownPhase,
    event: ShutdownEvent,
    next: LoggingShutdownPhase,
    effect: LoggingShutdownEffect,
)
    requires
        shutdown_step(phase, event) == Some((next, effect)),
    ensures
        event == (ShutdownEvent::Begin { service_is_live: true }) <==> effect
            == LoggingShutdownEffect::StopService,
        effect == LoggingShutdownEffect::BeginDrain <==> event == ShutdownEvent::ServiceStopped
            || event == (ShutdownEvent::Begin { service_is_live: false }),
        effect == LoggingShutdownEffect::BeginDrain <==> next == LoggingShutdownPhase::Draining,
        effect == LoggingShutdownEffect::StopService <==> next
            == LoggingShutdownPhase::StoppingService,
        effect == LoggingShutdownEffect::Complete <==> next == LoggingShutdownPhase::Complete,
        effect == LoggingShutdownEffect::Complete <==> event == ShutdownEvent::LoggersStopped,
        effect == LoggingShutdownEffect::StopLoggersDownstreamFirst <==> event
            == ShutdownEvent::DrainFinished,
        phase == LoggingShutdownPhase::Running <==> event is Begin,
        phase != LoggingShutdownPhase::Complete,
{
}

/// Shutdown never gets stuck: every phase but the last accepts some event, and four
/// accepted events at most complete it.
pub proof fn shutdown_never_gets_stuck(phase: LoggingShutdownPhase, service_is_live: bool)
    ensures
        shutdown_step(LoggingShutdownPhase::Running, ShutdownEvent::Begin { service_is_live })
            is Some,
        phase == LoggingShutdownPhase::StoppingService ==> shutdown_step(
            phase,
            ShutdownEvent::ServiceStopped,
        ) is Some,
        phase == LoggingShutdownPhase::Draining ==> shutdown_step(
            phase,
            ShutdownEvent::DrainFinished,
        ) is Some,
        phase == LoggingShutdownPhase::StoppingLoggers ==> shutdown_step(
            phase,
            ShutdownEvent::LoggersStopped,
        ) is Some,
{
}

} // verus!
