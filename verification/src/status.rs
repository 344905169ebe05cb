//! Typed observation of one supervisor, and its stable numeric codes.

use vstd::prelude::*;

use crate::supervisor::machine::MachineModel;
use crate::supervisor::{DesiredState, StateMachine, SupervisorState};
use crate::text;

verus! {

/// Most command arguments carried by one status observation.
pub const MAX_STATUS_ARGUMENTS: usize = 1024;

/// Observed lifecycle phase without generation detail.
#[derive(Clone, Copy, Debug, PartialEq, Eq, Structural)]
pub enum ServiceState {
    /// Loggers are not ready yet.
    Initializing,
    /// No generation exists.
    Down,
    /// A start is waiting for its delay or condition.
    WaitingCondition,
    /// A generation was requested.
    Starting,
    /// The child executes but is not ready.
    Running,
    /// The child is ready.
    Ready,
    /// The child was stopped by job control.
    Paused,
    /// The owned group was asked to stop.
    Stopping,
    /// The next start is delayed.
    Backoff,
    /// The post-exit hook is running.
    Completed,
    /// A configured limit ended supervision.
    Failed,
    /// The supervisor is finished.
    Exited,
}

impl ServiceState {
    /// Stable number of each phase.
    pub open spec fn number(self) -> u8 {
        match self {
            ServiceState::Initializing => 1,
            ServiceState::Down => 2,
            ServiceState::WaitingCondition => 3,
            ServiceState::Starting => 4,
            ServiceState::Running => 5,
            ServiceState::Ready => 6,
            ServiceState::Paused => 7,
            ServiceState::Stopping => 8,
            ServiceState::Backoff => 9,
            ServiceState::Completed => 10,
            ServiceState::Failed => 11,
            ServiceState::Exited => 12,
        }
    }

    /// The phase with a stable number.
    pub open spec fn numbered(code: u8) -> Option<ServiceState> {
        if code == 1 {
            Some(ServiceState::Initializing)
        } else if code == 2 {
            Some(ServiceState::Down)
        } else if code == 3 {
            Some(ServiceState::WaitingCondition)
        } else if code == 4 {
            Some(ServiceState::Starting)
        } else if code == 5 {
            Some(ServiceState::Running)
        } else if code == 6 {
            Some(ServiceState::Ready)
        } else if code == 7 {
            Some(ServiceState::Paused)
        } else if code == 8 {
            Some(ServiceState::Stopping)
        } else if code == 9 {
            Some(ServiceState::Backoff)
        } else if code == 10 {
            Some(ServiceState::Completed)
        } else if code == 11 {
            Some(ServiceState::Failed)
        } else if code == 12 {
            Some(ServiceState::Exited)
        } else {
            None
        }
    }

    /// The phase of an observed state.
    pub open spec fn observed(state: SupervisorState) -> ServiceState {
        match state {
            SupervisorState::Initializing => ServiceState::Initializing,
            SupervisorState::Down => ServiceState::Down,
            SupervisorState::WaitingCondition => ServiceState::WaitingCondition,
            SupervisorState::Starting(_) => ServiceState::Starting,
            SupervisorState::Running(_) => ServiceState::Running,
            SupervisorState::Ready(_) => ServiceState::Ready,
            SupervisorState::Paused { .. } => ServiceState::Paused,
            SupervisorState::Stopping(_) => ServiceState::Stopping,
            SupervisorState::Backoff { .. } => ServiceState::Backoff,
            SupervisorState::Completed(_) => ServiceState::Completed,
            SupervisorState::Failed(_) => ServiceState::Failed,
            SupervisorState::Exited => ServiceState::Exited,
        }
    }

    /// Stable numeric code.
    #[must_use]
    pub fn code(self) -> (code: u8)
        ensures
            code == self.number(),
    {
        match self {
            ServiceState::Initializing => 1,
            ServiceState::Down => 2,
            ServiceState::WaitingCondition => 3,
            ServiceState::Starting => 4,
            ServiceState::Running => 5,
            ServiceState::Ready => 6,
            ServiceState::Paused => 7,
            ServiceState::Stopping => 8,
            ServiceState::Backoff => 9,
            ServiceState::Completed => 10,
            ServiceState::Failed => 11,
            ServiceState::Exited => 12,
        }
    }

    /// The phase with a numeric code, or nothing for an unknown code.
    #[must_use]
    pub fn from_code(code: u8) -> (state: Option<Self>)
        ensures
            state == ServiceState::numbered(code),
    {
        match code {
            1 => Some(ServiceState::Initializing),
            2 => Some(ServiceState::Down),
            3 => Some(ServiceState::WaitingCondition),
            4 => Some(ServiceState::Starting),
            5 => Some(ServiceState::Running),
            6 => Some(ServiceState::Ready),
            7 => Some(ServiceState::Paused),
            8 => Some(ServiceState::Stopping),
            9 => Some(ServiceState::Backoff),
            10 => Some(ServiceState::Completed),
            11 => Some(ServiceState::Failed),
            12 => Some(ServiceState::Exited),
            _ => None,
        }
    }
}

/// Readiness of the current generation.
#[derive(Clone, Copy, Debug, PartialEq, Eq, Structural)]
pub enum ReadinessStatus {
    /// No live generation exists.
    Inactive,
    /// The live generation is not ready.
    Pending,
    /// The live generation is ready.
    Ready,
    /// The generation missed its readiness deadline.
    TimedOut,
}

impl ReadinessStatus {
    /// Stable number of each readiness.
    pub open spec fn number(self) -> u8 {
        match self {
            ReadinessStatus::Inactive => 0,
            ReadinessStatus::Pending => 1,
            ReadinessStatus::Ready => 2,
            ReadinessStatus::TimedOut => 3,
        }
    }

    /// The readiness with a stable number.
    pub open spec fn numbered(code: u8) -> Option<ReadinessStatus> {
        if code == 0 {
            Some(ReadinessStatus::Inactive)
        } else if code == 1 {
            Some(ReadinessStatus::Pending)
        } else if code == 2 {
            Some(ReadinessStatus::Ready)
        } else if code == 3 {
            Some(ReadinessStatus::TimedOut)
        } else {
            None
        }
    }

    /// Readiness which an observed state shows.
    pub open spec fn observed(state: SupervisorState) -> ReadinessStatus {
        match state {
            SupervisorState::Ready(_) => ReadinessStatus::Ready,
            SupervisorState::Paused { ready, .. } => if ready {
                ReadinessStatus::Ready
            } else {
                ReadinessStatus::Pending
            },
            SupervisorState::Starting(_) => ReadinessStatus::Pending,
            SupervisorState::Running(_) => ReadinessStatus::Pending,
            _ => ReadinessStatus::Inactive,
        }
    }

    /// Stable numeric code.
    #[must_use]
    pub fn code(self) -> (code: u8)
        ensures
            code == self.number(),
    {
        match self {
            ReadinessStatus::Inactive => 0,
            ReadinessStatus::Pending => 1,
            ReadinessStatus::Ready => 2,
            ReadinessStatus::TimedOut => 3,
        }
    }

    /// The readiness with a numeric code, or nothing for an unknown code.
    #[must_use]
    pub fn from_code(code: u8) -> (readiness: Option<Self>)
        ensures
            readiness == ReadinessStatus::numbered(code),
    {
        match code {
            0 => Some(ReadinessStatus::Inactive),
            1 => Some(ReadinessStatus::Pending),
            2 => Some(ReadinessStatus::Ready),
            3 => Some(ReadinessStatus::TimedOut),
            _ => None,
        }
    }
}

/// Combined health of the configured loggers.
#[derive(Clone, Copy, Debug, PartialEq, Eq, Structural)]
pub enum LoggerStatus {
    /// The service has no logger.
    NotConfigured,
    /// At least one logger is not running yet.
    Starting,
    /// Every logger is running.
    Ready,
    /// At least one logger waits to be restarted.
    Backoff,
    /// At least one logger used up its restarts.
    Failed,
}

impl LoggerStatus {
    /// Stable number of each logger health.
    pub open spec fn number(self) -> u8 {
        match self {
            LoggerStatus::NotConfigured => 0,
            LoggerStatus::Starting => 1,
            LoggerStatus::Ready => 2,
            LoggerStatus::Backoff => 3,
            LoggerStatus::Failed => 4,
        }
    }

    /// The logger health with a stable number.
    pub open spec fn numbered(code: u8) -> Option<LoggerStatus> {
        if code == 0 {
            Some(LoggerStatus::NotConfigured)
        } else if code == 1 {
            Some(LoggerStatus::Starting)
        } else if code == 2 {
            Some(LoggerStatus::Ready)
        } else if code == 3 {
            Some(LoggerStatus::Backoff)
        } else if code == 4 {
            Some(LoggerStatus::Failed)
        } else {
            None
        }
    }

    /// Stable numeric code.
    #[must_use]
    pub fn code(self) -> (code: u8)
        ensures
            code == self.number(),
    {
        match self {
            LoggerStatus::NotConfigured => 0,
            LoggerStatus::Starting => 1,
            LoggerStatus::Ready => 2,
            LoggerStatus::Backoff => 3,
            LoggerStatus::Failed => 4,
        }
    }

    /// The logger health with a numeric code, or nothing for an unknown code.
    #[must_use]
    pub fn from_code(code: u8) -> (logger: Option<Self>)
        ensures
            logger == LoggerStatus::numbered(code),
    {
        match code {
            0 => Some(LoggerStatus::NotConfigured),
            1 => Some(LoggerStatus::Starting),
            2 => Some(LoggerStatus::Ready),
            3 => Some(LoggerStatus::Backoff),
            4 => Some(LoggerStatus::Failed),
            _ => None,
        }
    }
}

/// Result of the last finished generation.
#[derive(Clone, Copy, Debug, PartialEq, Eq, Structural)]
pub enum LastResult {
    /// The child exited with a status code.
    Exited(u8),
    /// The child was ended by a signal.
    Signaled(u8),
    /// The lifetime descriptor closed.
    LifetimeClosed,
    /// The lifetime descriptor could not be observed.
    LifetimeFailed,
    /// The generation missed its readiness deadline.
    ReadinessTimeout,
    /// The executable could not be started.
    SpawnFailed,
}

impl LastResult {
    /// Stable kind and value of each result.
    pub open spec fn numbers(self) -> (u8, u8) {
        match self {
            LastResult::Exited(code) => (1, code),
            LastResult::Signaled(signal) => (2, signal),
            LastResult::LifetimeClosed => (3, 0),
            LastResult::LifetimeFailed => (4, 0),
            LastResult::ReadinessTimeout => (5, 0),
            LastResult::SpawnFailed => (6, 0),
        }
    }

    /// The result with a stable kind and value.
    pub open spec fn numbered(kind: u8, value: u8) -> Option<LastResult> {
        if kind == 1 {
            Some(LastResult::Exited(value))
        } else if kind == 2 {
            Some(LastResult::Signaled(value))
        } else if value != 0 {
            None
        } else if kind == 3 {
            Some(LastResult::LifetimeClosed)
        } else if kind == 4 {
            Some(LastResult::LifetimeFailed)
        } else if kind == 5 {
            Some(LastResult::ReadinessTimeout)
        } else if kind == 6 {
            Some(LastResult::SpawnFailed)
        } else {
            None
        }
    }

    /// Stable kind and value.
    #[must_use]
    pub fn code(self) -> (code: (u8, u8))
        ensures
            code == self.numbers(),
    {
        match self {
            LastResult::Exited(code) => (1, code),
            LastResult::Signaled(signal) => (2, signal),
            LastResult::LifetimeClosed => (3, 0),
            LastResult::LifetimeFailed => (4, 0),
            LastResult::ReadinessTimeout => (5, 0),
            LastResult::SpawnFailed => (6, 0),
        }
    }

    /// The result with a kind and value, or nothing for an unknown pair.
    #[must_use]
    pub fn from_code(kind: u8, value: u8) -> (result: Option<Self>)
        ensures
            result == LastResult::numbered(kind, value),
    {
        if kind == 1 {
            Some(LastResult::Exited(value))
        } else if kind == 2 {
            Some(LastResult::Signaled(value))
        } else if value != 0 {
            None
        } else if kind == 3 {
            Some(LastResult::LifetimeClosed)
        } else if kind == 4 {
            Some(LastResult::LifetimeFailed)
        } else if kind == 5 {
            Some(LastResult::ReadinessTimeout)
        } else if kind == 6 {
            Some(LastResult::SpawnFailed)
        } else {
            None
        }
    }
}

/// Stable number of each operator intent.
pub open spec fn desired_number(desired: DesiredState) -> u8 {
    match desired {
        DesiredState::Up => 1,
        DesiredState::Down => 2,
        DesiredState::Once => 3,
        DesiredState::Halt => 4,
        DesiredState::Exit => 5,
    }
}

/// The operator intent with a stable number.
pub open spec fn desired_numbered(code: u8) -> Option<DesiredState> {
    if code == 1 {
        Some(DesiredState::Up)
    } else if code == 2 {
        Some(DesiredState::Down)
    } else if code == 3 {
        Some(DesiredState::Once)
    } else if code == 4 {
        Some(DesiredState::Halt)
    } else if code == 5 {
        Some(DesiredState::Exit)
    } else {
        None
    }
}

/// Stable numeric code of operator intent.
#[must_use]
pub fn desired_state_code(desired: DesiredState) -> (code: u8)
    ensures
        code == desired_number(desired),
{
    match desired {
        DesiredState::Up => 1,
        DesiredState::Down => 2,
        DesiredState::Once => 3,
        DesiredState::Halt => 4,
        DesiredState::Exit => 5,
    }
}

/// The operator intent with a numeric code, or nothing for an unknown code.
#[must_use]
pub fn desired_state_from_code(code: u8) -> (desired: Option<DesiredState>)
    ensures
        desired == desired_numbered(code),
{
    match code {
        1 => Some(DesiredState::Up),
        2 => Some(DesiredState::Down),
        3 => Some(DesiredState::Once),
        4 => Some(DesiredState::Halt),
        5 => Some(DesiredState::Exit),
        _ => None,
    }
}

/// Pure view of a status observation.
#[verifier::ext_equal]
pub struct StatusModel {
    pub supervisor_pid: Option<u32>,
    pub main_pid: Option<u32>,
    pub desired: DesiredState,
    pub state: ServiceState,
    pub readiness: ReadinessStatus,
    pub uptime_seconds: Option<u64>,
    pub down_seconds: Option<u64>,
    pub starts: u64,
    pub failures: u64,
    pub last_result: Option<LastResult>,
    pub backoff_seconds: Option<u64>,
    pub logger: LoggerStatus,
    pub command: Seq<Seq<char>>,
}

/// Typed status of one supervisor.
#[derive(Clone, Debug, PartialEq, Eq)]
pub struct StatusSnapshot {
    /// Supervisor process identifier.
    pub supervisor_pid: Option<u32>,
    /// Main child process identifier.
    pub main_pid: Option<u32>,
    /// Operator intent.
    pub desired: DesiredState,
    /// Observed phase.
    pub state: ServiceState,
    /// Readiness of the current generation.
    pub readiness: ReadinessStatus,
    /// Seconds since the current generation started.
    pub uptime_seconds: Option<u64>,
    /// Seconds since the last generation ended.
    pub down_seconds: Option<u64>,
    /// Generation attempts.
    pub starts: u64,
    /// Failed generations.
    pub failures: u64,
    /// Result of the last finished generation.
    pub last_result: Option<LastResult>,
    /// Seconds left before the next start.
    pub backoff_seconds: Option<u64>,
    /// Combined logger health.
    pub logger: LoggerStatus,
    /// Exact service argv.
    pub command: Vec<String>,
}

impl View for StatusSnapshot {
    type V = StatusModel;

    open spec fn view(&self) -> StatusModel {
        StatusModel {
            supervisor_pid: self.supervisor_pid,
            main_pid: self.main_pid,
            desired: self.desired,
            state: self.state,
            readiness: self.readiness,
            uptime_seconds: self.uptime_seconds,
            down_seconds: self.down_seconds,
            starts: self.starts,
            failures: self.failures,
            last_result: self.last_result,
            backoff_seconds: self.backoff_seconds,
            logger: self.logger,
            command: text::texts(self.command@),
        }
    }
}

/// What a bare machine shows before any runtime detail is added.
pub open spec fn machine_status(machine: MachineModel) -> StatusModel {
    StatusModel {
        supervisor_pid: None,
        main_pid: None,
        desired: machine.desired,
        state: ServiceState::observed(machine.state),
        readiness: ReadinessStatus::observed(machine.state),
        uptime_seconds: None,
        down_seconds: None,
        starts: 0,
        failures: 0,
        last_result: None,
        backoff_seconds: None,
        logger: LoggerStatus::NotConfigured,
        command: Seq::empty(),
    }
}

impl StatusSnapshot {
    /// Observe a machine without any runtime detail.
    #[must_use]
    pub fn from_machine(machine: &StateMachine) -> (snapshot: Self)
        ensures
            snapshot@ == machine_status(machine@),
    {
        let state = match machine.state() {
            SupervisorState::Initializing => ServiceState::Initializing,
            SupervisorState::Down => ServiceState::Down,
            SupervisorState::WaitingCondition => ServiceState::WaitingCondition,
            SupervisorState::Starting(_) => ServiceState::Starting,
            SupervisorState::Running(_) => ServiceState::Running,
            SupervisorState::Ready(_) => ServiceState::Ready,
            SupervisorState::Paused { .. } => ServiceState::Paused,
            SupervisorState::Stopping(_) => ServiceState::Stopping,
            SupervisorState::Backoff { .. } => ServiceState::Backoff,
            SupervisorState::Completed(_) => ServiceState::Completed,
            SupervisorState::Failed(_) => ServiceState::Failed,
            SupervisorState::Exited => ServiceState::Exited,
        };
        let readiness = match machine.state() {
            SupervisorState::Ready(_) | SupervisorState::Paused {
                ready: true,
                ..
            } => ReadinessStatus::Ready,
            SupervisorState::Starting(_)
            | SupervisorState::Running(_)
            | SupervisorState::Paused { ready: false, .. } => ReadinessStatus::Pending,
            _ => ReadinessStatus::Inactive,
        };
        StatusSnapshot {
            supervisor_pid: None,
            main_pid: None,
            desired: machine.desired(),
            state,
            readiness,
            uptime_seconds: None,
            down_seconds: None,
            starts: 0,
            failures: 0,
            last_result: None,
            backoff_seconds: None,
            logger: LoggerStatus::NotConfigured,
            command: Vec::new(),
        }
    }
}

/// Status never shows a state which the machine is not in, and shows readiness exactly
/// while the current generation is ready: a paused generation keeps what it had, a
/// starting one awaits it, and without a running generation there is none.
pub proof fn states_are_shown_as_they_are(machine: MachineModel)
    ensures
        ({
            let shown = machine_status(machine);
            &&& shown.desired == machine.desired
            &&& shown.state is Initializing <==> machine.state is Initializing
            &&& shown.state is Down <==> machine.state is Down
            &&& shown.state is WaitingCondition <==> machine.state is WaitingCondition
            &&& shown.state is Starting <==> machine.state is Starting
            &&& shown.state is Running <==> machine.state is Running
            &&& shown.state is Ready <==> machine.state is Ready
            &&& shown.state is Paused <==> machine.state is Paused
            &&& shown.state is Stopping <==> machine.state is Stopping
            &&& shown.state is Backoff <==> machine.state is Backoff
            &&& shown.state is Completed <==> machine.state is Completed
            &&& shown.state is Failed <==> machine.state is Failed
            &&& shown.state is Exited <==> machine.state is Exited
            &&& shown.readiness is Ready <==> machine.state is Ready || (machine.state matches
                SupervisorState::Paused { ready, .. } && ready)
            &&& shown.readiness is Pending <==> machine.state is Starting || machine.state
                is Running || (machine.state matches SupervisorState::Paused { ready, .. }
                && !ready)
        }),
{
}

/// Every code reads back as what it was written for, codes are counted without gaps, and
/// no other code is known.
pub proof fn status_codes_read_back(
    state: ServiceState,
    readiness: ReadinessStatus,
    logger: LoggerStatus,
    desired: DesiredState,
    result: LastResult,
    code: u8,
    value: u8,
)
    ensures
        ServiceState::numbered(state.number()) == Some(state),
        ReadinessStatus::numbered(readiness.number()) == Some(readiness),
        LoggerStatus::numbered(logger.number()) == Some(logger),
        desired_numbered(desired_number(desired)) == Some(desired),
        LastResult::numbered(result.numbers().0, result.numbers().1) == Some(result),
        ServiceState::numbered(code) is Some <==> 1 <= code <= 12,
        ReadinessStatus::numbered(code) is Some <==> code <= 3,
        LoggerStatus::numbered(code) is Some <==> code <= 4,
        desired_numbered(code) is Some <==> 1 <= code <= 5,
        LastResult::numbered(code, value) is Some <==> 1 <= code <= 2 || (3 <= code <= 6 && value
            == 0),
{
}

/// States and intents are numbered in the order in which a service passes them.
pub proof fn status_codes_keep_their_order(index: int)
    ensures
        ({
            let states = seq![
                ServiceState::Initializing,
                ServiceState::Down,
                ServiceState::WaitingCondition,
                ServiceState::Starting,
                ServiceState::Running,
                ServiceState::Ready,
                ServiceState::Paused,
                ServiceState::Stopping,
                ServiceState::Backoff,
                ServiceState::Completed,
                ServiceState::Failed,
                ServiceState::Exited,
            ];
            0 <= index < states.len() ==> states[index].number() == index + 1
        }),
        ({
            let intents = seq![
                DesiredState::Up,
                DesiredState::Down,
                DesiredState::Once,
                DesiredState::Halt,
                DesiredState::Exit,
            ];
            0 <= index < intents.len() ==> desired_number(intents[index]) == index + 1
        }),
        ({
            let levels = seq![
                ReadinessStatus::Inactive,
                ReadinessStatus::Pending,
                ReadinessStatus::Ready,
                ReadinessStatus::TimedOut,
            ];
            0 <= index < levels.len() ==> levels[index].number() == index
        }),
        ({
            let levels = seq![
                LoggerStatus::NotConfigured,
                LoggerStatus::Starting,
                LoggerStatus::Ready,
                LoggerStatus::Backoff,
                LoggerStatus::Failed,
            ];
            0 <= index < levels.len() ==> levels[index].number() == index
        }),
{
}

} // verus!
