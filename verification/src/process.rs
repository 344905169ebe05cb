//! Process vocabulary shared with the process broker.
//!
//! The broker owns every Unix child and reports what happened to it; the
//! executor only sees these plain events and identifiers.

use vstd::prelude::*;

use crate::supervisor::{ChildResult, Generation};

verus! {

/// Checked, always-positive process identifier.
#[derive(Clone, Copy, Debug, PartialEq, Eq, Structural)]
pub struct ProcessId {
    value: i32,
}

impl ProcessId {
    /// The numeric identifier.
    pub closed spec fn number(self) -> i32 {
        self.value
    }

    /// Identifiers are positive.
    #[verifier::type_invariant]
    spec fn positive(self) -> bool {
        self.value > 0
    }

    /// A positive identifier, or nothing for any other number.
    #[must_use]
    pub fn new(value: i32) -> (process: Option<Self>)
        ensures
            match process {
                Some(process) => value > 0 && process.number() == value,
                None => value <= 0,
            },
    {
        if value > 0 {
            Some(ProcessId { value })
        } else {
            None
        }
    }

    /// The numeric identifier.
    #[must_use]
    pub fn get(self) -> (value: i32)
        ensures
            value == self.number(),
            value > 0,
    {
        proof {
            use_type_invariant(&self);
        }
        self.value
    }
}

/// Nonzero identifier of one auxiliary broker task.
#[derive(Clone, Copy, Debug, PartialEq, Eq, Structural)]
pub struct BrokerTaskId {
    value: u64,
}

impl BrokerTaskId {
    /// The numeric identifier.
    pub closed spec fn number(self) -> u64 {
        self.value
    }

    /// The task with a given number.
    pub closed spec fn of(value: u64) -> BrokerTaskId {
        BrokerTaskId { value }
    }

    /// A nonzero identifier, or nothing for zero.
    #[must_use]
    pub fn new(value: u64) -> (task: Option<Self>)
        ensures
            task == (if value == 0 {
                None
            } else {
                Some(BrokerTaskId::of(value))
            }),
    {
        if value == 0 {
            None
        } else {
            Some(BrokerTaskId { value })
        }
    }

    /// The numeric identifier.
    #[must_use]
    pub fn get(self) -> (value: u64)
        ensures
            value == self.number(),
    {
        self.value
    }
}

/// A task and its number determine each other.
pub broadcast proof fn task_numbers_are_identities(value: u64)
    ensures
        (#[trigger] BrokerTaskId::of(value)).number() == value,
{
}

/// Position of one broker-owned logger process.
#[derive(Clone, Copy, Debug, PartialEq, Eq, Structural)]
pub struct BrokerLoggerId {
    /// Route which the logger serves.
    pub route: u16,
    /// Position inside the route.
    pub position: u16,
    /// Whether this is the one external logger shared by both streams.
    pub shared: bool,
}

impl BrokerLoggerId {
    /// One stage of a local-file route.
    #[must_use]
    pub fn new(pipeline: u16, stage: u16) -> (logger: Self)
        ensures
            logger == (BrokerLoggerId { route: pipeline, position: stage, shared: false }),
    {
        BrokerLoggerId { route: pipeline, position: stage, shared: false }
    }

    /// The shared external logger.
    #[must_use]
    pub fn shared_logger() -> (logger: Self)
        ensures
            logger == (BrokerLoggerId { route: u16::MAX, position: u16::MAX, shared: true }),
    {
        BrokerLoggerId { route: u16::MAX, position: u16::MAX, shared: true }
    }

    /// Whether this is the shared external logger.
    #[must_use]
    pub fn is_shared_logger(self) -> (shared: bool)
        ensures
            shared == self.shared,
    {
        self.shared
    }

    /// Route which the logger serves.
    #[must_use]
    pub fn pipeline(self) -> (pipeline: u16)
        ensures
            pipeline == self.route,
    {
        self.route
    }

    /// Position inside the route.
    #[must_use]
    pub fn stage(self) -> (stage: u16)
        ensures
            stage == self.position,
    {
        self.position
    }
}

/// Target of a broker signal.
#[derive(Clone, Copy, Debug, PartialEq, Eq, Structural)]
pub enum BrokerSignalScope {
    /// Only the main process.
    Process,
    /// The whole owned group.
    Group,
}

/// Portable signal delivered by the broker.
#[derive(Clone, Copy, Debug, PartialEq, Eq, Structural)]
pub enum ProcessSignal {
    /// `SIGUSR1`.
    User1,
    /// `SIGUSR2`.
    User2,
    /// `SIGALRM`.
    Alarm,
    /// `SIGCONT`.
    Continue,
    /// `SIGHUP`.
    Hangup,
    /// `SIGINT`.
    Interrupt,
    /// `SIGKILL`.
    Kill,
    /// `SIGTTIN`.
    TerminalInput,
    /// `SIGTTOU`.
    TerminalOutput,
    /// `SIGQUIT`.
    Quit,
    /// `SIGSTOP`.
    Stop,
    /// `SIGTERM`.
    Terminate,
    /// `SIGWINCH`.
    WindowChange,
}

/// One observation of a child process.
#[derive(Clone, Copy, Debug, PartialEq, Eq, Structural)]
pub enum ChildEvent {
    /// The child exited.
    Exited {
        /// Observed process.
        pid: ProcessId,
        /// Exit status.
        code: u8,
    },
    /// A signal ended the child.
    Signaled {
        /// Observed process.
        pid: ProcessId,
        /// Ending signal.
        signal: u8,
    },
    /// Job control stopped the child.
    Stopped {
        /// Observed process.
        pid: ProcessId,
    },
    /// Job control continued the child.
    Continued {
        /// Observed process.
        pid: ProcessId,
    },
}

impl ChildEvent {
    /// Result of a child which ended.
    pub open spec fn result(self) -> Option<ChildResult> {
        match self {
            ChildEvent::Exited { code, .. } => Some(ChildResult::Exited(code)),
            ChildEvent::Signaled { signal, .. } => Some(ChildResult::Signaled(signal)),
            _ => None,
        }
    }

    /// Observed process.
    pub open spec fn process(self) -> ProcessId {
        match self {
            ChildEvent::Exited { pid, .. } => pid,
            ChildEvent::Signaled { pid, .. } => pid,
            ChildEvent::Stopped { pid } => pid,
            ChildEvent::Continued { pid } => pid,
        }
    }

    /// Observed process.
    #[must_use]
    pub fn pid(self) -> (pid: ProcessId)
        ensures
            pid == self.process(),
    {
        match self {
            ChildEvent::Exited { pid, .. }
            | ChildEvent::Signaled { pid, .. }
            | ChildEvent::Stopped { pid }
            | ChildEvent::Continued { pid } => pid,
        }
    }

    /// Whether the child ended.
    #[must_use]
    pub fn is_terminal(self) -> (terminal: bool)
        ensures
            terminal == (self.result() is Some),
    {
        matches!(self, ChildEvent::Exited { .. } | ChildEvent::Signaled { .. })
    }

    /// Result of a child which ended.
    #[must_use]
    pub fn terminal_result(self) -> (result: Option<ChildResult>)
        ensures
            result == self.result(),
    {
        match self {
            ChildEvent::Exited { code, .. } => Some(ChildResult::Exited(code)),
            ChildEvent::Signaled { signal, .. } => Some(ChildResult::Signaled(signal)),
            ChildEvent::Stopped { .. } | ChildEvent::Continued { .. } => None,
        }
    }
}

/// One event reported by the process broker.
#[derive(Clone, Copy, Debug, PartialEq, Eq, Structural)]
pub enum ProcessBrokerEvent {
    /// The broker accepts commands.
    Ready,
    /// A generation executed.
    Started {
        /// Executed generation.
        generation: Generation,
        /// Main process.
        process: ProcessId,
        /// Owned group.
        group: ProcessId,
    },
    /// A generation could not be executed.
    SpawnFailed {
        /// Failed generation.
        generation: Generation,
    },
    /// A generation's main process changed state.
    Child {
        /// Observed generation.
        generation: Generation,
        /// Observation.
        event: ChildEvent,
    },
    /// A signal was delivered.
    SignalDelivered {
        /// Signalled generation.
        generation: Generation,
    },
    /// A signal could not be delivered.
    SignalFailed {
        /// Signalled generation.
        generation: Generation,
        /// Raw error number.
        os_error: Option<i32>,
    },
    /// A live generation was handed over.
    Detached {
        /// Detached generation.
        generation: Generation,
    },
    /// A live generation could not be handed over.
    DetachFailed {
        /// Generation which stays owned.
        generation: Generation,
    },
    /// A generation reported readiness.
    GenerationReady {
        /// Ready generation.
        generation: Generation,
    },
    /// A generation broke its readiness contract.
    ReadinessFailed {
        /// Failed generation.
        generation: Generation,
    },
    /// A generation closed its lifetime descriptor.
    LifetimeClosed {
        /// Ended generation.
        generation: Generation,
    },
    /// A lifetime descriptor could not be observed.
    LifetimeFailed {
        /// Affected generation.
        generation: Generation,
    },
    /// A generation's group could not be cleaned up.
    ContainmentFailed {
        /// Affected generation.
        generation: Generation,
    },
    /// Every logger input is closed.
    LoggerInputsClosed,
    /// The broker cleaned up every child.
    ShutdownComplete,
    /// The broker could not clean up.
    ShutdownFailed,
    /// An auxiliary task executed.
    TaskStarted {
        /// Executed task.
        task: BrokerTaskId,
    },
    /// An auxiliary task could not be executed.
    TaskSpawnFailed {
        /// Failed task.
        task: BrokerTaskId,
        /// A half-started process still has to be reaped.
        cleanup_pending: bool,
    },
    /// An auxiliary task's process changed state.
    TaskChild {
        /// Observed task.
        task: BrokerTaskId,
        /// Observation.
        event: ChildEvent,
    },
    /// A task signal was delivered.
    TaskSignalDelivered {
        /// Signalled task.
        task: BrokerTaskId,
    },
    /// A task signal could not be delivered.
    TaskSignalFailed {
        /// Signalled task.
        task: BrokerTaskId,
    },
    /// A task's group could not be cleaned up.
    TaskContainmentFailed {
        /// Affected task.
        task: BrokerTaskId,
    },
}

} // verus!
