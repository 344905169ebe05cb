//! Desired and observed lifecycle state of one supervised service.
//!
//! Desired state is operator intent; observed state only advances on an event
//! which names the generation it belongs to. Every other event is refused and
//! leaves the machine exactly as it was.

use vstd::prelude::*;

verus! {

/// Identity of one service generation, independent of any process identifier.
#[derive(Clone, Copy, Debug, PartialEq, Eq, Structural)]
pub struct Generation {
    value: u64,
}

impl Generation {
    /// The numeric identity.
    pub closed spec fn number(self) -> u64 {
        self.value
    }

    /// The generation with a given number.
    pub closed spec fn of(value: u64) -> Generation {
        Generation { value }
    }

    /// A nonzero generation number, or nothing for zero.
    #[must_use]
    pub fn new(value: u64) -> (generation: Option<Self>)
        ensures
            generation == (if value == 0 {
                None
            } else {
                Some(Generation::of(value))
            }),
    {
        if value == 0 {
            None
        } else {
            Some(Generation { value })
        }
    }

    /// A generation number as it was carried by the control protocol.
    #[must_use]
    pub fn from_protocol(value: u64) -> (generation: Self)
        ensures
            generation == Generation::of(value),
    {
        Generation { value }
    }

    /// The generation number.
    #[must_use]
    pub fn get(self) -> (value: u64)
        ensures
            value == self.number(),
    {
        self.value
    }
}

/// A generation and its number determine each other.
pub broadcast proof fn generation_numbers_are_identities(value: u64)
    ensures
        (#[trigger] Generation::of(value)).number() == value,
{
}

/// A generation is the one its number names.
pub broadcast proof fn generation_is_its_number(generation: Generation)
    ensures
        Generation::of(#[trigger] generation.number()) == generation,
{
}

/// Operator intent for one service.
#[derive(Clone, Copy, Debug, PartialEq, Eq, Structural)]
pub enum DesiredState {
    /// Keep the service running.
    Up,
    /// Keep the service supervised but stopped.
    Down,
    /// Run one generation, then remain down.
    Once,
    /// Stop the service and exit the supervisor.
    Halt,
    /// Leave the service running and exit the supervisor.
    Exit,
}

/// Why supervision stopped without an operator request.
#[derive(Clone, Copy, Debug, PartialEq, Eq, Structural)]
pub enum FailureReason {
    /// The permitted number of restarts was used up.
    RetryLimit,
    /// The permitted total supervision time was used up.
    ElapsedLimit,
    /// Too many starts happened inside the rolling window.
    BurstLimit,
    /// A logger used up its permitted restarts.
    LoggerRetryLimit,
}

/// What follows one finished generation.
#[derive(Clone, Copy, Debug, PartialEq, Eq, Structural)]
pub enum RestartDecision {
    /// Start again after a delay.
    Restart {
        /// Delay before jitter is applied.
        base_delay_seconds: u64,
        /// Permitted variation around the delay.
        jitter_percent: u8,
    },
    /// Remain supervised down.
    StayDown,
    /// Exit the supervisor successfully.
    ExitSupervisor,
    /// Exit the supervisor because a configured limit was exhausted.
    ExitFailure(FailureReason),
    /// Remain supervised in a failed state.
    Fail(FailureReason),
}

/// Observed lifecycle state.
#[derive(Clone, Copy, Debug, PartialEq, Eq, Structural)]
pub enum SupervisorState {
    /// Loggers are not ready yet.
    Initializing,
    /// No generation exists.
    Down,
    /// A start is waiting for its delay or condition.
    WaitingCondition,
    /// A generation was requested and has not reported its exec result.
    Starting(Generation),
    /// The child executes but is not ready.
    Running(Generation),
    /// The child is ready.
    Ready(Generation),
    /// The child was stopped by job control.
    Paused {
        /// Paused generation.
        generation: Generation,
        /// Whether the generation resumes as ready.
        ready: bool,
    },
    /// The owned group was asked to stop.
    Stopping(Generation),
    /// The last generation ended and the next start is delayed.
    Backoff {
        /// Finished generation.
        generation: Generation,
        /// Delay before jitter was applied.
        delay_seconds: u64,
    },
    /// The generation ended and its post-exit hook is running.
    Completed(Generation),
    /// A configured limit ended supervision.
    Failed(FailureReason),
    /// The supervisor is finished.
    Exited,
}

impl SupervisorState {
    /// The generation this state belongs to, live or already ended.
    pub open spec fn spec_generation(self) -> Option<Generation> {
        match self {
            SupervisorState::Starting(generation) => Some(generation),
            SupervisorState::Running(generation) => Some(generation),
            SupervisorState::Ready(generation) => Some(generation),
            SupervisorState::Paused { generation, .. } => Some(generation),
            SupervisorState::Stopping(generation) => Some(generation),
            SupervisorState::Backoff { generation, .. } => Some(generation),
            SupervisorState::Completed(generation) => Some(generation),
            _ => None,
        }
    }

    /// The generation which still owns a process group.
    pub open spec fn spec_live_generation(self) -> Option<Generation> {
        match self {
            SupervisorState::Starting(generation) => Some(generation),
            SupervisorState::Running(generation) => Some(generation),
            SupervisorState::Ready(generation) => Some(generation),
            SupervisorState::Paused { generation, .. } => Some(generation),
            SupervisorState::Stopping(generation) => Some(generation),
            _ => None,
        }
    }

    /// The generation this state belongs to, live or already ended.
    #[must_use]
    pub fn generation(self) -> (generation: Option<Generation>)
        ensures
            generation == self.spec_generation(),
    {
        match self {
            SupervisorState::Starting(generation)
            | SupervisorState::Running(generation)
            | SupervisorState::Ready(generation)
            | SupervisorState::Paused { generation, .. }
            | SupervisorState::Stopping(generation)
            | SupervisorState::Backoff { generation, .. }
            | SupervisorState::Completed(generation) => Some(generation),
            SupervisorState::Initializing
            | SupervisorState::Down
            | SupervisorState::WaitingCondition
            | SupervisorState::Failed(_)
            | SupervisorState::Exited => None,
        }
    }

    /// The generation which still owns a process group.
    #[must_use]
    pub fn live_generation(self) -> (generation: Option<Generation>)
        ensures
            generation == self.spec_live_generation(),
    {
        match self {
            SupervisorState::Starting(generation)
            | SupervisorState::Running(generation)
            | SupervisorState::Ready(generation)
            | SupervisorState::Paused { generation, .. }
            | SupervisorState::Stopping(generation) => Some(generation),
            SupervisorState::Initializing
            | SupervisorState::Down
            | SupervisorState::WaitingCondition
            | SupervisorState::Backoff { .. }
            | SupervisorState::Completed(_)
            | SupervisorState::Failed(_)
            | SupervisorState::Exited => None,
        }
    }
}

/// Lifecycle observation offered to the machine.
#[derive(Clone, Copy, Debug, PartialEq, Eq, Structural)]
pub enum Transition {
    /// Loggers became ready.
    Initialized,
    /// A start was requested.
    BeginStart,
    /// Delay and condition are satisfied.
    PreconditionsReady,
    /// The child executed.
    ChildStarted(Generation),
    /// The child reported readiness.
    ChildReady(Generation),
    /// Job control stopped the child.
    ChildPaused(Generation),
    /// Job control continued the child.
    ChildContinued(Generation),
    /// The group was asked to stop.
    BeginStop(Generation),
    /// A stop hook failed and the generation keeps running.
    AbortStop {
        /// Generation which keeps running.
        generation: Generation,
        /// Whether it was ready before the stop.
        resume_ready: bool,
        /// Operator intent before the stop.
        previous_desired: DesiredState,
    },
    /// The generation ended and was reaped.
    ChildReaped(Generation, RestartDecision),
    /// The generation ended and its hook starts.
    ChildCompleted(Generation),
    /// The post-exit hook ended.
    CompletionFinished(Generation, RestartDecision),
    /// The live group was handed over.
    ChildDetached(Generation),
    /// The restart delay ended.
    BackoffElapsed(Generation),
    /// A pending start was cancelled.
    CancelPending,
    /// Supervision failed before any child.
    FailWithoutChild(FailureReason),
    /// The supervisor exits without a child.
    ExitWithoutChild,
    /// An operator cleared a failure.
    ResetFailure,
}

/// Refused lifecycle transition.
#[derive(Clone, Copy, Debug)]
pub enum TransitionError {
    /// The event is not valid in the current state.
    Invalid {
        /// State which refused the event.
        state: SupervisorState,
        /// Stable event name.
        event: &'static str,
    },
}

impl TransitionError {
    /// State which refused the event.
    pub open spec fn refused_in(self) -> SupervisorState {
        self->state
    }

    /// Stable name of the refused event.
    pub open spec fn event_name(self) -> Seq<char> {
        self->event@
    }
}

/// State which follows a finished generation.
pub open spec fn settled(generation: Generation, decision: RestartDecision) -> SupervisorState {
    match decision {
        RestartDecision::Restart { base_delay_seconds, .. } => SupervisorState::Backoff {
            generation,
            delay_seconds: base_delay_seconds,
        },
        RestartDecision::StayDown => SupervisorState::Down,
        RestartDecision::ExitSupervisor => SupervisorState::Exited,
        RestartDecision::ExitFailure(_) => SupervisorState::Exited,
        RestartDecision::Fail(reason) => SupervisorState::Failed(reason),
    }
}

/// Pure view of the machine.
pub struct MachineModel {
    /// Operator intent.
    pub desired: DesiredState,
    /// Observed state.
    pub state: SupervisorState,
    /// Number of generations allocated so far.
    pub allocated: u64,
}

/// The lifecycle relation: the state an accepted transition leads to, or nothing
/// when the transition is refused.
pub open spec fn successor(model: MachineModel, transition: Transition) -> Option<SupervisorState> {
    match (transition, model.state) {
        (Transition::Initialized, SupervisorState::Initializing) => Some(SupervisorState::Down),
        (Transition::BeginStart, SupervisorState::Down) => Some(SupervisorState::WaitingCondition),
        (Transition::PreconditionsReady, SupervisorState::WaitingCondition) =>
            if model.allocated < u64::MAX {
                Some(SupervisorState::Starting(Generation::of((model.allocated + 1) as u64)))
            } else {
                None
            },
        (Transition::ChildStarted(event), SupervisorState::Starting(current)) =>
            if event == current {
                Some(SupervisorState::Running(current))
            } else {
                None
            },
        (Transition::ChildReady(event), SupervisorState::Running(current)) =>
            if event == current {
                Some(SupervisorState::Ready(current))
            } else {
                None
            },
        (Transition::ChildReady(event), SupervisorState::Paused { generation, ready }) =>
            if event == generation && !ready {
                Some(SupervisorState::Paused { generation, ready: true })
            } else {
                None
            },
        (Transition::ChildPaused(event), SupervisorState::Running(current)) =>
            if event == current {
                Some(SupervisorState::Paused { generation: current, ready: false })
            } else {
                None
            },
        (Transition::ChildPaused(event), SupervisorState::Ready(current)) =>
            if event == current {
                Some(SupervisorState::Paused { generation: current, ready: true })
            } else {
                None
            },
        (Transition::ChildContinued(event), SupervisorState::Paused { generation, ready }) =>
            if event == generation {
                Some(if ready {
                    SupervisorState::Ready(generation)
                } else {
                    SupervisorState::Running(generation)
                })
            } else {
                None
            },
        (Transition::BeginStop(event), state) =>
            if state.spec_live_generation() == Some(event) && !(state is Stopping) {
                Some(SupervisorState::Stopping(event))
            } else {
                None
            },
        (Transition::AbortStop { generation, resume_ready, .. }, SupervisorState::Stopping(current)) =>
            if generation == current {
                Some(if resume_ready {
                    SupervisorState::Ready(current)
                } else {
                    SupervisorState::Running(current)
                })
            } else {
                None
            },
        (Transition::ChildReaped(event, decision), state) =>
            if state.spec_live_generation() == Some(event) {
                Some(settled(event, decision))
            } else {
                None
            },
        (Transition::ChildCompleted(event), state) =>
            if state.spec_live_generation() == Some(event) {
                Some(SupervisorState::Completed(event))
            } else {
                None
            },
        (Transition::CompletionFinished(event, decision), SupervisorState::Completed(current)) =>
            if event == current {
                Some(settled(event, decision))
            } else {
                None
            },
        (Transition::ChildDetached(event), state) =>
            if state.spec_live_generation() == Some(event) {
                Some(SupervisorState::Exited)
            } else {
                None
            },
        (Transition::BackoffElapsed(event), SupervisorState::Backoff { generation, .. }) =>
            if event == generation {
                Some(SupervisorState::Down)
            } else {
                None
            },
        (Transition::CancelPending, SupervisorState::WaitingCondition) =>
            Some(SupervisorState::Down),
        (Transition::CancelPending, SupervisorState::Backoff { .. }) => Some(SupervisorState::Down),
        (Transition::FailWithoutChild(reason), SupervisorState::Down) =>
            Some(SupervisorState::Failed(reason)),
        (Transition::ExitWithoutChild, SupervisorState::Down) => Some(SupervisorState::Exited),
        (Transition::ExitWithoutChild, SupervisorState::Failed(_)) => Some(SupervisorState::Exited),
        (Transition::ResetFailure, SupervisorState::Failed(_)) => Some(SupervisorState::Down),
        _ => None,
    }
}

/// The machine after offering it one transition.
pub open spec fn advanced(model: MachineModel, transition: Transition) -> MachineModel {
    match successor(model, transition) {
        Some(state) => MachineModel {
            desired: match transition {
                Transition::AbortStop { previous_desired, .. } => previous_desired,
                _ => model.desired,
            },
            state,
            allocated: if transition is PreconditionsReady {
                (model.allocated + 1) as u64
            } else {
                model.allocated
            },
        },
        None => model,
    }
}

/// Stable name of a transition in diagnostics.
pub open spec fn transition_name(transition: Transition) -> Seq<char> {
    match transition {
        Transition::Initialized => "initialized"@,
        Transition::BeginStart => "begin_start"@,
        Transition::PreconditionsReady => "preconditions_ready"@,
        Transition::ChildStarted(_) => "child_started"@,
        Transition::ChildReady(_) => "child_ready"@,
        Transition::ChildPaused(_) => "child_paused"@,
        Transition::ChildContinued(_) => "child_continued"@,
        Transition::BeginStop(_) => "begin_stop"@,
        Transition::AbortStop { .. } => "abort_stop"@,
        Transition::ChildReaped(..) => "child_reaped"@,
        Transition::ChildCompleted(_) => "child_completed"@,
        Transition::CompletionFinished(..) => "completion_finished"@,
        Transition::ChildDetached(_) => "child_detached"@,
        Transition::BackoffElapsed(_) => "backoff_elapsed"@,
        Transition::CancelPending => "cancel_pending"@,
        Transition::FailWithoutChild(_) => "fail_without_child"@,
        Transition::ExitWithoutChild => "exit_without_child"@,
        Transition::ResetFailure => "reset_failure"@,
    }
}

/// Single-owner lifecycle state machine.
#[derive(Debug)]
pub struct StateMachine {
    desired: DesiredState,
    state: SupervisorState,
    allocated: u64,
}

impl View for StateMachine {
    type V = MachineModel;

    closed spec fn view(&self) -> MachineModel {
        MachineModel { desired: self.desired, state: self.state, allocated: self.allocated }
    }
}

impl Default for StateMachine {
    fn default() -> (machine: Self)
        ensures
            machine@ == (MachineModel {
                desired: DesiredState::Up,
                state: SupervisorState::Down,
                allocated: 0,
            }),
    {
        StateMachine { desired: DesiredState::Up, state: SupervisorState::Down, allocated: 0 }
    }
}

/// What offering a transition does to the machine and reports to the caller.
pub open spec fn offered(
    before: MachineModel,
    transition: Transition,
    after: MachineModel,
    refusal: Option<TransitionError>,
) -> bool {
    &&& after == advanced(before, transition)
    &&& refusal is Some <==> successor(before, transition) is None
    &&& refusal matches Some(error) ==> error.refused_in() == before.state && error.event_name()
        == transition_name(transition)
}

impl StateMachine {
    /// A machine which waits for its loggers before anything else.
    #[must_use]
    pub fn initializing(desired: DesiredState) -> (machine: Self)
        ensures
            machine@ == (MachineModel {
                desired,
                state: SupervisorState::Initializing,
                allocated: 0,
            }),
    {
        StateMachine { desired, state: SupervisorState::Initializing, allocated: 0 }
    }

    /// Observed state.
    #[must_use]
    pub fn state(&self) -> (state: SupervisorState)
        ensures
            state == self@.state,
    {
        self.state
    }

    /// Operator intent.
    #[must_use]
    pub fn desired(&self) -> (desired: DesiredState)
        ensures
            desired == self@.desired,
    {
        self.desired
    }

    /// Replace operator intent without touching observed state.
    pub fn set_desired(&mut self, desired: DesiredState)
        ensures
            final(self)@ == (MachineModel { desired, ..old(self)@ }),
    {
        self.desired = desired;
    }

    fn refuse(&self, event: &'static str) -> (error: TransitionError)
        ensures
            error.refused_in() == self@.state,
            error.event_name() == event@,
    {
        TransitionError::Invalid { state: self.state, event }
    }

    /// Leave initialization once every logger is ready.
    pub fn initialized(&mut self) -> (result: Result<(), TransitionError>)
        ensures
            offered(old(self)@, Transition::Initialized, final(self)@, result.err()),
    {
        match self.state {
            SupervisorState::Initializing => {
                self.state = SupervisorState::Down;
                Ok(())
            },
            _ => Err(self.refuse("initialized")),
        }
    }

    /// Begin evaluating the start delay and condition.
    pub fn begin_start(&mut self) -> (result: Result<(), TransitionError>)
        ensures
            offered(old(self)@, Transition::BeginStart, final(self)@, result.err()),
    {
        match self.state {
            SupervisorState::Down => {
                self.state = SupervisorState::WaitingCondition;
                Ok(())
            },
            _ => Err(self.refuse("begin_start")),
        }
    }

    /// Allocate the next generation once its preconditions hold.
    pub fn preconditions_ready(&mut self) -> (result: Result<Generation, TransitionError>)
        ensures
            offered(old(self)@, Transition::PreconditionsReady, final(self)@, result.err()),
            result matches Ok(generation) ==> final(self)@.state == SupervisorState::Starting(
                generation,
            ) && generation.number() == old(self)@.allocated + 1,
    {
        if self.state == SupervisorState::WaitingCondition && self.allocated < u64::MAX {
            let generation = Generation { value: self.allocated + 1 };
            self.allocated = generation.value;
            self.state = SupervisorState::Starting(generation);
            Ok(generation)
        } else {
            Err(self.refuse("preconditions_ready"))
        }
    }

    /// Record a successful exec.
    pub fn child_started(&mut self, generation: Generation) -> (result: Result<(), TransitionError>)
        ensures
            offered(old(self)@, Transition::ChildStarted(generation), final(self)@, result.err()),
    {
        if self.state == SupervisorState::Starting(generation) {
            self.state = SupervisorState::Running(generation);
            Ok(())
        } else {
            Err(self.refuse("child_started"))
        }
    }

    /// Record readiness of a running or paused generation.
    pub fn child_ready(&mut self, generation: Generation) -> (result: Result<(), TransitionError>)
        ensures
            offered(old(self)@, Transition::ChildReady(generation), final(self)@, result.err()),
    {
        if self.state == SupervisorState::Running(generation) {
            self.state = SupervisorState::Ready(generation);
            Ok(())
        } else if self.state == (SupervisorState::Paused { generation, ready: false }) {
            self.state = SupervisorState::Paused { generation, ready: true };
            Ok(())
        } else {
            Err(self.refuse("child_ready"))
        }
    }

    /// Record a job-control stop.
    pub fn child_paused(&mut self, generation: Generation) -> (result: Result<(), TransitionError>)
        ensures
            offered(old(self)@, Transition::ChildPaused(generation), final(self)@, result.err()),
    {
        if self.state == SupervisorState::Running(generation) {
            self.state = SupervisorState::Paused { generation, ready: false };
            Ok(())
        } else if self.state == SupervisorState::Ready(generation) {
            self.state = SupervisorState::Paused { generation, ready: true };
            Ok(())
        } else {
            Err(self.refuse("child_paused"))
        }
    }

    /// Record a job-control continuation.
    pub fn child_continued(&mut self, generation: Generation) -> (result: Result<
        (),
        TransitionError,
    >)
        ensures
            offered(old(self)@, Transition::ChildContinued(generation), final(self)@, result.err()),
    {
        if self.state == (SupervisorState::Paused { generation, ready: true }) {
            self.state = SupervisorState::Ready(generation);
            Ok(())
        } else if self.state == (SupervisorState::Paused { generation, ready: false }) {
            self.state = SupervisorState::Running(generation);
            Ok(())
        } else {
            Err(self.refuse("child_continued"))
        }
    }

    /// Begin stopping a live generation.
    pub fn begin_stop(&mut self, generation: Generation) -> (result: Result<(), TransitionError>)
        ensures
            offered(old(self)@, Transition::BeginStop(generation), final(self)@, result.err()),
    {
        if self.owns_live(generation) && !matches!(self.state, SupervisorState::Stopping(_)) {
            self.state = SupervisorState::Stopping(generation);
            Ok(())
        } else {
            Err(self.refuse("begin_stop"))
        }
    }

    /// Return a stopping generation to service and restore operator intent.
    pub fn abort_stop(
        &mut self,
        generation: Generation,
        resume_ready: bool,
        previous_desired: DesiredState,
    ) -> (result: Result<(), TransitionError>)
        ensures
            offered(
                old(self)@,
                Transition::AbortStop { generation, resume_ready, previous_desired },
                final(self)@,
                result.err(),
            ),
    {
        if self.state == SupervisorState::Stopping(generation) {
            self.state = if resume_ready {
                SupervisorState::Ready(generation)
            } else {
                SupervisorState::Running(generation)
            };
            self.desired = previous_desired;
            Ok(())
        } else {
            Err(self.refuse("abort_stop"))
        }
    }

    fn settle(&mut self, generation: Generation, decision: RestartDecision)
        ensures
            final(self)@ == (MachineModel { state: settled(generation, decision), ..old(self)@ }),
    {
        self.state = match decision {
            RestartDecision::Restart { base_delay_seconds, .. } => SupervisorState::Backoff {
                generation,
                delay_seconds: base_delay_seconds,
            },
            RestartDecision::StayDown => SupervisorState::Down,
            RestartDecision::ExitSupervisor | RestartDecision::ExitFailure(
                _,
            ) => SupervisorState::Exited,
            RestartDecision::Fail(reason) => SupervisorState::Failed(reason),
        };
    }

    fn owns_live(&self, generation: Generation) -> (owned: bool)
        ensures
            owned == (self@.state.spec_live_generation() == Some(generation)),
    {
        match self.state.live_generation() {
            Some(current) => current == generation,
            None => false,
        }
    }

    /// Record a reaped live generation and apply its restart decision.
    pub fn child_reaped(&mut self, generation: Generation, decision: RestartDecision) -> (result:
        Result<(), TransitionError>)
        ensures
            offered(
                old(self)@,
                Transition::ChildReaped(generation, decision),
                final(self)@,
                result.err(),
            ),
    {
        if self.owns_live(generation) {
            self.settle(generation, decision);
            Ok(())
        } else {
            Err(self.refuse("child_reaped"))
        }
    }

    /// Record a reaped live generation whose post-exit hook runs first.
    pub fn child_completed(&mut self, generation: Generation) -> (result: Result<
        (),
        TransitionError,
    >)
        ensures
            offered(old(self)@, Transition::ChildCompleted(generation), final(self)@, result.err()),
    {
        if self.owns_live(generation) {
            self.state = SupervisorState::Completed(generation);
            Ok(())
        } else {
            Err(self.refuse("child_completed"))
        }
    }

    /// Apply the restart decision once the post-exit hook ended.
    pub fn completion_finished(&mut self, generation: Generation, decision: RestartDecision) -> (
    result: Result<(), TransitionError>)
        ensures
            offered(
                old(self)@,
                Transition::CompletionFinished(generation, decision),
                final(self)@,
                result.err(),
            ),
    {
        if self.state == SupervisorState::Completed(generation) {
            self.settle(generation, decision);
            Ok(())
        } else {
            Err(self.refuse("completion_finished"))
        }
    }

    /// Exit after the live group was handed over.
    pub fn child_detached(&mut self, generation: Generation) -> (result: Result<
        (),
        TransitionError,
    >)
        ensures
            offered(old(self)@, Transition::ChildDetached(generation), final(self)@, result.err()),
    {
        if self.owns_live(generation) {
            self.state = SupervisorState::Exited;
            Ok(())
        } else {
            Err(self.refuse("child_detached"))
        }
    }

    /// Leave backoff once its delay ended.
    pub fn backoff_elapsed(&mut self, generation: Generation) -> (result: Result<
        (),
        TransitionError,
    >)
        ensures
            offered(old(self)@, Transition::BackoffElapsed(generation), final(self)@, result.err()),
    {
        match self.state {
            SupervisorState::Backoff { generation: current, .. } => {
                if current == generation {
                    self.state = SupervisorState::Down;
                    Ok(())
                } else {
                    Err(self.refuse("backoff_elapsed"))
                }
            },
            _ => Err(self.refuse("backoff_elapsed")),
        }
    }

    /// Cancel a pending condition or backoff.
    pub fn cancel_pending(&mut self) -> (result: Result<(), TransitionError>)
        ensures
            offered(old(self)@, Transition::CancelPending, final(self)@, result.err()),
    {
        match self.state {
            SupervisorState::WaitingCondition | SupervisorState::Backoff { .. } => {
                self.state = SupervisorState::Down;
                Ok(())
            },
            _ => Err(self.refuse("cancel_pending")),
        }
    }

    /// Fail supervision before any child exists.
    pub fn fail_without_child(&mut self, reason: FailureReason) -> (result: Result<
        (),
        TransitionError,
    >)
        ensures
            offered(old(self)@, Transition::FailWithoutChild(reason), final(self)@, result.err()),
    {
        match self.state {
            SupervisorState::Down => {
                self.state = SupervisorState::Failed(reason);
                Ok(())
            },
            _ => Err(self.refuse("fail_without_child")),
        }
    }

    /// Exit while no child exists.
    pub fn exit_without_child(&mut self) -> (result: Result<(), TransitionError>)
        ensures
            offered(old(self)@, Transition::ExitWithoutChild, final(self)@, result.err()),
    {
        match self.state {
            SupervisorState::Down | SupervisorState::Failed(_) => {
                self.state = SupervisorState::Exited;
                Ok(())
            },
            _ => Err(self.refuse("exit_without_child")),
        }
    }

    /// Clear a failure on operator request.
    pub fn reset_failure(&mut self) -> (result: Result<(), TransitionError>)
        ensures
            offered(old(self)@, Transition::ResetFailure, final(self)@, result.err()),
    {
        match self.state {
            SupervisorState::Failed(_) => {
                self.state = SupervisorState::Down;
                Ok(())
            },
            _ => Err(self.refuse("reset_failure")),
        }
    }
}

// ---------------------------------------------------------------------------
// Laws
// ---------------------------------------------------------------------------

/// Whether a state shows a generation which reported readiness.
pub open spec fn shows_ready(state: SupervisorState, generation: Generation) -> bool {
    state == SupervisorState::Ready(generation) || state == (SupervisorState::Paused {
        generation,
        ready: true,
    })
}

/// A refused transition changes nothing; an accepted one changes the state, and
/// beyond it only what its kind permits: operator intent is restored by an aborted
/// stop alone, and numbers are given out by met preconditions alone.
pub proof fn transitions_change_only_the_state(model: MachineModel, transition: Transition)
    ensures
        ({
            let after = advanced(model, transition);
            &&& successor(model, transition) is None ==> after == model
            &&& successor(model, transition) matches Some(state) ==> after.state == state
            &&& transition matches Transition::AbortStop { previous_desired, .. } ==> after.desired
                == model.desired || after.desired == previous_desired
            &&& !(transition is AbortStop) ==> after.desired == model.desired
            &&& !(transition is PreconditionsReady) ==> after.allocated == model.allocated
        }),
{
}

/// A generation becomes ready only by its own readiness report while it runs or is
/// paused, or by an aborted stop which found it ready; a started child alone is
/// never ready.
pub proof fn readiness_has_to_be_reported(
    model: MachineModel,
    transition: Transition,
    generation: Generation,
)
    requires
        !shows_ready(model.state, generation),
        shows_ready(advanced(model, transition).state, generation),
    ensures
        transition == Transition::ChildReady(generation) || (transition matches
            Transition::AbortStop { generation: resumed, resume_ready, .. } && resumed
            == generation && resume_ready && model.state == SupervisorState::Stopping(generation)),
{
}

/// A report of readiness for a running generation makes exactly it ready, and a
/// started generation runs.
pub proof fn reports_move_their_generation(model: MachineModel, generation: Generation)
    ensures
        model.state == SupervisorState::Starting(generation) ==> advanced(
            model,
            Transition::ChildStarted(generation),
        ).state == SupervisorState::Running(generation),
        model.state == SupervisorState::Running(generation) ==> advanced(
            model,
            Transition::ChildReady(generation),
        ).state == SupervisorState::Ready(generation),
        model.state == SupervisorState::Ready(generation) ==> advanced(
            advanced(model, Transition::ChildPaused(generation)),
            Transition::ChildContinued(generation),
        ) == model,
        model.state == SupervisorState::Running(generation) ==> advanced(
            advanced(model, Transition::ChildPaused(generation)),
            Transition::ChildContinued(generation),
        ) == model,
{
}

/// An observation of a generation which the machine does not own is refused.
pub proof fn foreign_observations_are_refused(
    model: MachineModel,
    generation: Generation,
    decision: RestartDecision,
)
    requires
        model.state.spec_generation() != Some(generation),
    ensures
        successor(model, Transition::ChildStarted(generation)) is None,
        successor(model, Transition::ChildReady(generation)) is None,
        successor(model, Transition::ChildPaused(generation)) is None,
        successor(model, Transition::ChildContinued(generation)) is None,
        successor(model, Transition::BeginStop(generation)) is None,
        successor(model, Transition::ChildReaped(generation, decision)) is None,
        successor(model, Transition::ChildCompleted(generation)) is None,
        successor(model, Transition::CompletionFinished(generation, decision)) is None,
        successor(model, Transition::ChildDetached(generation)) is None,
        successor(model, Transition::BackoffElapsed(generation)) is None,
{
}

/// A live generation stays owned until it is reaped, completed, or detached: no
/// other transition lets go of it or replaces it.
pub proof fn live_generations_are_never_forgotten(
    model: MachineModel,
    transition: Transition,
    generation: Generation,
)
    requires
        model.state.spec_live_generation() == Some(generation),
        !(transition is ChildReaped),
        !(transition is ChildCompleted),
        !(transition is ChildDetached),
    ensures
        advanced(model, transition).state.spec_live_generation() == Some(generation),
{
}

/// A generation comes to life only from met preconditions, with the next number,
/// so that no two generations share one and none lives beside another.
pub proof fn generations_are_numbered_in_order(model: MachineModel, transition: Transition)
    requires
        model.state.spec_live_generation() is None,
        advanced(model, transition).state.spec_live_generation() is Some,
    ensures
        transition is PreconditionsReady,
        model.state is WaitingCondition,
        advanced(model, transition).allocated == model.allocated + 1,
        advanced(model, transition).state matches SupervisorState::Starting(generation)
            && generation.number() == model.allocated + 1,
{
}

/// What an ended generation leaves: a restart waits its delay, a stay leaves the
/// service down, an exit ends the supervisor, and a failure is shown with its
/// reason; a hook only postpones the same end.
pub proof fn ended_generations_settle_as_decided(
    model: MachineModel,
    generation: Generation,
    decision: RestartDecision,
)
    requires
        model.state.spec_live_generation() == Some(generation),
    ensures
        ({
            let reaped = advanced(model, Transition::ChildReaped(generation, decision));
            let postponed = advanced(
                advanced(model, Transition::ChildCompleted(generation)),
                Transition::CompletionFinished(generation, decision),
            );
            &&& postponed == reaped
            &&& decision matches RestartDecision::Restart { base_delay_seconds, .. }
                ==> reaped.state == (SupervisorState::Backoff {
                generation,
                delay_seconds: base_delay_seconds,
            })
            &&& decision is StayDown <==> reaped.state is Down
            &&& decision is ExitSupervisor || decision is ExitFailure <==> reaped.state is Exited
            &&& decision matches RestartDecision::Fail(reason) ==> reaped.state
                == SupervisorState::Failed(reason)
        }),
{
}

/// A pending start can always be cancelled, a delay ends in the service being
/// down, and a failure stays until an operator clears it or the supervisor exits.
pub proof fn childless_states_move_as_told(model: MachineModel, transition: Transition)
    ensures
        model.state is WaitingCondition || model.state is Backoff ==> advanced(
            model,
            Transition::CancelPending,
        ).state is Down,
        model.state matches SupervisorState::Backoff { generation, .. } ==> advanced(
            model,
            Transition::BackoffElapsed(generation),
        ).state is Down,
        model.state is Down ==> advanced(model, Transition::BeginStart).state is WaitingCondition,
        model.state is Down || model.state is Failed ==> advanced(
            model,
            Transition::ExitWithoutChild,
        ).state is Exited,
        model.state is Failed && !(transition is ResetFailure) && !(transition
            is ExitWithoutChild) ==> advanced(model, transition) == model,
        model.state is Failed ==> advanced(model, Transition::ResetFailure).state is Down,
        model.state is Exited ==> advanced(model, transition) == model,
{
}

/// Stopping takes every live generation into its stop, and an aborted stop gives
/// it back with the intent and the readiness it had.
pub proof fn aborted_stops_restore_the_generation(
    model: MachineModel,
    generation: Generation,
    previous_desired: DesiredState,
    resume_ready: bool,
)
    requires
        model.state.spec_live_generation() == Some(generation),
        !(model.state is Stopping),
    ensures
        ({
            let stopping = advanced(model, Transition::BeginStop(generation));
            let resumed = advanced(
                stopping,
                Transition::AbortStop { generation, resume_ready, previous_desired },
            );
            &&& stopping.state == SupervisorState::Stopping(generation)
            &&& resumed.desired == previous_desired
            &&& resumed.state == (if resume_ready {
                SupervisorState::Ready(generation)
            } else {
                SupervisorState::Running(generation)
            })
        }),
{
}

/// A state owns a generation exactly while one exists, and the generation lives
/// exactly from its start to its end: after it ended only its delay or its hook
/// still names it.
pub proof fn states_name_their_generation(state: SupervisorState)
    ensures
        state.spec_live_generation() matches Some(generation) ==> state.spec_generation() == Some(
            generation,
        ),
        state.spec_generation() is Some && state.spec_live_generation() is None <==> state
            is Backoff || state is Completed,
        state.spec_generation() is None <==> state is Initializing || state is Down || state
            is WaitingCondition || state is Failed || state is Exited,
{
}

} // verus!
