//! Pure request decision logic for one supervisor state machine.
//!
//! A decoded request is validated against service identity, optimistic
//! generation guards, and current lifecycle state. Only operator intent changes;
//! the returned effect names the work which the executor performs later, so
//! malformed or conflicting requests are rejected before side effects.

use vstd::prelude::*;
use vstd::string::*;

use crate::config::RestartConfig;
use crate::status;
use crate::status::StatusSnapshot;
use crate::supervisor::machine;
use crate::supervisor::machine::MachineModel;
use crate::supervisor::restart;
use crate::supervisor::{ChildResult, DesiredState, Generation, StateMachine, SupervisorState};
use crate::text::text_equal;

use super::message;
use super::message::{validate_request, Request, RequestModel};
use super::operation::{GenerationMatch, Operation, Signal, SignalScope};
use super::response::{Response, ResponseCode, ResponseModel};

verus! {

/// Lifecycle action after a stopped group has been fully reaped.
#[derive(Clone, Copy, Debug, PartialEq, Eq, Structural)]
pub enum StopCompletion {
    /// Remain supervised Down.
    Down,
    /// Begin a replacement generation.
    Restart,
    /// Exit the supervisor after cleanup.
    Halt,
}

/// Action the process executor must complete after accepting a request.
#[derive(Clone, Copy, Debug, PartialEq, Eq, Structural)]
pub enum ControlEffect {
    /// Status or an idempotent lifecycle request needs no executor work.
    Nothing,
    /// Begin dependency/condition evaluation and then create a generation.
    BeginStart,
    /// Cancel a pending condition or backoff, optionally starting immediately.
    CancelPending {
        /// Start again after cancellation.
        start: bool,
    },
    /// Stop and reap the owned process group, then apply the completion action.
    StopGroup {
        /// Exact generation to stop.
        generation: Generation,
        /// Desired action after reaping.
        after: StopCompletion,
    },
    /// Exit the supervisor, optionally leaving a live child deliberately orphaned.
    ExitSupervisor {
        /// Whether the current child/process group must remain running.
        leave_child: bool,
    },
    /// Deliver a raw signal without changing desired state.
    DeliverSignal {
        /// Exact live generation checked by the request.
        generation: Generation,
        /// Main process or owned group target.
        scope: SignalScope,
        /// Signal to deliver.
        signal: Signal,
    },
}

/// Validated response plus executor work selected for a request.
#[derive(Clone, Debug, PartialEq, Eq)]
pub struct ControlDecision {
    /// Immediate acceptance or rejection response.
    pub response: Response,
    /// Work which must complete for an accepted mutation.
    pub effect: ControlEffect,
}

/// Pure view of a decision.
#[verifier::ext_equal]
pub struct DecisionModel {
    pub response: ResponseModel,
    pub effect: ControlEffect,
}

impl View for ControlDecision {
    type V = DecisionModel;

    open spec fn view(&self) -> DecisionModel {
        DecisionModel { response: self.response@, effect: self.effect }
    }
}

/// Spelling of operator intent in status summaries.
pub open spec fn desired_spelling(desired: DesiredState) -> Seq<char> {
    match desired {
        DesiredState::Up => "up"@,
        DesiredState::Down => "down"@,
        DesiredState::Once => "once"@,
        DesiredState::Halt => "halt"@,
        DesiredState::Exit => "exit"@,
    }
}

/// Spelling of an observed state in status summaries.
pub open spec fn state_spelling(state: SupervisorState) -> Seq<char> {
    match state {
        SupervisorState::Initializing => "initializing"@,
        SupervisorState::Down => "down"@,
        SupervisorState::WaitingCondition => "waiting-condition"@,
        SupervisorState::Starting(_) => "starting"@,
        SupervisorState::Running(_) => "running"@,
        SupervisorState::Ready(_) => "ready"@,
        SupervisorState::Paused { .. } => "paused"@,
        SupervisorState::Stopping(_) => "stopping"@,
        SupervisorState::Backoff { .. } => "backoff"@,
        SupervisorState::Completed(_) => "completed"@,
        SupervisorState::Failed(_) => "failed"@,
        SupervisorState::Exited => "exited"@,
    }
}

/// Summary of a machine.
pub open spec fn summary(machine: MachineModel) -> Seq<char> {
    "desired="@ + desired_spelling(machine.desired) + " state="@ + state_spelling(machine.state)
}

/// A rejection reports the current generation and asks for no work.
pub open spec fn rejection(
    machine: MachineModel,
    code: ResponseCode,
    message: Seq<char>,
) -> DecisionModel {
    DecisionModel {
        response: ResponseModel {
            code,
            generation: machine.state.spec_generation(),
            message,
            status: None,
        },
        effect: ControlEffect::Nothing,
    }
}

/// An acceptance reports the generation after intent changed.
pub open spec fn acceptance(machine: MachineModel, effect: ControlEffect) -> DecisionModel {
    DecisionModel {
        response: ResponseModel {
            code: ResponseCode::Success,
            generation: machine.state.spec_generation(),
            message: "accepted; awaiting lifecycle completion"@,
            status: None,
        },
        effect,
    }
}

/// Work which a start needs in each state.
pub open spec fn start_work(state: SupervisorState) -> ControlEffect {
    match state {
        SupervisorState::Down => ControlEffect::BeginStart,
        SupervisorState::Failed(_) => ControlEffect::BeginStart,
        SupervisorState::WaitingCondition => ControlEffect::CancelPending { start: true },
        SupervisorState::Backoff { .. } => ControlEffect::CancelPending { start: true },
        _ => ControlEffect::Nothing,
    }
}

/// Work which a stop needs in each state.
pub open spec fn stop_work(state: SupervisorState, after: StopCompletion) -> ControlEffect {
    match state.spec_live_generation() {
        Some(generation) => ControlEffect::StopGroup { generation, after },
        None => if state is WaitingCondition || state is Backoff {
            ControlEffect::CancelPending { start: false }
        } else {
            ControlEffect::Nothing
        },
    }
}

/// The machine once a start-like request cleared any failure.
pub open spec fn cleared(machine: MachineModel) -> MachineModel {
    if machine.state is Failed {
        machine::advanced(machine, machine::Transition::ResetFailure)
    } else {
        machine
    }
}

/// Machine with replaced operator intent.
pub open spec fn intending(machine: MachineModel, desired: DesiredState) -> MachineModel {
    MachineModel { desired, ..machine }
}

/// Accepted work and the machine after intent changed, for a request which
/// passed every guard.
pub open spec fn operated(machine: MachineModel, request: RequestModel) -> (
    DecisionModel,
    MachineModel,
) {
    match request.operation {
        Operation::Status => (
            DecisionModel {
                response: ResponseModel {
                    code: ResponseCode::Success,
                    generation: machine.state.spec_generation(),
                    message: summary(machine),
                    status: Some(status::machine_status(machine)),
                },
                effect: ControlEffect::Nothing,
            },
            machine,
        ),
        Operation::Start => {
            let next = intending(cleared(machine), DesiredState::Up);
            (acceptance(next, start_work(next.state)), next)
        },
        Operation::Once => {
            let next = intending(cleared(machine), DesiredState::Once);
            (acceptance(next, start_work(next.state)), next)
        },
        Operation::Stop => {
            let next = intending(machine, DesiredState::Down);
            (acceptance(next, stop_work(next.state, StopCompletion::Down)), next)
        },
        Operation::Restart => {
            let next = intending(cleared(machine), DesiredState::Up);
            let effect = match next.state.spec_live_generation() {
                Some(generation) => ControlEffect::StopGroup {
                    generation,
                    after: StopCompletion::Restart,
                },
                None => start_work(next.state),
            };
            (acceptance(next, effect), next)
        },
        Operation::Halt => {
            let next = intending(machine, DesiredState::Halt);
            let effect = match next.state.spec_live_generation() {
                Some(generation) => ControlEffect::StopGroup {
                    generation,
                    after: StopCompletion::Halt,
                },
                None => ControlEffect::ExitSupervisor { leave_child: false },
            };
            (acceptance(next, effect), next)
        },
        Operation::Exit => {
            let next = intending(machine, DesiredState::Exit);
            let effect = ControlEffect::ExitSupervisor {
                leave_child: next.state.spec_live_generation() is Some,
            };
            (acceptance(next, effect), next)
        },
        Operation::Signal => match machine.state.spec_live_generation() {
            None => (
                rejection(machine, ResponseCode::Invalid, "service has no live child"@),
                machine,
            ),
            Some(generation) => (
                acceptance(
                    machine,
                    ControlEffect::DeliverSignal {
                        generation,
                        scope: request.scope,
                        signal: request.signal->0,
                    },
                ),
                machine,
            ),
        },
    }
}

/// Decision and machine after one request: identity first, then request rules,
/// then the generation guard, then the operation.
pub open spec fn decided(
    service_name: Seq<char>,
    machine: MachineModel,
    request: RequestModel,
) -> (DecisionModel, MachineModel) {
    if request.service != service_name {
        (rejection(machine, ResponseCode::NotFound, "service name mismatch"@), machine)
    } else {
        match message::request_fault(request) {
            Some(fault) => (rejection(machine, ResponseCode::Invalid, fault.text()), machine),
            None => if !request.expected_generation.admits(machine.state.spec_generation()) {
                (
                    rejection(machine, ResponseCode::Conflict, "service generation changed"@),
                    machine,
                )
            } else {
                operated(machine, request)
            },
        }
    }
}

/// Validate a request against one supervisor and update operator intent.
///
/// This function never performs process or socket I/O. The caller must execute
/// [`ControlDecision::effect`] and publish completion before treating an
/// accepted lifecycle operation as complete.
pub fn decide_request(service_name: &str, machine: &mut StateMachine, request: &Request) -> (
decision: ControlDecision)
    ensures
        (decision@, final(machine)@) == decided(service_name@, old(machine)@, request@),
{
    if !text_equal(request.service.as_str(), service_name) {
        return rejected(machine, ResponseCode::NotFound, "service name mismatch");
    }
    match validate_request(request) {
        Ok(()) => {},
        Err(error) => {
            let message = error.message();
            return rejected(machine, ResponseCode::Invalid, message.as_str());
        },
    }
    let generation = machine.state().generation();
    if !request.expected_generation.matches(generation) {
        return rejected(machine, ResponseCode::Conflict, "service generation changed");
    }
    let effect = match request.operation {
        Operation::Status => return status_decision(machine, generation),
        Operation::Start => {
            clear_failure(machine);
            machine.set_desired(DesiredState::Up);
            start_effect(machine.state())
        },
        Operation::Once => {
            clear_failure(machine);
            machine.set_desired(DesiredState::Once);
            start_effect(machine.state())
        },
        Operation::Stop => {
            machine.set_desired(DesiredState::Down);
            stop_effect(machine.state(), StopCompletion::Down)
        },
        Operation::Restart => {
            clear_failure(machine);
            machine.set_desired(DesiredState::Up);
            match machine.state().live_generation() {
                Some(generation) => ControlEffect::StopGroup {
                    generation,
                    after: StopCompletion::Restart,
                },
                None => start_effect(machine.state()),
            }
        },
        Operation::Halt => {
            machine.set_desired(DesiredState::Halt);
            match machine.state().live_generation() {
                Some(generation) => ControlEffect::StopGroup {
                    generation,
                    after: StopCompletion::Halt,
                },
                None => ControlEffect::ExitSupervisor { leave_child: false },
            }
        },
        Operation::Exit => {
            machine.set_desired(DesiredState::Exit);
            ControlEffect::ExitSupervisor {
                leave_child: machine.state().live_generation().is_some(),
            }
        },
        Operation::Signal => {
            let generation = match machine.state().live_generation() {
                Some(generation) => generation,
                None => return rejected(
                    machine,
                    ResponseCode::Invalid,
                    "service has no live child",
                ),
            };
            match request.signal {
                Some(signal) => ControlEffect::DeliverSignal {
                    generation,
                    scope: request.scope,
                    signal,
                },
                None => return rejected(machine, ResponseCode::Invalid, "signal is missing"),
            }
        },
    };
    ControlDecision {
        response: Response {
            code: ResponseCode::Success,
            generation: machine.state().generation(),
            message: "accepted; awaiting lifecycle completion".to_owned(),
            status: None,
        },
        effect,
    }
}

fn clear_failure(machine: &mut StateMachine)
    ensures
        final(machine)@ == cleared(old(machine)@),
{
    if matches!(machine.state(), SupervisorState::Failed(_)) {
        let _ = machine.reset_failure();
    }
}

fn status_decision(machine: &StateMachine, generation: Option<Generation>) -> (decision:
    ControlDecision)
    requires
        generation == machine@.state.spec_generation(),
    ensures
        decision@ == (DecisionModel {
            response: ResponseModel {
                code: ResponseCode::Success,
                generation,
                message: summary(machine@),
                status: Some(status::machine_status(machine@)),
            },
            effect: ControlEffect::Nothing,
        }),
{
    ControlDecision {
        response: Response {
            code: ResponseCode::Success,
            generation,
            message: status_message(machine),
            status: Some(StatusSnapshot::from_machine(machine)),
        },
        effect: ControlEffect::Nothing,
    }
}

fn start_effect(state: SupervisorState) -> (effect: ControlEffect)
    ensures
        effect == start_work(state),
{
    match state {
        SupervisorState::Down | SupervisorState::Failed(_) => ControlEffect::BeginStart,
        SupervisorState::WaitingCondition
        | SupervisorState::Backoff { .. } => ControlEffect::CancelPending { start: true },
        SupervisorState::Starting(_)
        | SupervisorState::Running(_)
        | SupervisorState::Ready(_)
        | SupervisorState::Paused { .. }
        | SupervisorState::Stopping(_)
        | SupervisorState::Completed(_)
        | SupervisorState::Initializing
        | SupervisorState::Exited => ControlEffect::Nothing,
    }
}

fn stop_effect(state: SupervisorState, after: StopCompletion) -> (effect: ControlEffect)
    ensures
        effect == stop_work(state, after),
{
    match state.live_generation() {
        Some(generation) => ControlEffect::StopGroup { generation, after },
        None => if matches!(
            state,
            SupervisorState::WaitingCondition | SupervisorState::Backoff { .. }
        ) {
            ControlEffect::CancelPending { start: false }
        } else {
            ControlEffect::Nothing
        },
    }
}

fn rejected(machine: &StateMachine, code: ResponseCode, message: &str) -> (decision:
    ControlDecision)
    ensures
        decision@ == rejection(machine@, code, message@),
{
    ControlDecision {
        response: Response {
            code,
            generation: machine.state().generation(),
            message: message.to_owned(),
            status: None,
        },
        effect: ControlEffect::Nothing,
    }
}

fn status_message(machine: &StateMachine) -> (message: String)
    ensures
        message@ == summary(machine@),
{
    let mut message = "desired=".to_owned();
    message.append(desired_name(machine.desired()));
    message.append(" state=");
    message.append(state_name(machine.state()));
    message
}

fn desired_name(desired: DesiredState) -> (name: &'static str)
    ensures
        name@ == desired_spelling(desired),
{
    match desired {
        DesiredState::Up => "up",
        DesiredState::Down => "down",
        DesiredState::Once => "once",
        DesiredState::Halt => "halt",
        DesiredState::Exit => "exit",
    }
}

fn state_name(state: SupervisorState) -> (name: &'static str)
    ensures
        name@ == state_spelling(state),
{
    match state {
        SupervisorState::Initializing => "initializing",
        SupervisorState::Down => "down",
        SupervisorState::WaitingCondition => "waiting-condition",
        SupervisorState::Starting(_) => "starting",
        SupervisorState::Running(_) => "running",
        SupervisorState::Ready(_) => "ready",
        SupervisorState::Paused { .. } => "paused",
        SupervisorState::Stopping(_) => "stopping",
        SupervisorState::Backoff { .. } => "backoff",
        SupervisorState::Completed(_) => "completed",
        SupervisorState::Failed(_) => "failed",
        SupervisorState::Exited => "exited",
    }
}

/// A refused request changes nothing and asks for no work.
pub proof fn refusals_change_nothing(
    service_name: Seq<char>,
    machine: MachineModel,
    request: RequestModel,
)
    requires
        decided(service_name, machine, request).0.response.code != ResponseCode::Success,
    ensures
        decided(service_name, machine, request).1 == machine,
        decided(service_name, machine, request).0.effect == ControlEffect::Nothing,
        decided(service_name, machine, request).0.response.generation
            == machine.state.spec_generation(),
{
}

/// A status request never changes the machine and, once its guards pass, always
/// carries a typed status.
pub proof fn status_is_read_only(
    service_name: Seq<char>,
    machine: MachineModel,
    request: RequestModel,
)
    requires
        request.operation == Operation::Status,
    ensures
        decided(service_name, machine, request).1 == machine,
        decided(service_name, machine, request).0.effect == ControlEffect::Nothing,
        decided(service_name, machine, request).0.response.code == ResponseCode::Success <==>
            decided(service_name, machine, request).0.response.status is Some,
{
}

/// Every accepted mutation was bound to the exact generation, or to the absence
/// of one, which the machine showed when it was decided.
pub proof fn mutations_are_guarded(
    service_name: Seq<char>,
    machine: MachineModel,
    request: RequestModel,
)
    requires
        request.operation != Operation::Status,
        decided(service_name, machine, request).0.response.code == ResponseCode::Success,
    ensures
        match machine.state.spec_generation() {
            Some(generation) => request.expected_generation
                == super::operation::GenerationMatch::Exact(generation),
            None => request.expected_generation == super::operation::GenerationMatch::NoChild,
        },
{
}

/// A decision only ever changes operator intent, except that a start, a single
/// run, or a restart also clears a failure.
pub proof fn decisions_touch_only_intent(
    service_name: Seq<char>,
    machine: MachineModel,
    request: RequestModel,
)
    ensures
        ({
            let next = decided(service_name, machine, request).1;
            &&& next.allocated == machine.allocated
            &&& next.state == machine.state || (machine.state is Failed && next.state
                == SupervisorState::Down && (request.operation == Operation::Start
                || request.operation == Operation::Once || request.operation
                == Operation::Restart))
        }),
{
}

/// Every lifecycle effect names the generation which the machine owns.
pub proof fn effects_name_the_live_generation(
    service_name: Seq<char>,
    machine: MachineModel,
    request: RequestModel,
)
    ensures
        match decided(service_name, machine, request).0.effect {
            ControlEffect::StopGroup { generation, .. } => machine.state.spec_live_generation()
                == Some(generation),
            ControlEffect::DeliverSignal { generation, .. } => machine.state.spec_live_generation()
                == Some(generation),
            ControlEffect::ExitSupervisor { leave_child } => leave_child ==>
                machine.state.spec_live_generation() is Some,
            _ => true,
        },
{
}

// ---------------------------------------------------------------------------
// What each operation promises
// ---------------------------------------------------------------------------

/// A request is accepted exactly when it names this service, keeps the request
/// rules, names the generation which is there, and, for a signal, when there is a
/// live child; each refusal has its own code.
pub proof fn requests_are_accepted_by_their_guards(
    service_name: Seq<char>,
    machine: MachineModel,
    request: RequestModel,
)
    ensures
        ({
            let code = decided(service_name, machine, request).0.response.code;
            let named = request.service == service_name;
            let sound = message::request_fault(request) is None;
            let expected = match request.expected_generation {
                GenerationMatch::Any => true,
                GenerationMatch::NoChild => machine.state.spec_generation() is None,
                GenerationMatch::Exact(generation) => machine.state.spec_generation() == Some(
                    generation,
                ),
            };
            let deliverable = request.operation == Operation::Signal ==>
                machine.state.spec_live_generation() is Some;
            &&& code is NotFound <==> !named
            &&& code is Conflict <==> named && sound && !expected
            &&& code is Invalid <==> named && (!sound || expected && !deliverable)
            &&& code is Success <==> named && sound && expected && deliverable
        }),
{
}

/// Each accepted operation leaves its own operator intent, in every state: start
/// and restart leave Up, once leaves Once, stop leaves Down, halt leaves Halt, and
/// exit leaves Exit. A status or a signal leaves the intent alone.
pub proof fn operations_leave_their_own_intent(
    service_name: Seq<char>,
    machine: MachineModel,
    request: RequestModel,
)
    requires
        decided(service_name, machine, request).0.response.code is Success,
    ensures
        ({
            let desired = decided(service_name, machine, request).1.desired;
            let operation = request.operation;
            &&& operation is Start || operation is Restart ==> desired is Up
            &&& operation is Once ==> desired is Once
            &&& operation is Stop ==> desired is Down
            &&& operation is Halt ==> desired is Halt
            &&& operation is Exit ==> desired is Exit
            &&& operation is Status || operation is Signal ==> desired == machine.desired
        }),
{
}

/// A generation which ends under an accepted once or stop is never followed by
/// another, whatever the restart policy is, and one which ends under an accepted
/// halt or exit ends the supervisor.
pub proof fn accepted_intent_outlives_the_generation(
    service_name: Seq<char>,
    machine: MachineModel,
    request: RequestModel,
    tracker: restart::TrackerModel,
    result: ChildResult,
    runtime_seconds: u64,
    elapsed_seconds: u64,
    policy: RestartConfig,
)
    requires
        decided(service_name, machine, request).0.response.code is Success,
    ensures
        ({
            let decision = restart::restart_decision(
                tracker,
                result,
                runtime_seconds,
                elapsed_seconds,
                decided(service_name, machine, request).1.desired,
                policy,
            ).0;
            let operation = request.operation;
            &&& operation is Once || operation is Stop ==> decision is StayDown
            &&& operation is Halt || operation is Exit ==> decision is ExitSupervisor
        }),
{
}

/// A live group is stopped by exactly the operations which ask for it, with the
/// completion which the operation asks for; start, once, status, and signal never
/// stop it, and exit leaves it running.
pub proof fn groups_are_stopped_only_on_request(
    service_name: Seq<char>,
    machine: MachineModel,
    request: RequestModel,
    generation: Generation,
)
    requires
        machine.state.spec_live_generation() == Some(generation),
        decided(service_name, machine, request).0.response.code is Success,
    ensures
        ({
            let effect = decided(service_name, machine, request).0.effect;
            let operation = request.operation;
            &&& effect is StopGroup <==> operation is Stop || operation is Restart || operation
                is Halt
            &&& effect matches ControlEffect::StopGroup { generation: stopped, after } ==> {
                &&& stopped == generation
                &&& after is Down <==> operation is Stop
                &&& after is Restart <==> operation is Restart
                &&& after is Halt <==> operation is Halt
            }
            &&& operation is Exit ==> effect == (ControlEffect::ExitSupervisor {
                leave_child: true,
            })
            &&& operation is Start || operation is Once || operation is Status ==> effect
                is Nothing
        }),
{
}

/// A service without a child is started by a start, once, or restart: at once when
/// it is down or failed, and after cancelling its delay when one is pending. A
/// failure is cleared on the way.
pub proof fn starts_begin_without_a_child(
    service_name: Seq<char>,
    machine: MachineModel,
    request: RequestModel,
)
    requires
        request.operation is Start || request.operation is Once || request.operation is Restart,
        decided(service_name, machine, request).0.response.code is Success,
    ensures
        ({
            let (decision, after) = decided(service_name, machine, request);
            let state = machine.state;
            &&& state is Down || state is Failed ==> decision.effect is BeginStart && after.state
                is Down
            &&& state is WaitingCondition || state is Backoff ==> decision.effect == (
            ControlEffect::CancelPending { start: true })
            &&& decision.effect is BeginStart ==> after.state is Down
        }),
{
}

/// Stopping a service without a child cancels what is pending and nothing else;
/// halting or exiting one ends the supervisor, and never leaves a child behind
/// which is not there.
pub proof fn stops_need_no_child(
    service_name: Seq<char>,
    machine: MachineModel,
    request: RequestModel,
)
    requires
        machine.state.spec_live_generation() is None,
        decided(service_name, machine, request).0.response.code is Success,
    ensures
        ({
            let effect = decided(service_name, machine, request).0.effect;
            let pending = machine.state is WaitingCondition || machine.state is Backoff;
            &&& request.operation is Stop && pending ==> effect == (ControlEffect::CancelPending {
                start: false,
            })
            &&& request.operation is Stop && !pending ==> effect is Nothing
            &&& request.operation is Halt || request.operation is Exit ==> effect == (
            ControlEffect::ExitSupervisor { leave_child: false })
        }),
{
}

/// An accepted signal is handed on as it was requested: the live generation, the
/// requested target, and the requested signal.
pub proof fn signals_are_handed_on_unchanged(
    service_name: Seq<char>,
    machine: MachineModel,
    request: RequestModel,
)
    requires
        request.operation is Signal,
        decided(service_name, machine, request).0.response.code is Success,
    ensures
        ({
            let effect = decided(service_name, machine, request).0.effect;
            effect matches ControlEffect::DeliverSignal { generation, scope, signal }
                && machine.state.spec_live_generation() == Some(generation) && scope
                == request.scope && request.signal == Some(signal)
        }),
{
}

/// A status shows the machine as it is: its intent, its phase, and its
/// generation, and nothing of it changes.
pub proof fn status_shows_the_machine(
    service_name: Seq<char>,
    machine: MachineModel,
    request: RequestModel,
)
    requires
        request.operation is Status,
        decided(service_name, machine, request).0.response.code is Success,
    ensures
        ({
            let response = decided(service_name, machine, request).0.response;
            &&& response.generation == machine.state.spec_generation()
            &&& response.status matches Some(shown) && shown.desired == machine.desired
        }),
{
}

} // verus!
