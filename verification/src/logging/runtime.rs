//! Live logging pipeline state and health summarization.
//!
//! Runtime values allocate stable pipe identities before process launch and then
//! update only generation and lifecycle state.

use vstd::prelude::*;
use vstd::string::*;

use crate::supervisor::SupervisorState;
use crate::text;

use super::plan;
use super::plan::{PlanModel, RoutePlanModel, StageModel};
use super::{FileRoutePlan, LoggerStage, LoggingError, LoggingPlan, OutputStream};

verus! {

/// Durable identity for stable pipe endpoints, independent of child PIDs.
#[derive(Clone, Copy, Debug, PartialEq, Eq, PartialOrd, Ord, Hash, Structural)]
pub struct PipeId {
    number: u64,
}

impl PipeId {
    /// Numeric identity.
    pub closed spec fn value(self) -> u64 {
        self.number
    }

    /// Numeric identity exposed in diagnostics.
    #[must_use]
    pub fn get(self) -> (number: u64)
        ensures
            number == self.value(),
    {
        self.number
    }
}

/// Health summarized across every separately supervised logger stage.
#[derive(Clone, Copy, Debug, PartialEq, Eq, Structural)]
pub enum PipelineHealth {
    /// Every stage is ready to consume bytes.
    Ready,
    /// At least one stage is starting or stopped.
    Starting,
    /// At least one stage is waiting in restart backoff.
    Backoff,
    /// At least one stage exhausted its configured restart policy.
    Failed,
}

/// Runtime status for one logger process.
#[derive(Clone, Debug, PartialEq, Eq)]
pub struct LoggerStageStatus {
    /// Stage definition.
    pub stage: LoggerStage,
    /// Stage-local logical generation.
    pub generation: u64,
    /// Observed child lifecycle.
    pub state: SupervisorState,
}

/// Pure view of a stage status.
#[verifier::ext_equal]
pub struct StageStatusModel {
    pub stage: StageModel,
    pub generation: u64,
    pub state: SupervisorState,
}

impl View for LoggerStageStatus {
    type V = StageStatusModel;

    open spec fn view(&self) -> StageStatusModel {
        StageStatusModel {
            stage: self.stage@,
            generation: self.generation,
            state: self.state,
        }
    }
}

#[derive(Clone, Debug, PartialEq, Eq)]
struct FileRouteRuntime {
    plan: FileRoutePlan,
    pipe: PipeId,
    stage: LoggerStageStatus,
}

#[derive(Clone, Debug, PartialEq, Eq)]
struct SharedLoggerRuntime {
    pipe: PipeId,
    stage: LoggerStageStatus,
}

/// Runtime ownership of stable pipes and restartable logger stages.
#[derive(Clone, Debug, PartialEq, Eq)]
pub struct LoggingRuntime {
    local_files: Vec<FileRouteRuntime>,
    logger: Option<SharedLoggerRuntime>,
}

/// Pure view of one route at run time.
#[verifier::ext_equal]
pub struct RouteModel {
    pub plan: RoutePlanModel,
    pub pipe: u64,
    pub stage: StageStatusModel,
}

/// Pure view of the shared logger at run time.
#[verifier::ext_equal]
pub struct SharedModel {
    pub pipe: u64,
    pub stage: StageStatusModel,
}

/// Pure view of logging at run time.
#[verifier::ext_equal]
pub struct RuntimeModel {
    pub local_files: Seq<RouteModel>,
    pub logger: Option<SharedModel>,
}

impl FileRouteRuntime {
    spec fn model(self) -> RouteModel {
        RouteModel { plan: self.plan@, pipe: self.pipe.value(), stage: self.stage@ }
    }
}

impl SharedLoggerRuntime {
    spec fn model(self) -> SharedModel {
        SharedModel { pipe: self.pipe.value(), stage: self.stage@ }
    }
}

spec fn route_models(routes: Seq<FileRouteRuntime>) -> Seq<RouteModel> {
    routes.map_values(|route: FileRouteRuntime| route.model())
}

impl View for LoggingRuntime {
    type V = RuntimeModel;

    closed spec fn view(&self) -> RuntimeModel {
        RuntimeModel {
            local_files: route_models(self.local_files@),
            logger: match self.logger {
                Some(logger) => Some(logger.model()),
                None => None,
            },
        }
    }
}

/// Stage which has not started.
pub open spec fn stopped_stage(stage: StageModel) -> StageStatusModel {
    StageStatusModel { stage, generation: 0, state: SupervisorState::Down }
}

/// Runtime before anything started: pipes are numbered from one in plan order,
/// and the shared logger's pipe comes last.
pub open spec fn fresh_runtime(plan: PlanModel) -> RuntimeModel {
    RuntimeModel {
        local_files: Seq::new(
            plan.local_files.len(),
            |i: int|
                RouteModel {
                    plan: plan.local_files[i],
                    pipe: (i + 1) as u64,
                    stage: stopped_stage(StageModel::FileAdapter(plan.local_files[i].file)),
                },
        ),
        logger: match plan.logger {
            Some(command) => Some(
                SharedModel {
                    pipe: if plan.local_files.len() < u64::MAX {
                        (plan.local_files.len() + 1) as u64
                    } else {
                        u64::MAX
                    },
                    stage: stopped_stage(StageModel::External(command)),
                },
            ),
            None => None,
        },
    }
}

/// Whether a route carries a stream: exactly its own, and a combined route
/// carries both.
pub open spec fn carries(route: OutputStream, stream: OutputStream) -> bool {
    route == stream || route is Combined
}

/// Position of the first route from `from` on which carries a stream.
pub open spec fn route_position(
    routes: Seq<RouteModel>,
    stream: OutputStream,
    from: int,
) -> Option<int>
    decreases routes.len() - from,
{
    if from < 0 || from >= routes.len() {
        None
    } else if carries(routes[from].plan.stream, stream) {
        Some(from)
    } else {
        route_position(routes, stream, from + 1)
    }
}

/// Pipe which a stream is written to: its local route, or else the shared logger.
pub open spec fn stream_pipe(runtime: RuntimeModel, stream: OutputStream) -> Option<u64> {
    match route_position(runtime.local_files, stream, 0) {
        Some(position) => Some(runtime.local_files[position].pipe),
        None => shared_pipe(runtime),
    }
}

/// Pipe of the shared logger.
pub open spec fn shared_pipe(runtime: RuntimeModel) -> Option<u64> {
    match runtime.logger {
        Some(logger) => Some(logger.pipe),
        None => None,
    }
}

/// Stages which affect a stream: its local route first, then the shared logger.
pub open spec fn stream_stages(
    runtime: RuntimeModel,
    stream: OutputStream,
) -> Seq<StageStatusModel> {
    let local = match route_position(runtime.local_files, stream, 0) {
        Some(position) => seq![runtime.local_files[position].stage],
        None => Seq::empty(),
    };
    match runtime.logger {
        Some(logger) => local.push(logger.stage),
        None => local,
    }
}

/// Summary of several stages: failure outweighs backoff, which outweighs start.
pub open spec fn summary(stages: Seq<StageStatusModel>) -> PipelineHealth {
    if exists|i: int| 0 <= i < stages.len() && (#[trigger] stages[i]).state is Failed {
        PipelineHealth::Failed
    } else if exists|i: int| 0 <= i < stages.len() && (#[trigger] stages[i]).state is Backoff {
        PipelineHealth::Backoff
    } else if forall|i: int| 0 <= i < stages.len() ==> (#[trigger] stages[i]).state is Ready {
        PipelineHealth::Ready
    } else {
        PipelineHealth::Starting
    }
}

/// Health of a stream, absent without any stage.
pub open spec fn stream_health(
    runtime: RuntimeModel,
    stream: OutputStream,
) -> Option<PipelineHealth> {
    if stream_stages(runtime, stream).len() == 0 {
        None
    } else {
        Some(summary(stream_stages(runtime, stream)))
    }
}

/// Runtime with one file adapter replaced.
pub open spec fn stage_updated(
    runtime: RuntimeModel,
    position: int,
    generation: u64,
    state: SupervisorState,
) -> RuntimeModel {
    let route = runtime.local_files[position];
    RuntimeModel {
        local_files: runtime.local_files.update(
            position,
            RouteModel {
                stage: StageStatusModel { generation, state, ..route.stage },
                ..route
            },
        ),
        ..runtime
    }
}

/// Runtime with the shared logger replaced.
pub open spec fn logger_updated(
    runtime: RuntimeModel,
    generation: u64,
    state: SupervisorState,
) -> RuntimeModel {
    RuntimeModel {
        logger: match runtime.logger {
            Some(logger) => Some(
                SharedModel {
                    stage: StageStatusModel { generation, state, ..logger.stage },
                    ..logger
                },
            ),
            None => None,
        },
        ..runtime
    }
}

/// Whether a pipe identity is the expected one.
pub open spec fn same_pipe(pipe: Option<PipeId>, expected: Option<u64>) -> bool {
    match pipe {
        Some(pipe) => expected == Some(pipe.value()),
        None => expected is None,
    }
}

/// Views of referenced stages in order.
pub open spec fn stage_views(stages: Seq<&LoggerStageStatus>) -> Seq<StageStatusModel> {
    stages.map_values(|stage: &LoggerStageStatus| stage@)
}

fn route_carries(route: OutputStream, stream: OutputStream) -> (carried: bool)
    ensures
        carried == carries(route, stream),
{
    route == stream || route == OutputStream::Combined
}

fn summarize_health(stages: &Vec<&LoggerStageStatus>) -> (health: PipelineHealth)
    ensures
        health == summary(stage_views(stages@)),
{
    let ghost views = stage_views(stages@);
    let mut failed: bool = false;
    let mut backoff: bool = false;
    let mut ready: bool = true;
    let mut index: usize = 0;
    while index < stages.len()
        invariant
            index <= stages@.len(),
            views == stage_views(stages@),
            failed == (exists|i: int| 0 <= i < index && (#[trigger] views[i]).state is Failed),
            backoff == (exists|i: int| 0 <= i < index && (#[trigger] views[i]).state is Backoff),
            ready == (forall|i: int| 0 <= i < index ==> (#[trigger] views[i]).state is Ready),
        decreases stages@.len() - index,
    {
        let state = stages[index].state;
        assert(views[index as int].state == state);
        if matches!(state, SupervisorState::Failed(_)) {
            failed = true;
        }
        if matches!(state, SupervisorState::Backoff { .. }) {
            backoff = true;
        }
        if !matches!(state, SupervisorState::Ready(_)) {
            ready = false;
        }
        index = index + 1;
    }
    if failed {
        PipelineHealth::Failed
    } else if backoff {
        PipelineHealth::Backoff
    } else if ready {
        PipelineHealth::Ready
    } else {
        PipelineHealth::Starting
    }
}

spec fn at(position: Option<usize>) -> Option<int> {
    match position {
        Some(position) => Some(position as int),
        None => None,
    }
}

impl LoggingRuntime {
    /// Allocate durable pipe identities before starting any logger or service.
    #[must_use]
    pub fn new(plan: LoggingPlan) -> (runtime: Self)
        ensures
            runtime@ == fresh_runtime(plan@),
    {
        let mut local_files: Vec<FileRouteRuntime> = Vec::new();
        let mut index: usize = 0;
        while index < plan.local_files.len()
            invariant
                index <= plan.local_files@.len(),
                local_files@.len() == index,
                forall|i: int|
                    0 <= i < index ==> (#[trigger] local_files@[i]).model() == fresh_runtime(
                        plan@,
                    ).local_files[i],
            decreases plan.local_files@.len() - index,
        {
            let route = &plan.local_files[index];
            assert(plan@.local_files[index as int] == route@);
            local_files.push(
                FileRouteRuntime {
                    plan: FileRoutePlan {
                        stream: route.stream,
                        file: route.file.duplicate(),
                        backpressure: route.backpressure,
                    },
                    pipe: PipeId { number: (index as u64) + 1 },
                    stage: LoggerStageStatus {
                        stage: LoggerStage::FileAdapter(route.file.duplicate()),
                        generation: 0,
                        state: SupervisorState::Down,
                    },
                },
            );
            index = index + 1;
        }
        let logger = match &plan.logger {
            Some(command) => Some(
                SharedLoggerRuntime {
                    pipe: PipeId { number: (plan.local_files.len() as u64).saturating_add(1) },
                    stage: LoggerStageStatus {
                        stage: LoggerStage::External(text::copy_texts(command)),
                        generation: 0,
                        state: SupervisorState::Down,
                    },
                },
            ),
            None => None,
        };
        let runtime = LoggingRuntime { local_files, logger };
        assert(runtime@ =~= fresh_runtime(plan@));
        runtime
    }

    fn position(&self, stream: OutputStream) -> (position: Option<usize>)
        ensures
            at(position) == route_position(self@.local_files, stream, 0),
            position matches Some(index) ==> index < self.local_files@.len(),
    {
        let mut index: usize = 0;
        while index < self.local_files.len()
            invariant
                index <= self.local_files@.len(),
                route_position(self@.local_files, stream, index as int) == route_position(
                    self@.local_files,
                    stream,
                    0,
                ),
            decreases self.local_files@.len() - index,
        {
            assert(self@.local_files[index as int] == self.local_files@[index as int].model());
            if route_carries(self.local_files[index].plan.stream, stream) {
                return Some(index);
            }
            index = index + 1;
        }
        None
    }

    /// Stable service-input pipe identity for an output stream.
    #[must_use]
    pub fn pipe(&self, stream: OutputStream) -> (pipe: Option<PipeId>)
        ensures
            same_pipe(pipe, stream_pipe(self@, stream)),
    {
        match self.position(stream) {
            Some(index) => Some(self.local_files[index].pipe),
            None => self.logger_pipe(),
        }
    }

    /// Stable shared pipe feeding the one external logger.
    #[must_use]
    pub fn logger_pipe(&self) -> (pipe: Option<PipeId>)
        ensures
            same_pipe(pipe, shared_pipe(self@)),
    {
        match &self.logger {
            Some(logger) => Some(logger.pipe),
            None => None,
        }
    }

    /// Replace one file-adapter generation/state without replacing its pipe.
    ///
    /// # Errors
    ///
    /// Returns an error for an unknown stream or a nonzero stage index.
    pub fn update_stage(
        &mut self,
        stream: OutputStream,
        stage_index: usize,
        generation: u64,
        lifecycle_state: SupervisorState,
    ) -> (result: Result<(), LoggingError>)
        ensures
            ({
                let position = route_position(old(self)@.local_files, stream, 0);
                if stage_index != 0 {
                    result == Err::<(), LoggingError>(LoggingError::UnknownStage) && final(self)@
                        == old(self)@
                } else if position is None {
                    result == Err::<(), LoggingError>(LoggingError::UnknownPipeline)
                        && final(self)@ == old(self)@
                } else {
                    result is Ok && final(self)@ == stage_updated(
                        old(self)@,
                        position->0,
                        generation,
                        lifecycle_state,
                    )
                }
            }),
    {
        if stage_index != 0 {
            return Err(LoggingError::UnknownStage);
        }
        let index: usize = match self.position(stream) {
            Some(index) => index,
            None => return Err(LoggingError::UnknownPipeline),
        };
        self.local_files[index].stage.generation = generation;
        self.local_files[index].stage.state = lifecycle_state;
        proof {
            assert(self@ =~= stage_updated(
                old(self)@,
                index as int,
                generation,
                lifecycle_state,
            ));
        }
        Ok(())
    }

    /// Replace the shared external logger state without replacing its pipe.
    ///
    /// # Errors
    ///
    /// Returns an error when no external logger is configured.
    pub fn update_logger(&mut self, generation: u64, lifecycle_state: SupervisorState) -> (result:
        Result<(), LoggingError>)
        ensures
            match result {
                Ok(()) => old(self)@.logger is Some,
                Err(error) => old(self)@.logger is None && error
                    == LoggingError::UnknownExternalLogger,
            },
            final(self)@ == logger_updated(old(self)@, generation, lifecycle_state),
    {
        let mut logger = match self.logger.take() {
            Some(logger) => logger,
            None => return Err(LoggingError::UnknownExternalLogger),
        };
        logger.stage.generation = generation;
        logger.stage.state = lifecycle_state;
        self.logger = Some(logger);
        Ok(())
    }

    /// Aggregate health for one stream's local route and shared logger.
    #[must_use]
    pub fn health(&self, stream: OutputStream) -> (health: Option<PipelineHealth>)
        ensures
            health == stream_health(self@, stream),
    {
        let stages = self.stages(stream);
        if stages.len() == 0 {
            None
        } else {
            Some(summarize_health(&stages))
        }
    }

    /// Immutable stage statuses affecting one stream.
    #[must_use]
    pub fn stages(&self, stream: OutputStream) -> (stages: Vec<&LoggerStageStatus>)
        ensures
            stage_views(stages@) == stream_stages(self@, stream),
    {
        let mut stages: Vec<&LoggerStageStatus> = Vec::new();
        if let Some(index) = self.position(stream) {
            stages.push(&self.local_files[index].stage);
        }
        if let Some(logger) = &self.logger {
            stages.push(&logger.stage);
        }
        assert(stage_views(stages@) =~= stream_stages(self@, stream));
        stages
    }
}

// ---------------------------------------------------------------------------
// Laws
// ---------------------------------------------------------------------------

proof fn lemma_positions_follow_streams(
    left: Seq<RouteModel>,
    right: Seq<RouteModel>,
    stream: OutputStream,
    from: int,
)
    requires
        left.len() == right.len(),
        forall|i: int|
            0 <= i < left.len() ==> (#[trigger] left[i]).plan.stream == right[i].plan.stream,
        0 <= from,
    ensures
        route_position(left, stream, from) == route_position(right, stream, from),
        route_position(left, stream, from) matches Some(position) ==> from <= position
            < left.len(),
    decreases left.len() - from,
{
    if from < left.len() {
        lemma_positions_follow_streams(left, right, stream, from + 1);
    }
}

/// Restarting a file adapter or the shared logger never replaces a pipe.
pub proof fn restarts_keep_pipes(
    runtime: RuntimeModel,
    position: int,
    generation: u64,
    state: SupervisorState,
    stream: OutputStream,
)
    requires
        0 <= position < runtime.local_files.len(),
    ensures
        stream_pipe(stage_updated(runtime, position, generation, state), stream) == stream_pipe(
            runtime,
            stream,
        ),
        shared_pipe(stage_updated(runtime, position, generation, state)) == shared_pipe(runtime),
        stream_pipe(logger_updated(runtime, generation, state), stream) == stream_pipe(
            runtime,
            stream,
        ),
        shared_pipe(logger_updated(runtime, generation, state)) == shared_pipe(runtime),
{
    let after = stage_updated(runtime, position, generation, state);
    lemma_positions_follow_streams(runtime.local_files, after.local_files, stream, 0);
}

/// A combined route carries both child streams over one pipe.
pub proof fn combined_routes_carry_both_streams(runtime: RuntimeModel)
    requires
        runtime.local_files.len() > 0,
        runtime.local_files[0].plan.stream is Combined,
    ensures
        stream_pipe(runtime, OutputStream::Stdout) == stream_pipe(runtime, OutputStream::Combined),
        stream_pipe(runtime, OutputStream::Stderr) == stream_pipe(runtime, OutputStream::Combined),
        stream_pipe(runtime, OutputStream::Combined) == Some(runtime.local_files[0].pipe),
{
}

/// Every pipe of a fresh runtime is different: those of two file routes, and those
/// of any file route and the shared logger.
pub proof fn fresh_pipes_are_distinct(plan: PlanModel, left: int, right: int)
    requires
        plan.local_files.len() < u64::MAX,
        0 <= left < plan.local_files.len(),
        0 <= right < plan.local_files.len(),
    ensures
        left != right ==> fresh_runtime(plan).local_files[left].pipe != fresh_runtime(
            plan,
        ).local_files[right].pipe,
        fresh_runtime(plan).logger matches Some(logger) ==> logger.pipe != fresh_runtime(
            plan,
        ).local_files[left].pipe,
{
}

proof fn lemma_positions_carry_their_stream(
    routes: Seq<RouteModel>,
    stream: OutputStream,
    from: int,
)
    requires
        0 <= from,
    ensures
        route_position(routes, stream, from) matches Some(position) ==> from <= position
            < routes.len() && (routes[position].plan.stream == stream
            || routes[position].plan.stream == OutputStream::Combined),
        route_position(routes, stream, from) is None ==> forall|i: int|
            from <= i < routes.len() ==> (#[trigger] routes[i]).plan.stream != stream
                && routes[i].plan.stream != OutputStream::Combined,
    decreases routes.len() - from,
{
    if from < routes.len() {
        lemma_positions_carry_their_stream(routes, stream, from + 1);
    }
}

/// A stream is written to a route which carries it or to the shared logger, never to a
/// route of the other stream, and to nothing only if neither exists.
pub proof fn streams_stay_on_their_route(runtime: RuntimeModel, stream: OutputStream, at: int)
    ensures
        stream_pipe(runtime, stream) matches Some(pipe) ==> (exists|i: int|
            0 <= i < runtime.local_files.len() && (#[trigger] runtime.local_files[i]).pipe == pipe
                && (runtime.local_files[i].plan.stream == stream
                || runtime.local_files[i].plan.stream == OutputStream::Combined)) || (
        runtime.logger matches Some(logger) && logger.pipe == pipe),
        stream_pipe(runtime, stream) is None ==> runtime.logger is None,
        stream_pipe(runtime, stream) is None && 0 <= at < runtime.local_files.len()
            ==> runtime.local_files[at].plan.stream != stream,
        runtime.logger matches Some(logger) ==> shared_pipe(runtime) == Some(logger.pipe),
        0 <= at < runtime.local_files.len() && runtime.local_files[at].plan.stream == stream
            && stream_pipe(runtime, stream) is Some && runtime.logger is None ==> exists|i: int|
            0 <= i <= at && (#[trigger] runtime.local_files[i]).pipe == stream_pipe(
                runtime,
                stream,
            )->0,
{
    lemma_positions_carry_their_stream(runtime.local_files, stream, 0);
    if route_position(runtime.local_files, stream, 0) is Some && 0 <= at
        < runtime.local_files.len() && runtime.local_files[at].plan.stream == stream {
        lemma_positions_come_first(runtime.local_files, stream, 0, at);
    }
}

proof fn lemma_positions_come_first(
    routes: Seq<RouteModel>,
    stream: OutputStream,
    from: int,
    at: int,
)
    requires
        0 <= from <= at < routes.len(),
        routes[at].plan.stream == stream,
    ensures
        route_position(routes, stream, from) matches Some(position) && position <= at,
    decreases routes.len() - from,
{
    if from < at {
        lemma_positions_come_first(routes, stream, from + 1, at);
    }
}

/// The health of a stream is that of its worst stage: one failed stage shows as failure,
/// one waiting stage without a failed one as backoff, and readiness takes every stage.
pub proof fn the_worst_stage_is_shown(stages: Seq<StageStatusModel>, at: int)
    ensures
        0 <= at < stages.len() && stages[at].state is Failed ==> summary(stages)
            == PipelineHealth::Failed,
        0 <= at < stages.len() && stages[at].state is Backoff ==> summary(stages)
            == PipelineHealth::Backoff || summary(stages) == PipelineHealth::Failed,
        0 <= at < stages.len() && !(stages[at].state is Ready) ==> summary(stages)
            != PipelineHealth::Ready,
        (forall|i: int| 0 <= i < stages.len() ==> (#[trigger] stages[i]).state is Ready)
            ==> summary(stages) == PipelineHealth::Ready,
        summary(stages) == PipelineHealth::Failed ==> exists|i: int|
            0 <= i < stages.len() && (#[trigger] stages[i]).state is Failed,
        summary(stages) == PipelineHealth::Backoff ==> exists|i: int|
            0 <= i < stages.len() && (#[trigger] stages[i]).state is Backoff,
{
}

/// The shared logger affects the health of every stream, and a stream without any stage
/// has none.
pub proof fn shared_loggers_affect_every_stream(runtime: RuntimeModel, stream: OutputStream)
    ensures
        runtime.logger matches Some(logger) ==> stream_stages(runtime, stream).contains(
            logger.stage,
        ),
        stream_health(runtime, stream) is None <==> stream_pipe(runtime, stream) is None,
{
    if runtime.logger is Some {
        assert(stream_stages(runtime, stream).last() == runtime.logger->0.stage);
    }
}

/// A runtime begins with one stopped stage for every planned route and logger, in plan
/// order, and reporting a stage changes no other.
pub proof fn reports_change_one_stage(
    plan: PlanModel,
    position: int,
    other: int,
    generation: u64,
    state: SupervisorState,
)
    requires
        0 <= position < plan.local_files.len(),
        0 <= other < plan.local_files.len(),
        position != other,
    ensures
        ({
            let fresh = fresh_runtime(plan);
            let after = stage_updated(fresh, position, generation, state);
            &&& fresh.local_files.len() == plan.local_files.len()
            &&& fresh.local_files[position].plan == plan.local_files[position]
            &&& fresh.local_files[position].stage.state is Down
            &&& fresh.local_files[position].stage.generation == 0
            &&& fresh.logger is Some <==> plan.logger is Some
            &&& after.local_files[position].stage.state == state
            &&& after.local_files[position].stage.generation == generation
            &&& after.local_files[position].plan == fresh.local_files[position].plan
            &&& after.local_files[other] == fresh.local_files[other]
            &&& after.logger == fresh.logger
            &&& logger_updated(fresh, generation, state).local_files == fresh.local_files
            &&& plan.logger is Some ==> logger_updated(fresh, generation, state).logger->0.stage.state
                == state && logger_updated(
                fresh,
                generation,
                state,
            ).logger->0.stage.generation == generation
        }),
{
}

} // verus!
