//! Logging graph planning from validated service configuration.
//!
//! This is the pure description layer before any pipes, children, or descriptors
//! exist. Route order and validation precedence are fixed here so that runtime
//! setup can allocate durable resources without reinterpreting policy.

use vstd::prelude::*;
use vstd::string::*;

use crate::config::model;
use crate::config::model::{FileLogModel, LoggingModel, RoutesModel};
use crate::config::{FileLogConfig, FileLogRoutes, LoggingConfig};
use crate::text;

use super::LoggingError;

verus! {

/// Child output stream attached to one pipeline.
#[derive(Clone, Copy, Debug, PartialEq, Eq, Structural)]
pub enum OutputStream {
    /// Standard output only.
    Stdout,
    /// Standard error only.
    Stderr,
    /// Standard output and error share one pipe.
    Combined,
}

/// Backpressure behavior between a service and logger chain.
#[derive(Clone, Copy, Debug, PartialEq, Eq, Structural)]
pub enum BackpressurePolicy {
    /// Block producers through normal kernel-pipe pressure; never drop silently.
    LosslessBlock,
}

/// One separately supervised process in a logger chain.
#[derive(Clone, Debug, PartialEq, Eq)]
pub enum LoggerStage {
    /// Small replaceable `immortallog` compatibility process.
    FileAdapter(FileLogConfig),
    /// Operator-selected external logger argv.
    External(Vec<String>),
}

/// Pure view of a stage.
pub enum StageModel {
    FileAdapter(FileLogModel),
    External(Seq<Seq<char>>),
}

impl View for LoggerStage {
    type V = StageModel;

    open spec fn view(&self) -> StageModel {
        match *self {
            LoggerStage::FileAdapter(file) => StageModel::FileAdapter(file@),
            LoggerStage::External(command) => StageModel::External(text::texts(command@)),
        }
    }
}

/// One local-file route attached to an exact child stream selection.
#[derive(Clone, Debug, PartialEq, Eq)]
pub struct FileRoutePlan {
    /// Service descriptors connected to this adapter.
    pub stream: OutputStream,
    /// Local destination and rotation policy.
    pub file: FileLogConfig,
    /// Loss policy between processes.
    pub backpressure: BackpressurePolicy,
}

/// Pure view of a route.
#[verifier::ext_equal]
pub struct RoutePlanModel {
    pub stream: OutputStream,
    pub file: FileLogModel,
    pub backpressure: BackpressurePolicy,
}

impl View for FileRoutePlan {
    type V = RoutePlanModel;

    open spec fn view(&self) -> RoutePlanModel {
        RoutePlanModel {
            stream: self.stream,
            file: self.file@,
            backpressure: self.backpressure,
        }
    }
}

/// Views of routes in order.
pub open spec fn route_views(routes: Seq<FileRoutePlan>) -> Seq<RoutePlanModel> {
    routes.map_values(|route: FileRoutePlan| route@)
}

/// Complete local-file and centralized-logger graph for one service.
#[derive(Clone, Debug, PartialEq, Eq)]
pub struct LoggingPlan {
    /// Zero, one, or two independently supervised local file adapters.
    pub local_files: Vec<FileRoutePlan>,
    /// At most one external logger receiving merged stdout and stderr.
    pub logger: Option<Vec<String>>,
}

/// Pure view of a plan.
#[verifier::ext_equal]
pub struct PlanModel {
    pub local_files: Seq<RoutePlanModel>,
    pub logger: Option<Seq<Seq<char>>>,
}

impl View for LoggingPlan {
    type V = PlanModel;

    open spec fn view(&self) -> PlanModel {
        PlanModel {
            local_files: route_views(self.local_files@),
            logger: model::optional_argv(self.logger),
        }
    }
}

impl Default for LoggingPlan {
    fn default() -> (plan: Self)
        ensures
            plan@ == (PlanModel { local_files: Seq::empty(), logger: None }),
    {
        let plan = LoggingPlan { local_files: Vec::new(), logger: None };
        assert(plan@ =~= (PlanModel { local_files: Seq::empty(), logger: None }));
        plan
    }
}

/// A lossless route.
pub open spec fn lossless(stream: OutputStream, file: FileLogModel) -> RoutePlanModel {
    RoutePlanModel { stream, file, backpressure: BackpressurePolicy::LosslessBlock }
}

/// Route of one optional stream.
pub open spec fn stream_route(
    stream: OutputStream,
    file: Option<FileLogModel>,
) -> Seq<RoutePlanModel> {
    match file {
        Some(file) => seq![lossless(stream, file)],
        None => Seq::empty(),
    }
}

/// Routes of a local-file selection, stdout first.
pub open spec fn local_routes(files: Option<RoutesModel>) -> Seq<RoutePlanModel> {
    match files {
        None => Seq::empty(),
        Some(RoutesModel::Combined(file)) => seq![lossless(OutputStream::Combined, file)],
        Some(RoutesModel::Selected { stdout, stderr }) => stream_route(
            OutputStream::Stdout,
            stdout,
        ) + stream_route(OutputStream::Stderr, stderr),
    }
}

/// Whether an external command names no executable.
pub open spec fn empty_command(command: Option<Seq<Seq<char>>>) -> bool {
    command matches Some(argv) && (argv.len() == 0 || argv[0].len() == 0)
}

/// Graph which a configuration describes. The external command is checked before
/// the selection.
pub open spec fn planned(config: LoggingModel) -> Result<PlanModel, LoggingError> {
    if empty_command(config.logger) {
        Err(LoggingError::EmptyExternalCommand)
    } else if config.files matches Some(RoutesModel::Selected { stdout, stderr }) && stdout is None
        && stderr is None {
        Err(LoggingError::EmptyFileSelection)
    } else {
        Ok(PlanModel { local_files: local_routes(config.files), logger: config.logger })
    }
}

fn lossless_route(stream: OutputStream, file: &FileLogConfig) -> (route: FileRoutePlan)
    ensures
        route@ == lossless(stream, file@),
{
    FileRoutePlan {
        stream,
        file: file.duplicate(),
        backpressure: BackpressurePolicy::LosslessBlock,
    }
}

fn names_executable(argv: &Vec<String>) -> (named: bool)
    ensures
        named == !empty_command(Some(text::texts(argv@))),
{
    if argv.len() == 0 {
        return false;
    }
    assert(text::texts(argv@)[0] == argv@[0]@);
    !text::is_empty_text(argv[0].as_str())
}

fn push_route(
    routes: &mut Vec<FileRoutePlan>,
    stream: OutputStream,
    file: &Option<FileLogConfig>,
)
    ensures
        route_views(final(routes)@) == route_views(old(routes)@) + stream_route(
            stream,
            model::optional_file(*file),
        ),
{
    if let Some(file) = file {
        routes.push(lossless_route(stream, file));
    }
    assert(route_views(routes@) =~= route_views(old(routes)@) + stream_route(
        stream,
        model::optional_file(*file),
    ));
}

impl LoggingPlan {
    /// Normalize output configuration into local routes and one shared sink.
    ///
    /// Local stream selection never filters the external logger. When both are
    /// configured, file-adapter passthrough writers converge on one kernel pipe
    /// owned by the broker.
    ///
    /// # Errors
    ///
    /// Returns an error for an empty external command or empty selected route.
    pub fn from_config(config: &LoggingConfig) -> (plan: Result<Self, LoggingError>)
        ensures
            match plan {
                Ok(plan) => planned(config@) == Ok::<PlanModel, LoggingError>(plan@),
                Err(error) => planned(config@) == Err::<PlanModel, LoggingError>(error),
            },
    {
        let logger = match &config.logger {
            Some(argv) => {
                if !names_executable(argv) {
                    return Err(LoggingError::EmptyExternalCommand);
                }
                Some(text::copy_texts(argv))
            },
            None => None,
        };
        let mut local_files: Vec<FileRoutePlan> = Vec::new();
        match &config.files {
            Some(FileLogRoutes::Combined(file)) => {
                local_files.push(lossless_route(OutputStream::Combined, file));
            },
            Some(FileLogRoutes::Selected { stdout, stderr }) => {
                if stdout.is_none() && stderr.is_none() {
                    return Err(LoggingError::EmptyFileSelection);
                }
                push_route(&mut local_files, OutputStream::Stdout, stdout);
                push_route(&mut local_files, OutputStream::Stderr, stderr);
            },
            None => {},
        }
        assert(route_views(local_files@) =~= local_routes(config@.files));
        Ok(LoggingPlan { local_files, logger })
    }
}

/// Local stream selection never filters the external logger.
pub proof fn selection_never_filters_the_logger(config: LoggingModel)
    ensures
        planned(config) matches Ok(plan) ==> plan.logger == config.logger,
{
}

/// A plan holds at most two routes, no stream twice, and a combined route only
/// alone.
pub proof fn routes_never_overlap(config: LoggingModel)
    ensures
        planned(config) matches Ok(plan) ==> {
            &&& plan.local_files.len() <= 2
            &&& forall|i: int, j: int|
                0 <= i < j < plan.local_files.len() ==> {
                    &&& (#[trigger] plan.local_files[i]).stream != (
                    #[trigger] plan.local_files[j]).stream
                    &&& !(plan.local_files[i].stream is Combined)
                    &&& !(plan.local_files[j].stream is Combined)
                }
        },
{
}

/// Every configured file gets a route of its own for exactly the stream it was named
/// for, nothing else gets one, no route may lose output, and the logger is taken as
/// configured.
pub proof fn every_file_gets_its_own_route(config: LoggingModel, plan: PlanModel)
    requires
        planned(config) == Ok::<PlanModel, LoggingError>(plan),
    ensures
        plan.logger == config.logger,
        config.files is None ==> plan.local_files.len() == 0,
        config.files matches Some(RoutesModel::Combined(file)) ==> plan.local_files.len() == 1
            && plan.local_files[0].stream == OutputStream::Combined && plan.local_files[0].file
            == file,
        config.files matches Some(RoutesModel::Selected { stdout, stderr }) ==> {
            &&& plan.local_files.len() == (if stdout is Some {
                1int
            } else {
                0int
            }) + (if stderr is Some {
                1int
            } else {
                0int
            })
            &&& plan.local_files.len() > 0
            &&& stdout matches Some(file) ==> plan.local_files.first().stream
                == OutputStream::Stdout && plan.local_files.first().file == file
            &&& stderr matches Some(file) ==> plan.local_files.last().stream
                == OutputStream::Stderr && plan.local_files.last().file == file
        },
        forall|i: int|
            0 <= i < plan.local_files.len() ==> (#[trigger] plan.local_files[i]).backpressure
                == BackpressurePolicy::LosslessBlock,
{
}

/// A configuration is planned unless its logger names nothing or its selection is empty.
pub proof fn only_empty_outputs_are_refused(config: LoggingModel)
    ensures
        planned(config) is Err <==> (config.logger matches Some(argv) && (argv.len() == 0
            || argv[0].len() == 0)) || config.files == Some(
            RoutesModel::Selected { stdout: None, stderr: None },
        ),
{
}

} // verus!
