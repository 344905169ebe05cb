//! Pre-runtime support checks and logging materialization.
//!
//! Everything which configuration alone decides is resolved before the broker
//! forks: unsupported capabilities are refused, logger identities and file-adapter
//! command lines are laid out, and the lifetime cleanup plan is fixed.

use vstd::prelude::*;
use vstd::string::*;
use vstd::utf8::*;

use crate::config::model;
use crate::config::model::{FileLogModel, LoggingModel};
use crate::config::{FileLogConfig, RestartPolicy, ServiceConfig};
use crate::fault;
use crate::fault::{Fault, FaultKind};
use crate::logging::plan;
use crate::logging::plan::PlanModel;
use crate::logging::{LoggingPlan, OutputStream};
use crate::path;
use crate::path::{file_name, UnixPath, SEPARATOR};
use crate::process::BrokerLoggerId;
use crate::text;
use crate::text::{decode_text, push_decimal};

use super::context;
use super::context::{os_error, PreparedCommands};
use super::error::{ErrorModel, ExecutorError};

verus! {

// ---------------------------------------------------------------------------
// Capabilities
// ---------------------------------------------------------------------------

/// First capability which the executor lacks for a configuration.
pub open spec fn unsupported(config: ServiceConfig, controlled: bool) -> Option<Seq<char>> {
    if !config.enabled {
        Some("disabled service execution"@)
    } else if config.requires_services@.len() > 0 {
        Some("dependencies"@)
    } else if !controlled && !config.restart.exit_when_done && (config.restart.policy
        == RestartPolicy::Never || config.restart.policy == RestartPolicy::OnFailure) {
        Some("a persistent childless Down state before the control loop is enabled"@)
    } else {
        None
    }
}

/// Refuse a configuration which the executor cannot run.
///
/// # Errors
///
/// Fails exactly for a disabled service, for dependencies, and for a service
/// which would stay down without an operator.
pub fn validate_supported(config: &ServiceConfig, controlled: bool) -> (result: Result<
    (),
    ExecutorError,
>)
    ensures
        match result {
            Ok(()) => unsupported(*config, controlled) is None,
            Err(error) => match unsupported(*config, controlled) {
                Some(capability) => error@ == ErrorModel::Unsupported(capability),
                None => false,
            },
        },
{
    if !config.enabled {
        return Err(ExecutorError::Unsupported("disabled service execution"));
    }
    if config.requires_services.len() > 0 {
        return Err(ExecutorError::Unsupported("dependencies"));
    }
    if !controlled && !config.restart.exit_when_done && matches!(
        config.restart.policy,
        RestartPolicy::Never | RestartPolicy::OnFailure
    ) {
        return Err(
            ExecutorError::Unsupported(
                "a persistent childless Down state before the control loop is enabled",
            ),
        );
    }
    Ok(())
}

// ---------------------------------------------------------------------------
// Commands
// ---------------------------------------------------------------------------

/// Commands which a configuration asks for besides the service itself.
pub open spec fn requested_commands(config: ServiceConfig) -> PreparedCommands {
    PreparedCommands {
        condition: config.start_condition is Some,
        descriptor_reload: config.descriptor_tracking is Some,
        descriptor_stop: config.descriptor_tracking is Some,
        post_exit: config.post_exit is Some,
    }
}

/// Commands which must be prepared, besides the service itself, before a
/// configuration can run.
///
/// # Errors
///
/// Fails exactly for a configuration which the executor cannot run.
pub fn prepare_execution(config: &ServiceConfig, controlled: bool) -> (commands: Result<
    PreparedCommands,
    ExecutorError,
>)
    ensures
        match commands {
            Ok(commands) => unsupported(*config, controlled) is None && commands
                == requested_commands(*config),
            Err(error) => match unsupported(*config, controlled) {
                Some(capability) => error@ == ErrorModel::Unsupported(capability),
                None => false,
            },
        },
{
    match validate_supported(config, controlled) {
        Ok(()) => {},
        Err(error) => return Err(error),
    }
    let tracking = config.descriptor_tracking.is_some();
    Ok(
        PreparedCommands {
            condition: config.start_condition.is_some(),
            descriptor_reload: tracking,
            descriptor_stop: tracking,
            post_exit: config.post_exit.is_some(),
        },
    )
}

// ---------------------------------------------------------------------------
// File adapters
// ---------------------------------------------------------------------------

/// Option and value of one limit.
pub open spec fn limit_arguments(option: Seq<char>, limit: Option<u64>) -> Seq<Seq<u8>> {
    match limit {
        Some(limit) => seq![encode_utf8(option), encode_utf8(text::decimal(limit as nat))],
        None => Seq::empty(),
    }
}

/// A flag which is present or not.
pub open spec fn flag_argument(option: Seq<char>, set: bool) -> Seq<Seq<u8>> {
    if set {
        seq![encode_utf8(option)]
    } else {
        Seq::empty()
    }
}

/// Widened archive count.
pub open spec fn widened(count: Option<u32>) -> Option<u64> {
    match count {
        Some(count) => Some(count as u64),
        None => None,
    }
}

/// Arguments of a file adapter: limits, flags, and at last the destination.
pub open spec fn adapter_command(file: FileLogModel, has_downstream: bool) -> Seq<Seq<u8>> {
    (limit_arguments("--max-age"@, file.max_age_seconds) + limit_arguments(
        "--keep"@,
        widened(file.keep),
    ) + limit_arguments("--max-bytes"@, file.max_bytes) + flag_argument(
        "--timestamp"@,
        file.timestamp,
    ) + flag_argument("--passthrough"@, has_downstream)).push(file.file)
}

/// Views of arguments in order.
pub open spec fn argument_bytes(arguments: Seq<Vec<u8>>) -> Seq<Seq<u8>> {
    arguments.map_values(|argument: Vec<u8>| argument@)
}

fn push_text(arguments: &mut Vec<Vec<u8>>, argument: &str)
    ensures
        argument_bytes(final(arguments)@) == argument_bytes(old(arguments)@).push(
            encode_utf8(argument@),
        ),
{
    arguments.push(vstd::slice::slice_to_vec(argument.as_bytes()));
    assert(argument_bytes(arguments@) =~= argument_bytes(old(arguments)@).push(
        encode_utf8(argument@),
    ));
}

fn push_logger_limit(arguments: &mut Vec<Vec<u8>>, option: &str, limit: Option<u64>)
    ensures
        argument_bytes(final(arguments)@) == argument_bytes(old(arguments)@) + limit_arguments(
            option@,
            limit,
        ),
{
    if let Some(limit) = limit {
        push_text(arguments, option);
        let mut spelled = String::new();
        push_decimal(&mut spelled, limit);
        assert(spelled@ =~= text::decimal(limit as nat));
        push_text(arguments, spelled.as_str());
    }
    assert(argument_bytes(arguments@) =~= argument_bytes(old(arguments)@) + limit_arguments(
        option@,
        limit,
    ));
}

fn push_flag(arguments: &mut Vec<Vec<u8>>, option: &str, set: bool)
    ensures
        argument_bytes(final(arguments)@) == argument_bytes(old(arguments)@) + flag_argument(
            option@,
            set,
        ),
{
    if set {
        push_text(arguments, option);
    }
    assert(argument_bytes(arguments@) =~= argument_bytes(old(arguments)@) + flag_argument(
        option@,
        set,
    ));
}

/// Arguments of a file adapter.
#[must_use]
pub fn prepare_file_adapter(file: &FileLogConfig, has_downstream: bool) -> (arguments: Vec<
    Vec<u8>,
>)
    ensures
        argument_bytes(arguments@) == adapter_command(file@, has_downstream),
{
    let mut arguments: Vec<Vec<u8>> = Vec::new();
    assert(argument_bytes(arguments@) =~= Seq::empty());
    push_logger_limit(&mut arguments, "--max-age", file.max_age_seconds);
    let keep: Option<u64> = match file.keep {
        Some(keep) => Some(keep as u64),
        None => None,
    };
    push_logger_limit(&mut arguments, "--keep", keep);
    push_logger_limit(&mut arguments, "--max-bytes", file.max_bytes);
    push_flag(&mut arguments, "--timestamp", file.timestamp);
    push_flag(&mut arguments, "--passthrough", has_downstream);
    let ghost before = argument_bytes(arguments@);
    arguments.push(file.file.duplicate().bytes);
    proof {
        assert(argument_bytes(arguments@) =~= before.push(file@.file));
        assert(Seq::<Seq<u8>>::empty() + limit_arguments("--max-age"@, file@.max_age_seconds)
            =~= limit_arguments("--max-age"@, file@.max_age_seconds));
    }
    arguments
}

/// Path of an entry inside a directory.
pub open spec fn child_path(directory: Seq<u8>, name: Seq<u8>) -> Seq<u8> {
    if directory.len() == 0 || directory.last() == SEPARATOR {
        directory + name
    } else {
        directory.push(SEPARATOR) + name
    }
}

/// Program of the file adapter: the configured one, or `immortallog` beside the
/// supervisor's own executable.
pub open spec fn adapter_program(
    configured: Option<Seq<u8>>,
    directory: Option<Seq<u8>>,
) -> Option<Seq<u8>> {
    match configured {
        Some(program) => Some(program),
        None => match directory {
            Some(directory) => Some(child_path(directory, encode_utf8("immortallog"@))),
            None => None,
        },
    }
}

/// Failure of an executable without a directory.
pub open spec fn homeless_executable() -> fault::FaultModel {
    fault::raised(
        FaultKind::InvalidInput,
        "immortal executable has no parent directory"@,
    )
}

fn append(out: &mut Vec<u8>, bytes: &[u8])
    ensures
        final(out)@ == old(out)@ + bytes@,
{
    let mut index: usize = 0;
    while index < bytes.len()
        invariant
            index <= bytes@.len(),
            out@ == old(out)@ + bytes@.take(index as int),
        decreases bytes@.len() - index,
    {
        out.push(bytes[index]);
        index = index + 1;
        assert(out@ =~= old(out)@ + bytes@.take(index as int));
    }
    assert(bytes@.take(index as int) =~= bytes@);
}

/// Program of the file adapter. `directory` holds the supervisor's own
/// executable.
///
/// # Errors
///
/// Fails when no program is configured and the executable has no directory.
pub fn logger_adapter_program(
    configured: Option<&UnixPath>,
    directory: Option<&UnixPath>,
) -> (program: Result<UnixPath, Fault>)
    ensures
        match program {
            Ok(program) => adapter_program(path_view(configured), path_view(directory)) == Some(
                program@,
            ),
            Err(error) => adapter_program(path_view(configured), path_view(directory)) is None
                && error@ == homeless_executable(),
        },
{
    if let Some(configured) = configured {
        return Ok(configured.duplicate());
    }
    match directory {
        Some(directory) => {
            let mut program = directory.duplicate();
            let length: usize = program.bytes.len();
            if length > 0 && program.bytes[length - 1] != SEPARATOR {
                program.bytes.push(SEPARATOR);
            }
            append(&mut program.bytes, "immortallog".as_bytes());
            Ok(program)
        },
        None => Err(
            Fault::new(
                FaultKind::InvalidInput,
                "immortal executable has no parent directory",
            ),
        ),
    }
}

/// View of an optional borrowed path.
pub open spec fn path_view(path: Option<&UnixPath>) -> Option<Seq<u8>> {
    match path {
        Some(path) => Some(path@),
        None => None,
    }
}

// ---------------------------------------------------------------------------
// Logging
// ---------------------------------------------------------------------------

/// One file adapter to launch.
#[derive(Debug)]
pub struct PreparedAdapter {
    /// Service descriptors connected to the adapter.
    pub stream: OutputStream,
    /// Program to execute.
    pub program: UnixPath,
    /// Its arguments.
    pub arguments: Vec<Vec<u8>>,
}

/// Pure view of a file adapter to launch.
#[verifier::ext_equal]
pub struct AdapterModel {
    pub stream: OutputStream,
    pub program: Seq<u8>,
    pub arguments: Seq<Seq<u8>>,
}

impl View for PreparedAdapter {
    type V = AdapterModel;

    open spec fn view(&self) -> AdapterModel {
        AdapterModel {
            stream: self.stream,
            program: self.program@,
            arguments: argument_bytes(self.arguments@),
        }
    }
}

/// Logging processes of one service.
#[derive(Debug)]
pub struct PreparedLogging {
    /// File adapters in route order.
    pub adapters: Vec<PreparedAdapter>,
    /// Argv of the shared external logger.
    pub logger: Option<Vec<String>>,
    /// Broker identities: the shared logger first, then one per adapter.
    pub loggers: Vec<BrokerLoggerId>,
}

/// Pure view of logging processes.
#[verifier::ext_equal]
pub struct PreparedModel {
    pub adapters: Seq<AdapterModel>,
    pub logger: Option<Seq<Seq<char>>>,
    pub loggers: Seq<BrokerLoggerId>,
}

/// Views of adapters in order.
pub open spec fn adapter_views(adapters: Seq<PreparedAdapter>) -> Seq<AdapterModel> {
    adapters.map_values(|adapter: PreparedAdapter| adapter@)
}

impl View for PreparedLogging {
    type V = PreparedModel;

    open spec fn view(&self) -> PreparedModel {
        PreparedModel {
            adapters: adapter_views(self.adapters@),
            logger: model::optional_argv(self.logger),
            loggers: self.loggers@,
        }
    }
}

/// Identity of the shared logger.
pub open spec fn shared_identity() -> BrokerLoggerId {
    BrokerLoggerId { route: u16::MAX, position: u16::MAX, shared: true }
}

/// Identity of the adapter of one route.
pub open spec fn adapter_identity(route: int) -> BrokerLoggerId {
    BrokerLoggerId { route: route as u16, position: 0, shared: false }
}

/// Processes of a plan.
pub open spec fn launched(plan: PlanModel, program: Seq<u8>) -> PreparedModel {
    let shared = if plan.logger is Some {
        seq![shared_identity()]
    } else {
        Seq::empty()
    };
    PreparedModel {
        adapters: Seq::new(
            plan.local_files.len(),
            |i: int|
                AdapterModel {
                    stream: plan.local_files[i].stream,
                    program,
                    arguments: adapter_command(plan.local_files[i].file, plan.logger is Some),
                },
        ),
        logger: plan.logger,
        loggers: shared + Seq::new(plan.local_files.len(), |i: int| adapter_identity(i)),
    }
}

/// Processes which an output configuration asks for.
pub open spec fn prepared(
    config: LoggingModel,
    directory: Option<Seq<u8>>,
) -> Result<PreparedModel, ErrorModel> {
    match plan::planned(config) {
        Err(error) => Err(
            ErrorModel::OperatingSystem(fault::raised(FaultKind::InvalidInput, error.text())),
        ),
        Ok(plan) => if plan.local_files.len() == 0 {
            Ok(launched(plan, Seq::empty()))
        } else {
            match adapter_program(config.file_adapter, directory) {
                Some(program) => Ok(launched(plan, program)),
                None => Err(ErrorModel::OperatingSystem(homeless_executable())),
            }
        },
    }
}

fn launch(plan: LoggingPlan, program: &UnixPath) -> (launch: PreparedLogging)
    requires
        plan@.local_files.len() <= 2,
    ensures
        launch@ == launched(plan@, program@),
{
    let has_logger = plan.logger.is_some();
    let mut adapters: Vec<PreparedAdapter> = Vec::new();
    let mut loggers: Vec<BrokerLoggerId> = Vec::new();
    if has_logger {
        loggers.push(BrokerLoggerId::shared_logger());
    }
    let ghost shared = loggers@;
    let mut index: usize = 0;
    while index < plan.local_files.len()
        invariant
            index <= plan.local_files@.len() <= 2,
            has_logger == (plan@.logger is Some),
            adapters@.len() == index,
            forall|i: int|
                0 <= i < index ==> (#[trigger] adapters@[i])@ == launched(
                    plan@,
                    program@,
                ).adapters[i],
            loggers@ == shared + Seq::new(index as nat, |i: int| adapter_identity(i)),
        decreases plan.local_files@.len() - index,
    {
        let route = &plan.local_files[index];
        assert(plan@.local_files[index as int] == route@);
        adapters.push(
            PreparedAdapter {
                stream: route.stream,
                program: program.duplicate(),
                arguments: prepare_file_adapter(&route.file, has_logger),
            },
        );
        loggers.push(BrokerLoggerId::new(index as u16, 0));
        index = index + 1;
        assert(loggers@ =~= shared + Seq::new(index as nat, |i: int| adapter_identity(i)));
    }
    let prepared = PreparedLogging { adapters, logger: plan.logger, loggers };
    assert(shared =~= (if plan@.logger is Some {
        seq![shared_identity()]
    } else {
        Seq::empty()
    }));
    assert(prepared@ =~= launched(plan@, program@));
    prepared
}

/// Whether an output configuration has to find its adapter beside the supervisor's
/// own executable: it writes local files and configures no adapter.
pub open spec fn needs_directory(config: LoggingModel) -> bool {
    &&& config.file_adapter is None
    &&& plan::planned(config) matches Ok(plan) && plan.local_files.len() > 0
}

/// Whether the logging processes of one service depend on where the supervisor's
/// own executable is.
#[must_use]
pub fn needs_executable_directory(config: &ServiceConfig) -> (needed: bool)
    ensures
        needed == needs_directory(config.logging@),
{
    if config.logging.file_adapter.is_some() {
        return false;
    }
    match LoggingPlan::from_config(&config.logging) {
        Ok(plan) => {
            assert(plan@.local_files.len() == plan.local_files@.len());
            plan.local_files.len() > 0
        },
        Err(_) => false,
    }
}

/// Where nothing depends on the executable's directory, every directory gives the
/// same logging processes.
pub proof fn unneeded_directories_change_nothing(
    config: LoggingModel,
    directory: Option<Seq<u8>>,
    other: Option<Seq<u8>>,
)
    requires
        !needs_directory(config),
    ensures
        prepared(config, directory) == prepared(config, other),
{
}

/// Lay out the logging processes of one service. `directory` holds the
/// supervisor's own executable.
///
/// # Errors
///
/// Fails for an invalid plan, and when local files need an adapter which cannot
/// be located.
pub fn prepare_logging(config: &ServiceConfig, directory: Option<&UnixPath>) -> (prepared_logging:
    Result<PreparedLogging, ExecutorError>)
    ensures
        match prepared_logging {
            Ok(launch) => prepared(config.logging@, path_view(directory)) == Ok::<
                PreparedModel,
                ErrorModel,
            >(launch@),
            Err(error) => prepared(config.logging@, path_view(directory)) == Err::<
                PreparedModel,
                ErrorModel,
            >(error@),
        },
{
    let plan = match LoggingPlan::from_config(&config.logging) {
        Ok(plan) => plan,
        Err(error) => {
            let message = error.message();
            return Err(os_error(FaultKind::InvalidInput, message.as_str()));
        },
    };
    proof {
        plan::routes_never_overlap(config.logging@);
    }
    if plan.local_files.len() == 0 {
        let nowhere = UnixPath { bytes: Vec::new() };
        assert(nowhere@ =~= Seq::empty());
        return Ok(launch(plan, &nowhere));
    }
    let configured = match &config.logging.file_adapter {
        Some(program) => Some(program),
        None => None,
    };
    match logger_adapter_program(configured, directory) {
        Ok(program) => Ok(launch(plan, &program)),
        Err(error) => Err(ExecutorError::OperatingSystem(error)),
    }
}

// ---------------------------------------------------------------------------
// Lifetime and identity
// ---------------------------------------------------------------------------

/// Time limits of descriptor lifetime cleanup, in seconds.
#[derive(Clone, Copy, Debug, PartialEq, Eq, Structural)]
pub struct LifetimePlan {
    /// Time the stop hook may take.
    pub stop_seconds: u64,
    /// Time the lifetime descriptor may take to close afterwards.
    pub lifetime_seconds: u64,
}

/// Time limits of descriptor lifetime cleanup, absent without tracking.
///
/// # Errors
///
/// Fails when tracking is configured but its stop command was not prepared.
pub fn broker_lifetime_plan(config: &ServiceConfig, commands: PreparedCommands) -> (lifetime:
    Result<Option<LifetimePlan>, ExecutorError>)
    ensures
        match (config.descriptor_tracking, lifetime) {
            (None, Ok(plan)) => plan is None,
            (Some(tracking), Ok(plan)) => commands.descriptor_stop && plan == Some(
                LifetimePlan {
                    stop_seconds: tracking.stop.timeout_seconds,
                    lifetime_seconds: tracking.lifetime_timeout_seconds,
                },
            ),
            (Some(_), Err(error)) => !commands.descriptor_stop && error@ == context::os_failure(
                FaultKind::InvalidData,
                "prepared descriptor stop command is absent"@,
            ),
            (None, Err(_)) => false,
        },
{
    match &config.descriptor_tracking {
        None => Ok(None),
        Some(tracking) => {
            if !commands.descriptor_stop {
                return Err(
                    os_error(
                        FaultKind::InvalidData,
                        "prepared descriptor stop command is absent",
                    ),
                );
            }
            Ok(
                Some(
                    LifetimePlan {
                        stop_seconds: tracking.stop.timeout_seconds,
                        lifetime_seconds: tracking.lifetime_timeout_seconds,
                    },
                ),
            )
        },
    }
}

/// Service name which a runtime directory carries: its last name, as text.
pub open spec fn directory_service(directory: Seq<u8>) -> Option<Seq<char>> {
    match path::last_name(directory) {
        Some(name) => if valid_utf8(name) {
            Some(decode_utf8(name))
        } else {
            None
        },
        None => None,
    }
}

/// Service name which a runtime directory carries.
///
/// # Errors
///
/// Fails for a directory without a last name and for a name which is not UTF-8.
pub fn service_name_of(directory: &UnixPath) -> (name: Result<String, ExecutorError>)
    ensures
        match name {
            Ok(name) => directory_service(directory@) == Some(name@),
            Err(error) => directory_service(directory@) is None && error@ == context::os_failure(
                FaultKind::InvalidInput,
                "invalid service name"@,
            ),
        },
{
    match file_name(directory) {
        Some(name) => match decode_text(name.as_slice()) {
            Ok(name) => Ok(name),
            Err(_) => Err(os_error(FaultKind::InvalidInput, "invalid service name")),
        },
        None => Err(os_error(FaultKind::InvalidInput, "invalid service name")),
    }
}

// ---------------------------------------------------------------------------
// Laws
// ---------------------------------------------------------------------------

/// A service is executed exactly when it is enabled, needs no other service, and either
/// has an operator, is always restarted, or ends with its work.
pub proof fn supported_services_can_be_finished(config: ServiceConfig, controlled: bool)
    ensures
        unsupported(config, controlled) is None <==> config.enabled
            && config.requires_services@.len() == 0 && (controlled
            || config.restart.exit_when_done || config.restart.policy == RestartPolicy::Always),
{
}

/// Exactly the commands which a definition asks for are prepared.
pub proof fn only_configured_commands_are_prepared(config: ServiceConfig)
    ensures
        ({
            let commands = requested_commands(config);
            &&& commands.condition <==> config.start_condition is Some
            &&& commands.post_exit <==> config.post_exit is Some
            &&& commands.descriptor_stop <==> config.descriptor_tracking is Some
            &&& commands.descriptor_reload <==> config.descriptor_tracking is Some
        }),
{
}

/// An adapter is told its destination last, each configured limit directly behind its
/// own option, and to pass output on exactly when a logger follows.
pub proof fn adapters_are_told_their_limits(file: FileLogModel, has_downstream: bool)
    ensures
        ({
            let arguments = adapter_command(file, has_downstream);
            let keep = if file.max_age_seconds is Some {
                2int
            } else {
                0int
            };
            let size = keep + (if file.keep is Some {
                2int
            } else {
                0int
            });
            let flags = size + (if file.max_bytes is Some {
                2int
            } else {
                0int
            });
            let end = flags + (if file.timestamp {
                1int
            } else {
                0int
            });
            &&& arguments.last() == file.file
            &&& arguments.len() == end + (if has_downstream {
                2int
            } else {
                1int
            })
            &&& file.max_age_seconds matches Some(age) ==> arguments[0] == encode_utf8(
                "--max-age"@,
            ) && arguments[1] == encode_utf8(text::decimal(age as nat))
            &&& file.keep matches Some(count) ==> arguments[keep] == encode_utf8("--keep"@)
                && arguments[keep + 1] == encode_utf8(text::decimal(count as nat))
            &&& file.max_bytes matches Some(bytes) ==> arguments[size] == encode_utf8(
                "--max-bytes"@,
            ) && arguments[size + 1] == encode_utf8(text::decimal(bytes as nat))
            &&& file.timestamp ==> arguments[flags] == encode_utf8("--timestamp"@)
            &&& has_downstream ==> arguments[end] == encode_utf8("--passthrough"@)
        }),
{
}

/// A configured adapter is used as it is; without one the adapter is `immortallog`
/// directly inside the directory of the supervisor's own executable.
pub proof fn adapters_are_found_beside_the_supervisor(
    configured: Seq<u8>,
    directory: Seq<u8>,
    other: Option<Seq<u8>>,
)
    ensures
        adapter_program(Some(configured), other) == Some(configured),
        adapter_program(None, None) is None,
        directory.len() > 0 && directory.last() != 47 ==> adapter_program(None, Some(directory))
            == Some(directory + seq![47u8] + encode_utf8("immortallog"@)),
        directory.len() > 0 && directory.last() == 47 ==> adapter_program(None, Some(directory))
            == Some(directory + encode_utf8("immortallog"@)),
{
    assert(directory.push(47) =~= directory + seq![47u8]);
}

/// One adapter is launched for every route, for its stream and with its limits, and
/// every process has an identity of its own; only the logger's is the shared one.
pub proof fn every_route_is_launched_once(plan: PlanModel, program: Seq<u8>, at: int, other: int)
    requires
        plan.local_files.len() <= 2,
        0 <= at < plan.local_files.len(),
        0 <= other < plan.local_files.len(),
    ensures
        ({
            let launch = launched(plan, program);
            let first = if plan.logger is Some {
                1int
            } else {
                0int
            };
            &&& launch.logger == plan.logger
            &&& launch.adapters.len() == plan.local_files.len()
            &&& launch.adapters[at].stream == plan.local_files[at].stream
            &&& launch.adapters[at].program == program
            &&& launch.adapters[at].arguments.last() == plan.local_files[at].file.file
            &&& launch.loggers.len() == plan.local_files.len() + first
            &&& plan.logger is Some ==> launch.loggers[0].shared
            &&& !launch.loggers[first + at].shared
            &&& launch.loggers[first + at].route == at
            &&& at != other ==> launch.loggers[first + at] != launch.loggers[first + other]
        }),
{
    adapters_are_told_their_limits(plan.local_files[at].file, plan.logger is Some);
}

} // verus!
