//! Canonical documents written for validated definitions.
//!
//! A definition is written back through the canonical logging fields only:
//! deprecated spellings never reappear, and a default logger retry policy is left
//! out. What was written reads back as the same definition.

use vstd::prelude::*;
use vstd::string::*;

use crate::path;

use super::document;
use super::document::{ConfigDocument, CURRENT_VERSION};
use super::error::{ConfigError, ConfigFault};
use super::logging::wire;
use super::logging::{FileLogInput, LogInput, SelectedLogInput};
use super::model;
use super::model::{
    FileLogConfig, FileLogModel, FileLogRoutes, LoggerRestartConfig, LoggingModel, RoutesModel,
    ServiceConfig,
};
use super::paths;
use super::validate;
use super::validate::validate;

verus! {

/// Whether an input spells a destination, option by option.
pub open spec fn spells(input: FileLogInput, file: FileLogModel) -> bool {
    &&& input.file@ == file.file
    &&& input.age == file.max_age_seconds
    &&& input.keep == file.keep
    &&& input.size == file.max_bytes
    &&& input.timestamp == file.timestamp
}

/// Whether an optional input spells an optional destination.
pub open spec fn spells_optional(input: Option<FileLogInput>, file: Option<FileLogModel>) -> bool {
    match (input, file) {
        (Some(input), Some(file)) => spells(input, file),
        (None, None) => true,
        _ => false,
    }
}

/// Whether the `log` field spells local routes.
pub open spec fn spells_routes(log: Option<LogInput>, files: Option<RoutesModel>) -> bool {
    match (log, files) {
        (None, None) => true,
        (Some(LogInput::Combined(input)), Some(RoutesModel::Combined(file))) => spells(input, file),
        (
            Some(LogInput::Selected(selected)),
            Some(RoutesModel::Selected { stdout, stderr }),
        ) => spells_optional(selected.stdout, stdout) && spells_optional(selected.stderr, stderr),
        _ => false,
    }
}

/// Logger retry policy as it is written: a default one is left out.
pub open spec fn written_restart(restart: LoggerRestartConfig) -> Option<LoggerRestartConfig> {
    if restart == LoggerRestartConfig::standard() {
        None
    } else {
        Some(restart)
    }
}

/// Whether a document is the canonical one for a definition.
pub open spec fn describes(document: ConfigDocument, config: ServiceConfig) -> bool {
    &&& document.version == CURRENT_VERSION
    &&& document.enabled == config.enabled
    &&& document.command == config.command
    &&& document.working_directory == config.working_directory
    &&& document.environment == config.environment
    &&& document.environment_mode == config.environment_mode
    &&& document.user == config.user
    &&& document.start_delay_seconds == config.start_delay_seconds
    &&& document.restart == config.restart
    &&& document.readiness == config.readiness
    &&& document.requires_services == config.requires_services
    &&& document.start_condition == config.start_condition
    &&& document.post_exit == config.post_exit
    &&& spells_routes(document.log, config.logging@.files)
    &&& model::optional_argv(document.logger) == config.logging@.logger
    &&& model::optional_path(document.log_adapter) == config.logging@.file_adapter
    &&& document.logger_restart == written_restart(config.logging@.restart)
    &&& document.stderr is None
    &&& document.logging is None
    &&& document.pid_files == config.pid_files
    &&& document.process_mode == config.process_mode
    &&& document.descriptor_tracking == config.descriptor_tracking
}

fn input_for(file: FileLogConfig) -> (input: FileLogInput)
    ensures
        spells(input, file@),
{
    FileLogInput {
        file: file.file,
        age: file.max_age_seconds,
        keep: file.keep,
        size: file.max_bytes,
        timestamp: file.timestamp,
    }
}

fn optional_input(file: Option<FileLogConfig>) -> (input: Option<FileLogInput>)
    ensures
        spells_optional(input, model::optional_file(file)),
{
    match file {
        Some(file) => Some(input_for(file)),
        None => None,
    }
}

fn routes_input(files: Option<FileLogRoutes>) -> (log: Option<LogInput>)
    ensures
        spells_routes(log, model::optional_routes(files)),
{
    match files {
        None => None,
        Some(FileLogRoutes::Combined(file)) => Some(LogInput::Combined(input_for(file))),
        Some(FileLogRoutes::Selected { stdout, stderr }) => Some(
            LogInput::Selected(
                SelectedLogInput { stdout: optional_input(stdout), stderr: optional_input(stderr) },
            ),
        ),
    }
}

/// The canonical document of a validated definition.
///
/// # Errors
///
/// Returns a validation error listing every violation of the definition.
pub fn canonical_document(config: ServiceConfig) -> (result: Result<ConfigDocument, ConfigError>)
    ensures
        match result {
            Ok(document) => validate::violations(config).len() == 0 && describes(document, config),
            Err(error) => validate::violations(config).len() > 0 && error@
                == ConfigFault::Validation(validate::violations(config)),
        },
{
    match validate(&config) {
        Ok(()) => {},
        Err(error) => return Err(error),
    }
    let standard = LoggerRestartConfig::default();
    let logger_restart = if config.logging.restart == standard {
        None
    } else {
        Some(config.logging.restart)
    };
    Ok(
        ConfigDocument {
            version: CURRENT_VERSION,
            enabled: config.enabled,
            command: config.command,
            working_directory: config.working_directory,
            environment: config.environment,
            environment_mode: config.environment_mode,
            user: config.user,
            start_delay_seconds: config.start_delay_seconds,
            restart: config.restart,
            readiness: config.readiness,
            requires_services: config.requires_services,
            start_condition: config.start_condition,
            post_exit: config.post_exit,
            log: routes_input(config.logging.files),
            logger: config.logging.logger,
            log_adapter: config.logging.file_adapter,
            logger_restart,
            stderr: None,
            logging: None,
            pid_files: config.pid_files,
            process_mode: config.process_mode,
            descriptor_tracking: config.descriptor_tracking,
        },
    )
}

// ---------------------------------------------------------------------------
// Laws
// ---------------------------------------------------------------------------

/// Whether a destination states how many archives it keeps, or rotates nothing.
pub open spec fn retains(file: FileLogModel) -> bool {
    file.keep is None ==> file.max_age_seconds is None && file.max_bytes is None
}

/// Whether every destination states how many archives it keeps, or rotates
/// nothing.
pub open spec fn states_retention(logging: LoggingModel) -> bool {
    match logging.files {
        None => true,
        Some(RoutesModel::Combined(file)) => retains(file),
        Some(RoutesModel::Selected { stdout, stderr }) => (stdout matches Some(file) ==> retains(
            file,
        )) && (stderr matches Some(file) ==> retains(file)),
    }
}

/// Whether two definitions agree in every field.
pub open spec fn same_definition(left: ServiceConfig, right: ServiceConfig) -> bool {
    &&& left.enabled == right.enabled
    &&& left.command == right.command
    &&& left.working_directory == right.working_directory
    &&& left.environment == right.environment
    &&& left.environment_mode == right.environment_mode
    &&& left.user == right.user
    &&& left.start_delay_seconds == right.start_delay_seconds
    &&& left.restart == right.restart
    &&& left.readiness == right.readiness
    &&& left.requires_services == right.requires_services
    &&& left.start_condition == right.start_condition
    &&& left.post_exit == right.post_exit
    &&& left.logging@ == right.logging@
    &&& left.pid_files == right.pid_files
    &&& left.process_mode == right.process_mode
    &&& left.descriptor_tracking == right.descriptor_tracking
}

/// A valid definition which states its retention reads back from its canonical
/// document unchanged.
pub proof fn written_definitions_read_back(
    config: ServiceConfig,
    document: ConfigDocument,
    result: Result<ServiceConfig, ConfigError>,
)
    requires
        validate::violations(config).len() == 0,
        states_retention(config.logging@),
        describes(document, config),
        document::completes(Ok(document), result),
    ensures
        result matches Ok(read) && same_definition(read, config),
{
    validate::lemma_valid_logging(config);
    let logging = config.logging@;
    assert(document::document_logging(document) == Ok::<LoggingModel, ConfigFault>(logging)) by {
        let routes = wire::canonical_routes(document.log, document.stderr);
        match logging.files {
            None => {},
            Some(RoutesModel::Combined(file)) => {
                let input = document.log->0->Combined_0;
                assert(input.destination() =~= file);
            },
            Some(RoutesModel::Selected { stdout, stderr }) => {
                let selected = document.log->0->Selected_0;
                if let Some(file) = stdout {
                    assert(selected.stdout->0.destination() =~= file);
                }
                if let Some(file) = stderr {
                    assert(selected.stderr->0.destination() =~= file);
                }
                assert(wire::optional_destination(selected.stdout) == stdout);
                assert(wire::optional_destination(selected.stderr) == stderr);
            },
        }
        assert(routes == Ok::<Option<RoutesModel>, ConfigFault>(logging.files));
    }
    match result {
        Ok(_) => {},
        Err(error) => {
            let other = choose|other: ServiceConfig|
                {
                    &&& #[trigger] document::carries_over(document, other, logging)
                    &&& validate::violations(other).len() > 0
                    &&& error@ == ConfigFault::Validation(validate::violations(other))
                };
            assert(same_definition(other, config));
            lemma_equal_definitions_violate_alike(other, config);
        },
    }
}

/// Every definition which was parsed from a document states its retention.
pub proof fn parsed_definitions_state_retention(document: ConfigDocument, config: ServiceConfig)
    requires
        document::completes(Ok(document), Ok(config)),
    ensures
        states_retention(config.logging@),
{
}

/// Resolving the paths of a definition leaves its retention alone.
pub proof fn resolution_keeps_retention(
    config: ServiceConfig,
    resolved: ServiceConfig,
    source: Seq<u8>,
    working_directory: Seq<u8>,
)
    requires
        states_retention(config.logging@),
        document::settles(Ok(config), source, working_directory, Ok(resolved)),
    ensures
        states_retention(resolved.logging@),
{
    let base = paths::definition_base(source, working_directory)->0;
    assert(paths::locations(resolved).files == paths::resolved_routes(
        config.logging@.files,
        path::resolved(base, seq![46u8]),
    ));
}

/// Every parsed definition reads back from its canonical document unchanged.
pub proof fn parsed_definitions_read_back(
    document: ConfigDocument,
    config: ServiceConfig,
    written: ConfigDocument,
    result: Result<ServiceConfig, ConfigError>,
)
    requires
        document::completes(Ok(document), Ok(config)),
        describes(written, config),
        document::completes(Ok(written), result),
    ensures
        result matches Ok(read) && same_definition(read, config),
{
    parsed_definitions_state_retention(document, config);
    written_definitions_read_back(config, written, result);
}

proof fn lemma_equal_definitions_violate_alike(left: ServiceConfig, right: ServiceConfig)
    requires
        same_definition(left, right),
    ensures
        validate::violations(left) == validate::violations(right),
{
    assert(validate::identity_faults(left) == validate::identity_faults(right));
    assert(validate::policy_faults(left) == validate::policy_faults(right));
    assert(validate::lifecycle_faults(left) == validate::lifecycle_faults(right));
    assert(validate::location_faults(left) == validate::location_faults(right));
}

} // verus!
