//! Every accepted logging wire shape and their reconciliation into one config.
//!
//! The `log`, `logger`, `stderr`, and deprecated `logging` fields each describe
//! local file routing or external logger delegation differently.
//! [`normalize_logging`] is the single place that reconciles them: deprecated
//! shapes are translated only when their stream behavior is representable without
//! widening or dropping output, and every remaining ambiguity becomes a
//! validation error instead of a silent guess.

use vstd::prelude::*;
use vstd::string::*;

use crate::path::UnixPath;
use crate::text;
use crate::text::{concat2, text_equal};

use super::super::error;
use super::super::error::{validation_error, ConfigError, ConfigFault};
use super::super::model;
use super::super::model::{
    FileLogConfig, FileLogModel, FileLogRoutes, LoggerRestartConfig, LoggingConfig, LoggingModel,
    RoutesModel,
};

verus! {

/// Archives which are kept when a rotated destination names no count.
pub const DEFAULT_LOG_KEEP: u32 = 7;

// ---------------------------------------------------------------------------
// Shapes
// ---------------------------------------------------------------------------

/// Wire shape of one local-file destination before default normalization.
#[derive(Clone, Debug, PartialEq, Eq)]
pub struct FileLogInput {
    /// Destination file.
    pub file: UnixPath,
    /// Rotation age in seconds.
    pub age: Option<u64>,
    /// Number of rotated files retained.
    pub keep: Option<u32>,
    /// Rotation threshold in bytes.
    pub size: Option<u64>,
    /// Prefix records with timestamps.
    pub timestamp: bool,
}

/// Explicitly named streams.
#[derive(Clone, Debug, PartialEq, Eq)]
pub struct SelectedLogInput {
    /// Optional stdout-only destination.
    pub stdout: Option<FileLogInput>,
    /// Optional stderr-only destination.
    pub stderr: Option<FileLogInput>,
}

/// The `log` shape: either one combined route or explicit streams.
#[derive(Clone, Debug, PartialEq, Eq)]
pub enum LogInput {
    /// One combined destination.
    Combined(FileLogInput),
    /// Explicit streams.
    Selected(SelectedLogInput),
}

/// Deprecated local-file destination.
#[derive(Clone, Debug, PartialEq, Eq)]
pub struct LegacyFileLogConfig {
    /// Destination file.
    pub file: Option<UnixPath>,
    /// Rotation age in seconds.
    pub max_age_seconds: Option<u64>,
    /// Number of rotated files retained.
    pub keep: Option<u32>,
    /// Rotation threshold in bytes.
    pub max_bytes: Option<u64>,
    /// Combined size of rotated files.
    pub max_total_bytes: Option<u64>,
    /// Prefix records with timestamps.
    pub timestamp: bool,
}

/// Deprecated routing of one stream.
#[derive(Clone, Debug, PartialEq, Eq)]
pub struct LegacyOutputConfig {
    /// Local-file destination.
    pub file: LegacyFileLogConfig,
    /// External logger argv.
    pub logger: Option<Vec<String>>,
}

/// Deprecated `logging` shape accepted during migration.
#[derive(Clone, Debug, PartialEq, Eq)]
pub struct LegacyLoggingConfig {
    /// File-adapter executable.
    pub file_adapter: Option<UnixPath>,
    /// Route stderr like stdout.
    pub combine_stderr: bool,
    /// Logger retry policy.
    pub restart: LoggerRestartConfig,
    /// Routing of stdout.
    pub stdout: LegacyOutputConfig,
    /// Routing of stderr.
    pub stderr: LegacyOutputConfig,
}

// ---------------------------------------------------------------------------
// Meaning
// ---------------------------------------------------------------------------

/// Archive count with its default: a rotated destination keeps seven archives.
pub open spec fn kept(age: Option<u64>, size: Option<u64>, keep: Option<u32>) -> Option<u32> {
    if keep is None && (age is Some || size is Some) {
        Some(DEFAULT_LOG_KEEP)
    } else {
        keep
    }
}

impl FileLogInput {
    /// Destination which the shape describes.
    pub open spec fn destination(self) -> FileLogModel {
        FileLogModel {
            file: self.file@,
            max_age_seconds: self.age,
            keep: kept(self.age, self.size, self.keep),
            max_bytes: self.size,
            timestamp: self.timestamp,
        }
    }
}

/// Destination of an optional shape.
pub open spec fn optional_destination(input: Option<FileLogInput>) -> Option<FileLogModel> {
    match input {
        Some(input) => Some(input.destination()),
        None => None,
    }
}

/// Local routes of the canonical fields. A top-level `stderr` splits a combined
/// `log` into two streams.
pub open spec fn canonical_routes(
    log: Option<LogInput>,
    stderr: Option<FileLogInput>,
) -> Result<Option<RoutesModel>, ConfigFault> {
    match (log, stderr) {
        (None, None) => Ok(None),
        (None, Some(stderr)) => Ok(
            Some(RoutesModel::Selected { stdout: None, stderr: Some(stderr.destination()) }),
        ),
        (Some(LogInput::Combined(file)), None) => Ok(
            Some(RoutesModel::Combined(file.destination())),
        ),
        (Some(LogInput::Combined(file)), Some(stderr)) => Ok(
            Some(
                RoutesModel::Selected {
                    stdout: Some(file.destination()),
                    stderr: Some(stderr.destination()),
                },
            ),
        ),
        (Some(LogInput::Selected(selected)), None) => if selected.stdout is None
            && selected.stderr is None {
            Err(error::invalid("log must contain a file, stdout, or stderr destination"@))
        } else {
            Ok(
                Some(
                    RoutesModel::Selected {
                        stdout: optional_destination(selected.stdout),
                        stderr: optional_destination(selected.stderr),
                    },
                ),
            )
        },
        (Some(LogInput::Selected(_)), Some(_)) => Err(
            error::invalid("top-level stderr duplicates or conflicts with nested log.stderr"@),
        ),
    }
}

/// Whether a deprecated destination sets any rotation option.
pub open spec fn has_policy(legacy: LegacyFileLogConfig) -> bool {
    legacy.max_age_seconds is Some || legacy.keep is Some || legacy.max_bytes is Some
        || legacy.timestamp
}

/// Destination of a deprecated shape.
pub open spec fn legacy_destination(
    legacy: LegacyFileLogConfig,
    path: Seq<char>,
) -> Result<Option<FileLogModel>, ConfigFault> {
    if legacy.max_total_bytes is Some {
        Err(
            error::invalid(
                path + ".max_total_bytes is unsupported; use size and keep"@,
            ),
        )
    } else {
        match legacy.file {
            Some(file) => Ok(
                Some(
                    FileLogModel {
                        file: file@,
                        max_age_seconds: legacy.max_age_seconds,
                        keep: kept(legacy.max_age_seconds, legacy.max_bytes, legacy.keep),
                        max_bytes: legacy.max_bytes,
                        timestamp: legacy.timestamp,
                    },
                ),
            ),
            None => if has_policy(legacy) {
                Err(
                    error::invalid(path + " rotation options require a destination file"@),
                )
            } else {
                Ok(None)
            },
        }
    }
}

/// Whether a deprecated stream sets anything at all.
pub open spec fn output_configured(output: LegacyOutputConfig) -> bool {
    output.file.file is Some || has_policy(output.file) || output.file.max_total_bytes is Some
        || output.logger is Some
}

/// Routes of deprecated destinations.
pub open spec fn legacy_routes(
    combine: bool,
    stdout: Option<FileLogModel>,
    stderr: Option<FileLogModel>,
) -> Option<RoutesModel> {
    if combine {
        match stdout {
            Some(file) => Some(RoutesModel::Combined(file)),
            None => None,
        }
    } else if stdout is Some || stderr is Some {
        Some(RoutesModel::Selected { stdout, stderr })
    } else {
        None
    }
}

/// Shared logger of deprecated per-stream loggers: only equal ones, or a combined
/// one, can be represented.
pub open spec fn legacy_logger(
    combine: bool,
    stdout: Option<Seq<Seq<char>>>,
    stderr: Option<Seq<Seq<char>>>,
) -> Result<Option<Seq<Seq<char>>>, ConfigFault> {
    if combine {
        Ok(stdout)
    } else {
        match (stdout, stderr) {
            (None, None) => Ok(None),
            (Some(first), Some(second)) => if first == second {
                Ok(Some(first))
            } else {
                Err(
                    error::invalid(
                        "deprecated per-stream logger commands differ; use one top-level logger argv"@,
                    ),
                )
            },
            _ => Err(
                error::invalid(
                    "deprecated single-stream logger routing cannot map to combined top-level logger"@,
                ),
            ),
        }
    }
}

/// Output configuration of the deprecated shape, once its destinations are known.
pub open spec fn legacy_assembled(
    legacy: LegacyLoggingConfig,
    stdout: Option<FileLogModel>,
    stderr: Option<FileLogModel>,
) -> Result<LoggingModel, ConfigFault> {
    let files = legacy_routes(legacy.combine_stderr, stdout, stderr);
    match legacy_logger(
        legacy.combine_stderr,
        model::optional_argv(legacy.stdout.logger),
        model::optional_argv(legacy.stderr.logger),
    ) {
        Err(fault) => Err(fault),
        Ok(logger) => if legacy.file_adapter is Some && files is None {
            Err(
                error::invalid("deprecated logging.file_adapter requires a file destination"@),
            )
        } else if logger is None && legacy.restart != LoggerRestartConfig::standard() {
            Err(error::invalid("deprecated logging.restart requires an external logger"@))
        } else {
            Ok(
                LoggingModel {
                    files,
                    logger,
                    file_adapter: model::optional_path(legacy.file_adapter),
                    restart: legacy.restart,
                },
            )
        },
    }
}

/// Output configuration of the deprecated shape.
pub open spec fn legacy_normalized(legacy: LegacyLoggingConfig) -> Result<
    LoggingModel,
    ConfigFault,
> {
    if legacy.combine_stderr && output_configured(legacy.stderr) {
        Err(
            error::invalid(
                "deprecated logging.combine_stderr conflicts with an explicit stderr route"@,
            ),
        )
    } else {
        match legacy_destination(legacy.stdout.file, "logging.stdout.file"@) {
            Err(fault) => Err(fault),
            Ok(stdout) => match legacy_destination(legacy.stderr.file, "logging.stderr.file"@) {
                Err(fault) => Err(fault),
                Ok(stderr) => legacy_assembled(legacy, stdout, stderr),
            },
        }
    }
}

/// Output configuration of every accepted field together.
pub open spec fn normalized(
    log: Option<LogInput>,
    logger: Option<Vec<String>>,
    file_adapter: Option<UnixPath>,
    logger_restart: Option<LoggerRestartConfig>,
    stderr: Option<FileLogInput>,
    legacy: Option<LegacyLoggingConfig>,
) -> Result<LoggingModel, ConfigFault> {
    match legacy {
        Some(legacy) => if log is Some || logger is Some || file_adapter is Some || logger_restart
            is Some || stderr is Some {
            Err(
                error::invalid(
                    "deprecated `logging` cannot be mixed with `log`, `stderr`, `logger`, `log_adapter`, or `logger_restart`"@,
                ),
            )
        } else {
            legacy_normalized(legacy)
        },
        None => match canonical_routes(log, stderr) {
            Err(fault) => Err(fault),
            Ok(files) => if file_adapter is Some && files is None {
                Err(error::invalid("log_adapter requires a log destination"@))
            } else if logger_restart is Some && logger is None {
                Err(error::invalid("logger_restart requires logger"@))
            } else {
                Ok(
                    LoggingModel {
                        files,
                        logger: model::optional_argv(logger),
                        file_adapter: model::optional_path(file_adapter),
                        restart: match logger_restart {
                            Some(restart) => restart,
                            None => LoggerRestartConfig::standard(),
                        },
                    },
                )
            },
        },
    }
}

/// What normalization reported.
pub open spec fn normalizes(
    result: Result<LoggingConfig, ConfigError>,
    expected: Result<LoggingModel, ConfigFault>,
) -> bool {
    match result {
        Ok(config) => expected == Ok::<LoggingModel, ConfigFault>(config@),
        Err(error) => expected == Err::<LoggingModel, ConfigFault>(error@),
    }
}

// ---------------------------------------------------------------------------
// Normalization
// ---------------------------------------------------------------------------

/// Reconcile every accepted logging alias into one canonical [`LoggingConfig`].
///
/// # Errors
///
/// Returns a validation error when the deprecated `logging` shape is mixed with
/// any canonical field, when a required destination is missing, or when a route
/// cannot be represented without widening or dropping output.
pub fn normalize_logging(
    log: Option<LogInput>,
    logger: Option<Vec<String>>,
    file_adapter: Option<UnixPath>,
    logger_restart: Option<LoggerRestartConfig>,
    stderr_alias: Option<FileLogInput>,
    legacy: Option<LegacyLoggingConfig>,
) -> (result: Result<LoggingConfig, ConfigError>)
    ensures
        normalizes(
            result,
            normalized(log, logger, file_adapter, logger_restart, stderr_alias, legacy),
        ),
{
    if let Some(legacy) = legacy {
        if log.is_some() || logger.is_some() || file_adapter.is_some() || logger_restart.is_some()
            || stderr_alias.is_some() {
            return Err(
                logging_validation(
                    "deprecated `logging` cannot be mixed with `log`, `stderr`, `logger`, `log_adapter`, or `logger_restart`",
                ),
            );
        }
        return normalize_legacy_logging(legacy);
    }
    let files = match normalize_file_routes(log, stderr_alias) {
        Ok(files) => files,
        Err(error) => return Err(error),
    };
    if file_adapter.is_some() && files.is_none() {
        return Err(logging_validation("log_adapter requires a log destination"));
    }
    if logger_restart.is_some() && logger.is_none() {
        return Err(logging_validation("logger_restart requires logger"));
    }
    let restart = match logger_restart {
        Some(restart) => restart,
        None => LoggerRestartConfig::default(),
    };
    Ok(LoggingConfig { files, logger, file_adapter, restart })
}

fn normalize_file_routes(log: Option<LogInput>, stderr_alias: Option<FileLogInput>) -> (result:
    Result<Option<FileLogRoutes>, ConfigError>)
    ensures
        match result {
            Ok(files) => canonical_routes(log, stderr_alias) == Ok::<
                Option<RoutesModel>,
                ConfigFault,
            >(model::optional_routes(files)),
            Err(error) => canonical_routes(log, stderr_alias) == Err::<
                Option<RoutesModel>,
                ConfigFault,
            >(error@),
        },
{
    match (log, stderr_alias) {
        (None, None) => Ok(None),
        (None, Some(stderr)) => Ok(
            Some(FileLogRoutes::Selected { stdout: None, stderr: Some(into_config(stderr)) }),
        ),
        (Some(LogInput::Combined(file)), None) => Ok(
            Some(FileLogRoutes::Combined(into_config(file))),
        ),
        (Some(LogInput::Combined(file)), Some(stderr)) => Ok(
            Some(
                FileLogRoutes::Selected {
                    stdout: Some(into_config(file)),
                    stderr: Some(into_config(stderr)),
                },
            ),
        ),
        (Some(LogInput::Selected(selected)), None) => {
            if selected.stdout.is_none() && selected.stderr.is_none() {
                return Err(
                    logging_validation("log must contain a file, stdout, or stderr destination"),
                );
            }
            Ok(
                Some(
                    FileLogRoutes::Selected {
                        stdout: into_optional_config(selected.stdout),
                        stderr: into_optional_config(selected.stderr),
                    },
                ),
            )
        },
        (Some(LogInput::Selected(_)), Some(_)) => Err(
            logging_validation("top-level stderr duplicates or conflicts with nested log.stderr"),
        ),
    }
}

fn into_config(input: FileLogInput) -> (file: FileLogConfig)
    ensures
        file@ == input.destination(),
{
    FileLogConfig {
        file: input.file,
        max_age_seconds: input.age,
        keep: normalized_keep(input.age, input.size, input.keep),
        max_bytes: input.size,
        timestamp: input.timestamp,
    }
}

fn into_optional_config(input: Option<FileLogInput>) -> (file: Option<FileLogConfig>)
    ensures
        model::optional_file(file) == optional_destination(input),
{
    match input {
        Some(input) => Some(into_config(input)),
        None => None,
    }
}

fn normalized_keep(age: Option<u64>, size: Option<u64>, keep: Option<u32>) -> (count: Option<u32>)
    ensures
        count == kept(age, size, keep),
{
    if keep.is_none() && (age.is_some() || size.is_some()) {
        Some(DEFAULT_LOG_KEEP)
    } else {
        keep
    }
}

fn normalize_legacy_logging(legacy: LegacyLoggingConfig) -> (result: Result<
    LoggingConfig,
    ConfigError,
>)
    ensures
        normalizes(result, legacy_normalized(legacy)),
{
    if legacy.combine_stderr && legacy_output_is_configured(&legacy.stderr) {
        return Err(
            logging_validation(
                "deprecated logging.combine_stderr conflicts with an explicit stderr route",
            ),
        );
    }
    let combine = legacy.combine_stderr;
    let restart = legacy.restart;
    let stdout_file = match normalize_legacy_file(legacy.stdout.file, "logging.stdout.file") {
        Ok(file) => file,
        Err(error) => return Err(error),
    };
    let stderr_file = match normalize_legacy_file(legacy.stderr.file, "logging.stderr.file") {
        Ok(file) => file,
        Err(error) => return Err(error),
    };
    let files = if combine {
        match stdout_file {
            Some(file) => Some(FileLogRoutes::Combined(file)),
            None => None,
        }
    } else if stdout_file.is_some() || stderr_file.is_some() {
        Some(FileLogRoutes::Selected { stdout: stdout_file, stderr: stderr_file })
    } else {
        None
    };
    let logger = match normalize_legacy_logger(
        combine,
        legacy.stdout.logger,
        legacy.stderr.logger,
    ) {
        Ok(logger) => logger,
        Err(error) => return Err(error),
    };
    if legacy.file_adapter.is_some() && files.is_none() {
        return Err(
            logging_validation("deprecated logging.file_adapter requires a file destination"),
        );
    }
    if logger.is_none() && restart != LoggerRestartConfig::default() {
        return Err(logging_validation("deprecated logging.restart requires an external logger"));
    }
    Ok(LoggingConfig { files, logger, file_adapter: legacy.file_adapter, restart })
}

fn normalize_legacy_logger(
    combine: bool,
    stdout: Option<Vec<String>>,
    stderr: Option<Vec<String>>,
) -> (result: Result<Option<Vec<String>>, ConfigError>)
    ensures
        ({
            let expected = legacy_logger(
                combine,
                model::optional_argv(stdout),
                model::optional_argv(stderr),
            );
            match result {
                Ok(logger) => expected == Ok::<Option<Seq<Seq<char>>>, ConfigFault>(
                    model::optional_argv(logger),
                ),
                Err(error) => expected == Err::<Option<Seq<Seq<char>>>, ConfigFault>(error@),
            }
        }),
{
    if combine {
        return Ok(stdout);
    }
    match (stdout, stderr) {
        (None, None) => Ok(None),
        (Some(first), Some(second)) => {
            if texts_equal(&first, &second) {
                Ok(Some(first))
            } else {
                Err(
                    logging_validation(
                        "deprecated per-stream logger commands differ; use one top-level logger argv",
                    ),
                )
            }
        },
        (Some(_), None) | (None, Some(_)) => Err(
            logging_validation(
                "deprecated single-stream logger routing cannot map to combined top-level logger",
            ),
        ),
    }
}

fn texts_equal(left: &Vec<String>, right: &Vec<String>) -> (equal: bool)
    ensures
        equal == (text::texts(left@) == text::texts(right@)),
{
    proof {
        assert(text::texts(left@).len() == left@.len());
        assert(text::texts(right@).len() == right@.len());
    }
    if left.len() != right.len() {
        return false;
    }
    let mut index: usize = 0;
    while index < left.len()
        invariant
            index <= left@.len(),
            left@.len() == right@.len(),
            forall|i: int| 0 <= i < index ==> (#[trigger] left@[i])@ == right@[i]@,
        decreases left@.len() - index,
    {
        if !text_equal(left[index].as_str(), right[index].as_str()) {
            assert(text::texts(left@)[index as int] != text::texts(right@)[index as int]);
            return false;
        }
        index = index + 1;
    }
    assert(text::texts(left@) =~= text::texts(right@));
    true
}

fn normalize_legacy_file(legacy: LegacyFileLogConfig, path: &str) -> (result: Result<
    Option<FileLogConfig>,
    ConfigError,
>)
    ensures
        match result {
            Ok(file) => legacy_destination(legacy, path@) == Ok::<
                Option<FileLogModel>,
                ConfigFault,
            >(model::optional_file(file)),
            Err(error) => legacy_destination(legacy, path@) == Err::<
                Option<FileLogModel>,
                ConfigFault,
            >(error@),
        },
{
    if legacy.max_total_bytes.is_some() {
        return Err(
            validation_error(
                concat2(path, ".max_total_bytes is unsupported; use size and keep"),
            ),
        );
    }
    let policy = legacy_has_policy(&legacy);
    match legacy.file {
        Some(file) => Ok(
            Some(
                FileLogConfig {
                    file,
                    max_age_seconds: legacy.max_age_seconds,
                    keep: normalized_keep(
                        legacy.max_age_seconds,
                        legacy.max_bytes,
                        legacy.keep,
                    ),
                    max_bytes: legacy.max_bytes,
                    timestamp: legacy.timestamp,
                },
            ),
        ),
        None => {
            if policy {
                Err(
                    validation_error(
                        concat2(path, " rotation options require a destination file"),
                    ),
                )
            } else {
                Ok(None)
            }
        },
    }
}

fn legacy_has_policy(legacy: &LegacyFileLogConfig) -> (found: bool)
    ensures
        found == has_policy(*legacy),
{
    legacy.max_age_seconds.is_some() || legacy.keep.is_some() || legacy.max_bytes.is_some()
        || legacy.timestamp
}

fn legacy_output_is_configured(output: &LegacyOutputConfig) -> (configured: bool)
    ensures
        configured == output_configured(*output),
{
    output.file.file.is_some() || legacy_has_policy(&output.file)
        || output.file.max_total_bytes.is_some() || output.logger.is_some()
}

fn logging_validation(message: &str) -> (error: ConfigError)
    ensures
        error@ == error::invalid(message@),
{
    validation_error(message.to_owned())
}

// ---------------------------------------------------------------------------
// Laws
// ---------------------------------------------------------------------------

/// Normalization never widens output: a route for one stream stays a route for
/// that stream, and only a combined shape covers both.
pub proof fn normalization_never_widens_output(
    log: Option<LogInput>,
    logger: Option<Vec<String>>,
    file_adapter: Option<UnixPath>,
    logger_restart: Option<LoggerRestartConfig>,
    stderr: Option<FileLogInput>,
    legacy: Option<LegacyLoggingConfig>,
)
    ensures
        normalized(log, logger, file_adapter, logger_restart, stderr, legacy) matches Ok(config)
            ==> (config.files matches Some(RoutesModel::Combined(_)) ==> {
            ||| log matches Some(LogInput::Combined(_)) && stderr is None
            ||| legacy matches Some(shape) && shape.combine_stderr
        }),
{
}

/// Normalization never drops output: every destination and every logger which is
/// named ends up in the result.
pub proof fn normalization_never_drops_output(
    log: Option<LogInput>,
    logger: Option<Vec<String>>,
    file_adapter: Option<UnixPath>,
    logger_restart: Option<LoggerRestartConfig>,
    stderr: Option<FileLogInput>,
    legacy: Option<LegacyLoggingConfig>,
)
    ensures
        normalized(log, logger, file_adapter, logger_restart, stderr, legacy) matches Ok(config)
            ==> {
            &&& log is Some || stderr is Some ==> config.files is Some
            &&& logger is Some ==> config.logger == model::optional_argv(logger)
            &&& legacy matches Some(legacy) ==> {
                &&& legacy.stdout.file.file is Some ==> config.files is Some
                &&& legacy.stderr.file.file is Some ==> config.files is Some
                &&& legacy.stdout.logger is Some ==> config.logger == model::optional_argv(
                    legacy.stdout.logger,
                )
                &&& legacy.stderr.logger is Some ==> config.logger == model::optional_argv(
                    legacy.stderr.logger,
                )
            }
        },
{
}

/// A rotated destination always keeps a bounded number of archives.
pub proof fn rotated_destinations_are_bounded(input: FileLogInput)
    requires
        input.age is Some || input.size is Some,
    ensures
        input.destination().keep is Some,
{
}

/// Every destination of a canonical definition ends up at the stream it was named for,
/// with its own file and limits; seven archives are kept where a rotating destination
/// does not say how many.
pub proof fn destinations_keep_their_stream(
    log: Option<LogInput>,
    logger: Option<Vec<String>>,
    file_adapter: Option<UnixPath>,
    logger_restart: Option<LoggerRestartConfig>,
    stderr: Option<FileLogInput>,
    config: LoggingModel,
)
    requires
        normalized(log, logger, file_adapter, logger_restart, stderr, None) == Ok::<
            LoggingModel,
            ConfigFault,
        >(config),
    ensures
        log is None && stderr is None <==> config.files is None,
        log matches Some(LogInput::Combined(input)) ==> (stderr is None ==> (
        config.files matches Some(RoutesModel::Combined(found)) && stands_for(input, found))),
        log matches Some(LogInput::Combined(input)) ==> (stderr is Some ==> (
        config.files matches Some(RoutesModel::Selected { stdout: Some(found), .. }) && stands_for(
            input,
            found,
        ))),
        stderr matches Some(file) ==> (config.files matches Some(
            RoutesModel::Selected { stderr: Some(found), .. },
        ) && stands_for(file, found)),
        log is None && stderr is Some ==> (config.files matches Some(
            RoutesModel::Selected { stdout, .. },
        ) && stdout is None),
        log matches Some(LogInput::Selected(selected)) ==> (config.files matches Some(
            RoutesModel::Selected { stdout, stderr: errors },
        ) && (selected.stdout is Some <==> stdout is Some) && (selected.stdout is Some
            ==> stands_for(selected.stdout->0, stdout->0)) && (stderr is None ==> (selected.stderr
            is Some <==> errors is Some) && (selected.stderr is Some ==> stands_for(
            selected.stderr->0,
            errors->0,
        )))),
        config.logger == model::optional_argv(logger),
        config.file_adapter == model::optional_path(file_adapter),
        logger_restart matches Some(restart) ==> config.restart == restart,
        logger_restart is None ==> config.restart == LoggerRestartConfig::standard(),
{
}

/// Whether a destination stands for the shape it was read from.
pub open spec fn stands_for(input: FileLogInput, found: FileLogModel) -> bool {
    &&& found.file == input.file@
    &&& found.max_age_seconds == input.age
    &&& found.max_bytes == input.size
    &&& found.timestamp == input.timestamp
    &&& found.keep == (if input.keep is None && (input.age is Some || input.size is Some) {
        Some(7u32)
    } else {
        input.keep
    })
}

/// The deprecated shape stands alone: mixed with any canonical field it is refused, and
/// so is every shape which would have to drop or widen output.
pub proof fn deprecated_shapes_stand_alone(
    log: Option<LogInput>,
    logger: Option<Vec<String>>,
    file_adapter: Option<UnixPath>,
    logger_restart: Option<LoggerRestartConfig>,
    stderr: Option<FileLogInput>,
    legacy: LegacyLoggingConfig,
)
    ensures
        ({
            let result = normalized(
                log,
                logger,
                file_adapter,
                logger_restart,
                stderr,
                Some(legacy),
            );
            &&& log is Some || logger is Some || file_adapter is Some || logger_restart is Some
                || stderr is Some ==> result is Err
            &&& legacy.stdout.file.max_total_bytes is Some || legacy.stderr.file.max_total_bytes
                is Some ==> result is Err
            &&& !legacy.combine_stderr && (legacy.stdout.logger is Some) != (legacy.stderr.logger
                is Some) ==> result is Err
            &&& legacy.combine_stderr && (legacy.stderr.file.file is Some || legacy.stderr.logger
                is Some) ==> result is Err
            &&& legacy.stdout.file.file is None && (legacy.stdout.file.keep is Some
                || legacy.stdout.file.max_age_seconds is Some || legacy.stdout.file.max_bytes
                is Some || legacy.stdout.file.timestamp) ==> result is Err
        }),
{
}

/// An accepted deprecated shape keeps each file at its own stream, except that combined
/// output has one file for both.
pub proof fn deprecated_destinations_keep_their_stream(
    legacy: LegacyLoggingConfig,
    config: LoggingModel,
)
    requires
        normalized(None, None, None, None, None, Some(legacy)) == Ok::<LoggingModel, ConfigFault>(
            config,
        ),
    ensures
        legacy.combine_stderr ==> (legacy.stdout.file.file matches Some(path) ==> (
        config.files matches Some(RoutesModel::Combined(found)) && found.file == path@
            && found.max_bytes == legacy.stdout.file.max_bytes && found.max_age_seconds
            == legacy.stdout.file.max_age_seconds)),
        !legacy.combine_stderr ==> (legacy.stdout.file.file matches Some(path) ==> (
        config.files matches Some(RoutesModel::Selected { stdout: Some(found), .. })
            && found.file == path@ && found.max_bytes == legacy.stdout.file.max_bytes
            && found.max_age_seconds == legacy.stdout.file.max_age_seconds)),
        !legacy.combine_stderr ==> (legacy.stderr.file.file matches Some(path) ==> (
        config.files matches Some(RoutesModel::Selected { stderr: Some(found), .. })
            && found.file == path@ && found.max_bytes == legacy.stderr.file.max_bytes
            && found.max_age_seconds == legacy.stderr.file.max_age_seconds)),
        config.restart == legacy.restart,
        config.file_adapter == model::optional_path(legacy.file_adapter),
{
}

} // verus!
