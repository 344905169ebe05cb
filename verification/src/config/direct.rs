//! Definitions built for direct commands instead of being parsed.

use vstd::prelude::*;
use vstd::string::*;

use crate::path::UnixPath;
use crate::text;

use super::environment::Environment;
use super::error::{ConfigError, ConfigFault};
use super::logging::quantity::MEBIBYTE;
use super::logging::wire::DEFAULT_LOG_KEEP;
use super::model;
use super::model::{
    EnvironmentMode, FileLogConfig, FileLogModel, FileLogRoutes, LoggerRestartConfig,
    LoggingConfig, LoggingModel, PidFiles, ProcessMode, ReadinessConfig, RestartConfig,
    RoutesModel, ServiceConfig,
};
use super::validate;
use super::validate::{collected, validate, validate_argv, validate_file_log};

verus! {

/// Output configuration without any route.
pub open spec fn silent_logging() -> LoggingModel {
    LoggingModel {
        files: None,
        logger: None,
        file_adapter: None,
        restart: LoggerRestartConfig::standard(),
    }
}

/// Whether everything but the command is at its documented default.
pub open spec fn otherwise_standard(config: ServiceConfig) -> bool {
    &&& config.enabled
    &&& config.working_directory is None
    &&& config.environment@ == Seq::<(Seq<char>, Seq<char>)>::empty()
    &&& config.environment_mode == EnvironmentMode::Inherit
    &&& config.user is None
    &&& config.start_delay_seconds == 0
    &&& config.restart.is_standard()
    &&& config.readiness == ReadinessConfig::standard()
    &&& config.requires_services@.len() == 0
    &&& config.start_condition is None
    &&& config.post_exit is None
    &&& config.logging@ == silent_logging()
    &&& config.pid_files.supervisor is None
    &&& config.pid_files.main is None
    &&& config.process_mode == ProcessMode::Foreground
    &&& config.descriptor_tracking is None
}

proof fn lemma_only_the_command_can_be_wrong(config: ServiceConfig)
    requires
        otherwise_standard(config),
    ensures
        validate::violations(config) == validate::argv_faults(
            text::texts(config.command@),
            "command"@,
        ),
{
    reveal(validate::note);
    let command = validate::argv_faults(text::texts(config.command@), "command"@);
    assert(text::texts(config.requires_services@) =~= Seq::empty());
    assert(validate::identity_faults(config) =~= command);
    assert(config.restart.success_exit_codes@.len() == 1) by {
        assert(config.restart.success_exit_codes@ =~= Set::empty().insert(0u8));
    }
    assert(validate::policy_faults(config) =~= Seq::empty());
    assert(validate::lifecycle_faults(config) =~= Seq::empty());
    assert(validate::logging_faults(config.logging@) =~= Seq::empty());
    assert(validate::location_faults(config) =~= Seq::empty());
    assert(validate::tracking_faults(config.process_mode, config.descriptor_tracking)
        =~= Seq::empty());
    assert(validate::violations(config) =~= command);
}

impl ServiceConfig {
    /// Construct the strict runtime model for a direct CLI command.
    ///
    /// Configuration-file-only features remain at their documented defaults;
    /// callers may then apply typed CLI overrides and resolve paths.
    ///
    /// # Errors
    ///
    /// Returns the same validation error as a `version: 2` document.
    pub fn for_command(command: Vec<String>) -> (result: Result<Self, ConfigError>)
        ensures
            ({
                let faults = validate::argv_faults(text::texts(command@), "command"@);
                match result {
                    Ok(config) => faults.len() == 0 && config.command == command
                        && otherwise_standard(config),
                    Err(error) => faults.len() > 0 && error@ == ConfigFault::Validation(faults),
                }
            }),
    {
        let config = ServiceConfig {
            enabled: true,
            command,
            working_directory: None,
            environment: Environment::new(),
            environment_mode: EnvironmentMode::Inherit,
            user: None,
            start_delay_seconds: 0,
            restart: RestartConfig::default(),
            readiness: ReadinessConfig::default(),
            requires_services: Vec::new(),
            start_condition: None,
            post_exit: None,
            logging: LoggingConfig::default(),
            pid_files: PidFiles::default(),
            process_mode: ProcessMode::Foreground,
            descriptor_tracking: None,
        };
        proof {
            lemma_only_the_command_can_be_wrong(config);
        }
        match validate(&config) {
            Ok(()) => Ok(config),
            Err(error) => Err(error),
        }
    }
}

/// Direct-command destination: one mebibyte per file, seven archives.
pub open spec fn direct_file(file: Seq<u8>) -> FileLogModel {
    FileLogModel {
        file,
        max_age_seconds: None,
        keep: Some(DEFAULT_LOG_KEEP),
        max_bytes: Some(MEBIBYTE),
        timestamp: false,
    }
}

/// Direct-command output configuration.
pub open spec fn direct_logging(
    logfile: Option<Seq<u8>>,
    logger: Option<Seq<Seq<char>>>,
) -> LoggingModel {
    LoggingModel {
        files: match logfile {
            Some(file) => Some(RoutesModel::Combined(direct_file(file))),
            None => None,
        },
        logger,
        file_adapter: None,
        restart: LoggerRestartConfig::standard(),
    }
}

/// Violations of direct-command logging: the logger first, then the file.
pub open spec fn direct_faults(
    logfile: Option<Seq<u8>>,
    logger: Option<Seq<Seq<char>>>,
) -> Seq<Seq<char>> {
    validate::optional_argv_faults(logger, "logger"@) + (match logfile {
        Some(file) => validate::file_faults(direct_file(file), "log"@),
        None => Seq::empty(),
    })
}

impl LoggingConfig {
    /// Build direct-command logging with the historical safe file defaults.
    ///
    /// A logfile receives combined stdout and stderr, rotates at 1 MiB, and
    /// retains seven archives. An external logger, when present, receives the
    /// same combined bytes and may coexist with the local file.
    ///
    /// # Errors
    ///
    /// Returns a validation error for an empty or NUL-containing logger argv or
    /// an empty logfile path.
    pub fn for_direct(logfile: Option<UnixPath>, logger: Option<Vec<String>>) -> (result: Result<
        Self,
        ConfigError,
    >)
        ensures
            ({
                let file = model::optional_path(logfile);
                let argv = model::optional_argv(logger);
                match result {
                    Ok(config) => direct_faults(file, argv).len() == 0 && config@
                        == direct_logging(file, argv),
                    Err(error) => direct_faults(file, argv).len() > 0 && error@
                        == ConfigFault::Validation(direct_faults(file, argv)),
                }
            }),
    {
        let mut errors: Vec<String> = Vec::new();
        assert(text::texts(errors@) =~= Seq::empty());
        if let Some(argv) = &logger {
            validate_argv(&mut errors, argv, "logger");
        }
        let ghost checked = text::texts(errors@);
        assert(checked =~= validate::optional_argv_faults(
            model::optional_argv(logger),
            "logger"@,
        ));
        let ghost given = model::optional_path(logfile);
        let files = match logfile {
            Some(file) => {
                let destination = FileLogConfig {
                    file,
                    max_age_seconds: None,
                    keep: Some(DEFAULT_LOG_KEEP),
                    max_bytes: Some(MEBIBYTE),
                    timestamp: false,
                };
                validate_file_log(&mut errors, &destination, "log");
                Some(FileLogRoutes::Combined(destination))
            },
            None => None,
        };
        assert(text::texts(errors@) =~= direct_faults(given, model::optional_argv(logger)));
        match collected(errors) {
            Ok(()) => Ok(
                LoggingConfig {
                    files,
                    logger,
                    file_adapter: None,
                    restart: LoggerRestartConfig::default(),
                },
            ),
            Err(error) => Err(error),
        }
    }
}

/// A log file of a direct command receives both streams, rotates at one mebibyte, and
/// keeps seven archives; a logger is taken as given, and neither needs the other.
pub proof fn direct_output_is_bounded(logfile: Option<Seq<u8>>, logger: Option<Seq<Seq<char>>>)
    ensures
        ({
            let output = direct_logging(logfile, logger);
            &&& output.logger == logger
            &&& output.file_adapter is None
            &&& output.files is Some <==> logfile is Some
            &&& logfile matches Some(path) ==> (output.files matches Some(
                RoutesModel::Combined(file),
            ) && file.file == path && file.max_bytes == Some((1024 * 1024) as u64) && file.keep
                == Some(7u32) && file.max_age_seconds is None && !file.timestamp)
        }),
        direct_faults(logfile, logger).len() == 0 <==> (logfile matches Some(path) ==> path.len()
            > 0) && (logger matches Some(argv) ==> validate::runnable(argv)),
{
    broadcast use validate::notes_follow_violations;

    if logger is Some {
        validate::values_are_accepted_by_their_rule(logger->0, 1, None, None, "logger"@);
    }
    if logfile is Some {
        validate::log_files_are_accepted_by_their_rule(direct_file(logfile->0), "log"@);
    }
}

/// A direct command runs at once, in the foreground, with the caller's environment, as
/// the caller, and without conditions, hooks, or output of its own.
pub proof fn direct_commands_add_nothing(config: ServiceConfig)
    requires
        otherwise_standard(config),
    ensures
        config.enabled,
        config.start_delay_seconds == 0,
        config.process_mode == ProcessMode::Foreground,
        config.environment_mode == EnvironmentMode::Inherit,
        config.environment@.len() == 0,
        config.user is None,
        config.working_directory is None,
        config.start_condition is None,
        config.post_exit is None,
        config.descriptor_tracking is None,
        config.requires_services@.len() == 0,
        config.logging@.files is None,
        config.logging@.logger is None,
        config.pid_files.supervisor is None,
        config.pid_files.main is None,
        validate::violations(config).len() == 0 <==> validate::runnable(
            text::texts(config.command@),
        ),
{
    lemma_only_the_command_can_be_wrong(config);
    validate::values_are_accepted_by_their_rule(
        text::texts(config.command@),
        1,
        None,
        None,
        "command"@,
    );
}

} // verus!
