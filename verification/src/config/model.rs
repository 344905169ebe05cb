//! Canonical, validated service configuration model.
//!
//! Every type here is the single in-memory representation produced by strict
//! `version: 2` parsing and consumed by process setup and path resolution.
//! Paths are kept as raw Unix bytes, and the environment as entries ordered by
//! key, so every rule over them has an exact meaning.

use std::collections::BTreeSet;
use vstd::prelude::*;

use crate::path::UnixPath;

use super::environment::Environment;

verus! {

pub const DEFAULT_BACKOFF_INITIAL_SECONDS: u64 = 1;

pub const DEFAULT_BACKOFF_MAX_SECONDS: u64 = 60;

pub const DEFAULT_BACKOFF_MULTIPLIER: u32 = 2;

pub const DEFAULT_BACKOFF_JITTER_PERCENT: u8 = 20;

pub const DEFAULT_BACKOFF_RESET_SECONDS: u64 = 60;

pub const DEFAULT_READINESS_TIMEOUT_SECONDS: u64 = 30;

pub const DEFAULT_CONDITION_BACKOFF_MAX_SECONDS: u64 = 30;

/// Policy controlling whether a completed service generation is restarted.
#[derive(Clone, Copy, Debug, PartialEq, Eq, Structural)]
pub enum RestartPolicy {
    /// Restart regardless of exit result.
    Always,
    /// Restart only when the exit result is not successful.
    OnFailure,
    /// Never restart automatically.
    Never,
}

/// Base environment supplied to a child before explicit overrides.
#[derive(Clone, Copy, Debug, PartialEq, Eq, Structural)]
pub enum EnvironmentMode {
    /// Inherit the supervisor environment, then apply configured overrides.
    Inherit,
    /// Start empty, then apply only configured overrides.
    Clear,
}

impl Default for EnvironmentMode {
    fn default() -> (mode: Self)
        ensures
            mode == EnvironmentMode::Inherit,
    {
        EnvironmentMode::Inherit
    }
}

/// Crash-loop delay settings.
#[derive(Clone, Copy, Debug, PartialEq, Eq, Structural)]
pub struct BackoffConfig {
    /// Delay after the first failed generation.
    pub initial_seconds: u64,
    /// Upper bound for the delay.
    pub max_seconds: u64,
    /// Integer exponential multiplier.
    pub multiplier: u32,
    /// Maximum random variation around a delay, as a percentage.
    pub jitter_percent: u8,
    /// Runtime after which the failure streak is reset.
    pub reset_after_seconds: u64,
}

impl BackoffConfig {
    /// The documented default delay settings.
    pub open spec fn standard() -> BackoffConfig {
        BackoffConfig {
            initial_seconds: DEFAULT_BACKOFF_INITIAL_SECONDS,
            max_seconds: DEFAULT_BACKOFF_MAX_SECONDS,
            multiplier: DEFAULT_BACKOFF_MULTIPLIER,
            jitter_percent: DEFAULT_BACKOFF_JITTER_PERCENT,
            reset_after_seconds: DEFAULT_BACKOFF_RESET_SECONDS,
        }
    }
}

impl Default for BackoffConfig {
    fn default() -> (config: Self)
        ensures
            config == BackoffConfig::standard(),
    {
        BackoffConfig {
            initial_seconds: DEFAULT_BACKOFF_INITIAL_SECONDS,
            max_seconds: DEFAULT_BACKOFF_MAX_SECONDS,
            multiplier: DEFAULT_BACKOFF_MULTIPLIER,
            jitter_percent: DEFAULT_BACKOFF_JITTER_PERCENT,
            reset_after_seconds: DEFAULT_BACKOFF_RESET_SECONDS,
        }
    }
}

/// Rolling crash-loop limit.
#[derive(Clone, Copy, Debug, PartialEq, Eq, Structural)]
pub struct RestartBurstLimit {
    /// Maximum starts in the window.
    pub starts: u32,
    /// Rolling window length.
    pub window_seconds: u64,
}

/// Optional restart limits. Every absent limit means unbounded retries.
#[derive(Clone, Copy, Debug, PartialEq, Eq, Structural)]
pub struct RestartLimits {
    /// Restarts permitted after the initial start.
    pub max_retries: Option<u32>,
    /// Total elapsed supervision time before further restarts stop.
    pub max_elapsed_seconds: Option<u64>,
    /// Starts permitted inside a rolling window.
    pub burst: Option<RestartBurstLimit>,
}

impl RestartLimits {
    /// No limit at all.
    pub open spec fn unbounded() -> RestartLimits {
        RestartLimits { max_retries: None, max_elapsed_seconds: None, burst: None }
    }
}

impl Default for RestartLimits {
    fn default() -> (limits: Self)
        ensures
            limits == RestartLimits::unbounded(),
    {
        RestartLimits { max_retries: None, max_elapsed_seconds: None, burst: None }
    }
}

/// Restart policy and successful exit semantics.
#[derive(Clone, Debug, PartialEq, Eq)]
pub struct RestartConfig {
    /// Restart selection policy.
    pub policy: RestartPolicy,
    /// Exit codes treated as successful.
    pub success_exit_codes: BTreeSet<u8>,
    /// Exit after terminal completion or exhaustion of a configured service restart limit.
    pub exit_when_done: bool,
    /// Explicit safeguards against unbounded crash loops.
    pub limits: RestartLimits,
    /// Delay policy between attempts.
    pub backoff: BackoffConfig,
}

impl RestartConfig {
    /// The documented default: always restart, only exit code zero is a success.
    pub open spec fn is_standard(self) -> bool {
        &&& self.policy == RestartPolicy::Always
        &&& self.success_exit_codes@ == set![0u8]
        &&& !self.exit_when_done
        &&& self.limits == RestartLimits::unbounded()
        &&& self.backoff == BackoffConfig::standard()
    }
}

impl Default for RestartConfig {
    fn default() -> (config: Self)
        ensures
            config.is_standard(),
    {
        broadcast use vstd::laws_cmp::group_laws_cmp;

        let mut success_exit_codes: BTreeSet<u8> = BTreeSet::new();
        success_exit_codes.insert(0);
        assert(success_exit_codes@ =~= set![0u8]);
        RestartConfig {
            policy: RestartPolicy::Always,
            success_exit_codes,
            exit_when_done: false,
            limits: RestartLimits::default(),
            backoff: BackoffConfig::default(),
        }
    }
}

/// Mechanism used to decide when a child is ready.
#[derive(Clone, Copy, Debug, PartialEq, Eq, Structural)]
pub enum ReadinessMode {
    /// The child is ready as soon as it has been executed successfully.
    Immediate,
    /// The child reports through a descriptor inherited as `IMMORTAL_READY_FD`.
    NotifyFd,
}

impl Default for ReadinessMode {
    fn default() -> (mode: Self)
        ensures
            mode == ReadinessMode::Immediate,
    {
        ReadinessMode::Immediate
    }
}

/// Readiness deadline and mechanism.
#[derive(Clone, Copy, Debug, PartialEq, Eq, Structural)]
pub struct ReadinessConfig {
    /// Readiness mechanism.
    pub mode: ReadinessMode,
    /// Maximum time to wait for readiness.
    pub timeout_seconds: u64,
}

impl ReadinessConfig {
    /// The documented default readiness policy.
    pub open spec fn standard() -> ReadinessConfig {
        ReadinessConfig {
            mode: ReadinessMode::Immediate,
            timeout_seconds: DEFAULT_READINESS_TIMEOUT_SECONDS,
        }
    }
}

impl Default for ReadinessConfig {
    fn default() -> (config: Self)
        ensures
            config == ReadinessConfig::standard(),
    {
        ReadinessConfig {
            mode: ReadinessMode::Immediate,
            timeout_seconds: DEFAULT_READINESS_TIMEOUT_SECONDS,
        }
    }
}

/// An argv command with a hard deadline.
#[derive(Clone, Debug, PartialEq, Eq)]
pub struct CommandHook {
    /// Executable followed by arguments.
    pub command: Vec<String>,
    /// Maximum execution time.
    pub timeout_seconds: u64,
}

/// Lifecycle commands required when no adopted process ID is trusted.
#[derive(Clone, Debug, PartialEq, Eq)]
pub struct DescriptorTrackingConfig {
    /// Command which asks the self-daemonized application to stop.
    pub stop: CommandHook,
    /// Command which asks the self-daemonized application to reload.
    pub reload: CommandHook,
    /// Maximum wait for lifetime-descriptor EOF after a successful stop hook.
    pub lifetime_timeout_seconds: u64,
}

/// Backoff applied only to failed pre-start condition evaluations.
#[derive(Clone, Copy, Debug, PartialEq, Eq, Structural)]
pub struct ConditionBackoffConfig {
    /// Delay after the first failed condition.
    pub initial_seconds: u64,
    /// Upper bound for the delay.
    pub max_seconds: u64,
    /// Integer exponential multiplier.
    pub multiplier: u32,
    /// Maximum random variation around a delay, as a percentage.
    pub jitter_percent: u8,
}

impl ConditionBackoffConfig {
    /// The documented default delay settings of a start condition.
    pub open spec fn standard() -> ConditionBackoffConfig {
        ConditionBackoffConfig {
            initial_seconds: DEFAULT_BACKOFF_INITIAL_SECONDS,
            max_seconds: DEFAULT_CONDITION_BACKOFF_MAX_SECONDS,
            multiplier: DEFAULT_BACKOFF_MULTIPLIER,
            jitter_percent: DEFAULT_BACKOFF_JITTER_PERCENT,
        }
    }
}

impl Default for ConditionBackoffConfig {
    fn default() -> (config: Self)
        ensures
            config == ConditionBackoffConfig::standard(),
    {
        ConditionBackoffConfig {
            initial_seconds: DEFAULT_BACKOFF_INITIAL_SECONDS,
            max_seconds: DEFAULT_CONDITION_BACKOFF_MAX_SECONDS,
            multiplier: DEFAULT_BACKOFF_MULTIPLIER,
            jitter_percent: DEFAULT_BACKOFF_JITTER_PERCENT,
        }
    }
}

/// Portable argv condition evaluated before allocating a service attempt.
#[derive(Clone, Debug, PartialEq, Eq)]
pub struct StartConditionConfig {
    /// Executable followed by arguments.
    pub command: Vec<String>,
    /// Maximum duration of one evaluation.
    pub timeout_seconds: u64,
    /// Retry delay independent of service restart backoff.
    pub backoff: ConditionBackoffConfig,
}

/// Retry policy for the single external logger process.
#[derive(Clone, Copy, Debug, PartialEq, Eq, Structural)]
pub struct LoggerRestartConfig {
    /// Restarts permitted after the initial logger start; absent means unbounded.
    pub max_retries: Option<u32>,
    /// Delay and stable-runtime reset policy for consecutive logger failures.
    pub backoff: BackoffConfig,
}

impl LoggerRestartConfig {
    /// The documented default logger retry policy.
    pub open spec fn standard() -> LoggerRestartConfig {
        LoggerRestartConfig { max_retries: None, backoff: BackoffConfig::standard() }
    }
}

impl Default for LoggerRestartConfig {
    fn default() -> (config: Self)
        ensures
            config == LoggerRestartConfig::standard(),
    {
        LoggerRestartConfig { max_retries: None, backoff: BackoffConfig::default() }
    }
}

/// One validated local-file destination and its rotation policy.
#[derive(Clone, Debug, PartialEq, Eq)]
pub struct FileLogConfig {
    /// Destination file.
    pub file: UnixPath,
    /// Rotation age in seconds.
    pub max_age_seconds: Option<u64>,
    /// Number of rotated files retained.
    pub keep: Option<u32>,
    /// Rotation threshold in bytes.
    pub max_bytes: Option<u64>,
    /// Prefix records with timestamps.
    pub timestamp: bool,
}

/// Pure view of a local-file destination.
#[verifier::ext_equal]
pub struct FileLogModel {
    pub file: Seq<u8>,
    pub max_age_seconds: Option<u64>,
    pub keep: Option<u32>,
    pub max_bytes: Option<u64>,
    pub timestamp: bool,
}

impl View for FileLogConfig {
    type V = FileLogModel;

    open spec fn view(&self) -> FileLogModel {
        FileLogModel {
            file: self.file@,
            max_age_seconds: self.max_age_seconds,
            keep: self.keep,
            max_bytes: self.max_bytes,
            timestamp: self.timestamp,
        }
    }
}

impl FileLogConfig {
    /// An equal destination.
    pub(crate) fn duplicate(&self) -> (copy: Self)
        ensures
            copy@ == self@,
    {
        FileLogConfig {
            file: self.file.duplicate(),
            max_age_seconds: self.max_age_seconds,
            keep: self.keep,
            max_bytes: self.max_bytes,
            timestamp: self.timestamp,
        }
    }
}

/// Strict local-file routing selected by the YAML `log` shape.
#[derive(Clone, Debug, PartialEq, Eq)]
pub enum FileLogRoutes {
    /// One file receives combined stdout and stderr.
    Combined(FileLogConfig),
    /// Only explicitly named streams receive local file adapters.
    Selected {
        /// Optional stdout-only destination.
        stdout: Option<FileLogConfig>,
        /// Optional stderr-only destination.
        stderr: Option<FileLogConfig>,
    },
}

/// Pure view of local-file routing.
pub enum RoutesModel {
    Combined(FileLogModel),
    Selected { stdout: Option<FileLogModel>, stderr: Option<FileLogModel> },
}

/// View of an optional destination.
pub open spec fn optional_file(file: Option<FileLogConfig>) -> Option<FileLogModel> {
    match file {
        Some(file) => Some(file@),
        None => None,
    }
}

impl View for FileLogRoutes {
    type V = RoutesModel;

    open spec fn view(&self) -> RoutesModel {
        match *self {
            FileLogRoutes::Combined(file) => RoutesModel::Combined(file@),
            FileLogRoutes::Selected { stdout, stderr } => RoutesModel::Selected {
                stdout: optional_file(stdout),
                stderr: optional_file(stderr),
            },
        }
    }
}

/// Output configuration for both child streams.
#[derive(Clone, Debug, PartialEq, Eq)]
pub struct LoggingConfig {
    /// Optional local-file routes.
    pub files: Option<FileLogRoutes>,
    /// Optional external logger argv receiving combined stdout and stderr.
    pub logger: Option<Vec<String>>,
    /// Optional external file-adapter executable; defaults to sibling `immortallog`.
    pub file_adapter: Option<UnixPath>,
    /// Restart and exhaustion policy for the external logger.
    pub restart: LoggerRestartConfig,
}

/// Pure view of output configuration.
#[verifier::ext_equal]
pub struct LoggingModel {
    pub files: Option<RoutesModel>,
    pub logger: Option<Seq<Seq<char>>>,
    pub file_adapter: Option<Seq<u8>>,
    pub restart: LoggerRestartConfig,
}

/// View of optional routes.
pub open spec fn optional_routes(files: Option<FileLogRoutes>) -> Option<RoutesModel> {
    match files {
        Some(files) => Some(files@),
        None => None,
    }
}

/// View of an optional argv.
pub open spec fn optional_argv(argv: Option<Vec<String>>) -> Option<Seq<Seq<char>>> {
    match argv {
        Some(argv) => Some(crate::text::texts(argv@)),
        None => None,
    }
}

/// View of an optional path.
pub open spec fn optional_path(path: Option<UnixPath>) -> Option<Seq<u8>> {
    match path {
        Some(path) => Some(path@),
        None => None,
    }
}

impl View for LoggingConfig {
    type V = LoggingModel;

    open spec fn view(&self) -> LoggingModel {
        LoggingModel {
            files: optional_routes(self.files),
            logger: optional_argv(self.logger),
            file_adapter: optional_path(self.file_adapter),
            restart: self.restart,
        }
    }
}

impl Default for LoggingConfig {
    fn default() -> (config: Self)
        ensures
            config@ == (LoggingModel {
                files: None,
                logger: None,
                file_adapter: None,
                restart: LoggerRestartConfig::standard(),
            }),
    {
        LoggingConfig {
            files: None,
            logger: None,
            file_adapter: None,
            restart: LoggerRestartConfig::default(),
        }
    }
}

/// PID paths retained as output-only compatibility metadata.
#[derive(Clone, Debug, PartialEq, Eq)]
pub struct PidFiles {
    /// Supervisor PID output path.
    pub supervisor: Option<UnixPath>,
    /// Main child PID output path.
    pub main: Option<UnixPath>,
}

impl Default for PidFiles {
    fn default() -> (files: Self)
        ensures
            files.supervisor is None,
            files.main is None,
    {
        PidFiles { supervisor: None, main: None }
    }
}

/// Validated runtime service definition.
#[derive(Clone, Debug, PartialEq, Eq)]
pub struct ServiceConfig {
    /// Whether directory reconciliation should keep this service running.
    pub enabled: bool,
    /// Executable followed by its arguments. No shell interpretation occurs.
    pub command: Vec<String>,
    /// Working directory applied before execution.
    pub working_directory: Option<UnixPath>,
    /// Explicit environment overrides.
    pub environment: Environment,
    /// Whether the child inherits the supervisor environment before overrides.
    pub environment_mode: EnvironmentMode,
    /// Account name used for privilege dropping.
    pub user: Option<String>,
    /// Delay before the first start, in seconds.
    pub start_delay_seconds: u64,
    /// Restart and crash-loop policy.
    pub restart: RestartConfig,
    /// Readiness policy for dependency gating.
    pub readiness: ReadinessConfig,
    /// Other services which must become ready before this one starts.
    pub requires_services: Vec<String>,
    /// Portable command condition evaluated before starting.
    pub start_condition: Option<StartConditionConfig>,
    /// Command invoked after a service generation exits.
    pub post_exit: Option<CommandHook>,
    /// Standard-output and standard-error routing.
    pub logging: LoggingConfig,
    /// Optional output-only PID paths.
    pub pid_files: PidFiles,
    /// Explicit handling for self-daemonizing programs.
    pub process_mode: ProcessMode,
    /// Required lifecycle contract for descriptor-tracked programs.
    pub descriptor_tracking: Option<DescriptorTrackingConfig>,
}

/// Ownership model for the supervised application.
#[derive(Clone, Copy, Debug, PartialEq, Eq, Structural)]
pub enum ProcessMode {
    /// The service remains a direct child in the managed process group.
    Foreground,
    /// A descriptor remains open across the application's own daemonization.
    DescriptorTracking,
}

impl Default for ProcessMode {
    fn default() -> (mode: Self)
        ensures
            mode == ProcessMode::Foreground,
    {
        ProcessMode::Foreground
    }
}

/// What a definition leaves out has a fixed meaning: a service is restarted always and
/// without limit, after one second at first and a minute at most, doubling in between
/// and spread by a fifth; a minute of running forgives; it is ready at once; and only
/// zero is a successful exit.
pub proof fn omitted_policies_have_their_documented_meaning(config: RestartConfig)
    requires
        config.is_standard(),
    ensures
        config.policy == RestartPolicy::Always,
        !config.exit_when_done,
        config.limits.max_retries is None,
        config.limits.max_elapsed_seconds is None,
        config.limits.burst is None,
        forall|code: u8| #[trigger] config.success_exit_codes@.contains(code) <==> code == 0,
        config.backoff.initial_seconds == 1,
        config.backoff.max_seconds == 60,
        config.backoff.multiplier == 2,
        config.backoff.jitter_percent == 20,
        config.backoff.reset_after_seconds == 60,
        LoggerRestartConfig::standard().max_retries is None,
        LoggerRestartConfig::standard().backoff == config.backoff,
        ReadinessConfig::standard().mode == ReadinessMode::Immediate,
        ReadinessConfig::standard().timeout_seconds == 30,
        ConditionBackoffConfig::standard().initial_seconds == config.backoff.initial_seconds,
        ConditionBackoffConfig::standard().max_seconds == 30,
        ConditionBackoffConfig::standard().multiplier == config.backoff.multiplier,
        ConditionBackoffConfig::standard().jitter_percent == config.backoff.jitter_percent,
{
}

} // verus!
