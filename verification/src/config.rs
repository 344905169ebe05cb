//! Strict service configuration normalization, validation, and resolution.

pub mod direct;
pub mod document;
pub mod emission;
pub mod environment;
pub mod error;
pub mod logging;
pub mod model;
pub mod paths;
pub mod validate;

pub use document::{parse_bytes, parse_bytes_at, parse_str};
pub use environment::{
    Environment, EnvironmentEntry, MAX_ENVIRONMENT_DIRECTORY_BYTES,
    MAX_ENVIRONMENT_DIRECTORY_ENTRIES, MAX_ENVIRONMENT_VALUE_BYTES,
};
pub use error::{ConfigError, MAX_CONFIG_BYTES};
pub use model::{
    BackoffConfig, CommandHook, ConditionBackoffConfig, DescriptorTrackingConfig, EnvironmentMode,
    FileLogConfig, FileLogRoutes, LoggerRestartConfig, LoggingConfig, PidFiles, ProcessMode,
    ReadinessConfig, ReadinessMode, RestartBurstLimit, RestartConfig, RestartLimits, RestartPolicy,
    ServiceConfig, StartConditionConfig,
};
pub use paths::{resolve_paths, validate_service};
pub use validate::MAX_SCHEDULE_SECONDS;
