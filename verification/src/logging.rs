//! Local-file routing, shared external-logger planning, and file rotation.
//!
//! Configuration normalizes into strict local routes plus at most one external
//! sink. Combined routes use one file adapter; selected routes keep stdout and
//! stderr independent locally while both may converge on the shared sink.

pub mod error;
pub mod plan;
pub mod rotation;
pub mod runtime;
pub mod shutdown;

pub use error::LoggingError;
pub use plan::{BackpressurePolicy, FileRoutePlan, LoggerStage, LoggingPlan, OutputStream};
pub use rotation::{Archive, RotationPolicy, RotationState};
pub use runtime::{LoggerStageStatus, LoggingRuntime, PipeId, PipelineHealth};
pub use shutdown::{LoggingShutdown, LoggingShutdownEffect, LoggingShutdownPhase};
