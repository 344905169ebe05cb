//! Typed failures for logging planning, runtime lookup, shutdown, and retention.

use vstd::prelude::*;
use vstd::string::*;

verus! {

/// Invalid logger plan, runtime lookup, or shutdown transition.
#[derive(Clone, Copy, Debug, PartialEq, Eq, Structural)]
pub enum LoggingError {
    /// External logger argv has no executable.
    EmptyExternalCommand,
    /// Selected local-file routing has no stream.
    EmptyFileSelection,
    /// Runtime stream does not have a pipeline.
    UnknownPipeline,
    /// Pipeline stage index does not exist.
    UnknownStage,
    /// Runtime has no shared external logger.
    UnknownExternalLogger,
    /// Shutdown event arrived out of order.
    InvalidShutdownTransition,
    /// Archive count cannot fit the target platform.
    RetentionCountTooLarge,
}

impl LoggingError {
    /// Rendered explanation.
    pub open spec fn text(self) -> Seq<char> {
        match self {
            LoggingError::EmptyExternalCommand => "external logger command is empty"@,
            LoggingError::EmptyFileSelection => "local log selection is empty"@,
            LoggingError::UnknownPipeline => "unknown logging pipeline"@,
            LoggingError::UnknownStage => "unknown logger stage"@,
            LoggingError::UnknownExternalLogger => "external logger is not configured"@,
            LoggingError::InvalidShutdownTransition => "invalid logging shutdown transition"@,
            LoggingError::RetentionCountTooLarge => "logging retention count is too large"@,
        }
    }

    /// Rendered explanation.
    #[must_use]
    pub fn message(self) -> (message: String)
        ensures
            message@ == self.text(),
    {
        (match self {
            LoggingError::EmptyExternalCommand => "external logger command is empty",
            LoggingError::EmptyFileSelection => "local log selection is empty",
            LoggingError::UnknownPipeline => "unknown logging pipeline",
            LoggingError::UnknownStage => "unknown logger stage",
            LoggingError::UnknownExternalLogger => "external logger is not configured",
            LoggingError::InvalidShutdownTransition => "invalid logging shutdown transition",
            LoggingError::RetentionCountTooLarge => "logging retention count is too large",
        }).to_owned()
    }
}

} // verus!
