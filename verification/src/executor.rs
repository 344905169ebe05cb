//! Single-owner service supervision driven through the process broker.

pub mod answers;
pub mod auxiliary;
pub mod broker;
pub mod clock;
pub mod completion;
pub mod conduct;
pub mod context;
pub mod control;
pub mod error;
pub mod events;
pub mod laws;
pub mod logger;
pub mod outcome;
pub mod prepare;
pub mod runtime;
pub mod startup;
pub mod stopping;
pub mod timers;

pub use clock::Moment;
pub use context::ExecutionContext;
pub use error::ExecutorError;
pub use outcome::{DaemonRunOutcome, SupervisionOutcome};
pub use runtime::{advance_service, handle_executor_event, ExecutorEvent, Progress};
