//! Logging aliases, quantities, and their reconciliation.

pub mod quantity;
pub mod wire;

pub use quantity::{format_log_age, format_log_size, parse_log_age, parse_log_size, LogScalar};
pub use wire::{
    normalize_logging, FileLogInput, LegacyFileLogConfig, LegacyLoggingConfig, LegacyOutputConfig,
    LogInput, SelectedLogInput,
};
