//! Configuration failure type shared by parsing, environment loading, and validation.
//!
//! [`ConfigError`] is the single error surface of every configuration entry
//! point. Its variants distinguish size, I/O, environment-input, parse, version,
//! and validation failures so callers can react to each precisely.

use vstd::prelude::*;
use vstd::string::*;

use crate::fault::{Fault, FaultModel};
use crate::path::UnixPath;
use crate::text;
use crate::text::{concat2, decode_lossy, join_texts, push_decimal};

verus! {

/// Maximum accepted size of one service definition.
pub const MAX_CONFIG_BYTES: usize = 1_048_576;

/// Configuration parsing or validation failure.
#[derive(Debug)]
pub enum ConfigError {
    /// Input exceeded [`MAX_CONFIG_BYTES`].
    TooLarge {
        /// Observed size.
        actual: u64,
    },
    /// The file could not be read.
    Io(Fault),
    /// A direct-command environment directory or one of its entries was invalid.
    EnvironmentInput {
        /// Path which could not be inspected or decoded.
        path: UnixPath,
        /// Operating-system or bounded-input failure.
        source: Fault,
    },
    /// YAML was malformed or did not match the selected schema.
    Parse(String),
    /// The required configuration version marker was absent.
    MissingVersion,
    /// A version marker was present but unsupported.
    UnsupportedVersion(u64),
    /// The document parsed but violated runtime invariants.
    Validation(Vec<String>),
}

/// Pure view of a configuration failure.
pub enum ConfigFault {
    TooLarge { actual: u64 },
    Io(FaultModel),
    EnvironmentInput { path: Seq<u8>, source: FaultModel },
    Parse(Seq<char>),
    MissingVersion,
    UnsupportedVersion(u64),
    Validation(Seq<Seq<char>>),
}

impl View for ConfigError {
    type V = ConfigFault;

    open spec fn view(&self) -> ConfigFault {
        match *self {
            ConfigError::TooLarge { actual } => ConfigFault::TooLarge { actual },
            ConfigError::Io(fault) => ConfigFault::Io(fault@),
            ConfigError::EnvironmentInput { path, source } => ConfigFault::EnvironmentInput {
                path: path@,
                source: source@,
            },
            ConfigError::Parse(reason) => ConfigFault::Parse(reason@),
            ConfigError::MissingVersion => ConfigFault::MissingVersion,
            ConfigError::UnsupportedVersion(version) => ConfigFault::UnsupportedVersion(version),
            ConfigError::Validation(errors) => ConfigFault::Validation(text::texts(errors@)),
        }
    }
}

/// Rendered explanation of a failure.
pub open spec fn fault_text(fault: ConfigFault) -> Seq<char> {
    match fault {
        ConfigFault::TooLarge { actual } => "configuration is "@ + text::decimal(actual as nat)
            + " bytes; limit is "@ + text::decimal(MAX_CONFIG_BYTES as nat) + " bytes"@,
        ConfigFault::Io(fault) => "unable to read configuration: "@ + fault.text,
        ConfigFault::EnvironmentInput { path, source } => "unable to load environment input `"@
            + text::lossy_text(path) + "`: "@ + source.text,
        ConfigFault::Parse(reason) => "invalid YAML configuration: "@ + reason,
        ConfigFault::MissingVersion =>
            "configuration must declare `version: 2`; unversioned Go configuration is intentionally unsupported; see INSTALL.md#definition-migration"@,
        ConfigFault::UnsupportedVersion(version) => "unsupported configuration version "@
            + text::decimal(version as nat) + "; only version 2 is accepted"@,
        ConfigFault::Validation(errors) => "invalid service configuration: "@ + text::joined(
            errors,
            "; "@,
        ),
    }
}

impl ConfigError {
    /// Rendered explanation.
    #[must_use]
    pub fn message(&self) -> (message: String)
        ensures
            message@ == fault_text(self@),
    {
        match self {
            ConfigError::TooLarge { actual } => {
                let mut message = "configuration is ".to_owned();
                push_decimal(&mut message, *actual);
                message.append(" bytes; limit is ");
                push_decimal(&mut message, MAX_CONFIG_BYTES as u64);
                message.append(" bytes");
                message
            },
            ConfigError::Io(fault) => concat2(
                "unable to read configuration: ",
                fault.text.as_str(),
            ),
            ConfigError::EnvironmentInput { path, source } => {
                let mut message = "unable to load environment input `".to_owned();
                let shown = decode_lossy(path.bytes.as_slice());
                message.append(shown.as_str());
                message.append("`: ");
                message.append(source.text.as_str());
                message
            },
            ConfigError::Parse(reason) => concat2("invalid YAML configuration: ", reason.as_str()),
            ConfigError::MissingVersion => {
                "configuration must declare `version: 2`; unversioned Go configuration is intentionally unsupported; see INSTALL.md#definition-migration"
                    .to_owned()
            },
            ConfigError::UnsupportedVersion(version) => {
                let mut message = "unsupported configuration version ".to_owned();
                push_decimal(&mut message, *version);
                message.append("; only version 2 is accepted");
                message
            },
            ConfigError::Validation(errors) => {
                let listed = join_texts(errors, "; ");
                concat2("invalid service configuration: ", listed.as_str())
            },
        }
    }
}

/// A validation failure with one reason.
pub open spec fn invalid(reason: Seq<char>) -> ConfigFault {
    ConfigFault::Validation(seq![reason])
}

/// A validation failure with one reason.
pub(crate) fn validation_error(reason: String) -> (error: ConfigError)
    ensures
        error@ == invalid(reason@),
{
    let mut errors: Vec<String> = Vec::new();
    errors.push(reason);
    assert(text::texts(errors@) =~= seq![reason@]);
    ConfigError::Validation(errors)
}

} // verus!
