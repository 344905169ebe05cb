//! Strict `version: 2` wire schema and the decoding pipeline around it.
//!
//! [`ConfigDocument`] holds exactly the fields of one decoded document.
//! [`parse_current`] turns it into the canonical definition, delegating every
//! logging alias to normalization. [`YamlLimits`] is the bounded parser budget
//! shared by every decode call, so that a hostile document cannot exhaust memory
//! or recursion before validation runs.

use vstd::prelude::*;
use vstd::string::*;
use vstd::utf8::*;

use crate::path::UnixPath;
use crate::text;
use crate::text::{concat2, decode_text};

use super::environment::Environment;
use super::error;
use super::error::{ConfigError, ConfigFault, MAX_CONFIG_BYTES};
use super::logging::wire;
use super::logging::{normalize_logging, FileLogInput, LegacyLoggingConfig, LogInput};
use super::model::{
    CommandHook, DescriptorTrackingConfig, EnvironmentMode, LoggerRestartConfig, LoggingModel,
    PidFiles, ProcessMode, ReadinessConfig, RestartConfig, ServiceConfig, StartConditionConfig,
};
use super::paths;
use super::paths::{resolve_paths, source_base};
use super::validate;
use super::validate::validate;

verus! {

/// The only schema version this decoder accepts.
pub const CURRENT_VERSION: u8 = 2;

/// One decoded document.
#[derive(Clone, Debug, PartialEq, Eq)]
pub struct ConfigDocument {
    /// Schema version.
    pub version: u8,
    /// Whether the service should be kept running.
    pub enabled: bool,
    /// Executable followed by its arguments.
    pub command: Vec<String>,
    /// Working directory.
    pub working_directory: Option<UnixPath>,
    /// Environment overrides, every scalar as text.
    pub environment: Environment,
    /// Base environment.
    pub environment_mode: EnvironmentMode,
    /// Account name.
    pub user: Option<String>,
    /// Delay before the first start.
    pub start_delay_seconds: u64,
    /// Restart policy.
    pub restart: RestartConfig,
    /// Readiness policy.
    pub readiness: ReadinessConfig,
    /// Required services.
    pub requires_services: Vec<String>,
    /// Start condition.
    pub start_condition: Option<StartConditionConfig>,
    /// Post-exit hook.
    pub post_exit: Option<CommandHook>,
    /// Local file routes.
    pub log: Option<LogInput>,
    /// External logger argv.
    pub logger: Option<Vec<String>>,
    /// File-adapter executable.
    pub log_adapter: Option<UnixPath>,
    /// Logger retry policy.
    pub logger_restart: Option<LoggerRestartConfig>,
    /// Deprecated Go-compatible alias for `log.stderr`.
    pub stderr: Option<FileLogInput>,
    /// Deprecated logging shape accepted during migration.
    pub logging: Option<LegacyLoggingConfig>,
    /// PID paths.
    pub pid_files: PidFiles,
    /// Ownership model.
    pub process_mode: ProcessMode,
    /// Descriptor lifecycle contract.
    pub descriptor_tracking: Option<DescriptorTrackingConfig>,
}

/// Whether a definition holds a document's fields, with its logging reconciled.
pub open spec fn carries_over(
    document: ConfigDocument,
    config: ServiceConfig,
    logging: LoggingModel,
) -> bool {
    &&& config.enabled == document.enabled
    &&& config.command == document.command
    &&& config.working_directory == document.working_directory
    &&& config.environment == document.environment
    &&& config.environment_mode == document.environment_mode
    &&& config.user == document.user
    &&& config.start_delay_seconds == document.start_delay_seconds
    &&& config.restart == document.restart
    &&& config.readiness == document.readiness
    &&& config.requires_services == document.requires_services
    &&& config.start_condition == document.start_condition
    &&& config.post_exit == document.post_exit
    &&& config.logging@ == logging
    &&& config.pid_files == document.pid_files
    &&& config.process_mode == document.process_mode
    &&& config.descriptor_tracking == document.descriptor_tracking
}

/// Reconciled logging of a document.
pub open spec fn document_logging(document: ConfigDocument) -> Result<LoggingModel, ConfigFault> {
    wire::normalized(
        document.log,
        document.logger,
        document.log_adapter,
        document.logger_restart,
        document.stderr,
        document.logging,
    )
}

/// What a document becomes: the version is checked before logging.
pub open spec fn decodes(
    document: ConfigDocument,
    result: Result<ServiceConfig, ConfigError>,
) -> bool {
    if document.version != CURRENT_VERSION {
        result matches Err(error) && error@ == ConfigFault::UnsupportedVersion(
            document.version as u64,
        )
    } else {
        match (document_logging(document), result) {
            (Ok(logging), Ok(config)) => carries_over(document, config, logging),
            (Err(fault), Err(error)) => error@ == fault,
            _ => false,
        }
    }
}

/// Turn one decoded document into the canonical definition.
///
/// # Errors
///
/// Returns an error for any other version and for logging fields which cannot be
/// normalized into one canonical route set.
pub fn parse_current(document: ConfigDocument) -> (result: Result<ServiceConfig, ConfigError>)
    ensures
        decodes(document, result),
{
    if document.version != CURRENT_VERSION {
        return Err(ConfigError::UnsupportedVersion(document.version as u64));
    }
    let logging = match normalize_logging(
        document.log,
        document.logger,
        document.log_adapter,
        document.logger_restart,
        document.stderr,
        document.logging,
    ) {
        Ok(logging) => logging,
        Err(error) => return Err(error),
    };
    Ok(
        ServiceConfig {
            enabled: document.enabled,
            command: document.command,
            working_directory: document.working_directory,
            environment: document.environment,
            environment_mode: document.environment_mode,
            user: document.user,
            start_delay_seconds: document.start_delay_seconds,
            restart: document.restart,
            readiness: document.readiness,
            requires_services: document.requires_services,
            start_condition: document.start_condition,
            post_exit: document.post_exit,
            logging,
            pid_files: document.pid_files,
            process_mode: document.process_mode,
            descriptor_tracking: document.descriptor_tracking,
        },
    )
}

// ---------------------------------------------------------------------------
// YAML
// ---------------------------------------------------------------------------

/// Bounded YAML parser budget.
#[derive(Clone, Copy, Debug, PartialEq, Eq, Structural)]
pub struct YamlLimits {
    /// Parser events.
    pub max_events: usize,
    /// Aliases.
    pub max_aliases: usize,
    /// Anchors.
    pub max_anchors: usize,
    /// Nesting depth.
    pub max_depth: usize,
    /// Documents.
    pub max_documents: usize,
    /// Nodes.
    pub max_nodes: usize,
    /// Combined scalar bytes.
    pub max_total_scalar_bytes: usize,
    /// Combined comment bytes.
    pub max_total_comment_bytes: usize,
    /// Merge keys.
    pub max_merge_keys: usize,
    /// Events replayed through aliases.
    pub max_total_replayed_events: usize,
    /// Depth of alias replay.
    pub max_replay_stack_depth: usize,
    /// Expansions of one anchor.
    pub max_alias_expansions_per_anchor: usize,
}

/// The budget of every decode call.
pub open spec fn budget() -> YamlLimits {
    YamlLimits {
        max_events: 100_000,
        max_aliases: 128,
        max_anchors: 128,
        max_depth: 32,
        max_documents: 2,
        max_nodes: 50_000,
        max_total_scalar_bytes: MAX_CONFIG_BYTES,
        max_total_comment_bytes: MAX_CONFIG_BYTES,
        max_merge_keys: 128,
        max_total_replayed_events: 100_000,
        max_replay_stack_depth: 32,
        max_alias_expansions_per_anchor: 128,
    }
}

/// The budget of every decode call.
#[must_use]
pub fn yaml_limits() -> (limits: YamlLimits)
    ensures
        limits == budget(),
{
    YamlLimits {
        max_events: 100_000,
        max_aliases: 128,
        max_anchors: 128,
        max_depth: 32,
        max_documents: 2,
        max_nodes: 50_000,
        max_total_scalar_bytes: MAX_CONFIG_BYTES,
        max_total_comment_bytes: MAX_CONFIG_BYTES,
        max_merge_keys: 128,
        max_total_replayed_events: 100_000,
        max_replay_stack_depth: 32,
        max_alias_expansions_per_anchor: 128,
    }
}

/// Number of YAML documents in a source under a budget, or the reason why it is
/// refused.
pub uninterp spec fn yaml_document_count(source: Seq<char>, limits: YamlLimits) -> Result<
    nat,
    Seq<char>,
>;

/// View of a counted source.
pub open spec fn counted(count: Result<usize, String>) -> Result<nat, Seq<char>> {
    match count {
        Ok(count) => Ok(count as nat),
        Err(reason) => Err(reason@),
    }
}

/// Count the documents of a source with `serde_saphyr::from_multiple_with_options`
/// into ignored values, under the given budget and otherwise default options.
///
/// The count, and the rendered reason of a refusal, depend on the source and the
/// budget alone; they are named rather than described. The call recurses once for
/// each level of nesting, so only the library's own budget, which bounds the depth,
/// is admitted.
#[verifier::external_body]
pub(crate) fn count_documents(source: &str, limits: &YamlLimits) -> (count: Result<usize, String>)
    requires
        *limits == budget(),
    ensures
        counted(count) == yaml_document_count(source@, *limits),
{
    let mut options = serde_saphyr::Options::default();
    let (budget, alias) = (&mut serde_saphyr::Budget::default(), &mut options.alias_limits);
    (budget.max_events, budget.max_aliases) = (limits.max_events, limits.max_aliases);
    (budget.max_anchors, budget.max_depth) = (limits.max_anchors, limits.max_depth);
    (budget.max_documents, budget.max_nodes) = (limits.max_documents, limits.max_nodes);
    budget.max_total_scalar_bytes = limits.max_total_scalar_bytes;
    budget.max_total_comment_bytes = limits.max_total_comment_bytes;
    budget.max_merge_keys = limits.max_merge_keys;
    alias.max_total_replayed_events = limits.max_total_replayed_events;
    alias.max_replay_stack_depth = limits.max_replay_stack_depth;
    alias.max_alias_expansions_per_anchor = limits.max_alias_expansions_per_anchor;
    options.budget = Some(budget.clone());
    serde_saphyr::from_multiple_with_options::<serde::de::IgnoredAny>(source, options)
        .map(|documents| documents.len()).map_err(|error| error.to_string())
}

// ---------------------------------------------------------------------------
// Pipeline
// ---------------------------------------------------------------------------

/// Reason why a source is not decoded at all: it is too large, or does not hold
/// exactly one document within the budget.
pub open spec fn inadmissible(source: Seq<char>) -> Option<ConfigFault> {
    let length = encode_utf8(source).len();
    if length > MAX_CONFIG_BYTES {
        Some(ConfigFault::TooLarge { actual: length as u64 })
    } else {
        match yaml_document_count(source, budget()) {
            Err(reason) => Some(ConfigFault::Parse(reason)),
            Ok(count) => if count != 1 {
                Some(
                    ConfigFault::Parse("configuration must contain exactly one YAML document"@),
                )
            } else {
                None
            },
        }
    }
}

/// Reason why a decoded version header is refused.
pub open spec fn refused_version(header: Result<Option<u64>, String>) -> Option<ConfigFault> {
    match header {
        Err(reason) => Some(ConfigFault::Parse(reason@)),
        Ok(None) => Some(ConfigFault::MissingVersion),
        Ok(Some(version)) => if version != CURRENT_VERSION {
            Some(ConfigFault::UnsupportedVersion(version))
        } else {
            None
        },
    }
}

/// What a decoded document becomes once it is validated.
pub open spec fn completes(
    document: Result<ConfigDocument, String>,
    result: Result<ServiceConfig, ConfigError>,
) -> bool {
    match document {
        Err(reason) => result matches Err(error) && error@ == ConfigFault::Parse(reason@),
        Ok(document) => if document.version != CURRENT_VERSION {
            result matches Err(error) && error@ == ConfigFault::UnsupportedVersion(
                document.version as u64,
            )
        } else {
            match document_logging(document) {
                Err(fault) => result matches Err(error) && error@ == fault,
                Ok(logging) => match result {
                    Ok(config) => carries_over(document, config, logging) && validate::violations(
                        config,
                    ).len() == 0,
                    Err(error) => exists|config: ServiceConfig|
                        {
                            &&& #[trigger] carries_over(document, config, logging)
                            &&& validate::violations(config).len() > 0
                            &&& error@ == ConfigFault::Validation(validate::violations(config))
                        },
                },
            }
        },
    }
}

/// Refuse a source which must not be decoded.
///
/// # Errors
///
/// Fails for a source which is too large, malformed, or not exactly one document.
pub fn admit_source(source: &str) -> (result: Result<(), ConfigError>)
    ensures
        match result {
            Ok(()) => inadmissible(source@) is None,
            Err(error) => inadmissible(source@) == Some(error@),
        },
{
    let length: usize = source.as_bytes().len();
    if length > MAX_CONFIG_BYTES {
        return Err(ConfigError::TooLarge { actual: length as u64 });
    }
    match count_documents(source, &yaml_limits()) {
        Ok(count) => {
            if count != 1 {
                Err(
                    ConfigError::Parse(
                        "configuration must contain exactly one YAML document".to_owned(),
                    ),
                )
            } else {
                Ok(())
            }
        },
        Err(reason) => Err(ConfigError::Parse(reason)),
    }
}

/// Refuse every version but the current one.
///
/// # Errors
///
/// Fails for an undecodable header, a missing version, and any other version.
pub fn select_version(header: Result<Option<u64>, String>) -> (result: Result<(), ConfigError>)
    ensures
        match result {
            Ok(()) => refused_version(header) is None,
            Err(error) => refused_version(header) == Some(error@),
        },
{
    match header {
        Err(reason) => Err(ConfigError::Parse(reason)),
        Ok(None) => Err(ConfigError::MissingVersion),
        Ok(Some(version)) => {
            if version != CURRENT_VERSION as u64 {
                Err(ConfigError::UnsupportedVersion(version))
            } else {
                Ok(())
            }
        },
    }
}

/// Normalize and validate a decoded document.
///
/// # Errors
///
/// Fails for an undecodable document, another version, irreconcilable logging,
/// and every policy violation.
pub fn complete_document(document: Result<ConfigDocument, String>) -> (result: Result<
    ServiceConfig,
    ConfigError,
>)
    ensures
        completes(document, result),
{
    let document = match document {
        Ok(document) => document,
        Err(reason) => return Err(ConfigError::Parse(reason)),
    };
    let config = match parse_current(document) {
        Ok(config) => config,
        Err(error) => return Err(error),
    };
    match validate(&config) {
        Ok(()) => Ok(config),
        Err(error) => {
            assert(carries_over(document, config, document_logging(document)->Ok_0));
            Err(error)
        },
    }
}

/// What parsing one source reports, given decoders for its version header and for
/// its document.
pub open spec fn parses<H, D>(
    source: &str,
    header: H,
    document: D,
    result: Result<ServiceConfig, ConfigError>,
) -> bool where
    H: Fn(&str) -> Result<Option<u64>, String>,
    D: Fn(&str) -> Result<ConfigDocument, String>,
 {
    match inadmissible(source@) {
        Some(fault) => result matches Err(error) && error@ == fault,
        None => exists|found: Result<Option<u64>, String>|
            {
                &&& #[trigger] call_ensures(header, (source,), found)
                &&& match refused_version(found) {
                    Some(fault) => result matches Err(error) && error@ == fault,
                    None => exists|decoded: Result<ConfigDocument, String>| #[trigger]
                        call_ensures(document, (source,), decoded) && completes(decoded, result),
                }
            },
    }
}

/// Parse, normalize, and validate a UTF-8 service definition.
///
/// `header` decodes the version of a source and `document` its strict schema; each
/// is called at most once, and only on a source which passed every check before.
///
/// # Errors
///
/// Returns an error for malformed, unsupported, or semantically invalid input.
pub fn parse_str<H, D>(source: &str, header: H, document: D) -> (result: Result<
    ServiceConfig,
    ConfigError,
>) where
    H: Fn(&str) -> Result<Option<u64>, String>,
    D: Fn(&str) -> Result<ConfigDocument, String>,

    requires
        call_requires(header, (source,)),
        call_requires(document, (source,)),
    ensures
        parses(source, header, document, result),
{
    match admit_source(source) {
        Ok(()) => {},
        Err(error) => return Err(error),
    }
    let found = header(source);
    assert(call_ensures(header, (source,), found));
    match select_version(found) {
        Ok(()) => {},
        Err(error) => return Err(error),
    }
    let decoded = document(source);
    assert(call_ensures(document, (source,), decoded));
    complete_document(decoded)
}

/// What parsing raw bytes reports.
pub open spec fn parses_bytes<H, D>(
    bytes: Seq<u8>,
    header: H,
    document: D,
    result: Result<ServiceConfig, ConfigError>,
) -> bool where
    H: Fn(&str) -> Result<Option<u64>, String>,
    D: Fn(&str) -> Result<ConfigDocument, String>,
 {
    if bytes.len() > MAX_CONFIG_BYTES {
        result matches Err(error) && error@ == (ConfigFault::TooLarge {
            actual: bytes.len() as u64,
        })
    } else if !valid_utf8(bytes) {
        result matches Err(error) && error@ == ConfigFault::Parse(
            "input is not UTF-8: "@ + text::utf8_error_text(bytes),
        )
    } else {
        exists|source: &str|
            source@ == decode_utf8(bytes) && #[trigger] parses(source, header, document, result)
    }
}

/// Parse, normalize, and validate an in-memory service definition.
///
/// # Errors
///
/// Returns an error for oversized, non-UTF-8, malformed, unsupported, or
/// semantically invalid input.
pub fn parse_bytes<H, D>(bytes: &[u8], header: H, document: D) -> (result: Result<
    ServiceConfig,
    ConfigError,
>) where
    H: Fn(&str) -> Result<Option<u64>, String>,
    D: Fn(&str) -> Result<ConfigDocument, String>,

    requires
        forall|source: &str| #[trigger] call_requires(header, (source,)),
        forall|source: &str| #[trigger] call_requires(document, (source,)),
    ensures
        parses_bytes(bytes@, header, document, result),
{
    if bytes.len() > MAX_CONFIG_BYTES {
        return Err(ConfigError::TooLarge { actual: bytes.len() as u64 });
    }
    let text = match decode_text(bytes) {
        Ok(text) => text,
        Err(reason) => return Err(
            ConfigError::Parse(concat2("input is not UTF-8: ", reason.as_str())),
        ),
    };
    let source = text.as_str();
    let result = parse_str(source, header, document);
    assert(parses(source, header, document, result));
    result
}

/// Refuse a definition file by its declared size, before any of it is read.
///
/// # Errors
///
/// Fails for a file which exceeds the limit.
pub fn admit_declared_size(declared: u64) -> (result: Result<(), ConfigError>)
    ensures
        match result {
            Ok(()) => declared <= MAX_CONFIG_BYTES,
            Err(error) => declared > MAX_CONFIG_BYTES && error@ == (ConfigFault::TooLarge {
                actual: declared,
            }),
        },
{
    if declared > MAX_CONFIG_BYTES as u64 {
        Err(ConfigError::TooLarge { actual: declared })
    } else {
        Ok(())
    }
}

/// What a parsed definition becomes once its paths are resolved.
pub open spec fn settles(
    parsed: Result<ServiceConfig, ConfigError>,
    source: Seq<u8>,
    working_directory: Seq<u8>,
    result: Result<ServiceConfig, ConfigError>,
) -> bool {
    match parsed {
        Err(error) => result == Err::<ServiceConfig, ConfigError>(error),
        Ok(config) => match paths::definition_base(source, working_directory) {
            None => result matches Err(error) && error@ == error::invalid(
                "configuration path has no parent directory"@,
            ),
            Some(base) => {
                let (expected, printable) = paths::resolution(paths::locations(config), base);
                match result {
                    Ok(resolved) => printable && paths::same_policy(config, resolved)
                        && paths::locations(resolved) == expected,
                    Err(error) => !printable && error@ == paths::unprintable_executable(),
                }
            },
        },
    }
}

/// Parse one in-memory definition and resolve its paths against its source.
///
/// The filesystem is not consulted: a working directory still has to be inspected
/// before the definition is used.
///
/// # Errors
///
/// Returns the errors of [`parse_bytes`], of a source path without a parent
/// directory, and of path resolution.
pub fn parse_bytes_at<H, D>(
    bytes: &[u8],
    source: &UnixPath,
    working_directory: &UnixPath,
    header: H,
    document: D,
) -> (result: Result<ServiceConfig, ConfigError>) where
    H: Fn(&str) -> Result<Option<u64>, String>,
    D: Fn(&str) -> Result<ConfigDocument, String>,

    requires
        forall|text: &str| #[trigger] call_requires(header, (text,)),
        forall|text: &str| #[trigger] call_requires(document, (text,)),
    ensures
        exists|parsed: Result<ServiceConfig, ConfigError>|
            {
                &&& #[trigger] parses_bytes(bytes@, header, document, parsed)
                &&& settles(parsed, source@, working_directory@, result)
            },
{
    let parsed = parse_bytes(bytes, header, document);
    assert(parses_bytes(bytes@, header, document, parsed));
    settle(parsed, source, working_directory)
}

/// Resolve the paths of a parsed definition against its source.
///
/// # Errors
///
/// Returns an earlier failure, or the failure to find a base directory or to
/// resolve an executable.
pub fn settle(
    parsed: Result<ServiceConfig, ConfigError>,
    source: &UnixPath,
    working_directory: &UnixPath,
) -> (result: Result<ServiceConfig, ConfigError>)
    ensures
        settles(parsed, source@, working_directory@, result),
{
    let mut config = match parsed {
        Ok(config) => config,
        Err(error) => return Err(error),
    };
    let base = match source_base(source, working_directory) {
        Ok(base) => base,
        Err(error) => return Err(error),
    };
    match resolve_paths(&mut config, &base) {
        Ok(()) => Ok(config),
        Err(error) => Err(error),
    }
}

/// An accepted definition is current and valid, and states exactly what its document
/// does; a document of any other version is never accepted.
pub proof fn accepted_definitions_are_current_and_valid(
    document: ConfigDocument,
    config: ServiceConfig,
    result: Result<ServiceConfig, ConfigError>,
)
    requires
        completes(Ok::<ConfigDocument, String>(document), result),
    ensures
        document.version != 2 ==> result is Err,
        result == Ok::<ServiceConfig, ConfigError>(config) ==> {
            &&& validate::violations(config).len() == 0
            &&& config.enabled == document.enabled
            &&& config.command == document.command
            &&& config.working_directory == document.working_directory
            &&& config.environment == document.environment
            &&& config.environment_mode == document.environment_mode
            &&& config.user == document.user
            &&& config.start_delay_seconds == document.start_delay_seconds
            &&& config.restart == document.restart
            &&& config.readiness == document.readiness
            &&& config.requires_services == document.requires_services
            &&& config.start_condition == document.start_condition
            &&& config.post_exit == document.post_exit
            &&& config.pid_files == document.pid_files
            &&& config.process_mode == document.process_mode
            &&& config.descriptor_tracking == document.descriptor_tracking
        },
{
}

/// Only a version header of two is read on; a header which is missing, of any other
/// version, or unreadable ends the reading, and each says why.
pub proof fn only_current_headers_are_read(version: u64, reason: String)
    ensures
        refused_version(Ok(Some(version))) is None <==> version == 2,
        refused_version(Ok(None)) == Some(ConfigFault::MissingVersion),
        version != 2 ==> refused_version(Ok(Some(version))) == Some(
            ConfigFault::UnsupportedVersion(version),
        ),
        refused_version(Err(reason)) == Some(ConfigFault::Parse(reason@)),
{
}

/// A source is admitted only if it is at most a mebibyte and holds exactly one document.
pub proof fn admitted_sources_hold_one_document(source: Seq<char>)
    ensures
        inadmissible(source) is None <==> encode_utf8(source).len() <= 1024 * 1024
            && yaml_document_count(source, budget()) == Ok::<nat, Seq<char>>(1),
{
}

} // verus!
