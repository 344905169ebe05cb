//! Definitions from YAML text to the validated model, and what is built on them.
//!
//! The decoder below reads a YAML tree through `serde` and turns it into the
//! strict document, field by field.

use immortal_core::config::document::{
    admit_declared_size, complete_document, parse_current, ConfigDocument,
};
use immortal_core::config::emission::canonical_document;
use immortal_core::config::environment::EnvironmentScalar;
use immortal_core::config::logging::{
    format_log_age, format_log_size, parse_log_age, parse_log_size, FileLogInput,
    LegacyFileLogConfig, LegacyLoggingConfig, LegacyOutputConfig, LogInput, LogScalar,
    SelectedLogInput,
};
use immortal_core::config::paths::{source_base, validate_resolved, DirectoryObservation};
use immortal_core::config::{
    parse_bytes, parse_bytes_at, parse_str, resolve_paths, validate_service, BackoffConfig,
    CommandHook, ConditionBackoffConfig, ConfigError, DescriptorTrackingConfig, Environment,
    EnvironmentMode, FileLogConfig, FileLogRoutes, LoggerRestartConfig, LoggingConfig, PidFiles,
    ProcessMode, ReadinessConfig, ReadinessMode, RestartBurstLimit, RestartConfig, RestartLimits,
    RestartPolicy, ServiceConfig, StartConditionConfig, MAX_CONFIG_BYTES,
};
use immortal_core::logging::{
    BackpressurePolicy, LoggingPlan, LoggingRuntime, OutputStream, PipelineHealth,
};
use immortal_core::path::UnixPath;
use immortal_core::supervisor::{FailureReason, Generation, SupervisorState};
use std::collections::BTreeSet;

// ---------------------------------------------------------------------------
// Decoding
// ---------------------------------------------------------------------------

#[derive(Clone, Debug)]
enum Yaml {
    Null,
    Bool(bool),
    Signed(i64),
    Unsigned(u64),
    Text(String),
    List(Vec<Yaml>),
    Table(Vec<(String, Yaml)>),
}

struct YamlVisitor;

impl<'de> serde::de::Visitor<'de> for YamlVisitor {
    type Value = Yaml;

    fn expecting(&self, formatter: &mut std::fmt::Formatter<'_>) -> std::fmt::Result {
        formatter.write_str("a YAML value")
    }

    fn visit_bool<E>(self, value: bool) -> Result<Yaml, E> {
        Ok(Yaml::Bool(value))
    }

    fn visit_i64<E>(self, value: i64) -> Result<Yaml, E> {
        Ok(Yaml::Signed(value))
    }

    fn visit_u64<E>(self, value: u64) -> Result<Yaml, E> {
        Ok(Yaml::Unsigned(value))
    }

    fn visit_str<E>(self, value: &str) -> Result<Yaml, E> {
        Ok(Yaml::Text(value.to_owned()))
    }

    fn visit_unit<E>(self) -> Result<Yaml, E> {
        Ok(Yaml::Null)
    }

    fn visit_none<E>(self) -> Result<Yaml, E> {
        Ok(Yaml::Null)
    }

    fn visit_seq<A>(self, mut access: A) -> Result<Yaml, A::Error>
    where
        A: serde::de::SeqAccess<'de>,
    {
        let mut items = Vec::new();
        while let Some(item) = access.next_element()? {
            items.push(item);
        }
        Ok(Yaml::List(items))
    }

    fn visit_map<A>(self, mut access: A) -> Result<Yaml, A::Error>
    where
        A: serde::de::MapAccess<'de>,
    {
        let mut fields = Vec::new();
        while let Some((key, value)) = access.next_entry::<String, Yaml>()? {
            fields.push((key, value));
        }
        Ok(Yaml::Table(fields))
    }
}

impl<'de> serde::Deserialize<'de> for Yaml {
    fn deserialize<D>(deserializer: D) -> Result<Yaml, D::Error>
    where
        D: serde::Deserializer<'de>,
    {
        deserializer.deserialize_any(YamlVisitor)
    }
}

fn tree(source: &str) -> Result<Yaml, String> {
    serde_saphyr::from_str(source).map_err(|error| error.to_string())
}

/// Fields of a table which holds no others.
fn table<'a>(value: &'a Yaml, known: &[&str]) -> Result<&'a [(String, Yaml)], String> {
    match value {
        Yaml::Table(fields) => {
            for (name, _) in fields {
                if !known.contains(&name.as_str()) {
                    return Err(format!("unknown field {name}"));
                }
            }
            Ok(fields)
        }
        other => Err(format!("expected a mapping, found {other:?}")),
    }
}

fn field<'a>(fields: &'a [(String, Yaml)], name: &str) -> Option<&'a Yaml> {
    fields
        .iter()
        .find(|(key, value)| key == name && !matches!(value, Yaml::Null))
        .map(|(_, value)| value)
}

fn required<'a>(fields: &'a [(String, Yaml)], name: &str) -> Result<&'a Yaml, String> {
    field(fields, name).ok_or_else(|| format!("missing field {name}"))
}

fn number(value: &Yaml) -> Result<u64, String> {
    match value {
        Yaml::Unsigned(value) => Ok(*value),
        Yaml::Signed(value) => u64::try_from(*value).map_err(|error| error.to_string()),
        other => Err(format!("expected an integer, found {other:?}")),
    }
}

fn narrow<T: TryFrom<u64>>(value: &Yaml) -> Result<T, String> {
    T::try_from(number(value)?).map_err(|_| "integer out of range".to_owned())
}

fn text(value: &Yaml) -> Result<String, String> {
    match value {
        Yaml::Text(value) => Ok(value.clone()),
        other => Err(format!("expected text, found {other:?}")),
    }
}

fn flag(value: &Yaml) -> Result<bool, String> {
    match value {
        Yaml::Bool(value) => Ok(*value),
        other => Err(format!("expected a boolean, found {other:?}")),
    }
}

fn list(value: &Yaml) -> Result<Vec<String>, String> {
    match value {
        Yaml::List(items) => items.iter().map(text).collect(),
        other => Err(format!("expected a list, found {other:?}")),
    }
}

fn optional<T>(
    fields: &[(String, Yaml)],
    name: &str,
    read: impl Fn(&Yaml) -> Result<T, String>,
) -> Result<Option<T>, String> {
    field(fields, name).map(read).transpose()
}

fn path(value: &Yaml) -> Result<UnixPath, String> {
    Ok(UnixPath::from_text(&text(value)?))
}

fn environment(value: &Yaml) -> Result<Environment, String> {
    let Yaml::Table(fields) = value else {
        return Err("environment must be a mapping".to_owned());
    };
    let mut environment = Environment::new();
    for (key, value) in fields {
        let scalar = match value {
            Yaml::Text(value) => EnvironmentScalar::Text(value.clone()),
            Yaml::Signed(value) => EnvironmentScalar::Signed(*value),
            Yaml::Unsigned(value) => EnvironmentScalar::Unsigned(*value),
            Yaml::Bool(value) => EnvironmentScalar::Boolean(*value),
            other => return Err(format!("environment value {other:?} is no scalar")),
        };
        environment.insert(key.clone(), scalar.into_text());
    }
    Ok(environment)
}

fn backoff(value: &Yaml) -> Result<BackoffConfig, String> {
    let fields = table(
        value,
        &["initial_seconds", "max_seconds", "multiplier", "jitter_percent", "reset_after_seconds"],
    )?;
    let standard = BackoffConfig::default();
    Ok(BackoffConfig {
        initial_seconds: optional(fields, "initial_seconds", number)?
            .unwrap_or(standard.initial_seconds),
        max_seconds: optional(fields, "max_seconds", number)?.unwrap_or(standard.max_seconds),
        multiplier: optional(fields, "multiplier", narrow)?.unwrap_or(standard.multiplier),
        jitter_percent: optional(fields, "jitter_percent", narrow)?
            .unwrap_or(standard.jitter_percent),
        reset_after_seconds: optional(fields, "reset_after_seconds", number)?
            .unwrap_or(standard.reset_after_seconds),
    })
}

fn burst(value: &Yaml) -> Result<RestartBurstLimit, String> {
    let fields = table(value, &["starts", "window_seconds"])?;
    Ok(RestartBurstLimit {
        starts: narrow(required(fields, "starts")?)?,
        window_seconds: number(required(fields, "window_seconds")?)?,
    })
}

fn limits(value: &Yaml) -> Result<RestartLimits, String> {
    let fields = table(value, &["max_retries", "max_elapsed_seconds", "burst"])?;
    Ok(RestartLimits {
        max_retries: optional(fields, "max_retries", narrow)?,
        max_elapsed_seconds: optional(fields, "max_elapsed_seconds", number)?,
        burst: optional(fields, "burst", burst)?,
    })
}

fn exit_codes(value: &Yaml) -> Result<BTreeSet<u8>, String> {
    match value {
        Yaml::List(items) => items.iter().map(narrow).collect(),
        other => Err(format!("expected a list, found {other:?}")),
    }
}

fn restart(value: &Yaml) -> Result<RestartConfig, String> {
    let fields = table(
        value,
        &["policy", "success_exit_codes", "exit_when_done", "limits", "backoff"],
    )?;
    let standard = RestartConfig::default();
    Ok(RestartConfig {
        policy: optional(fields, "policy", |value| match text(value)?.as_str() {
            "always" => Ok(RestartPolicy::Always),
            "on-failure" => Ok(RestartPolicy::OnFailure),
            "never" => Ok(RestartPolicy::Never),
            other => Err(format!("unknown policy {other}")),
        })?
        .unwrap_or(standard.policy),
        success_exit_codes: optional(fields, "success_exit_codes", exit_codes)?
            .unwrap_or(standard.success_exit_codes),
        exit_when_done: optional(fields, "exit_when_done", flag)?
            .unwrap_or(standard.exit_when_done),
        limits: optional(fields, "limits", limits)?.unwrap_or(standard.limits),
        backoff: optional(fields, "backoff", backoff)?.unwrap_or(standard.backoff),
    })
}

fn readiness(value: &Yaml) -> Result<ReadinessConfig, String> {
    let fields = table(value, &["mode", "timeout_seconds"])?;
    let standard = ReadinessConfig::default();
    Ok(ReadinessConfig {
        mode: optional(fields, "mode", |value| match text(value)?.as_str() {
            "immediate" => Ok(ReadinessMode::Immediate),
            "notify-fd" => Ok(ReadinessMode::NotifyFd),
            other => Err(format!("unknown readiness {other}")),
        })?
        .unwrap_or(standard.mode),
        timeout_seconds: optional(fields, "timeout_seconds", number)?
            .unwrap_or(standard.timeout_seconds),
    })
}

fn hook(value: &Yaml) -> Result<CommandHook, String> {
    let fields = table(value, &["command", "timeout_seconds"])?;
    Ok(CommandHook {
        command: list(required(fields, "command")?)?,
        timeout_seconds: number(required(fields, "timeout_seconds")?)?,
    })
}

fn tracking(value: &Yaml) -> Result<DescriptorTrackingConfig, String> {
    let fields = table(value, &["stop", "reload", "lifetime_timeout_seconds"])?;
    Ok(DescriptorTrackingConfig {
        stop: hook(required(fields, "stop")?)?,
        reload: hook(required(fields, "reload")?)?,
        lifetime_timeout_seconds: number(required(fields, "lifetime_timeout_seconds")?)?,
    })
}

fn condition_backoff(value: &Yaml) -> Result<ConditionBackoffConfig, String> {
    let fields = table(
        value,
        &["initial_seconds", "max_seconds", "multiplier", "jitter_percent"],
    )?;
    let standard = ConditionBackoffConfig::default();
    Ok(ConditionBackoffConfig {
        initial_seconds: optional(fields, "initial_seconds", number)?
            .unwrap_or(standard.initial_seconds),
        max_seconds: optional(fields, "max_seconds", number)?.unwrap_or(standard.max_seconds),
        multiplier: optional(fields, "multiplier", narrow)?.unwrap_or(standard.multiplier),
        jitter_percent: optional(fields, "jitter_percent", narrow)?
            .unwrap_or(standard.jitter_percent),
    })
}

fn condition(value: &Yaml) -> Result<StartConditionConfig, String> {
    let fields = table(value, &["command", "timeout_seconds", "backoff"])?;
    Ok(StartConditionConfig {
        command: list(required(fields, "command")?)?,
        timeout_seconds: number(required(fields, "timeout_seconds")?)?,
        backoff: optional(fields, "backoff", condition_backoff)?.unwrap_or_default(),
    })
}

fn scalar(value: &Yaml) -> Result<LogScalar, String> {
    match value {
        Yaml::Text(value) => Ok(LogScalar::Text(value.clone())),
        other => Ok(LogScalar::Integer(number(other)?)),
    }
}

fn file_log(value: &Yaml) -> Result<FileLogInput, String> {
    let fields = table(value, &["file", "age", "keep", "num", "size", "timestamp"])?;
    let keep = optional(fields, "keep", narrow)?;
    let num = optional(fields, "num", narrow)?;
    if keep.is_some() && num.is_some() {
        return Err("duplicate field keep".to_owned());
    }
    Ok(FileLogInput {
        file: path(required(fields, "file")?)?,
        age: optional(fields, "age", |value| parse_log_age(&scalar(value)?))?,
        keep: keep.or(num),
        size: optional(fields, "size", |value| parse_log_size(&scalar(value)?))?,
        timestamp: optional(fields, "timestamp", flag)?.unwrap_or(false),
    })
}

fn log(value: &Yaml) -> Result<LogInput, String> {
    if let Ok(file) = file_log(value) {
        return Ok(LogInput::Combined(file));
    }
    let fields = table(value, &["stdout", "stderr"])?;
    Ok(LogInput::Selected(SelectedLogInput {
        stdout: optional(fields, "stdout", file_log)?,
        stderr: optional(fields, "stderr", file_log)?,
    }))
}

fn logger_restart(value: &Yaml) -> Result<LoggerRestartConfig, String> {
    let fields = table(value, &["max_retries", "backoff"])?;
    Ok(LoggerRestartConfig {
        max_retries: optional(fields, "max_retries", narrow)?,
        backoff: optional(fields, "backoff", backoff)?.unwrap_or_default(),
    })
}

fn legacy_file(value: &Yaml) -> Result<LegacyFileLogConfig, String> {
    let fields = table(
        value,
        &["file", "max_age_seconds", "keep", "max_bytes", "max_total_bytes", "timestamp"],
    )?;
    Ok(LegacyFileLogConfig {
        file: optional(fields, "file", path)?,
        max_age_seconds: optional(fields, "max_age_seconds", number)?,
        keep: optional(fields, "keep", narrow)?,
        max_bytes: optional(fields, "max_bytes", number)?,
        max_total_bytes: optional(fields, "max_total_bytes", number)?,
        timestamp: optional(fields, "timestamp", flag)?.unwrap_or(false),
    })
}

fn empty_output() -> LegacyOutputConfig {
    LegacyOutputConfig {
        file: LegacyFileLogConfig {
            file: None,
            max_age_seconds: None,
            keep: None,
            max_bytes: None,
            max_total_bytes: None,
            timestamp: false,
        },
        logger: None,
    }
}

fn legacy_output(value: &Yaml) -> Result<LegacyOutputConfig, String> {
    let fields = table(value, &["file", "logger"])?;
    Ok(LegacyOutputConfig {
        file: optional(fields, "file", legacy_file)?.unwrap_or(empty_output().file),
        logger: optional(fields, "logger", list)?,
    })
}

fn legacy(value: &Yaml) -> Result<LegacyLoggingConfig, String> {
    let fields = table(
        value,
        &["file_adapter", "combine_stderr", "restart", "stdout", "stderr"],
    )?;
    Ok(LegacyLoggingConfig {
        file_adapter: optional(fields, "file_adapter", path)?,
        combine_stderr: optional(fields, "combine_stderr", flag)?.unwrap_or(false),
        restart: optional(fields, "restart", logger_restart)?.unwrap_or_default(),
        stdout: optional(fields, "stdout", legacy_output)?.unwrap_or(empty_output()),
        stderr: optional(fields, "stderr", legacy_output)?.unwrap_or(empty_output()),
    })
}

fn pid_files(value: &Yaml) -> Result<PidFiles, String> {
    let fields = table(value, &["supervisor", "main"])?;
    Ok(PidFiles {
        supervisor: optional(fields, "supervisor", path)?,
        main: optional(fields, "main", path)?,
    })
}

fn document_of(source: &str) -> Result<ConfigDocument, String> {
    let value = tree(source)?;
    let fields = table(
        &value,
        &[
            "version", "enabled", "command", "working_directory", "environment", "env",
            "environment_mode", "user", "start_delay_seconds", "restart", "readiness", "requires",
            "start_condition", "post_exit", "log", "logger", "log_adapter", "logger_restart",
            "stderr", "logging", "pid_files", "process_mode", "descriptor_tracking",
        ],
    )?;
    let variables = optional(fields, "environment", environment)?;
    let alias = optional(fields, "env", environment)?;
    if variables.is_some() && alias.is_some() {
        return Err("duplicate field environment".to_owned());
    }
    Ok(ConfigDocument {
        version: narrow(required(fields, "version")?)?,
        enabled: optional(fields, "enabled", flag)?.unwrap_or(true),
        command: list(required(fields, "command")?)?,
        working_directory: optional(fields, "working_directory", path)?,
        environment: variables.or(alias).unwrap_or_else(Environment::new),
        environment_mode: optional(fields, "environment_mode", |value| {
            match text(value)?.as_str() {
                "inherit" => Ok(EnvironmentMode::Inherit),
                "clear" => Ok(EnvironmentMode::Clear),
                other => Err(format!("unknown environment mode {other}")),
            }
        })?
        .unwrap_or_default(),
        user: optional(fields, "user", text)?,
        start_delay_seconds: optional(fields, "start_delay_seconds", number)?.unwrap_or(0),
        restart: optional(fields, "restart", restart)?.unwrap_or_default(),
        readiness: optional(fields, "readiness", readiness)?.unwrap_or_default(),
        requires_services: optional(fields, "requires", list)?.unwrap_or_default(),
        start_condition: optional(fields, "start_condition", condition)?,
        post_exit: optional(fields, "post_exit", hook)?,
        log: optional(fields, "log", log)?,
        logger: optional(fields, "logger", list)?,
        log_adapter: optional(fields, "log_adapter", path)?,
        logger_restart: optional(fields, "logger_restart", logger_restart)?,
        stderr: optional(fields, "stderr", file_log)?,
        logging: optional(fields, "logging", legacy)?,
        pid_files: optional(fields, "pid_files", pid_files)?.unwrap_or_default(),
        process_mode: optional(fields, "process_mode", |value| match text(value)?.as_str() {
            "foreground" => Ok(ProcessMode::Foreground),
            "descriptor-tracking" => Ok(ProcessMode::DescriptorTracking),
            other => Err(format!("unknown process mode {other}")),
        })?
        .unwrap_or_default(),
        descriptor_tracking: optional(fields, "descriptor_tracking", tracking)?,
    })
}

fn version_of(source: &str) -> Result<Option<u64>, String> {
    match tree(source)? {
        Yaml::Table(fields) => field(&fields, "version").map(number).transpose(),
        other => Err(format!("expected a mapping, found {other:?}")),
    }
}

fn parse(source: &str) -> Result<ServiceConfig, ConfigError> {
    parse_str(source, version_of, document_of)
}

fn report(error: ConfigError) -> String {
    error.message()
}

// ---------------------------------------------------------------------------
// Documents
// ---------------------------------------------------------------------------

#[test]
fn env_alias_normalizes_scalars_and_emits_canonical_environment() -> Result<(), String> {
    let config = parse(
        "version: 2\ncommand: [/bin/true]\nenv:\n  DEBUG: 1\n  ENVIRONMENT: production\n  ENABLED: true\n",
    )
    .map_err(report)?;
    let entries: Vec<(&str, &str)> = config
        .environment
        .entries()
        .iter()
        .map(|entry| (entry.key.as_str(), entry.value.as_str()))
        .collect();
    assert_eq!(
        entries,
        [
            ("DEBUG", "1"),
            ("ENABLED", "true"),
            ("ENVIRONMENT", "production"),
        ]
    );

    let emitted = canonical_document(config.clone()).map_err(report)?;
    assert_eq!(emitted.environment, config.environment);
    Ok(())
}

#[test]
fn env_alias_rejects_duplicate_and_non_scalar_values() {
    let duplicate = parse(
        "version: 2\ncommand: [/bin/true]\nenv:\n  DEBUG: 1\nenvironment:\n  MODE: test\n",
    );
    assert!(duplicate.is_err());

    let nested = parse("version: 2\ncommand: [/bin/true]\nenv:\n  DEBUG: [one, two]\n");
    assert!(nested.is_err());
    let null = parse("version: 2\ncommand: [/bin/true]\nenv:\n  DEBUG: null\n");
    assert!(null.is_err());
}

#[test]
fn environment_scalars_are_spelled_exactly() {
    assert_eq!(
        EnvironmentScalar::Signed(i64::MIN).into_text(),
        "-9223372036854775808"
    );
    assert_eq!(
        EnvironmentScalar::Unsigned(u64::MAX).into_text(),
        "18446744073709551615"
    );
    assert_eq!(EnvironmentScalar::Boolean(false).into_text(), "false");
    assert_eq!(EnvironmentScalar::Text("a b".to_owned()).into_text(), "a b");
}

#[test]
fn schema_selection_requires_explicit_version_two() {
    for legacy in [
        "cmd: /bin/true\n",
        "cmd: /bin/true\npid:\n  follow: /run/service.pid\n",
        "command: [/bin/true]\nrestart:\n  policy: never\n",
        "cmd: /bin/true\ncommand: [/bin/false]\n",
    ] {
        assert!(matches!(parse(legacy), Err(ConfigError::MissingVersion)));
    }
    assert!(parse("cmd: /bin/true\n").is_err_and(|error| {
        error
            .message()
            .contains("INSTALL.md#definition-migration")
    }));
    assert!(matches!(
        parse("version: 1\ncmd: /bin/true\n"),
        Err(ConfigError::UnsupportedVersion(1))
    ));
    assert!(matches!(
        parse("version: 3\ncommand: [/bin/true]\n"),
        Err(ConfigError::UnsupportedVersion(3))
    ));
    assert!(matches!(
        parse("version: 2\ncommand: [/bin/true]\nfuture: value\n"),
        Err(ConfigError::Parse(_))
    ));
}

#[test]
fn rejects_unsupported_versions_and_multiple_documents() {
    assert!(
        parse("version: 2\ncommand: [/bin/true]\n---\nversion: 2\ncommand: [/bin/false]\n")
            .is_err()
    );
}

#[test]
fn rejects_duplicate_keys_excessive_depth_and_aliases() {
    assert!(matches!(
        parse("version: 2\ncommand: [/bin/true]\ncommand: [/bin/false]\n"),
        Err(ConfigError::Parse(_))
    ));

    let mut deeply_nested = "version: 2\ncommand: [/bin/true]\nfuture: ".to_owned();
    for _ in 0..40 {
        deeply_nested.push('[');
    }
    deeply_nested.push_str("value");
    for _ in 0..40 {
        deeply_nested.push(']');
    }
    assert!(matches!(
        parse(&deeply_nested),
        Err(ConfigError::Parse(_))
    ));

    let mut aliases =
        "version: 2\ncommand: [/bin/true]\nanchor: &value item\nfuture: [".to_owned();
    for position in 0..129 {
        if position != 0 {
            aliases.push_str(", ");
        }
        aliases.push_str("*value");
    }
    aliases.push_str("]\n");
    assert!(matches!(parse(&aliases), Err(ConfigError::Parse(_))));
}

/// The budget is enforced before any decoder is called.
#[test]
fn sources_are_counted_under_the_budget_before_they_are_decoded() {
    let never_header = |_: &str| -> Result<Option<u64>, String> { panic!("header was decoded") };
    let never_document =
        |_: &str| -> Result<ConfigDocument, String> { panic!("document was decoded") };
    for source in ["a: 1\n---\nb: 2\n", ""] {
        match parse_str(source, never_header, never_document) {
            Err(ConfigError::Parse(reason)) => assert_eq!(
                reason,
                "configuration must contain exactly one YAML document"
            ),
            other => panic!("unexpected result {other:?}"),
        }
    }
    let deep = format!("{}x{}\n", "[".repeat(40), "]".repeat(40));
    match parse_str(&deep, never_header, never_document) {
        Err(ConfigError::Parse(reason)) => {
            assert_ne!(reason, "configuration must contain exactly one YAML document");
        }
        other => panic!("unexpected result {other:?}"),
    }
    let shallow = format!("{}x{}\n", "[".repeat(8), "]".repeat(8));
    assert!(matches!(
        parse_str(&shallow, |_| Ok(None), never_document),
        Err(ConfigError::MissingVersion)
    ));
}

#[test]
fn rejects_oversized_and_non_utf8_documents() {
    let oversized = vec![b'a'; MAX_CONFIG_BYTES + 1];
    assert!(matches!(
        parse_bytes(&oversized, version_of, document_of),
        Err(ConfigError::TooLarge { .. })
    ));
    assert!(matches!(
        parse_bytes(&[0xff], version_of, document_of),
        Err(ConfigError::Parse(_))
    ));
    assert!(admit_declared_size(1_048_576).is_ok());
    assert!(matches!(
        admit_declared_size(1_048_577),
        Err(ConfigError::TooLarge { actual: 1_048_577 })
    ));
}

#[test]
fn undecodable_bytes_are_described() {
    match parse_bytes(&[b'a', 0xff], version_of, document_of) {
        Err(ConfigError::Parse(reason)) => assert_eq!(
            reason,
            "input is not UTF-8: invalid utf-8 sequence of 1 bytes from index 1"
        ),
        other => panic!("unexpected result {other:?}"),
    }
}

/// The version binding is enforced by the decoder itself, not just by its caller.
#[test]
fn parse_current_rejects_a_document_which_is_not_version_two() -> Result<(), String> {
    assert!(matches!(
        parse_current(document_of("version: 4\ncommand: [/bin/true]\n")?),
        Err(ConfigError::UnsupportedVersion(4))
    ));
    Ok(())
}

/// The supported version still decodes.
#[test]
fn parse_current_accepts_version_two() -> Result<(), String> {
    let config =
        parse_current(document_of("version: 2\ncommand: [/bin/true]\n")?).map_err(report)?;
    assert_eq!(config.command, vec!["/bin/true".to_owned()]);
    Ok(())
}

// ---------------------------------------------------------------------------
// Logging fields
// ---------------------------------------------------------------------------

#[test]
fn logging_duration_and_size_units_are_checked_and_canonical() -> Result<(), String> {
    for (value, expected) in [
        ("1s", 1),
        ("2m", 120),
        ("3h", 10_800),
        ("4d", 345_600),
        ("2w", 1_209_600),
    ] {
        let source = format!(
            "version: 2\ncommand: [/bin/true]\nlog:\n  file: /tmp/app.log\n  age: {value}\n"
        );
        let config = parse(&source).map_err(report)?;
        let Some(FileLogRoutes::Combined(file)) = config.logging.files else {
            return Err("combined age route is missing".into());
        };
        assert_eq!(file.max_age_seconds, Some(expected));
        assert_eq!(file.keep, Some(7));
    }

    for (value, expected) in [
        ("1B", 1),
        ("2KiB", 2_048),
        ("3MiB", 3_145_728),
        ("4GiB", 4_294_967_296),
        ("2", 2_097_152),
    ] {
        let source = format!(
            "version: 2\ncommand: [/bin/true]\nlog:\n  file: /tmp/app.log\n  size: {value}\n"
        );
        let config = parse(&source).map_err(report)?;
        let Some(FileLogRoutes::Combined(file)) = config.logging.files else {
            return Err("combined size route is missing".into());
        };
        assert_eq!(file.max_bytes, Some(expected));
        assert_eq!(file.keep, Some(7));
    }

    let canonical = parse(
        "version: 2\ncommand: [/bin/true]\nlog:\n  file: /tmp/app.log\n  age: 3600\n  size: 1024KiB\n",
    )
    .map_err(report)?;
    let Some(FileLogRoutes::Combined(file)) = canonical.logging.files else {
        return Err("combined route is missing".into());
    };
    assert_eq!(file.max_age_seconds.map(format_log_age).as_deref(), Some("1h"));
    assert_eq!(file.max_bytes.map(format_log_size).as_deref(), Some("1MiB"));
    Ok(())
}

#[test]
fn malformed_quantities_are_named() {
    for (scalar, reason) in [
        (LogScalar::Integer(0), "log age must be greater than zero"),
        (
            LogScalar::Text("5".to_owned()),
            "log age has an unknown or missing unit",
        ),
        (
            LogScalar::Text("01s".to_owned()),
            "log age must use a positive compact integer",
        ),
        (
            LogScalar::Text("18446744073709551616s".to_owned()),
            "log age exceeds the supported numeric range",
        ),
    ] {
        assert_eq!(parse_log_age(&scalar), Err(reason.to_owned()));
    }
    assert_eq!(
        parse_log_size(&LogScalar::Integer(u64::MAX)),
        Err("log size exceeds the supported byte range".to_owned())
    );
    assert_eq!(format_log_age(61), "61s");
    assert_eq!(format_log_size(1_536), "1536B");
}

#[test]
fn logging_schema_normalizes_combined_and_selected_routes() -> Result<(), String> {
    let combined = parse(
        "version: 2\ncommand: [/bin/true]\nlog:\n  file: /tmp/app.log\n  age: 86400\n  size: 1\nlogger: [/usr/bin/logger, -t, app]\n",
    )
    .map_err(report)?;
    let Some(FileLogRoutes::Combined(file)) = &combined.logging.files else {
        return Err("combined log route is missing".into());
    };
    assert_eq!(file.file, UnixPath::from_text("/tmp/app.log"));
    assert_eq!(file.max_age_seconds, Some(86_400));
    assert_eq!(file.max_bytes, Some(1_048_576));
    assert_eq!(file.keep, Some(7));
    assert_eq!(
        combined.logging.logger,
        Some(vec![
            "/usr/bin/logger".to_owned(),
            "-t".to_owned(),
            "app".to_owned()
        ])
    );
    let emitted = canonical_document(combined.clone()).map_err(report)?;
    let Some(LogInput::Combined(input)) = &emitted.log else {
        return Err("combined log field is missing".into());
    };
    assert_eq!(input.age.map(format_log_age).as_deref(), Some("1d"));
    assert_eq!(input.size.map(format_log_size).as_deref(), Some("1MiB"));
    assert_eq!(input.keep, Some(7));
    assert!(emitted.logging.is_none());

    let selected = parse(
        "version: 2\ncommand: [/bin/true]\nlog:\n  stderr:\n    file: /tmp/app.err\n",
    )
    .map_err(report)?;
    let Some(FileLogRoutes::Selected { stdout, stderr }) = &selected.logging.files else {
        return Err("selected log routes are missing".into());
    };
    assert_eq!(stdout, &None);
    assert_eq!(
        stderr.as_ref().map(|file| &file.file),
        Some(&UnixPath::from_text("/tmp/app.err"))
    );
    Ok(())
}

#[test]
fn logging_schema_rejects_ambiguous_ineffective_and_unbounded_values() {
    for source in [
        "version: 2\ncommand: [/bin/true]\nlog: {}\n",
        "version: 2\ncommand: [/bin/true]\nlog:\n  file: /tmp/app.log\n  stdout:\n    file: /tmp/out.log\n",
        "version: 2\ncommand: [/bin/true]\nlog:\n  file: /tmp/app.log\n  keep: 7\n",
        "version: 2\ncommand: [/bin/true]\nlog:\n  file: /tmp/app.log\n  age: 0\n",
        "version: 2\ncommand: [/bin/true]\nlog:\n  file: /tmp/app.log\n  age: 01s\n",
        "version: 2\ncommand: [/bin/true]\nlog:\n  file: /tmp/app.log\n  age: 1month\n",
        "version: 2\ncommand: [/bin/true]\nlog:\n  file: /tmp/app.log\n  size: 0\n",
        "version: 2\ncommand: [/bin/true]\nlog:\n  file: /tmp/app.log\n  size: 1.5MiB\n",
        "version: 2\ncommand: [/bin/true]\nlog:\n  file: /tmp/app.log\n  size: 1MB\n",
        "version: 2\ncommand: [/bin/true]\nlog:\n  file: /tmp/app.log\n  size: 18446744073709551615GiB\n",
        "version: 2\ncommand: [/bin/true]\nlog_adapter: /bin/cat\n",
        "version: 2\ncommand: [/bin/true]\nlogger_restart:\n  max_retries: 1\n",
        "version: 2\ncommand: [/bin/true]\nlogger: []\n",
        "version: 2\ncommand: [/bin/true]\nlog:\n  stdout:\n    file: /tmp/out.log\n    logger: [/bin/cat]\n",
    ] {
        assert!(parse(source).is_err(), "unexpected valid source: {source}");
    }
}

#[test]
fn logging_compatibility_aliases_emit_only_canonical_fields() -> Result<(), String> {
    let config = parse(
        "version: 2\ncommand: [/bin/true]\nlog:\n  file: /tmp/app.log\n  age: 86400\n  num: 7\n  size: 1\nstderr:\n  file: /tmp/app.err\n",
    )
    .map_err(report)?;
    let Some(FileLogRoutes::Selected {
        stdout: Some(stdout),
        stderr: Some(stderr),
    }) = &config.logging.files
    else {
        return Err("Go-compatible split routes are missing".into());
    };
    assert_eq!(stdout.file, UnixPath::from_text("/tmp/app.log"));
    assert_eq!(stderr.file, UnixPath::from_text("/tmp/app.err"));
    let emitted = canonical_document(config.clone()).map_err(report)?;
    assert!(matches!(
        &emitted.log,
        Some(LogInput::Selected(selected)) if selected.stderr.is_some()
    ));
    assert!(emitted.stderr.is_none());

    let legacy = parse(
        "version: 2\ncommand: [/bin/true]\nlogging:\n  combine_stderr: true\n  stdout:\n    file:\n      file: /tmp/app.log\n      max_age_seconds: 60\n      max_bytes: 1048576\n      keep: 7\n    logger: [/bin/cat]\n",
    )
    .map_err(report)?;
    assert!(matches!(
        legacy.logging.files,
        Some(FileLogRoutes::Combined(_))
    ));
    assert_eq!(legacy.logging.logger, Some(vec!["/bin/cat".to_owned()]));
    let emitted = canonical_document(legacy).map_err(report)?;
    assert!(emitted.logging.is_none());
    assert!(emitted.log.is_some());
    assert!(emitted.logger.is_some());
    Ok(())
}

#[test]
fn logging_compatibility_rejects_conflicts_and_unrepresentable_routes() {
    for source in [
        "version: 2\ncommand: [/bin/true]\nlog:\n  file: /tmp/app.log\n  keep: 7\n  num: 7\n  size: 1MiB\n",
        "version: 2\ncommand: [/bin/true]\nlog:\n  stderr:\n    file: /tmp/app.err\nstderr:\n  file: /tmp/legacy.err\n",
        "version: 2\ncommand: [/bin/true]\nlog:\n  file: /tmp/app.log\nlogging: {}\n",
        "version: 2\ncommand: [/bin/true]\nlogging:\n  stdout:\n    file:\n      file: /tmp/app.log\n      max_total_bytes: 1048576\n",
        "version: 2\ncommand: [/bin/true]\nlogging:\n  stdout:\n    logger: [/bin/cat, stdout]\n  stderr:\n    logger: [/bin/cat, stderr]\n",
        "version: 2\ncommand: [/bin/true]\nlogging:\n  stdout:\n    logger: [/bin/cat]\n",
    ] {
        assert!(parse(source).is_err(), "unexpected valid source: {source}");
    }
}

#[test]
fn logger_restart_policy_parses_defaults_bounds_and_unknown_fields() -> Result<(), String> {
    let config = parse(
        r"
version: 2
command: [service]
logger: [/bin/cat]
logger_restart:
  max_retries: 4
  backoff:
    initial_seconds: 2
    max_seconds: 8
    multiplier: 3
    jitter_percent: 5
    reset_after_seconds: 20
",
    )
    .map_err(report)?;
    assert_eq!(config.logging.restart.max_retries, Some(4));
    assert_eq!(config.logging.restart.backoff.initial_seconds, 2);
    assert_eq!(config.logging.restart.backoff.max_seconds, 8);
    assert_eq!(config.logging.restart.backoff.multiplier, 3);
    assert_eq!(config.logging.restart.backoff.jitter_percent, 5);
    assert_eq!(config.logging.restart.backoff.reset_after_seconds, 20);

    let defaults = parse("version: 2\ncommand: [service]\n").map_err(report)?;
    assert_eq!(defaults.logging.restart.max_retries, None);
    assert_eq!(defaults.logging.restart.backoff, BackoffConfig::default());
    assert!(matches!(
        parse(
            "version: 2\ncommand: [service]\nlogger: [/bin/cat]\nlogger_restart:\n  backoff:\n    initial_seconds: 0\n"
        ),
        Err(ConfigError::Validation(_))
    ));
    assert!(matches!(
        parse(
            "version: 2\ncommand: [service]\nlogger: [/bin/cat]\nlogger_restart:\n  future: true\n"
        ),
        Err(ConfigError::Parse(_))
    ));
    Ok(())
}

#[test]
fn direct_logging_preserves_go_rotation_defaults() -> Result<(), String> {
    let logging = LoggingConfig::for_direct(
        Some(UnixPath::from_text("/tmp/app.log")),
        Some(vec!["/bin/cat".to_owned()]),
    )
    .map_err(report)?;
    let Some(FileLogRoutes::Combined(file)) = logging.files else {
        return Err("direct combined file route is missing".into());
    };
    assert_eq!(file.max_bytes, Some(1_048_576));
    assert_eq!(file.keep, Some(7));
    assert_eq!(logging.logger, Some(vec!["/bin/cat".to_owned()]));
    Ok(())
}

// ---------------------------------------------------------------------------
// Paths
// ---------------------------------------------------------------------------

#[test]
fn descriptor_tracking_hook_paths_resolve_from_definition_directory() -> Result<(), String> {
    let mut config = parse(
        "version: 2\ncommand: [/bin/true]\nprocess_mode: descriptor-tracking\ndescriptor_tracking:\n  stop:\n    command: [hooks/stop]\n    timeout_seconds: 1\n  reload:\n    command: [hooks/reload]\n    timeout_seconds: 1\n  lifetime_timeout_seconds: 1\n",
    )
    .map_err(report)?;
    resolve_paths(&mut config, &UnixPath::from_text("/srv/immortal")).map_err(report)?;
    let tracking = config
        .descriptor_tracking
        .ok_or("descriptor tracking configuration is absent")?;
    assert_eq!(
        tracking.stop.command.first().map(String::as_str),
        Some("/srv/immortal/hooks/stop")
    );
    assert_eq!(
        tracking.reload.command.first().map(String::as_str),
        Some("/srv/immortal/hooks/reload")
    );
    Ok(())
}

const RELATIVE: &str = r"
version: 2
command: [bin/api, etc/api.conf]
working_directory: .
environment_mode: clear
start_condition:
  command: [checks/network-ready]
  timeout_seconds: 5
log:
  stdout:
    file: logs/api.log
log_adapter: bin/immortallog
pid_files:
  main: run/main.pid
";

#[test]
fn file_parser_resolves_paths_before_daemonization() -> Result<(), String> {
    let base = "/srv/immortal/v2";
    let config = parse_bytes_at(
        RELATIVE.as_bytes(),
        &UnixPath::from_text("v2/relative.yml"),
        &UnixPath::from_text("/srv/immortal"),
        version_of,
        document_of,
    )
    .map_err(report)?;

    assert_eq!(config.environment_mode, EnvironmentMode::Clear);
    assert_eq!(config.working_directory, Some(UnixPath::from_text(base)));
    assert_eq!(config.command, ["/srv/immortal/v2/bin/api", "etc/api.conf"]);
    let Some(FileLogRoutes::Selected {
        stdout: Some(stdout),
        ..
    }) = &config.logging.files
    else {
        return Err("relative stdout log route is missing".into());
    };
    assert_eq!(
        stdout.file,
        UnixPath::from_text("/srv/immortal/v2/logs/api.log")
    );
    assert_eq!(
        config.logging.file_adapter,
        Some(UnixPath::from_text("/srv/immortal/v2/bin/immortallog"))
    );
    assert_eq!(
        config.pid_files.main,
        Some(UnixPath::from_text("/srv/immortal/v2/run/main.pid"))
    );
    assert_eq!(
        config
            .start_condition
            .as_ref()
            .and_then(|hook| hook.command.first())
            .map(String::as_str),
        Some("/srv/immortal/v2/checks/network-ready")
    );
    Ok(())
}

#[test]
fn resolved_definitions_are_not_resolved_further() -> Result<(), String> {
    let base = UnixPath::from_text("/srv/immortal/v2");
    let mut once = parse(RELATIVE).map_err(report)?;
    resolve_paths(&mut once, &base).map_err(report)?;
    let mut again = once.clone();
    resolve_paths(&mut again, &base).map_err(report)?;
    assert_eq!(again, once);
    Ok(())
}

#[test]
fn file_parser_rejects_missing_working_directory() -> Result<(), String> {
    let yaml = RELATIVE.replace(
        "working_directory: .",
        "working_directory: definitely-missing-directory",
    );
    let mut config = parse(&yaml).map_err(report)?;
    resolve_paths(&mut config, &UnixPath::from_text("/srv/immortal/v2")).map_err(report)?;
    assert!(validate_resolved(
        &config,
        &DirectoryObservation::Unavailable("No such file or directory".to_owned())
    )
    .is_err());
    assert!(validate_resolved(&config, &DirectoryObservation::NotDirectory).is_err());
    assert!(validate_resolved(&config, &DirectoryObservation::Directory).is_ok());
    assert!(validate_service(&config, &DirectoryObservation::Directory).is_ok());
    Ok(())
}

#[test]
fn definitions_without_a_directory_are_refused() {
    let root = UnixPath::from_text("/");
    match source_base(&root, &root) {
        Err(ConfigError::Validation(reasons)) => {
            assert_eq!(reasons, ["configuration path has no parent directory"]);
        }
        other => panic!("unexpected result {other:?}"),
    }
    assert_eq!(
        source_base(&UnixPath::from_text("api.yml"), &UnixPath::from_text("/etc/immortal")).ok(),
        Some(UnixPath::from_text("/etc/immortal"))
    );
}

// ---------------------------------------------------------------------------
// Whole definitions
// ---------------------------------------------------------------------------

const COMPLETE: &str = r"
version: 2
enabled: false
command: [/usr/local/bin/api, --foreground]
working_directory: /srv/api
environment:
  MODE: test
environment_mode: clear
user: www
start_delay_seconds: 7
restart:
  policy: on-failure
  success_exit_codes: [0, 2]
  exit_when_done: true
  limits:
    max_retries: 4
    max_elapsed_seconds: 300
    burst:
      starts: 5
      window_seconds: 60
  backoff:
    initial_seconds: 2
    max_seconds: 20
    multiplier: 3
    jitter_percent: 10
    reset_after_seconds: 120
readiness:
  mode: notify-fd
  timeout_seconds: 15
requires: [database, network]
start_condition:
  command: [/usr/bin/test, -e, /run/network-ready]
  timeout_seconds: 5
  backoff:
    initial_seconds: 3
    max_seconds: 30
    multiplier: 2
    jitter_percent: 5
post_exit:
  command: [/usr/local/libexec/api-cleanup, --quiet]
  timeout_seconds: 9
log:
  stdout:
    file: /var/log/api.log
    age: 1d
    keep: 7
    size: 10MiB
    timestamp: true
  stderr:
    file: /var/log/api.err
    age: 1h
    keep: 3
    size: 1MiB
logger: [/usr/bin/logger, -t, api]
log_adapter: /usr/local/bin/immortallog
logger_restart:
  max_retries: 6
  backoff:
    initial_seconds: 4
    max_seconds: 40
    multiplier: 2
    jitter_percent: 15
    reset_after_seconds: 180
pid_files:
  supervisor: /var/run/api.supervisor.pid
  main: /var/run/api.pid
process_mode: descriptor-tracking
descriptor_tracking:
  stop:
    command: [/usr/local/bin/api-control, stop]
    timeout_seconds: 11
  reload:
    command: [/usr/local/bin/api-control, reload]
    timeout_seconds: 12
  lifetime_timeout_seconds: 13
";

#[test]
fn supported_configuration_round_trips() -> Result<(), String> {
    let config = parse(COMPLETE).map_err(report)?;
    let expected = complete_config();
    assert_eq!(config, expected);

    let emitted = canonical_document(config.clone()).map_err(report)?;
    assert_eq!(emitted.version, 2);
    let reparsed = complete_document(Ok(emitted)).map_err(report)?;
    assert_eq!(reparsed, config);
    Ok(())
}

fn complete_config() -> ServiceConfig {
    let mut environment = Environment::new();
    environment.insert("MODE".to_owned(), "test".to_owned());
    ServiceConfig {
        enabled: false,
        command: vec!["/usr/local/bin/api".to_owned(), "--foreground".to_owned()],
        working_directory: Some(UnixPath::from_text("/srv/api")),
        environment,
        environment_mode: EnvironmentMode::Clear,
        user: Some("www".to_owned()),
        start_delay_seconds: 7,
        restart: complete_restart(),
        readiness: ReadinessConfig {
            mode: ReadinessMode::NotifyFd,
            timeout_seconds: 15,
        },
        requires_services: vec!["database".to_owned(), "network".to_owned()],
        start_condition: Some(complete_condition()),
        post_exit: Some(CommandHook {
            command: vec![
                "/usr/local/libexec/api-cleanup".to_owned(),
                "--quiet".to_owned(),
            ],
            timeout_seconds: 9,
        }),
        logging: complete_logging(),
        pid_files: PidFiles {
            supervisor: Some(UnixPath::from_text("/var/run/api.supervisor.pid")),
            main: Some(UnixPath::from_text("/var/run/api.pid")),
        },
        process_mode: ProcessMode::DescriptorTracking,
        descriptor_tracking: Some(complete_descriptor_tracking()),
    }
}

fn complete_restart() -> RestartConfig {
    RestartConfig {
        policy: RestartPolicy::OnFailure,
        success_exit_codes: BTreeSet::from([0, 2]),
        exit_when_done: true,
        limits: RestartLimits {
            max_retries: Some(4),
            max_elapsed_seconds: Some(300),
            burst: Some(RestartBurstLimit {
                starts: 5,
                window_seconds: 60,
            }),
        },
        backoff: BackoffConfig {
            initial_seconds: 2,
            max_seconds: 20,
            multiplier: 3,
            jitter_percent: 10,
            reset_after_seconds: 120,
        },
    }
}

fn complete_condition() -> StartConditionConfig {
    StartConditionConfig {
        command: vec![
            "/usr/bin/test".to_owned(),
            "-e".to_owned(),
            "/run/network-ready".to_owned(),
        ],
        timeout_seconds: 5,
        backoff: ConditionBackoffConfig {
            initial_seconds: 3,
            max_seconds: 30,
            multiplier: 2,
            jitter_percent: 5,
        },
    }
}

fn complete_logging() -> LoggingConfig {
    LoggingConfig {
        files: Some(FileLogRoutes::Selected {
            stdout: Some(complete_file(
                "/var/log/api.log",
                86_400,
                7,
                10_485_760,
                true,
            )),
            stderr: Some(complete_file(
                "/var/log/api.err",
                3_600,
                3,
                1_048_576,
                false,
            )),
        }),
        logger: Some(vec![
            "/usr/bin/logger".to_owned(),
            "-t".to_owned(),
            "api".to_owned(),
        ]),
        file_adapter: Some(UnixPath::from_text("/usr/local/bin/immortallog")),
        restart: LoggerRestartConfig {
            max_retries: Some(6),
            backoff: BackoffConfig {
                initial_seconds: 4,
                max_seconds: 40,
                multiplier: 2,
                jitter_percent: 15,
                reset_after_seconds: 180,
            },
        },
    }
}

fn complete_file(
    path: &str,
    max_age_seconds: u64,
    keep: u32,
    max_bytes: u64,
    timestamp: bool,
) -> FileLogConfig {
    FileLogConfig {
        file: UnixPath::from_text(path),
        max_age_seconds: Some(max_age_seconds),
        keep: Some(keep),
        max_bytes: Some(max_bytes),
        timestamp,
    }
}

fn complete_descriptor_tracking() -> DescriptorTrackingConfig {
    DescriptorTrackingConfig {
        stop: CommandHook {
            command: vec!["/usr/local/bin/api-control".to_owned(), "stop".to_owned()],
            timeout_seconds: 11,
        },
        reload: CommandHook {
            command: vec!["/usr/local/bin/api-control".to_owned(), "reload".to_owned()],
            timeout_seconds: 12,
        },
        lifetime_timeout_seconds: 13,
    }
}

#[test]
fn parses_strict_v2_restart_and_readiness_policy() -> Result<(), String> {
    let config = parse(
        r"
version: 2
command: [/usr/bin/example, --foreground]
restart:
  policy: on-failure
  success_exit_codes: [0, 2]
  exit_when_done: true
  limits:
    max_retries: 10
    max_elapsed_seconds: 300
    burst:
      starts: 5
      window_seconds: 60
  backoff:
    initial_seconds: 2
    max_seconds: 30
    multiplier: 2
    jitter_percent: 10
    reset_after_seconds: 120
readiness:
  mode: notify-fd
  timeout_seconds: 15
",
    )
    .map_err(report)?;

    assert_eq!(config.restart.policy, RestartPolicy::OnFailure);
    assert_eq!(config.restart.limits.max_retries, Some(10));
    assert!(config.restart.exit_when_done);
    Ok(())
}

#[test]
fn start_condition_has_independent_typed_backoff() -> Result<(), String> {
    let config = parse(
        r"
version: 2
command: [service]
start_condition:
  command: [/usr/bin/test, -e, /run/network-ready]
  timeout_seconds: 5
  backoff:
    initial_seconds: 2
    max_seconds: 20
    multiplier: 2
    jitter_percent: 5
",
    )
    .map_err(report)?;
    let condition = config
        .start_condition
        .as_ref()
        .ok_or("start condition missing")?;
    assert_eq!(condition.timeout_seconds, 5);
    assert_eq!(condition.backoff.initial_seconds, 2);
    assert_eq!(condition.backoff.max_seconds, 20);

    let invalid = parse(
        r"
version: 2
command: [service]
start_condition:
  command: [/bin/false]
  timeout_seconds: 0
  backoff:
    initial_seconds: 5
    max_seconds: 1
",
    );
    assert!(matches!(invalid, Err(ConfigError::Validation(_))));
    Ok(())
}

#[test]
fn validates_commands_dependencies_and_descriptor_tracking() -> Result<(), String> {
    let invalid = parse(
        r"
version: 2
command: []
requires: [../escape, duplicate, duplicate]
process_mode: descriptor-tracking
",
    );
    let Err(ConfigError::Validation(errors)) = invalid else {
        return Err("invalid service did not produce validation errors".to_owned());
    };
    assert!(errors.iter().any(|error| error.contains("executable")));
    assert!(errors
        .iter()
        .any(|error| error.contains("safe service name")));
    assert!(errors
        .iter()
        .any(|error| error.contains("duplicate service")));
    assert!(errors
        .iter()
        .any(|error| error.contains("stop and reload hooks")));
    Ok(())
}

#[test]
fn descriptor_tracking_requires_bounded_stop_and_reload_hooks() -> Result<(), String> {
    let result = parse("version: 2\ncommand: [/bin/true]\nprocess_mode: descriptor-tracking\n");
    assert!(matches!(result, Err(ConfigError::Validation(_))));

    let config = parse(
        "version: 2\ncommand: [/bin/true]\nprocess_mode: descriptor-tracking\ndescriptor_tracking:\n  stop:\n    command: [/usr/local/bin/service-stop]\n    timeout_seconds: 30\n  reload:\n    command: [/usr/local/bin/service-reload]\n    timeout_seconds: 10\n  lifetime_timeout_seconds: 30\n",
    )
    .map_err(report)?;
    assert_eq!(config.process_mode, ProcessMode::DescriptorTracking);
    let tracking = config
        .descriptor_tracking
        .ok_or("descriptor tracking configuration is absent")?;
    assert_eq!(tracking.stop.timeout_seconds, 30);
    assert_eq!(tracking.reload.timeout_seconds, 10);
    assert_eq!(tracking.lifetime_timeout_seconds, 30);
    Ok(())
}

#[test]
fn descriptor_tracking_rejects_partial_misplaced_and_unknown_fields() {
    for source in [
        "version: 2\ncommand: [/bin/true]\nprocess_mode: descriptor-tracking\ndescriptor_tracking:\n  stop:\n    command: []\n    timeout_seconds: 0\n  reload:\n    command: []\n    timeout_seconds: 0\n  lifetime_timeout_seconds: 0\n",
        "version: 2\ncommand: [/bin/true]\ndescriptor_tracking:\n  stop:\n    command: [/bin/true]\n    timeout_seconds: 1\n  reload:\n    command: [/bin/true]\n    timeout_seconds: 1\n  lifetime_timeout_seconds: 1\n",
        "version: 2\ncommand: [/bin/true]\nprocess_mode: descriptor-tracking\ndescriptor_tracking:\n  stop:\n    command: [/bin/true]\n    timeout_seconds: 1\n  lifetime_timeout_seconds: 1\n",
        "version: 2\ncommand: [/bin/true]\nprocess_mode: descriptor-tracking\ndescriptor_tracking:\n  stop:\n    command: [/bin/true]\n    timeout_seconds: 1\n  reload:\n    command: [/bin/true]\n    timeout_seconds: 1\n  lifetime_timeout_seconds: 1\n  future: true\n",
        "version: 2\ncommand: [/bin/true]\nprocess_mode: descriptor-tracking\ndescriptor_tracking:\n  stop:\n    command: [/bin/true]\n    timeout_seconds: 86401\n  reload:\n    command: [/bin/true]\n    timeout_seconds: 1\n  lifetime_timeout_seconds: 86401\n",
    ] {
        assert!(parse(source).is_err());
    }
}

#[test]
fn canonical_documents_of_invalid_definitions_are_refused() -> Result<(), String> {
    let mut config = parse("version: 2\ncommand: [service]\n").map_err(report)?;
    config.start_delay_seconds = u64::MAX;
    assert!(matches!(
        canonical_document(config),
        Err(ConfigError::Validation(_))
    ));
    Ok(())
}

// ---------------------------------------------------------------------------
// Logging plans
// ---------------------------------------------------------------------------

#[test]
fn file_and_logger_normalize_to_combined_route_and_shared_sink() -> Result<(), String> {
    let config = parse(
        "version: 2\ncommand: [/bin/true]\nlog:\n  file: /tmp/out.log\nlogger: [/usr/bin/logger, -t, service]\n",
    )
    .map_err(report)?;
    let plan = LoggingPlan::from_config(&config.logging).map_err(|error| error.message())?;
    assert_eq!(plan.local_files.len(), 1);
    let route = plan.local_files.first().ok_or("file route missing")?;
    assert_eq!(route.stream, OutputStream::Combined);
    assert_eq!(route.backpressure, BackpressurePolicy::LosslessBlock);
    assert_eq!(
        plan.logger,
        Some(vec![
            "/usr/bin/logger".to_owned(),
            "-t".to_owned(),
            "service".to_owned()
        ])
    );
    Ok(())
}

#[test]
fn explicit_streams_create_independent_local_routes() -> Result<(), String> {
    let config = parse(
        "version: 2\ncommand: [/bin/true]\nlog:\n  stdout:\n    file: /tmp/out.log\n  stderr:\n    file: /tmp/err.log\n",
    )
    .map_err(report)?;
    let plan = LoggingPlan::from_config(&config.logging).map_err(|error| error.message())?;
    assert_eq!(plan.local_files.len(), 2);
    assert_eq!(
        plan.local_files.first().map(|value| value.stream),
        Some(OutputStream::Stdout)
    );
    assert_eq!(
        plan.local_files.get(1).map(|value| value.stream),
        Some(OutputStream::Stderr)
    );
    assert_eq!(plan.logger, None);
    Ok(())
}

fn first_generation() -> Generation {
    Generation::new(1).expect("positive generation")
}

#[test]
fn combined_route_covers_both_child_streams() -> Result<(), String> {
    let config = parse("version: 2\ncommand: [/bin/true]\nlog:\n  file: /tmp/out.log\n")
        .map_err(report)?;
    let mut runtime = LoggingRuntime::new(
        LoggingPlan::from_config(&config.logging).map_err(|error| error.message())?,
    );
    let combined = runtime
        .pipe(OutputStream::Combined)
        .ok_or("combined pipe missing")?;
    assert_eq!(runtime.pipe(OutputStream::Stdout), Some(combined));
    assert_eq!(runtime.pipe(OutputStream::Stderr), Some(combined));
    assert_eq!(runtime.stages(OutputStream::Stdout).len(), 1);
    assert_eq!(runtime.stages(OutputStream::Stderr).len(), 1);

    runtime
        .update_stage(
            OutputStream::Stdout,
            0,
            1,
            SupervisorState::Ready(first_generation()),
        )
        .map_err(|error| error.message())?;
    assert_eq!(
        runtime.health(OutputStream::Stdout),
        Some(PipelineHealth::Ready)
    );
    assert_eq!(
        runtime.health(OutputStream::Stderr),
        Some(PipelineHealth::Ready)
    );
    Ok(())
}

#[test]
fn one_route_and_the_shared_logger_have_their_own_pipes() -> Result<(), String> {
    let config = parse(
        "version: 2\ncommand: [/bin/true]\nlog:\n  file: /tmp/out.log\nlogger: [/usr/bin/logger]\n",
    )
    .map_err(report)?;
    let runtime = LoggingRuntime::new(
        LoggingPlan::from_config(&config.logging).map_err(|error| error.message())?,
    );
    let route = runtime.pipe(OutputStream::Combined);
    assert!(route.is_some());
    assert!(runtime.logger_pipe().is_some());
    assert_ne!(route, runtime.logger_pipe());
    Ok(())
}

#[test]
fn logger_restart_preserves_pipe_and_reports_health() -> Result<(), String> {
    let config = parse(
        "version: 2\ncommand: [/bin/true]\nlog:\n  file: /tmp/out.log\nlogger: [/usr/bin/logger, -t, service]\n",
    )
    .map_err(report)?;
    let mut runtime = LoggingRuntime::new(
        LoggingPlan::from_config(&config.logging).map_err(|error| error.message())?,
    );
    let pipe = runtime.pipe(OutputStream::Combined).ok_or("pipe missing")?;
    let logger_pipe = runtime.logger_pipe().ok_or("logger pipe missing")?;
    assert_eq!(
        runtime.health(OutputStream::Combined),
        Some(PipelineHealth::Starting)
    );

    runtime
        .update_stage(
            OutputStream::Combined,
            0,
            1,
            SupervisorState::Ready(first_generation()),
        )
        .map_err(|error| error.message())?;
    runtime
        .update_logger(1, SupervisorState::Ready(first_generation()))
        .map_err(|error| error.message())?;
    assert_eq!(
        runtime.health(OutputStream::Combined),
        Some(PipelineHealth::Ready)
    );
    runtime
        .update_logger(
            2,
            SupervisorState::Backoff {
                generation: first_generation(),
                delay_seconds: 2,
            },
        )
        .map_err(|error| error.message())?;
    assert_eq!(runtime.pipe(OutputStream::Combined), Some(pipe));
    assert_eq!(runtime.logger_pipe(), Some(logger_pipe));
    assert_eq!(
        runtime.health(OutputStream::Combined),
        Some(PipelineHealth::Backoff)
    );
    runtime
        .update_logger(2, SupervisorState::Failed(FailureReason::RetryLimit))
        .map_err(|error| error.message())?;
    assert_eq!(
        runtime.health(OutputStream::Combined),
        Some(PipelineHealth::Failed)
    );
    assert!(runtime
        .update_stage(
            OutputStream::Combined,
            9,
            1,
            SupervisorState::Ready(first_generation()),
        )
        .is_err());
    Ok(())
}
