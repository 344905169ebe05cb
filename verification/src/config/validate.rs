//! Policy bounds and cross-field invariants for one service definition.
//!
//! [`validate`] is the single gate applied to freshly parsed documents and to
//! directly constructed definitions alike. Every violation is collected, in a
//! fixed order, rather than returned on the first one.

use vstd::prelude::*;
use vstd::string::*;

use crate::path::UnixPath;
use crate::service_name;
use crate::service_name::is_safe_service_name;
use crate::text;
use crate::text::{concat2, concat3, is_empty_text, push_decimal, text_contains, text_equal};

use super::environment;
use super::environment::{environment_key_is_valid, environment_value_is_valid, Environment};
use super::error::{ConfigError, ConfigFault};
use super::model;
use super::model::{
    BackoffConfig, CommandHook, DescriptorTrackingConfig, FileLogConfig, FileLogModel,
    FileLogRoutes, LoggerRestartConfig, LoggingConfig, LoggingModel, ProcessMode, RoutesModel,
    ServiceConfig, StartConditionConfig,
};

verus! {

/// Longest time which one operation may be configured to take.
pub const MAX_OPERATION_SECONDS: u64 = 86_400;

/// Longest delay which may be configured.
pub const MAX_SCHEDULE_SECONDS: u64 = 31_536_000;

// ---------------------------------------------------------------------------
// Meaning
// ---------------------------------------------------------------------------

/// One message when a rule is violated.
#[verifier::opaque]
pub open spec fn note(violated: bool, message: Seq<char>) -> Seq<Seq<char>> {
    if violated {
        seq![message]
    } else {
        Seq::empty()
    }
}

/// A message is reported exactly when its rule is violated.
pub broadcast proof fn notes_follow_violations(violated: bool, message: Seq<char>)
    ensures
        (#[trigger] note(violated, message)).len() == (if violated {
            1int
        } else {
            0int
        }),
{
    reveal(note);
}

/// Appending two reports one after the other appends both.
pub broadcast proof fn reports_regroup(
    first: Seq<Seq<char>>,
    second: Seq<Seq<char>>,
    third: Seq<Seq<char>>,
)
    ensures
        #[trigger] (first + (second + third)) == (first + second) + third,
{
    assert(first + (second + third) =~= (first + second) + third);
}

/// Message for a value beyond its limit.
pub open spec fn beyond(field: Seq<char>, limit: u64) -> Seq<char> {
    field + " must not exceed "@ + text::decimal(limit as nat)
}

/// Violations of a deadline: it is neither zero nor too long.
pub open spec fn deadline_faults(seconds: u64, field: Seq<char>) -> Seq<Seq<char>> {
    if seconds == 0 {
        seq![field + " must be greater than zero"@]
    } else {
        note(seconds > MAX_OPERATION_SECONDS, beyond(field, MAX_OPERATION_SECONDS))
    }
}

/// Whether some argument contains NUL.
pub open spec fn any_nul(argv: Seq<Seq<char>>) -> bool {
    exists|i: int| 0 <= i < argv.len() && (#[trigger] argv[i]).contains('\0')
}

/// Violations of an argv.
pub open spec fn argv_faults(argv: Seq<Seq<char>>, path: Seq<char>) -> Seq<Seq<char>> {
    (if argv.len() == 0 {
        seq![path + " must contain an executable"@]
    } else {
        note(argv[0].len() == 0, path + " executable must not be empty"@)
    }) + note(any_nul(argv), path + " must not contain NUL"@)
}

/// Violations of optional text.
pub open spec fn text_faults(value: Option<Seq<char>>, path: Seq<char>) -> Seq<Seq<char>> {
    note(
        value matches Some(text) && (text.len() == 0 || text.contains('\0')),
        path + " must not be empty or contain NUL"@,
    )
}

/// Violations of an optional path.
pub open spec fn path_faults(path: Option<Seq<u8>>, field: Seq<char>) -> Seq<Seq<char>> {
    note(path matches Some(bytes) && bytes.len() == 0, field + " must not be empty"@)
}

/// Violations of environment overrides, in key order.
pub open spec fn environment_faults(pairs: Seq<(Seq<char>, Seq<char>)>) -> Seq<Seq<char>>
    decreases pairs.len(),
{
    if pairs.len() == 0 {
        Seq::empty()
    } else {
        let (key, value) = pairs.last();
        environment_faults(pairs.drop_last()) + note(
            !environment::valid_key(key),
            "environment key `"@ + key + "` is invalid"@,
        ) + note(
            !environment::valid_value(value),
            "environment value for `"@ + key + "` contains NUL"@,
        )
    }
}

/// Violations of required services: unsafe names, and repeated ones.
pub open spec fn name_faults(names: Seq<Seq<char>>) -> Seq<Seq<char>>
    decreases names.len(),
{
    if names.len() == 0 {
        Seq::empty()
    } else {
        let name = names.last();
        name_faults(names.drop_last()) + (if !service_name::safe_service_name(name) {
            seq!["requires entry `"@ + name + "` is not a safe service name"@]
        } else {
            note(
                names.drop_last().contains(name),
                "requires contains duplicate service `"@ + name + "`"@,
            )
        })
    }
}

/// Violations of a backoff policy.
pub open spec fn backoff_faults(backoff: BackoffConfig, path: Seq<char>) -> Seq<Seq<char>> {
    note(backoff.initial_seconds == 0, path + ".initial_seconds must be greater than zero"@) + note(
        backoff.max_seconds < backoff.initial_seconds,
        path + ".max_seconds must be at least initial_seconds"@,
    ) + note(
        backoff.max_seconds > MAX_SCHEDULE_SECONDS,
        beyond(path + ".max_seconds"@, MAX_SCHEDULE_SECONDS),
    ) + note(
        backoff.reset_after_seconds > MAX_SCHEDULE_SECONDS,
        beyond(path + ".reset_after_seconds"@, MAX_SCHEDULE_SECONDS),
    ) + note(backoff.multiplier == 0, path + ".multiplier must be at least one"@) + note(
        backoff.jitter_percent > 100,
        path + ".jitter_percent must not exceed 100"@,
    )
}

/// Violations of a hook.
pub open spec fn hook_faults(hook: CommandHook, path: Seq<char>) -> Seq<Seq<char>> {
    argv_faults(text::texts(hook.command@), path + ".command"@) + deadline_faults(
        hook.timeout_seconds,
        path + ".timeout_seconds"@,
    )
}

/// Violations of a start condition.
pub open spec fn condition_faults(condition: StartConditionConfig) -> Seq<Seq<char>> {
    let backoff = condition.backoff;
    argv_faults(text::texts(condition.command@), "start_condition.command"@) + deadline_faults(
        condition.timeout_seconds,
        "start_condition.timeout_seconds"@,
    ) + note(
        backoff.initial_seconds == 0,
        "start_condition.backoff.initial_seconds must be greater than zero"@,
    ) + note(
        backoff.max_seconds < backoff.initial_seconds,
        "start_condition.backoff.max_seconds must be at least initial_seconds"@,
    ) + note(
        backoff.max_seconds > MAX_SCHEDULE_SECONDS,
        beyond("start_condition.backoff.max_seconds"@, MAX_SCHEDULE_SECONDS),
    ) + note(
        backoff.multiplier == 0,
        "start_condition.backoff.multiplier must be at least one"@,
    ) + note(
        backoff.jitter_percent > 100,
        "start_condition.backoff.jitter_percent must not exceed 100"@,
    )
}

/// Violations of one local-file destination.
pub open spec fn file_faults(file: FileLogModel, path: Seq<char>) -> Seq<Seq<char>> {
    path_faults(Some(file.file), path + ".file"@) + note(
        file.max_age_seconds == Some(0u64),
        path + ".age must be greater than zero"@,
    ) + note(file.max_bytes == Some(0u64), path + ".size must be greater than zero"@) + note(
        file.keep == Some(0u32),
        path + ".keep must be greater than zero"@,
    ) + note(
        file.keep is Some && file.max_age_seconds is None && file.max_bytes is None,
        path + ".keep requires age or size"@,
    )
}

/// Violations of an optional destination.
pub open spec fn optional_file_faults(
    file: Option<FileLogModel>,
    path: Seq<char>,
) -> Seq<Seq<char>> {
    match file {
        Some(file) => file_faults(file, path),
        None => Seq::empty(),
    }
}

/// Violations of local routes.
pub open spec fn route_faults(files: Option<RoutesModel>) -> Seq<Seq<char>> {
    match files {
        None => Seq::empty(),
        Some(RoutesModel::Combined(file)) => file_faults(file, "log"@),
        Some(RoutesModel::Selected { stdout, stderr }) => note(
            stdout is None && stderr is None,
            "log must configure stdout or stderr"@,
        ) + optional_file_faults(stdout, "log.stdout"@) + optional_file_faults(
            stderr,
            "log.stderr"@,
        ),
    }
}

/// Violations of an optional argv.
pub open spec fn optional_argv_faults(
    argv: Option<Seq<Seq<char>>>,
    path: Seq<char>,
) -> Seq<Seq<char>> {
    match argv {
        Some(argv) => argv_faults(argv, path),
        None => Seq::empty(),
    }
}

/// Violations of an output configuration.
pub open spec fn logging_faults(config: LoggingModel) -> Seq<Seq<char>> {
    route_faults(config.files) + optional_argv_faults(config.logger, "logger"@) + backoff_faults(
        config.restart.backoff,
        "logger_restart.backoff"@,
    ) + note(
        config.logger is None && config.restart != LoggerRestartConfig::standard(),
        "logger_restart requires logger"@,
    ) + path_faults(config.file_adapter, "log_adapter"@) + note(
        config.file_adapter is Some && config.files is None,
        "log_adapter requires log"@,
    )
}

/// Violations of the descriptor-tracking contract.
pub open spec fn tracking_faults(
    mode: ProcessMode,
    tracking: Option<DescriptorTrackingConfig>,
) -> Seq<Seq<char>> {
    match tracking {
        Some(tracking) => if mode == ProcessMode::DescriptorTracking {
            hook_faults(tracking.stop, "descriptor_tracking.stop"@) + hook_faults(
                tracking.reload,
                "descriptor_tracking.reload"@,
            ) + deadline_faults(
                tracking.lifetime_timeout_seconds,
                "descriptor_tracking.lifetime_timeout_seconds"@,
            )
        } else {
            seq!["descriptor_tracking is valid only with process_mode: descriptor-tracking"@]
        },
        None => note(
            mode == ProcessMode::DescriptorTracking,
            "descriptor-tracking process mode requires descriptor_tracking stop and reload hooks"@,
        ),
    }
}

/// Violations of identity, environment, and dependencies.
pub open spec fn identity_faults(config: ServiceConfig) -> Seq<Seq<char>> {
    argv_faults(text::texts(config.command@), "command"@) + text_faults(
        environment::optional_text(config.user),
        "user"@,
    ) + environment_faults(config.environment@) + name_faults(
        text::texts(config.requires_services@),
    )
}

/// Violations of schedule, restart, and readiness policy.
pub open spec fn policy_faults(config: ServiceConfig) -> Seq<Seq<char>> {
    note(
        config.start_delay_seconds > MAX_SCHEDULE_SECONDS,
        beyond("start_delay_seconds"@, MAX_SCHEDULE_SECONDS),
    ) + note(
        config.restart.success_exit_codes@.len() == 0,
        "restart.success_exit_codes must not be empty"@,
    ) + backoff_faults(config.restart.backoff, "restart.backoff"@) + note(
        config.restart.limits.burst matches Some(burst) && (burst.starts == 0
            || burst.window_seconds == 0),
        "restart.limits.burst values must be greater than zero"@,
    ) + deadline_faults(config.readiness.timeout_seconds, "readiness.timeout_seconds"@)
}

/// Violations of lifecycle commands.
pub open spec fn lifecycle_faults(config: ServiceConfig) -> Seq<Seq<char>> {
    (match config.start_condition {
        Some(condition) => condition_faults(condition),
        None => Seq::empty(),
    }) + (match config.post_exit {
        Some(hook) => hook_faults(hook, "post_exit"@),
        None => Seq::empty(),
    })
}

/// Violations of paths.
pub open spec fn location_faults(config: ServiceConfig) -> Seq<Seq<char>> {
    path_faults(model::optional_path(config.working_directory), "working_directory"@)
        + path_faults(
        model::optional_path(config.pid_files.supervisor),
        "pid_files.supervisor"@,
    ) + path_faults(model::optional_path(config.pid_files.main), "pid_files.main"@)
}

/// Every violation of a definition, in order.
pub open spec fn violations(config: ServiceConfig) -> Seq<Seq<char>> {
    identity_faults(config) + policy_faults(config) + lifecycle_faults(config) + logging_faults(
        config.logging@,
    ) + location_faults(config) + tracking_faults(
        config.process_mode,
        config.descriptor_tracking,
    )
}

/// What validation reported.
pub open spec fn validates(result: Result<(), ConfigError>, faults: Seq<Seq<char>>) -> bool {
    match result {
        Ok(()) => faults.len() == 0,
        Err(error) => faults.len() > 0 && error@ == ConfigFault::Validation(faults),
    }
}

// ---------------------------------------------------------------------------
// Collection
// ---------------------------------------------------------------------------

fn add_note(errors: &mut Vec<String>, violated: bool, message: &str)
    ensures
        text::texts(final(errors)@) == text::texts(old(errors)@) + note(violated, message@),
{
    reveal(note);
    if violated {
        errors.push(message.to_owned());
    }
    assert(text::texts(errors@) =~= text::texts(old(errors)@) + note(violated, message@));
}

fn add_field_note(errors: &mut Vec<String>, violated: bool, field: &str, message: &str)
    ensures
        text::texts(final(errors)@) == text::texts(old(errors)@) + note(
            violated,
            field@ + message@,
        ),
{
    reveal(note);
    if violated {
        errors.push(concat2(field, message));
    }
    assert(text::texts(errors@) =~= text::texts(old(errors)@) + note(violated, field@ + message@));
}

fn add_quoted_note(errors: &mut Vec<String>, violated: bool, lead: &str, name: &str, rest: &str)
    ensures
        text::texts(final(errors)@) == text::texts(old(errors)@) + note(
            violated,
            lead@ + name@ + rest@,
        ),
{
    reveal(note);
    if violated {
        errors.push(concat3(lead, name, rest));
    }
    assert(text::texts(errors@) =~= text::texts(old(errors)@) + note(
        violated,
        lead@ + name@ + rest@,
    ));
}

fn add_limit_note(errors: &mut Vec<String>, violated: bool, field: &str, limit: u64)
    ensures
        text::texts(final(errors)@) == text::texts(old(errors)@) + note(
            violated,
            beyond(field@, limit),
        ),
{
    reveal(note);
    if violated {
        let mut message = concat2(field, " must not exceed ");
        push_decimal(&mut message, limit);
        errors.push(message);
    }
    assert(text::texts(errors@) =~= text::texts(old(errors)@) + note(
        violated,
        beyond(field@, limit),
    ));
}

fn validate_deadline(errors: &mut Vec<String>, seconds: u64, field: &str)
    ensures
        text::texts(final(errors)@) == text::texts(old(errors)@) + deadline_faults(
            seconds,
            field@,
        ),
{
    reveal(note);
    if seconds == 0 {
        add_field_note(errors, true, field, " must be greater than zero");
    } else {
        add_limit_note(errors, seconds > MAX_OPERATION_SECONDS, field, MAX_OPERATION_SECONDS);
    }
}

fn contains_nul(argv: &Vec<String>) -> (found: bool)
    ensures
        found == any_nul(text::texts(argv@)),
{
    let mut index: usize = 0;
    while index < argv.len()
        invariant
            index <= argv@.len(),
            forall|i: int|
                0 <= i < index ==> !(#[trigger] text::texts(argv@)[i]).contains('\0'),
        decreases argv@.len() - index,
    {
        assert(text::texts(argv@)[index as int] == argv@[index as int]@);
        if text_contains(argv[index].as_str(), '\0') {
            return true;
        }
        index = index + 1;
    }
    false
}

/// Check an argv.
pub(crate) fn validate_argv(errors: &mut Vec<String>, argv: &Vec<String>, path: &str)
    ensures
        text::texts(final(errors)@) == text::texts(old(errors)@) + argv_faults(
            text::texts(argv@),
            path@,
        ),
{
    reveal(note);
    let ghost before = text::texts(errors@);
    let ghost views = text::texts(argv@);
    if argv.len() == 0 {
        add_field_note(errors, true, path, " must contain an executable");
    } else {
        assert(views[0] == argv@[0]@);
        add_field_note(
            errors,
            is_empty_text(argv[0].as_str()),
            path,
            " executable must not be empty",
        );
    }
    add_field_note(errors, contains_nul(argv), path, " must not contain NUL");
    assert(text::texts(errors@) =~= before + argv_faults(views, path@));
}

fn validate_optional_text(errors: &mut Vec<String>, value: &Option<String>, path: &str)
    ensures
        text::texts(final(errors)@) == text::texts(old(errors)@) + text_faults(
            environment::optional_text(*value),
            path@,
        ),
{
    let violated = match value {
        Some(text) => is_empty_text(text.as_str()) || text_contains(text.as_str(), '\0'),
        None => false,
    };
    add_field_note(errors, violated, path, " must not be empty or contain NUL");
}

fn validate_path(errors: &mut Vec<String>, path: &Option<UnixPath>, field: &str)
    ensures
        text::texts(final(errors)@) == text::texts(old(errors)@) + path_faults(
            model::optional_path(*path),
            field@,
        ),
{
    let violated = match path {
        Some(path) => path.is_empty(),
        None => false,
    };
    add_field_note(errors, violated, field, " must not be empty");
}

fn validate_environment(errors: &mut Vec<String>, overrides: &Environment)
    ensures
        text::texts(final(errors)@) == text::texts(old(errors)@) + environment_faults(
            overrides@,
        ),
{
    let ghost before = text::texts(errors@);
    let ghost pairs = overrides@;
    let entries = overrides.entries();
    let mut index: usize = 0;
    proof {
        assert(pairs.take(0) =~= Seq::empty());
        assert(before + Seq::<Seq<char>>::empty() =~= before);
    }
    while index < entries.len()
        invariant
            index <= entries@.len(),
            pairs == environment::entry_views(entries@),
            text::texts(errors@) == before + environment_faults(pairs.take(index as int)),
        decreases entries@.len() - index,
    {
        let entry = &entries[index];
        proof {
            assert(pairs.take(index + 1).drop_last() =~= pairs.take(index as int));
            assert(pairs.take(index + 1).last() == (entry.key@, entry.value@));
        }
        add_quoted_note(
            errors,
            !environment_key_is_valid(entry.key.as_str()),
            "environment key `",
            entry.key.as_str(),
            "` is invalid",
        );
        add_quoted_note(
            errors,
            !environment_value_is_valid(entry.value.as_str()),
            "environment value for `",
            entry.key.as_str(),
            "` contains NUL",
        );
        index = index + 1;
        assert(text::texts(errors@) =~= before + environment_faults(pairs.take(index as int)));
    }
    assert(pairs.take(index as int) =~= pairs);
}

fn occurs_before(names: &Vec<String>, position: usize) -> (found: bool)
    requires
        position < names@.len(),
    ensures
        found == text::texts(names@).take(position as int).contains(names@[position as int]@),
{
    let ghost earlier = text::texts(names@).take(position as int);
    let mut index: usize = 0;
    while index < position
        invariant
            index <= position < names@.len(),
            earlier == text::texts(names@).take(position as int),
            forall|i: int| 0 <= i < index ==> earlier[i] != names@[position as int]@,
        decreases position - index,
    {
        assert(earlier[index as int] == names@[index as int]@);
        if text_equal(names[index].as_str(), names[position].as_str()) {
            return true;
        }
        index = index + 1;
    }
    false
}

fn validate_service_names(errors: &mut Vec<String>, names: &Vec<String>)
    ensures
        text::texts(final(errors)@) == text::texts(old(errors)@) + name_faults(
            text::texts(names@),
        ),
{
    let ghost before = text::texts(errors@);
    let ghost views = text::texts(names@);
    let mut index: usize = 0;
    proof {
        assert(views.take(0) =~= Seq::empty());
        assert(before + Seq::<Seq<char>>::empty() =~= before);
    }
    while index < names.len()
        invariant
            index <= names@.len(),
            views == text::texts(names@),
            text::texts(errors@) == before + name_faults(views.take(index as int)),
        decreases names@.len() - index,
    {
        let name = names[index].as_str();
        proof {
            reveal(note);
            assert(views.take(index + 1).drop_last() =~= views.take(index as int));
            assert(views.take(index + 1).last() == name@);
        }
        if !is_safe_service_name(name) {
            add_quoted_note(
                errors,
                true,
                "requires entry `",
                name,
                "` is not a safe service name",
            );
        } else {
            add_quoted_note(
                errors,
                occurs_before(names, index),
                "requires contains duplicate service `",
                name,
                "`",
            );
        }
        index = index + 1;
        assert(text::texts(errors@) =~= before + name_faults(views.take(index as int)));
    }
    assert(views.take(index as int) =~= views);
}

fn validate_backoff(errors: &mut Vec<String>, backoff: &BackoffConfig, path: &str)
    ensures
        text::texts(final(errors)@) == text::texts(old(errors)@) + backoff_faults(
            *backoff,
            path@,
        ),
{
    broadcast use reports_regroup;

    let ghost before = text::texts(errors@);
    add_field_note(
        errors,
        backoff.initial_seconds == 0,
        path,
        ".initial_seconds must be greater than zero",
    );
    add_field_note(
        errors,
        backoff.max_seconds < backoff.initial_seconds,
        path,
        ".max_seconds must be at least initial_seconds",
    );
    let longest = concat2(path, ".max_seconds");
    add_limit_note(
        errors,
        backoff.max_seconds > MAX_SCHEDULE_SECONDS,
        longest.as_str(),
        MAX_SCHEDULE_SECONDS,
    );
    let reset = concat2(path, ".reset_after_seconds");
    add_limit_note(
        errors,
        backoff.reset_after_seconds > MAX_SCHEDULE_SECONDS,
        reset.as_str(),
        MAX_SCHEDULE_SECONDS,
    );
    add_field_note(errors, backoff.multiplier == 0, path, ".multiplier must be at least one");
    add_field_note(
        errors,
        backoff.jitter_percent > 100,
        path,
        ".jitter_percent must not exceed 100",
    );
    assert(text::texts(errors@) =~= before + backoff_faults(*backoff, path@));
}

fn validate_hook(errors: &mut Vec<String>, hook: &CommandHook, path: &str)
    ensures
        text::texts(final(errors)@) == text::texts(old(errors)@) + hook_faults(*hook, path@),
{
    let ghost before = text::texts(errors@);
    let command = concat2(path, ".command");
    validate_argv(errors, &hook.command, command.as_str());
    let timeout = concat2(path, ".timeout_seconds");
    validate_deadline(errors, hook.timeout_seconds, timeout.as_str());
    assert(text::texts(errors@) =~= before + hook_faults(*hook, path@));
}

fn validate_start_condition(errors: &mut Vec<String>, condition: &StartConditionConfig)
    ensures
        text::texts(final(errors)@) == text::texts(old(errors)@) + condition_faults(*condition),
{
    broadcast use reports_regroup;

    let ghost before = text::texts(errors@);
    let backoff = condition.backoff;
    validate_argv(errors, &condition.command, "start_condition.command");
    validate_deadline(errors, condition.timeout_seconds, "start_condition.timeout_seconds");
    add_note(
        errors,
        backoff.initial_seconds == 0,
        "start_condition.backoff.initial_seconds must be greater than zero",
    );
    add_note(
        errors,
        backoff.max_seconds < backoff.initial_seconds,
        "start_condition.backoff.max_seconds must be at least initial_seconds",
    );
    add_limit_note(
        errors,
        backoff.max_seconds > MAX_SCHEDULE_SECONDS,
        "start_condition.backoff.max_seconds",
        MAX_SCHEDULE_SECONDS,
    );
    add_note(
        errors,
        backoff.multiplier == 0,
        "start_condition.backoff.multiplier must be at least one",
    );
    add_note(
        errors,
        backoff.jitter_percent > 100,
        "start_condition.backoff.jitter_percent must not exceed 100",
    );
    assert(text::texts(errors@) =~= before + condition_faults(*condition));
}

fn is_zero(limit: Option<u64>) -> (zero: bool)
    ensures
        zero == (limit == Some(0u64)),
{
    match limit {
        Some(limit) => limit == 0,
        None => false,
    }
}

/// Check one local-file destination.
pub(crate) fn validate_file_log(errors: &mut Vec<String>, file: &FileLogConfig, path: &str)
    ensures
        text::texts(final(errors)@) == text::texts(old(errors)@) + file_faults(file@, path@),
{
    broadcast use reports_regroup;

    let ghost before = text::texts(errors@);
    let field = concat2(path, ".file");
    add_field_note(errors, file.file.is_empty(), field.as_str(), " must not be empty");
    add_field_note(
        errors,
        is_zero(file.max_age_seconds),
        path,
        ".age must be greater than zero",
    );
    add_field_note(errors, is_zero(file.max_bytes), path, ".size must be greater than zero");
    let none_kept = match file.keep {
        Some(keep) => keep == 0,
        None => false,
    };
    add_field_note(errors, none_kept, path, ".keep must be greater than zero");
    add_field_note(
        errors,
        file.keep.is_some() && file.max_age_seconds.is_none() && file.max_bytes.is_none(),
        path,
        ".keep requires age or size",
    );
    assert(text::texts(errors@) =~= before + file_faults(file@, path@));
}

fn validate_optional_file(errors: &mut Vec<String>, file: &Option<FileLogConfig>, path: &str)
    ensures
        text::texts(final(errors)@) == text::texts(old(errors)@) + optional_file_faults(
            model::optional_file(*file),
            path@,
        ),
{
    let ghost before = text::texts(errors@);
    if let Some(file) = file {
        validate_file_log(errors, file, path);
    }
    assert(before + Seq::<Seq<char>>::empty() =~= before);
}

fn validate_routes(errors: &mut Vec<String>, files: &Option<FileLogRoutes>)
    ensures
        text::texts(final(errors)@) == text::texts(old(errors)@) + route_faults(
            model::optional_routes(*files),
        ),
{
    let ghost before = text::texts(errors@);
    match files {
        Some(FileLogRoutes::Combined(file)) => validate_file_log(errors, file, "log"),
        Some(FileLogRoutes::Selected { stdout, stderr }) => {
            add_note(
                errors,
                stdout.is_none() && stderr.is_none(),
                "log must configure stdout or stderr",
            );
            validate_optional_file(errors, stdout, "log.stdout");
            validate_optional_file(errors, stderr, "log.stderr");
        },
        None => {},
    }
    assert(text::texts(errors@) =~= before + route_faults(model::optional_routes(*files)));
}

fn validate_logging(errors: &mut Vec<String>, config: &LoggingConfig)
    ensures
        text::texts(final(errors)@) == text::texts(old(errors)@) + logging_faults(config@),
{
    broadcast use reports_regroup;

    let ghost before = text::texts(errors@);
    validate_routes(errors, &config.files);
    let ghost routed = text::texts(errors@);
    if let Some(logger) = &config.logger {
        validate_argv(errors, logger, "logger");
    }
    assert(text::texts(errors@) =~= routed + optional_argv_faults(config@.logger, "logger"@));
    validate_backoff(errors, &config.restart.backoff, "logger_restart.backoff");
    add_note(
        errors,
        config.logger.is_none() && config.restart != LoggerRestartConfig::default(),
        "logger_restart requires logger",
    );
    validate_path(errors, &config.file_adapter, "log_adapter");
    add_note(
        errors,
        config.file_adapter.is_some() && config.files.is_none(),
        "log_adapter requires log",
    );
    assert(text::texts(errors@) =~= before + logging_faults(config@));
}

fn validate_tracking(errors: &mut Vec<String>, config: &ServiceConfig)
    ensures
        text::texts(final(errors)@) == text::texts(old(errors)@) + tracking_faults(
            config.process_mode,
            config.descriptor_tracking,
        ),
{
    reveal(note);
    let ghost before = text::texts(errors@);
    let tracking_mode = config.process_mode == ProcessMode::DescriptorTracking;
    match &config.descriptor_tracking {
        Some(tracking) => {
            if tracking_mode {
                validate_hook(errors, &tracking.stop, "descriptor_tracking.stop");
                validate_hook(errors, &tracking.reload, "descriptor_tracking.reload");
                validate_deadline(
                    errors,
                    tracking.lifetime_timeout_seconds,
                    "descriptor_tracking.lifetime_timeout_seconds",
                );
            } else {
                add_note(
                    errors,
                    true,
                    "descriptor_tracking is valid only with process_mode: descriptor-tracking",
                );
            }
        },
        None => add_note(
            errors,
            tracking_mode,
            "descriptor-tracking process mode requires descriptor_tracking stop and reload hooks",
        ),
    }
    assert(text::texts(errors@) =~= before + tracking_faults(
        config.process_mode,
        config.descriptor_tracking,
    ));
}

fn validate_identity(errors: &mut Vec<String>, config: &ServiceConfig)
    ensures
        text::texts(final(errors)@) == text::texts(old(errors)@) + identity_faults(*config),
{
    broadcast use reports_regroup;

    let ghost before = text::texts(errors@);
    validate_argv(errors, &config.command, "command");
    validate_optional_text(errors, &config.user, "user");
    validate_environment(errors, &config.environment);
    validate_service_names(errors, &config.requires_services);
    assert(text::texts(errors@) =~= before + identity_faults(*config));
}

fn validate_policy(errors: &mut Vec<String>, config: &ServiceConfig)
    ensures
        text::texts(final(errors)@) == text::texts(old(errors)@) + policy_faults(*config),
{
    broadcast use reports_regroup;

    let ghost before = text::texts(errors@);
    add_limit_note(
        errors,
        config.start_delay_seconds > MAX_SCHEDULE_SECONDS,
        "start_delay_seconds",
        MAX_SCHEDULE_SECONDS,
    );
    add_note(
        errors,
        config.restart.success_exit_codes.len() == 0,
        "restart.success_exit_codes must not be empty",
    );
    validate_backoff(errors, &config.restart.backoff, "restart.backoff");
    let burst = match config.restart.limits.burst {
        Some(burst) => burst.starts == 0 || burst.window_seconds == 0,
        None => false,
    };
    add_note(errors, burst, "restart.limits.burst values must be greater than zero");
    validate_deadline(errors, config.readiness.timeout_seconds, "readiness.timeout_seconds");
    assert(text::texts(errors@) =~= before + policy_faults(*config));
}

fn validate_lifecycle(errors: &mut Vec<String>, config: &ServiceConfig)
    ensures
        text::texts(final(errors)@) == text::texts(old(errors)@) + lifecycle_faults(*config),
{
    let ghost before = text::texts(errors@);
    if let Some(condition) = &config.start_condition {
        validate_start_condition(errors, condition);
    }
    if let Some(hook) = &config.post_exit {
        validate_hook(errors, hook, "post_exit");
    }
    assert(text::texts(errors@) =~= before + lifecycle_faults(*config));
}

fn validate_locations(errors: &mut Vec<String>, config: &ServiceConfig)
    ensures
        text::texts(final(errors)@) == text::texts(old(errors)@) + location_faults(*config),
{
    let ghost before = text::texts(errors@);
    validate_path(errors, &config.working_directory, "working_directory");
    validate_path(errors, &config.pid_files.supervisor, "pid_files.supervisor");
    validate_path(errors, &config.pid_files.main, "pid_files.main");
    assert(text::texts(errors@) =~= before + location_faults(*config));
}

/// Collect violations into a result.
pub(crate) fn collected(errors: Vec<String>) -> (result: Result<(), ConfigError>)
    ensures
        validates(result, text::texts(errors@)),
{
    if errors.len() == 0 {
        Ok(())
    } else {
        Err(ConfigError::Validation(errors))
    }
}

/// Check every policy bound and field relationship of a definition.
///
/// # Errors
///
/// Returns every violation in one report.
pub fn validate(config: &ServiceConfig) -> (result: Result<(), ConfigError>)
    ensures
        validates(result, violations(*config)),
{
    let mut errors: Vec<String> = Vec::new();
    assert(text::texts(errors@) =~= Seq::empty());
    validate_identity(&mut errors, config);
    validate_policy(&mut errors, config);
    validate_lifecycle(&mut errors, config);
    validate_logging(&mut errors, &config.logging);
    validate_locations(&mut errors, config);
    validate_tracking(&mut errors, config);
    assert(text::texts(errors@) =~= violations(*config));
    collected(errors)
}

// ---------------------------------------------------------------------------
// Laws
// ---------------------------------------------------------------------------

/// Every timeout and delay of a valid definition is bounded, so that no deadline
/// lies beyond a monotonic clock.
pub proof fn valid_definitions_are_bounded(config: ServiceConfig)
    requires
        violations(config).len() == 0,
    ensures
        config.start_delay_seconds <= MAX_SCHEDULE_SECONDS,
        0 < config.readiness.timeout_seconds <= MAX_OPERATION_SECONDS,
        0 < config.restart.backoff.initial_seconds <= config.restart.backoff.max_seconds
            <= MAX_SCHEDULE_SECONDS,
        config.restart.backoff.multiplier > 0,
        config.restart.backoff.jitter_percent <= 100,
        config.start_condition matches Some(condition) ==> 0 < condition.timeout_seconds
            <= MAX_OPERATION_SECONDS,
        config.post_exit matches Some(hook) ==> 0 < hook.timeout_seconds <= MAX_OPERATION_SECONDS,
{
    broadcast use notes_follow_violations;

    assert(policy_faults(config).len() == 0);
    assert(lifecycle_faults(config).len() == 0);
}

/// A valid definition names an executable.
pub proof fn valid_definitions_name_an_executable(config: ServiceConfig)
    requires
        violations(config).len() == 0,
    ensures
        text::texts(config.command@).len() > 0,
        text::texts(config.command@)[0].len() > 0,
{
    broadcast use notes_follow_violations;

    assert(identity_faults(config).len() == 0);
    assert(argv_faults(text::texts(config.command@), "command"@).len() == 0);
}

/// A valid definition tracks descriptors exactly when it has the hooks for it.
pub proof fn valid_tracking_is_complete(config: ServiceConfig)
    requires
        violations(config).len() == 0,
    ensures
        config.process_mode == ProcessMode::DescriptorTracking <==> config.descriptor_tracking
            is Some,
{
    broadcast use notes_follow_violations;

    assert(tracking_faults(config.process_mode, config.descriptor_tracking).len() == 0);
}

/// Field relationships of a valid output configuration.
pub(crate) proof fn lemma_valid_logging(config: ServiceConfig)
    requires
        violations(config).len() == 0,
    ensures
        config.logging@.files matches Some(RoutesModel::Selected { stdout, stderr }) ==> stdout
            is Some || stderr is Some,
        config.logging@.logger is None ==> config.logging@.restart
            == LoggerRestartConfig::standard(),
        config.logging@.file_adapter is Some ==> config.logging@.files is Some,
{
    broadcast use notes_follow_violations;

    assert(logging_faults(config.logging@).len() == 0);
    assert(route_faults(config.logging@.files).len() == 0);
}

/// Whether an argv names an executable and can be handed to the system.
pub open spec fn runnable(argv: Seq<Seq<char>>) -> bool {
    &&& argv.len() > 0
    &&& argv[0].len() > 0
    &&& forall|i: int, j: int|
        0 <= i < argv.len() && 0 <= j < argv[i].len() ==> #[trigger] argv[i][j] != '\0'
}

/// Whether a deadline is at least a second and at most a day.
pub open spec fn within_a_day(seconds: u64) -> bool {
    0 < seconds <= 24 * 60 * 60
}

/// Whether a delay is at most a year.
pub open spec fn within_a_year(seconds: u64) -> bool {
    seconds <= 365 * 24 * 60 * 60
}

/// An argv is accepted exactly when it is runnable, a deadline when it lies within a
/// day, text when it is absent or holds something but NUL, and a path when it is absent
/// or not empty.
pub proof fn values_are_accepted_by_their_rule(
    argv: Seq<Seq<char>>,
    seconds: u64,
    value: Option<Seq<char>>,
    location: Option<Seq<u8>>,
    field: Seq<char>,
)
    ensures
        argv_faults(argv, field).len() == 0 <==> runnable(argv),
        deadline_faults(seconds, field).len() == 0 <==> within_a_day(seconds),
        text_faults(value, field).len() == 0 <==> (value matches Some(text) ==> text.len() > 0
            && forall|i: int| 0 <= i < text.len() ==> #[trigger] text[i] != '\0'),
        path_faults(location, field).len() == 0 <==> (location matches Some(bytes) ==> bytes.len()
            > 0),
{
    broadcast use notes_follow_violations;

    if any_nul(argv) {
        let i = choose|i: int| 0 <= i < argv.len() && (#[trigger] argv[i]).contains('\0');
        let j = choose|j: int| 0 <= j < argv[i].len() && argv[i][j] == '\0';
        assert(argv[i][j] == '\0');
    } else {
        assert forall|i: int, j: int|
            0 <= i < argv.len() && 0 <= j < argv[i].len() implies #[trigger] argv[i][j] != '\0' by {
            assert(!argv[i].contains('\0'));
        }
    }
}

/// A hook is accepted exactly when its command is runnable and its deadline lies within
/// a day.
pub proof fn hooks_are_accepted_by_their_rule(hook: CommandHook, path: Seq<char>)
    ensures
        hook_faults(hook, path).len() == 0 <==> runnable(text::texts(hook.command@))
            && within_a_day(hook.timeout_seconds),
{
    values_are_accepted_by_their_rule(
        text::texts(hook.command@),
        hook.timeout_seconds,
        None,
        None,
        path + ".command"@,
    );
    values_are_accepted_by_their_rule(
        text::texts(hook.command@),
        hook.timeout_seconds,
        None,
        None,
        path + ".timeout_seconds"@,
    );
}

/// A backoff policy is accepted exactly when its delays are positive and in order, lie
/// within a year, never shrink, and spread by no more than their own length.
pub proof fn backoffs_are_accepted_by_their_rule(backoff: BackoffConfig, path: Seq<char>)
    ensures
        backoff_faults(backoff, path).len() == 0 <==> 0 < backoff.initial_seconds
            <= backoff.max_seconds && within_a_year(backoff.max_seconds) && within_a_year(
            backoff.reset_after_seconds,
        ) && backoff.multiplier >= 1 && backoff.jitter_percent <= 100,
{
    broadcast use notes_follow_violations;

}

/// A start condition is accepted exactly when its command is runnable, its deadline
/// lies within a day, and its retries are paced like restarts.
pub proof fn conditions_are_accepted_by_their_rule(condition: StartConditionConfig)
    ensures
        condition_faults(condition).len() == 0 <==> runnable(text::texts(condition.command@))
            && within_a_day(condition.timeout_seconds) && 0 < condition.backoff.initial_seconds
            <= condition.backoff.max_seconds && within_a_year(condition.backoff.max_seconds)
            && condition.backoff.multiplier >= 1 && condition.backoff.jitter_percent <= 100,
{
    broadcast use notes_follow_violations;

    values_are_accepted_by_their_rule(
        text::texts(condition.command@),
        condition.timeout_seconds,
        None,
        None,
        "start_condition.command"@,
    );
    values_are_accepted_by_their_rule(
        text::texts(condition.command@),
        condition.timeout_seconds,
        None,
        None,
        "start_condition.timeout_seconds"@,
    );
}

/// Environment overrides are accepted exactly when every key and every value is.
pub proof fn overrides_are_accepted_one_by_one(pairs: Seq<(Seq<char>, Seq<char>)>)
    ensures
        environment_faults(pairs).len() == 0 <==> forall|i: int|
            0 <= i < pairs.len() ==> environment::valid_key((#[trigger] pairs[i]).0)
                && environment::valid_value(pairs[i].1),
    decreases pairs.len(),
{
    broadcast use notes_follow_violations;

    if pairs.len() > 0 {
        let before = pairs.drop_last();
        overrides_are_accepted_one_by_one(before);
        assert(pairs.last() == pairs[pairs.len() - 1]);
        if forall|i: int|
            0 <= i < pairs.len() ==> environment::valid_key((#[trigger] pairs[i]).0)
                && environment::valid_value(pairs[i].1) {
            assert forall|i: int| 0 <= i < before.len() implies environment::valid_key(
                (#[trigger] before[i]).0,
            ) && environment::valid_value(before[i].1) by {
                assert(before[i] == pairs[i]);
            }
        }
        if environment_faults(pairs).len() == 0 {
            assert forall|i: int| 0 <= i < pairs.len() implies environment::valid_key(
                (#[trigger] pairs[i]).0,
            ) && environment::valid_value(pairs[i].1) by {
                if i < before.len() {
                    assert(before[i] == pairs[i]);
                }
            }
        }
    }
}

/// Required services are accepted exactly when every name is safe and none is repeated.
pub proof fn requirements_are_safe_and_distinct(names: Seq<Seq<char>>)
    ensures
        name_faults(names).len() == 0 <==> (forall|i: int|
            0 <= i < names.len() ==> service_name::safe_service_name(#[trigger] names[i])) && (
        forall|i: int, j: int|
            0 <= i < j < names.len() ==> #[trigger] names[i] != #[trigger] names[j]),
    decreases names.len(),
{
    broadcast use notes_follow_violations;

    if names.len() > 0 {
        let before = names.drop_last();
        let last = names.len() - 1;
        requirements_are_safe_and_distinct(before);
        assert(names.last() == names[last]);
        assert(forall|i: int| 0 <= i < before.len() ==> #[trigger] before[i] == names[i]);
        if name_faults(names).len() == 0 {
            assert(!before.contains(names.last()));
            assert forall|i: int, j: int| 0 <= i < j < names.len() implies #[trigger] names[i]
                != #[trigger] names[j] by {
                assert(before[i] == names[i]);
                if j < last {
                    assert(before[j] == names[j]);
                }
            }
            assert forall|i: int|
                0 <= i < names.len() implies service_name::safe_service_name(
                #[trigger] names[i],
            ) by {
                if i < last {
                    assert(before[i] == names[i]);
                }
            }
        }
        if (forall|i: int|
            0 <= i < names.len() ==> service_name::safe_service_name(#[trigger] names[i])) && (
        forall|i: int, j: int|
            0 <= i < j < names.len() ==> #[trigger] names[i] != #[trigger] names[j]) {
            assert forall|i: int| 0 <= i < before.len() implies service_name::safe_service_name(
                #[trigger] before[i],
            ) by {
                assert(before[i] == names[i]);
            }
            if before.contains(names.last()) {
                let i = choose|i: int| 0 <= i < before.len() && before[i] == names.last();
                assert(names[i] == names[last]);
            }
        }
    }
}

/// A log file is accepted exactly when it has a path, every limit which it sets is
/// positive, and it keeps archives only where something makes it rotate.
pub proof fn log_files_are_accepted_by_their_rule(file: FileLogModel, path: Seq<char>)
    ensures
        file_faults(file, path).len() == 0 <==> file.file.len() > 0 && (file.max_age_seconds matches Some(
            age,
        ) ==> age > 0) && (file.max_bytes matches Some(size) ==> size > 0) && (file.keep matches Some(
            keep,
        ) ==> keep > 0 && (file.max_age_seconds is Some || file.max_bytes is Some)),
{
    broadcast use notes_follow_violations;

}

/// Local output is accepted exactly when it selects at least one stream and each of its
/// files is accepted.
pub proof fn log_routes_are_accepted_by_their_rule(files: Option<RoutesModel>)
    ensures
        route_faults(files).len() == 0 <==> match files {
            None => true,
            Some(RoutesModel::Combined(file)) => file_faults(file, "log"@).len() == 0,
            Some(RoutesModel::Selected { stdout, stderr }) => (stdout is Some || stderr is Some)
                && (stdout matches Some(file) ==> file_faults(file, "log.stdout"@).len() == 0) && (
            stderr matches Some(file) ==> file_faults(file, "log.stderr"@).len() == 0),
        },
{
    broadcast use notes_follow_violations;

}

/// Output is accepted exactly when its routes are, its logger is runnable and paced, a
/// policy is set only for a logger, and an adapter only for local files.
pub proof fn outputs_are_accepted_by_their_rule(config: LoggingModel)
    ensures
        logging_faults(config).len() == 0 <==> route_faults(config.files).len() == 0 && (
        config.logger matches Some(argv) ==> runnable(argv)) && (config.logger is None
            ==> config.restart == LoggerRestartConfig::standard()) && backoff_faults(
            config.restart.backoff,
            "logger_restart.backoff"@,
        ).len() == 0 && (config.file_adapter matches Some(adapter) ==> adapter.len() > 0
            && config.files is Some),
{
    broadcast use notes_follow_violations;

    if config.logger is Some {
        values_are_accepted_by_their_rule(config.logger->0, 1, None, None, "logger"@);
    }
}

/// Descriptor tracking is accepted exactly in its own process mode, with runnable hooks
/// to stop and to reload and a deadline for its lifetime.
pub proof fn tracking_is_accepted_by_its_rule(
    mode: ProcessMode,
    tracking: Option<DescriptorTrackingConfig>,
)
    ensures
        tracking_faults(mode, tracking).len() == 0 <==> match tracking {
            None => mode != ProcessMode::DescriptorTracking,
            Some(hooks) => mode == ProcessMode::DescriptorTracking && runnable(
                text::texts(hooks.stop.command@),
            ) && within_a_day(hooks.stop.timeout_seconds) && runnable(
                text::texts(hooks.reload.command@),
            ) && within_a_day(hooks.reload.timeout_seconds) && within_a_day(
                hooks.lifetime_timeout_seconds,
            ),
        },
{
    broadcast use notes_follow_violations;

    if tracking is Some {
        let hooks = tracking->0;
        hooks_are_accepted_by_their_rule(hooks.stop, "descriptor_tracking.stop"@);
        hooks_are_accepted_by_their_rule(hooks.reload, "descriptor_tracking.reload"@);
    }
}

/// A definition is valid exactly when each of its parts is: identity, schedule and
/// restart policy, lifecycle commands, output, locations, and tracking. No part excuses
/// another.
pub proof fn definitions_are_valid_in_every_part(config: ServiceConfig)
    ensures
        violations(config).len() == 0 <==> {
            &&& runnable(text::texts(config.command@))
            &&& config.user matches Some(user) ==> user@.len() > 0 && !user@.contains('\0')
            &&& environment_faults(config.environment@).len() == 0
            &&& name_faults(text::texts(config.requires_services@)).len() == 0
            &&& within_a_year(config.start_delay_seconds)
            &&& config.restart.success_exit_codes@.len() > 0
            &&& backoff_faults(config.restart.backoff, "restart.backoff"@).len() == 0
            &&& config.restart.limits.burst matches Some(burst) ==> burst.starts > 0
                && burst.window_seconds > 0
            &&& within_a_day(config.readiness.timeout_seconds)
            &&& config.start_condition matches Some(condition) ==> condition_faults(
                condition,
            ).len() == 0
            &&& config.post_exit matches Some(hook) ==> hook_faults(hook, "post_exit"@).len() == 0
            &&& logging_faults(config.logging@).len() == 0
            &&& config.working_directory matches Some(path) ==> path@.len() > 0
            &&& config.pid_files.supervisor matches Some(path) ==> path@.len() > 0
            &&& config.pid_files.main matches Some(path) ==> path@.len() > 0
            &&& tracking_faults(config.process_mode, config.descriptor_tracking).len() == 0
        },
{
    broadcast use notes_follow_violations;

    values_are_accepted_by_their_rule(
        text::texts(config.command@),
        config.readiness.timeout_seconds,
        None,
        None,
        "command"@,
    );
    values_are_accepted_by_their_rule(
        text::texts(config.command@),
        config.readiness.timeout_seconds,
        None,
        None,
        "readiness.timeout_seconds"@,
    );
}

} // verus!
