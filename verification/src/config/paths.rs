//! Definition-relative path resolution applied before daemonization.
//!
//! [`resolve_paths`] rewrites every configuration path so its meaning survives a
//! working-directory change: the service executable resolves against the resolved
//! working directory, while every other executable, log, and PID path resolves
//! against the definition's own directory. Bare executable names are left
//! untouched so that they can still be found through `PATH`.

use vstd::prelude::*;
use vstd::string::*;
use vstd::utf8::*;

use crate::path;
use crate::path::{join, normalize_absolute, parent, UnixPath};
use crate::text;
use crate::text::{concat3, decode_lossy, decode_text, text_contains};

use super::error;
use super::error::{validation_error, ConfigError, ConfigFault};
use super::model;
use super::model::{FileLogConfig, FileLogModel, FileLogRoutes, RoutesModel, ServiceConfig};
use super::validate;
use super::validate::{collected, validate};

verus! {

// ---------------------------------------------------------------------------
// Meaning
// ---------------------------------------------------------------------------

/// Argv whose executable is resolved, or nothing when the result is not UTF-8. A
/// bare name stays as it is.
pub open spec fn resolved_argv(argv: Seq<Seq<char>>, base: Seq<u8>) -> Option<Seq<Seq<char>>> {
    if argv.len() == 0 || !argv[0].contains('/') {
        Some(argv)
    } else {
        let executable = path::resolved(base, encode_utf8(argv[0]));
        if valid_utf8(executable) {
            Some(argv.update(0, decode_utf8(executable)))
        } else {
            None
        }
    }
}

/// Resolved optional path.
pub open spec fn resolved_path(value: Option<Seq<u8>>, base: Seq<u8>) -> Option<Seq<u8>> {
    match value {
        Some(value) => Some(path::resolved(base, value)),
        None => None,
    }
}

/// Destination with a resolved file.
pub open spec fn resolved_file(file: FileLogModel, base: Seq<u8>) -> FileLogModel {
    FileLogModel { file: path::resolved(base, file.file), ..file }
}

/// Resolved optional destination.
pub open spec fn resolved_optional_file(
    file: Option<FileLogModel>,
    base: Seq<u8>,
) -> Option<FileLogModel> {
    match file {
        Some(file) => Some(resolved_file(file, base)),
        None => None,
    }
}

/// Resolved local routes.
pub open spec fn resolved_routes(files: Option<RoutesModel>, base: Seq<u8>) -> Option<
    RoutesModel,
> {
    match files {
        None => None,
        Some(RoutesModel::Combined(file)) => Some(
            RoutesModel::Combined(resolved_file(file, base)),
        ),
        Some(RoutesModel::Selected { stdout, stderr }) => Some(
            RoutesModel::Selected {
                stdout: resolved_optional_file(stdout, base),
                stderr: resolved_optional_file(stderr, base),
            },
        ),
    }
}

/// Everything which resolution rewrites.
#[verifier::ext_equal]
pub struct LocationModel {
    pub working_directory: Option<Seq<u8>>,
    pub command: Seq<Seq<char>>,
    pub start_condition: Option<Seq<Seq<char>>>,
    pub post_exit: Option<Seq<Seq<char>>>,
    pub stop: Option<Seq<Seq<char>>>,
    pub reload: Option<Seq<Seq<char>>>,
    pub file_adapter: Option<Seq<u8>>,
    pub files: Option<RoutesModel>,
    pub logger: Option<Seq<Seq<char>>>,
    pub supervisor: Option<Seq<u8>>,
    pub main: Option<Seq<u8>>,
}

/// Everything which resolution rewrites in a definition.
pub open spec fn locations(config: ServiceConfig) -> LocationModel {
    LocationModel {
        working_directory: model::optional_path(config.working_directory),
        command: text::texts(config.command@),
        start_condition: match config.start_condition {
            Some(condition) => Some(text::texts(condition.command@)),
            None => None,
        },
        post_exit: match config.post_exit {
            Some(hook) => Some(text::texts(hook.command@)),
            None => None,
        },
        stop: match config.descriptor_tracking {
            Some(tracking) => Some(text::texts(tracking.stop.command@)),
            None => None,
        },
        reload: match config.descriptor_tracking {
            Some(tracking) => Some(text::texts(tracking.reload.command@)),
            None => None,
        },
        file_adapter: config.logging@.file_adapter,
        files: config.logging@.files,
        logger: config.logging@.logger,
        supervisor: model::optional_path(config.pid_files.supervisor),
        main: model::optional_path(config.pid_files.main),
    }
}

/// Resolve an optional argv.
pub open spec fn resolved_optional_argv(
    argv: Option<Seq<Seq<char>>>,
    base: Seq<u8>,
) -> Option<Option<Seq<Seq<char>>>> {
    match argv {
        Some(argv) => match resolved_argv(argv, base) {
            Some(argv) => Some(Some(argv)),
            None => None,
        },
        None => Some(None),
    }
}

/// Locations after every step which succeeded, and whether all did. Steps stop at
/// the first executable whose resolved path is not UTF-8.
pub open spec fn resolution(before: LocationModel, base: Seq<u8>) -> (LocationModel, bool) {
    let base = path::resolved(base, seq![46u8]);
    let placed = LocationModel {
        working_directory: resolved_path(before.working_directory, base),
        ..before
    };
    let home = match placed.working_directory {
        Some(directory) => directory,
        None => base,
    };
    match resolved_argv(placed.command, home) {
        None => (placed, false),
        Some(command) => hook_resolution(LocationModel { command, ..placed }, base),
    }
}

/// Resolution of hook commands and everything behind them.
pub open spec fn hook_resolution(before: LocationModel, base: Seq<u8>) -> (LocationModel, bool) {
    match resolved_optional_argv(before.start_condition, base) {
        None => (before, false),
        Some(start_condition) => {
            let started = LocationModel { start_condition, ..before };
            match resolved_optional_argv(started.post_exit, base) {
                None => (started, false),
                Some(post_exit) => {
                    let exited = LocationModel { post_exit, ..started };
                    match resolved_optional_argv(exited.stop, base) {
                        None => (exited, false),
                        Some(stop) => {
                            let stopped = LocationModel { stop, ..exited };
                            match resolved_optional_argv(stopped.reload, base) {
                                None => (stopped, false),
                                Some(reload) => output_resolution(
                                    LocationModel { reload, ..stopped },
                                    base,
                                ),
                            }
                        },
                    }
                },
            }
        },
    }
}

/// Resolution of output and PID paths.
pub open spec fn output_resolution(before: LocationModel, base: Seq<u8>) -> (
    LocationModel,
    bool,
) {
    let routed = LocationModel {
        file_adapter: resolved_path(before.file_adapter, base),
        files: resolved_routes(before.files, base),
        ..before
    };
    match resolved_optional_argv(routed.logger, base) {
        None => (routed, false),
        Some(logger) => (
            LocationModel {
                logger,
                supervisor: resolved_path(routed.supervisor, base),
                main: resolved_path(routed.main, base),
                ..routed
            },
            true,
        ),
    }
}

/// Everything which resolution leaves alone is the same in two definitions.
pub open spec fn same_policy(before: ServiceConfig, after: ServiceConfig) -> bool {
    &&& before.enabled == after.enabled
    &&& before.environment == after.environment
    &&& before.environment_mode == after.environment_mode
    &&& before.user == after.user
    &&& before.start_delay_seconds == after.start_delay_seconds
    &&& before.restart == after.restart
    &&& before.readiness == after.readiness
    &&& before.requires_services == after.requires_services
    &&& match (before.start_condition, after.start_condition) {
        (Some(left), Some(right)) => left.timeout_seconds == right.timeout_seconds && left.backoff
            == right.backoff,
        (None, None) => true,
        _ => false,
    }
    &&& match (before.post_exit, after.post_exit) {
        (Some(left), Some(right)) => left.timeout_seconds == right.timeout_seconds,
        (None, None) => true,
        _ => false,
    }
    &&& before.logging.restart == after.logging.restart
    &&& before.process_mode == after.process_mode
    &&& match (before.descriptor_tracking, after.descriptor_tracking) {
        (Some(left), Some(right)) => left.stop.timeout_seconds == right.stop.timeout_seconds
            && left.reload.timeout_seconds == right.reload.timeout_seconds
            && left.lifetime_timeout_seconds == right.lifetime_timeout_seconds,
        (None, None) => true,
        _ => false,
    }
}

/// Failure of an executable path which is not UTF-8.
pub open spec fn unprintable_executable() -> ConfigFault {
    error::invalid("resolved executable path is not valid UTF-8"@)
}

// ---------------------------------------------------------------------------
// Resolution
// ---------------------------------------------------------------------------

fn resolve_argv_executable(argv: &mut Vec<String>, base: &UnixPath) -> (result: Result<
    (),
    ConfigError,
>)
    ensures
        match resolved_argv(text::texts(old(argv)@), base@) {
            Some(expected) => result is Ok && text::texts(final(argv)@) == expected,
            None => final(argv)@ == old(argv)@ && match result {
                Ok(()) => false,
                Err(error) => error@ == unprintable_executable(),
            },
        },
{
    if argv.len() == 0 {
        return Ok(());
    }
    assert(text::texts(argv@)[0] == argv@[0]@);
    if !text_contains(argv[0].as_str(), '/') {
        return Ok(());
    }
    let resolved = normalize_absolute(base, &UnixPath::from_text(argv[0].as_str()));
    match decode_text(resolved.bytes.as_slice()) {
        Ok(executable) => {
            argv.set(0, executable);
            assert(text::texts(argv@) =~= text::texts(old(argv)@).update(0, executable@));
            Ok(())
        },
        Err(_) => Err(
            validation_error("resolved executable path is not valid UTF-8".to_owned()),
        ),
    }
}

fn resolve_optional_path(value: &mut Option<UnixPath>, base: &UnixPath)
    ensures
        model::optional_path(*final(value)) == resolved_path(
            model::optional_path(*old(value)),
            base@,
        ),
{
    if let Some(current) = value.take() {
        *value = Some(normalize_absolute(base, &current));
    }
}

fn resolve_file_log_path(file: &mut FileLogConfig, base: &UnixPath)
    ensures
        final(file)@ == resolved_file(old(file)@, base@),
{
    let resolved = normalize_absolute(base, &file.file);
    file.file = resolved;
}

fn resolve_optional_file(file: &mut Option<FileLogConfig>, base: &UnixPath)
    ensures
        model::optional_file(*final(file)) == resolved_optional_file(
            model::optional_file(*old(file)),
            base@,
        ),
{
    if let Some(mut current) = file.take() {
        resolve_file_log_path(&mut current, base);
        *file = Some(current);
    }
}

fn resolve_routes(files: &mut Option<FileLogRoutes>, base: &UnixPath)
    ensures
        model::optional_routes(*final(files)) == resolved_routes(
            model::optional_routes(*old(files)),
            base@,
        ),
{
    match files.take() {
        None => {},
        Some(FileLogRoutes::Combined(file)) => {
            let mut file = file;
            resolve_file_log_path(&mut file, base);
            *files = Some(FileLogRoutes::Combined(file));
        },
        Some(FileLogRoutes::Selected { stdout, stderr }) => {
            let mut stdout = stdout;
            let mut stderr = stderr;
            resolve_optional_file(&mut stdout, base);
            resolve_optional_file(&mut stderr, base);
            *files = Some(FileLogRoutes::Selected { stdout, stderr });
        },
    }
}

/// Resolve the outputs and PID paths of a definition.
fn resolve_outputs(config: &mut ServiceConfig, base: &UnixPath) -> (result: Result<(), ConfigError>)
    ensures
        same_policy(*old(config), *final(config)),
        resolves(
            output_resolution(locations(*old(config)), base@),
            locations(*final(config)),
            result,
        ),
{
    resolve_optional_path(&mut config.logging.file_adapter, base);
    resolve_routes(&mut config.logging.files, base);
    if let Some(mut logger) = config.logging.logger.take() {
        let resolved = resolve_argv_executable(&mut logger, base);
        config.logging.logger = Some(logger);
        match resolved {
            Ok(()) => {},
            Err(error) => {
                assert(locations(*config) =~= output_resolution(
                    locations(*old(config)),
                    base@,
                ).0);
                return Err(error);
            },
        }
    }
    resolve_optional_path(&mut config.pid_files.supervisor, base);
    resolve_optional_path(&mut config.pid_files.main, base);
    assert(locations(*config) =~= output_resolution(locations(*old(config)), base@).0);
    Ok(())
}

/// What resolution reported.
pub open spec fn resolves(
    expected: (LocationModel, bool),
    after: LocationModel,
    result: Result<(), ConfigError>,
) -> bool {
    &&& after == expected.0
    &&& match result {
        Ok(()) => expected.1,
        Err(error) => !expected.1 && error@ == unprintable_executable(),
    }
}

/// Resolve hook commands and everything behind them.
fn resolve_hooks(config: &mut ServiceConfig, base: &UnixPath) -> (result: Result<(), ConfigError>)
    ensures
        same_policy(*old(config), *final(config)),
        resolves(
            hook_resolution(locations(*old(config)), base@),
            locations(*final(config)),
            result,
        ),
{
    if let Some(mut condition) = config.start_condition.take() {
        let resolved = resolve_argv_executable(&mut condition.command, base);
        config.start_condition = Some(condition);
        match resolved {
            Ok(()) => {},
            Err(error) => return Err(error),
        }
    }
    if let Some(mut hook) = config.post_exit.take() {
        let resolved = resolve_argv_executable(&mut hook.command, base);
        config.post_exit = Some(hook);
        match resolved {
            Ok(()) => {},
            Err(error) => return Err(error),
        }
    }
    if let Some(mut tracking) = config.descriptor_tracking.take() {
        let stop = resolve_argv_executable(&mut tracking.stop.command, base);
        match stop {
            Ok(()) => {},
            Err(error) => {
                config.descriptor_tracking = Some(tracking);
                return Err(error);
            },
        }
        let reload = resolve_argv_executable(&mut tracking.reload.command, base);
        config.descriptor_tracking = Some(tracking);
        match reload {
            Ok(()) => {},
            Err(error) => return Err(error),
        }
    }
    resolve_outputs(config, base)
}

/// Resolve every path whose meaning would otherwise change after daemonization.
///
/// Service executable paths containing `/` are relative to the resolved working
/// directory. Hook/logger executables and file/PID paths are relative to the
/// configuration directory. Bare executable names remain available for `PATH`
/// lookup by the process executor.
///
/// # Errors
///
/// Returns an error if an absolute executable path cannot be represented as UTF-8
/// by the argv-based configuration model. Paths in front of it stay resolved.
pub fn resolve_paths(config: &mut ServiceConfig, base: &UnixPath) -> (result: Result<
    (),
    ConfigError,
>)
    ensures
        same_policy(*old(config), *final(config)),
        resolves(
            resolution(locations(*old(config)), base@),
            locations(*final(config)),
            result,
        ),
{
    let mut current: Vec<u8> = Vec::new();
    current.push(46);
    assert(current@ =~= seq![46u8]);
    let base = normalize_absolute(base, &UnixPath { bytes: current });
    resolve_optional_path(&mut config.working_directory, &base);
    let home = match &config.working_directory {
        Some(directory) => directory.duplicate(),
        None => base.duplicate(),
    };
    match resolve_argv_executable(&mut config.command, &home) {
        Ok(()) => {},
        Err(error) => return Err(error),
    }
    resolve_hooks(config, &base)
}

// ---------------------------------------------------------------------------
// Resolved definitions
// ---------------------------------------------------------------------------

/// What an inspection of the working directory reported.
#[derive(Clone, Debug, PartialEq, Eq)]
pub enum DirectoryObservation {
    /// The directory exists.
    Directory,
    /// Something else exists there.
    NotDirectory,
    /// It could not be inspected.
    Unavailable(String),
}

/// The directory against which a definition's relative paths resolve, or nothing
/// when its own path names no file.
pub open spec fn definition_base(source: Seq<u8>, working_directory: Seq<u8>) -> Option<Seq<u8>> {
    path::containing(
        if path::absolute(source) {
            source
        } else {
            path::below(working_directory, source)
        },
    )
}

/// Locate the directory of a definition.
///
/// # Errors
///
/// Fails for a path without a parent directory.
pub fn source_base(source: &UnixPath, working_directory: &UnixPath) -> (result: Result<
    UnixPath,
    ConfigError,
>)
    ensures
        match result {
            Ok(base) => definition_base(source@, working_directory@) == Some(base@),
            Err(error) => definition_base(source@, working_directory@) is None && error@
                == error::invalid("configuration path has no parent directory"@),
        },
{
    let absolute_source = if source.is_absolute() {
        source.duplicate()
    } else {
        join(working_directory, source)
    };
    match parent(&absolute_source) {
        Some(base) => Ok(base),
        None => Err(validation_error("configuration path has no parent directory".to_owned())),
    }
}

/// Violations of a resolved working directory.
pub open spec fn resolved_faults(
    directory: Option<Seq<u8>>,
    observed: DirectoryObservation,
) -> Seq<Seq<char>> {
    match directory {
        None => Seq::empty(),
        Some(directory) => match observed {
            DirectoryObservation::Directory => Seq::empty(),
            DirectoryObservation::NotDirectory => seq![
                "working_directory `"@ + text::lossy_text(directory) + "` is not a directory"@,
            ],
            DirectoryObservation::Unavailable(reason) => seq![
                "working_directory `"@ + text::lossy_text(directory) + "` is unavailable: "@
                    + reason@,
            ],
        },
    }
}

/// Confirm that the resolved working directory is usable.
///
/// # Errors
///
/// Returns an error when the resolved working directory is missing or is not a
/// directory.
pub fn validate_resolved(config: &ServiceConfig, observed: &DirectoryObservation) -> (result:
    Result<(), ConfigError>)
    ensures
        validate::validates(
            result,
            resolved_faults(model::optional_path(config.working_directory), *observed),
        ),
{
    let mut errors: Vec<String> = Vec::new();
    if let Some(directory) = &config.working_directory {
        match observed {
            DirectoryObservation::Directory => {},
            DirectoryObservation::NotDirectory => {
                let shown = decode_lossy(directory.bytes.as_slice());
                errors.push(
                    concat3("working_directory `", shown.as_str(), "` is not a directory"),
                );
            },
            DirectoryObservation::Unavailable(reason) => {
                let shown = decode_lossy(directory.bytes.as_slice());
                let mut message = concat3(
                    "working_directory `",
                    shown.as_str(),
                    "` is unavailable: ",
                );
                message.append(reason.as_str());
                errors.push(message);
            },
        }
    }
    assert(text::texts(errors@) =~= resolved_faults(
        model::optional_path(config.working_directory),
        *observed,
    ));
    collected(errors)
}

/// Validate one already-materialized, path-resolved service definition.
///
/// This applies exactly the policy and resolved-path checks the file parser runs,
/// in the same order, for callers which build a [`ServiceConfig`] themselves. Call
/// it after [`resolve_paths`], with what an inspection of the working directory
/// reported.
///
/// # Errors
///
/// Returns every policy violation, or else the violation of the working
/// directory.
pub fn validate_service(config: &ServiceConfig, observed: &DirectoryObservation) -> (result:
    Result<(), ConfigError>)
    ensures
        validate::validates(
            result,
            if validate::violations(*config).len() > 0 {
                validate::violations(*config)
            } else {
                resolved_faults(model::optional_path(config.working_directory), *observed)
            },
        ),
{
    match validate(config) {
        Ok(()) => validate_resolved(config, observed),
        Err(error) => Err(error),
    }
}

// ---------------------------------------------------------------------------
// Laws
// ---------------------------------------------------------------------------

/// Bare executable names stay available for `PATH` lookup.
pub proof fn bare_names_stay_bare(argv: Seq<Seq<char>>, base: Seq<u8>)
    requires
        argv.len() > 0,
        !argv[0].contains('/'),
    ensures
        resolved_argv(argv, base) == Some(argv),
{
}

/// Resolution only touches the executable of an argv.
pub proof fn arguments_are_never_resolved(argv: Seq<Seq<char>>, base: Seq<u8>, index: int)
    requires
        0 < index < argv.len(),
    ensures
        resolved_argv(argv, base) matches Some(resolved) ==> resolved.len() == argv.len()
            && resolved[index] == argv[index],
{
}

proof fn lemma_path_again(value: Option<Seq<u8>>, base: Seq<u8>)
    requires
        path::absolute(base),
    ensures
        resolved_path(resolved_path(value, base), base) == resolved_path(value, base),
{
    if let Some(value) = value {
        path::resolution_is_idempotent(base, value, base);
    }
}

proof fn lemma_file_again(file: Option<FileLogModel>, base: Seq<u8>)
    requires
        path::absolute(base),
    ensures
        resolved_optional_file(resolved_optional_file(file, base), base) == resolved_optional_file(
            file,
            base,
        ),
{
    if let Some(file) = file {
        path::resolution_is_idempotent(base, file.file, base);
    }
}

proof fn lemma_routes_again(files: Option<RoutesModel>, base: Seq<u8>)
    requires
        path::absolute(base),
    ensures
        resolved_routes(resolved_routes(files, base), base) == resolved_routes(files, base),
{
    match files {
        None => {},
        Some(RoutesModel::Combined(file)) => {
            lemma_file_again(Some(file), base);
        },
        Some(RoutesModel::Selected { stdout, stderr }) => {
            lemma_file_again(stdout, base);
            lemma_file_again(stderr, base);
        },
    }
}

proof fn lemma_argv_again(argv: Seq<Seq<char>>, base: Seq<u8>)
    requires
        path::absolute(base),
    ensures
        resolved_argv(argv, base) matches Some(resolved) ==> resolved_argv(resolved, base) == Some(
            resolved,
        ),
{
    if argv.len() > 0 && argv[0].contains('/') {
        let executable = path::resolved(base, encode_utf8(argv[0]));
        if valid_utf8(executable) {
            let resolved = argv.update(0, decode_utf8(executable));
            path::resolution_is_idempotent(base, encode_utf8(argv[0]), base);
            decode_utf8_encode_utf8(executable);
            assert(resolved.update(0, decode_utf8(executable)) =~= resolved);
        }
    }
}

proof fn lemma_optional_argv_again(argv: Option<Seq<Seq<char>>>, base: Seq<u8>)
    requires
        path::absolute(base),
    ensures
        resolved_optional_argv(argv, base) matches Some(resolved) ==> resolved_optional_argv(
            resolved,
            base,
        ) == Some(resolved),
{
    if let Some(argv) = argv {
        lemma_argv_again(argv, base);
    }
}

proof fn lemma_outputs_again(before: LocationModel, base: Seq<u8>)
    requires
        path::absolute(base),
    ensures
        output_resolution(output_resolution(before, base).0, base) == output_resolution(
            before,
            base,
        ),
{
    lemma_path_again(before.file_adapter, base);
    lemma_routes_again(before.files, base);
    lemma_optional_argv_again(before.logger, base);
    lemma_path_again(before.supervisor, base);
    lemma_path_again(before.main, base);
    assert(output_resolution(output_resolution(before, base).0, base).0 =~= output_resolution(
        before,
        base,
    ).0);
}

proof fn lemma_hooks_again(before: LocationModel, base: Seq<u8>)
    requires
        path::absolute(base),
    ensures
        hook_resolution(hook_resolution(before, base).0, base) == hook_resolution(before, base),
{
    lemma_optional_argv_again(before.start_condition, base);
    lemma_optional_argv_again(before.post_exit, base);
    lemma_optional_argv_again(before.stop, base);
    lemma_optional_argv_again(before.reload, base);
    let after = hook_resolution(before, base).0;
    if let Some(start_condition) = resolved_optional_argv(before.start_condition, base) {
        if let Some(post_exit) = resolved_optional_argv(before.post_exit, base) {
            if let Some(stop) = resolved_optional_argv(before.stop, base) {
                if let Some(reload) = resolved_optional_argv(before.reload, base) {
                    let hooked = LocationModel {
                        start_condition,
                        post_exit,
                        stop,
                        reload,
                        ..before
                    };
                    lemma_outputs_again(hooked, base);
                    assert(LocationModel { start_condition, post_exit, stop, reload, ..after }
                        =~= after);
                }
            }
        }
    }
}

/// Resolving locations again, against the same absolute base, gives the same
/// locations and the same verdict, also where an executable cannot be represented.
pub proof fn resolution_settles_at_once(before: LocationModel, base: Seq<u8>)
    requires
        path::absolute(base),
    ensures
        resolution(resolution(before, base).0, base) == resolution(before, base),
{
    let root = path::resolved(base, seq![46u8]);
    path::resolution_is_absolute_and_clean(base, seq![46u8]);
    lemma_path_again(before.working_directory, root);
    let placed = LocationModel {
        working_directory: resolved_path(before.working_directory, root),
        ..before
    };
    let home = match placed.working_directory {
        Some(directory) => directory,
        None => root,
    };
    if let Some(directory) = before.working_directory {
        path::resolution_is_absolute_and_clean(root, directory);
    }
    lemma_argv_again(before.command, home);
    let after = resolution(before, base).0;
    assert(after.working_directory == placed.working_directory);
    match resolved_argv(before.command, home) {
        None => {},
        Some(command) => {
            lemma_hooks_again(LocationModel { command, ..placed }, root);
            assert(after.command == command);
            assert(LocationModel {
                command,
                working_directory: placed.working_directory,
                ..after
            } =~= after);
        },
    }
}

/// A definition whose paths were resolved is not changed by resolving them again
/// against the same absolute base, and the second resolution reports the same.
pub proof fn resolving_again_changes_nothing(
    config: ServiceConfig,
    once: ServiceConfig,
    first: Result<(), ConfigError>,
    again: ServiceConfig,
    second: Result<(), ConfigError>,
    base: Seq<u8>,
)
    requires
        path::absolute(base),
        same_policy(config, once),
        resolves(resolution(locations(config), base), locations(once), first),
        same_policy(once, again),
        resolves(resolution(locations(once), base), locations(again), second),
    ensures
        same_policy(config, again),
        locations(again) == locations(once),
        match (first, second) {
            (Ok(()), Ok(())) => true,
            (Err(left), Err(right)) => left@ == right@,
            _ => false,
        },
{
    resolution_settles_at_once(locations(config), base);
}

} // verus!
