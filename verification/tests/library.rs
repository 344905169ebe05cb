//! Exit classes, build information, accounts, PID files, paths, and environment
//! directories.

use immortal_core::build_info::revision::{
    is_pointer, push_existing, relative_path, single_line, symbolic_reference,
};
use immortal_core::build_info::{long_version, render_version, PACKAGE_VERSION};
use immortal_core::config::environment::{
    admit_environment_directory, confirm_environment_directory, confirm_opened_file,
    environment_entry_key, read_environment_value, EntrySnapshot, EnvironmentScan,
};
use immortal_core::config::{
    ConfigError, Environment, MAX_ENVIRONMENT_DIRECTORY_BYTES, MAX_ENVIRONMENT_DIRECTORY_ENTRIES,
    MAX_ENVIRONMENT_VALUE_BYTES,
};
use immortal_core::exit::ExitClass;
use immortal_core::fault::{Fault, FaultKind};
use immortal_core::path::{file_name, is_same_location, join, normalize_absolute, parent, UnixPath};
use immortal_core::pid_file::{plan_publication, OwnedPidFile, PublishedEntry};
use immortal_core::platform::account::{
    parse_group_ids, supplementary_groups, MAX_GROUPS, MAX_GROUP_OUTPUT_BYTES,
};
use std::collections::BTreeSet;

fn reason(fault: Fault) -> String {
    fault.text
}

fn path(text: &str) -> UnixPath {
    UnixPath::from_text(text)
}

#[test]
fn values_are_stable_and_unique() {
    let classes = [
        ExitClass::Success,
        ExitClass::Usage,
        ExitClass::Data,
        ExitClass::NotFound,
        ExitClass::Unavailable,
        ExitClass::Software,
        ExitClass::OsError,
        ExitClass::CantCreate,
        ExitClass::IoError,
        ExitClass::TemporaryFailure,
        ExitClass::Permission,
        ExitClass::Configuration,
        ExitClass::PartialFailure,
    ];
    let values: BTreeSet<u8> = classes.into_iter().map(ExitClass::value).collect();
    assert_eq!(values.len(), classes.len());
    assert_eq!(ExitClass::Success.value(), 0);
    assert_eq!(ExitClass::Configuration.value(), 78);
    assert_eq!(ExitClass::PartialFailure.value(), 79);
}

#[test]
fn long_version_contains_package_version_and_revision() {
    for revision in [None, Some("8d3b1f0c")] {
        let version = long_version(revision);
        assert!(version.starts_with(PACKAGE_VERSION));
        assert!(version.contains(" - "));
        assert!(version.ends_with(revision.unwrap_or("unknown")));
    }
    assert_eq!(render_version("1.2.3", Some("abc")), "1.2.3 - abc");
    assert_eq!(render_version("1.2.3", None), "1.2.3 - unknown");
}

// ---------------------------------------------------------------------------
// Git metadata
// ---------------------------------------------------------------------------

#[test]
fn pointer_files_hold_one_line() {
    assert_eq!(single_line(""), None);
    assert_eq!(single_line("\n").as_deref(), Some(""));
    assert_eq!(single_line("a").as_deref(), Some("a"));
    assert_eq!(single_line("a\r\n").as_deref(), Some("a"));
    assert_eq!(single_line("a\r").as_deref(), Some("a\r"));
    assert_eq!(single_line("a\nb"), None);
    assert_eq!(single_line("a\n\n"), None);
    assert!(is_pointer(true, 4_096));
    assert!(!is_pointer(true, 4_097));
    assert!(!is_pointer(false, 1));
}

#[test]
fn symbolic_references_stay_below_refs() {
    assert_eq!(
        symbolic_reference("ref: refs/heads/main \u{2003}"),
        Some(path("refs/heads/main"))
    );
    assert_eq!(symbolic_reference("0123456789abcdef"), None);
    assert_eq!(symbolic_reference("ref: heads/main"), None);
    assert_eq!(symbolic_reference("ref: refs/../HEAD"), None);
}

#[test]
fn pointers_resolve_beside_their_marker() {
    let marker = path("/work/tree/.git");
    assert_eq!(
        relative_path(&marker, "gitdir:", "gitdir: ../repo/.git"),
        Some(path("/work/tree/../repo/.git"))
    );
    assert_eq!(
        relative_path(&marker, "gitdir:", "gitdir: /repo/.git"),
        Some(path("/repo/.git"))
    );
    assert_eq!(relative_path(&marker, "gitdir:", "gitdir:  "), None);
    assert_eq!(relative_path(&marker, "gitdir:", "other: x"), None);
    let mut watched = Vec::new();
    push_existing(&mut watched, path("/a"), true);
    push_existing(&mut watched, path("/b"), false);
    push_existing(&mut watched, path("/a"), true);
    assert_eq!(watched, [path("/a")]);
    push_existing(&mut watched, path("/a//b"), true);
    push_existing(&mut watched, path("/a/./b/"), true);
    push_existing(&mut watched, path("a/b"), true);
    push_existing(&mut watched, path("./a/b"), true);
    assert_eq!(
        watched,
        [path("/a"), path("/a//b"), path("a/b"), path("./a/b")]
    );
}

#[test]
fn locations_compare_like_standard_paths() {
    let spellings = [
        "", ".", "./", "..", "/", "//", "/.", "a", "./a", ".//a/", "a/.", "a//b", "a/b", "/a/b",
        "/a//b/", "./a/b", "../a", ".a", "/./a",
    ];
    for left in spellings {
        let standard = std::path::Path::new(left);
        let directory = parent(&path(left)).map(|found| {
            std::path::PathBuf::from(String::from_utf8(found.bytes).expect("UTF-8 path"))
        });
        assert_eq!(directory.as_deref(), standard.parent(), "{left:?}");
        for right in spellings {
            assert_eq!(
                is_same_location(&path(left), &path(right)),
                standard == std::path::Path::new(right),
                "{left:?} {right:?}"
            );
        }
    }
}

#[test]
fn every_white_space_character_is_trimmed() {
    for number in 0..=0x1_ffff_u32 {
        if let Some(character) = char::from_u32(number) {
            assert_eq!(
                symbolic_reference(&format!("ref:{character}refs/x")),
                character.is_whitespace().then_some(path("refs/x")),
                "U+{number:04X}"
            );
        }
    }
}

// ---------------------------------------------------------------------------
// Accounts
// ---------------------------------------------------------------------------

#[test]
fn macos_group_output_deduplicates_and_includes_primary() -> Result<(), String> {
    let groups = parse_group_ids(b"20 10 20\n", 30).map_err(reason)?;
    assert_eq!(groups, [10, 20, 30]);
    Ok(())
}

#[test]
fn macos_group_output_rejects_malformed_and_unbounded_data() {
    for input in [b"".as_slice(), b" \n", b"10 invalid", b"\xff"] {
        assert!(parse_group_ids(input, 10)
            .is_err_and(|error| error.kind == FaultKind::InvalidData));
    }
    let oversized = vec![b'1'; MAX_GROUP_OUTPUT_BYTES + 1];
    assert!(parse_group_ids(&oversized, 10)
        .is_err_and(|error| error.kind == FaultKind::InvalidData));
}

#[test]
fn group_numbers_are_read_like_unsigned_integers() {
    assert_eq!(parse_group_ids(b"+7\t007", 1).ok(), Some(vec![1, 7]));
    for (input, text) in [
        (
            b"4294967296".as_slice(),
            "macOS account group output contains an out-of-range group",
        ),
        (
            b"18446744073709551616",
            "macOS account group output contains a nonnumeric group",
        ),
        (
            b"-1",
            "macOS account group output contains a nonnumeric group",
        ),
    ] {
        assert_eq!(
            parse_group_ids(input, 1).map_err(reason),
            Err(text.to_owned())
        );
    }
}

#[test]
fn account_groups_are_bounded_and_distinct() {
    assert_eq!(
        supplementary_groups(&[5, 3, 5, 9, 3]).ok(),
        Some(vec![5, 3, 9])
    );
    let crowd = vec![1; MAX_GROUPS + 1];
    assert!(supplementary_groups(&crowd).is_err());
}

// ---------------------------------------------------------------------------
// PID files
// ---------------------------------------------------------------------------

#[test]
fn publications_write_beside_their_destination() -> Result<(), String> {
    let publication =
        plan_publication(&path("/run/api/service.pid"), 42, 900, 3).map_err(reason)?;
    assert_eq!(publication.directory, path("/run/api"));
    assert_eq!(
        publication.temporary,
        path("/run/api/.service.pid.immortal-900-3.tmp")
    );
    assert_eq!(publication.contents, "42\n");
    let next = plan_publication(&path("/run/api/service.pid"), 42, 900, 4).map_err(reason)?;
    assert_ne!(next.temporary, publication.temporary);
    assert_eq!(
        plan_publication(&path("/"), 42, 900, 3).map_err(reason),
        Err("PID file has no parent directory".to_owned())
    );
    let nearby = plan_publication(&path("./service.pid"), 42, 900, 3).map_err(reason)?;
    assert_eq!(nearby.directory, path("."));
    assert_eq!(
        nearby.temporary,
        path("./.service.pid.immortal-900-3.tmp")
    );
    assert_eq!(
        plan_publication(&path("."), 42, 900, 3).map_err(reason),
        Err("PID file has no filename".to_owned())
    );
    assert_eq!(
        plan_publication(&path("/run/.."), 42, 900, 3).map_err(reason),
        Err("PID file has no filename".to_owned())
    );
    Ok(())
}

#[test]
fn replaced_pid_files_are_never_removed() {
    let owner = OwnedPidFile {
        path: path("/run/service.pid"),
        device: 1,
        inode: 2,
    };
    let entry = PublishedEntry {
        is_symlink: false,
        is_file: true,
        device: 1,
        inode: 2,
    };
    assert!(owner.still_owned(Some(entry)));
    assert!(!owner.still_owned(None));
    assert!(!owner.still_owned(Some(PublishedEntry { inode: 3, ..entry })));
    assert!(!owner.still_owned(Some(PublishedEntry { device: 3, ..entry })));
    assert!(!owner.still_owned(Some(PublishedEntry { is_symlink: true, ..entry })));
}

// ---------------------------------------------------------------------------
// Paths
// ---------------------------------------------------------------------------

#[test]
fn paths_resolve_lexically() {
    assert_eq!(
        normalize_absolute(&path("/srv/app"), &path("../etc/./api.conf")),
        path("/srv/etc/api.conf")
    );
    assert_eq!(
        normalize_absolute(&path("/srv"), &path("/../../etc")),
        path("/etc")
    );
    assert_eq!(file_name(&path("/a/b/")), Some(b"b".to_vec()));
    assert_eq!(parent(&path("/a/b/")), Some(path("/a")));
    assert_eq!(parent(&path("/")), None);
    assert_eq!(join(&path("/a/"), &path("b")), path("/a/b"));
    assert_eq!(join(&path("/a"), &path("/b")), path("/b"));
    let once = normalize_absolute(&path("/srv"), &path("a//b/../c"));
    assert_eq!(normalize_absolute(&path("/other"), &once), once);
}

// ---------------------------------------------------------------------------
// Environment directories
// ---------------------------------------------------------------------------

fn file(length: u64) -> EntrySnapshot {
    EntrySnapshot {
        device: 1,
        inode: 2,
        length,
        modified: Some(3),
        is_directory: false,
        is_file: true,
        is_symlink: false,
    }
}

fn directory() -> EntrySnapshot {
    EntrySnapshot {
        is_directory: true,
        is_file: false,
        ..file(0)
    }
}

/// Value of a file, of which everything up to the first line feed is read.
fn value(bytes: &[u8]) -> Result<Option<String>, String> {
    let snapshot = file(bytes.len() as u64);
    let end = bytes
        .iter()
        .position(|byte| *byte == b'\n')
        .map_or(bytes.len(), |position| position + 1);
    let read = bytes[..end].to_vec();
    read_environment_value(&path("/env/KEY"), snapshot, snapshot, snapshot, read)
        .map_err(|error| error.message())
}

#[test]
fn environment_files_set_their_first_line() -> Result<(), String> {
    assert_eq!(value(b"true\nignored\n")?.as_deref(), Some("true"));
    assert_eq!(
        value(b"production\r\nignored\n")?.as_deref(),
        Some("production")
    );
    assert_eq!(value(b"\nignored\n")?.as_deref(), Some(""));
    assert_eq!(value(b"")?, None);
    assert!(value(&[0xff, b'\n']).is_err());
    assert!(value(&vec![b'x'; MAX_ENVIRONMENT_VALUE_BYTES + 1]).is_err());
    Ok(())
}

#[test]
fn environment_entries_are_checked_before_they_are_read() -> Result<(), String> {
    let location = path("/env/KEY");
    let key = |name: &[u8], snapshot| {
        environment_entry_key(&location, snapshot, name).map_err(|error| error.message())
    };
    assert_eq!(key(b"DEBUG", file(4))?.as_deref(), Some("DEBUG"));
    assert_eq!(key(b"nested", directory())?, None);
    assert_eq!(
        key(b"LINK", EntrySnapshot { is_symlink: true, ..file(4) })?,
        None
    );
    assert_eq!(
        key(b"BAD=\tKEY", file(4)),
        Err(
            "unable to load environment input `/env/KEY`: environment filename \"BAD=\\tKEY\" is not a valid key"
                .to_owned()
        )
    );
    assert!(key(b"\xff", file(4)).is_err());
    Ok(())
}

#[test]
fn undecodable_paths_are_shown_with_replacements() {
    let location = UnixPath {
        bytes: vec![b'/', 0xff],
    };
    let error = admit_environment_directory(&location, file(0)).expect_err("a file is refused");
    assert_eq!(
        error.message(),
        "unable to load environment input `/\u{fffd}`: environment path must be a real directory, not a symlink"
    );
}

#[test]
fn environment_directories_are_pinned_while_they_are_read() {
    let location = path("/env");
    assert!(admit_environment_directory(&location, directory()).is_ok());
    assert!(admit_environment_directory(&location, file(0)).is_err());
    assert!(admit_environment_directory(
        &location,
        EntrySnapshot { is_symlink: true, ..directory() }
    )
    .is_err());
    let moved = EntrySnapshot { inode: 9, ..directory() };
    assert!(confirm_environment_directory(&location, directory(), directory()).is_ok());
    assert!(confirm_environment_directory(&location, directory(), moved).is_err());
    assert!(confirm_opened_file(&location, file(4), file(4)).is_ok());
    assert!(confirm_opened_file(&location, file(4), file(5)).is_err());
}

#[test]
fn environment_scans_enforce_entry_and_aggregate_bounds() -> Result<(), String> {
    let mut scan = EnvironmentScan::new(path("/env"));
    for _ in 0..MAX_ENVIRONMENT_DIRECTORY_ENTRIES {
        scan.count_entry().map_err(|error| error.message())?;
    }
    assert!(scan.count_entry().is_err());

    let mut scan = EnvironmentScan::new(path("/env"));
    let value = "x".repeat(MAX_ENVIRONMENT_VALUE_BYTES);
    let fitting = MAX_ENVIRONMENT_DIRECTORY_BYTES / MAX_ENVIRONMENT_VALUE_BYTES;
    let mut refused = None;
    for index in 0..=fitting {
        let key = format!("VALUE_{index}");
        if let Err(error) = scan.add_override(&path("/env/V"), key, value.clone()) {
            refused = Some(error);
        }
    }
    assert!(matches!(refused, Some(ConfigError::EnvironmentInput { .. })));
    assert!(scan
        .add_override(&path("/env/V"), "SMALL".to_owned(), "1".to_owned())
        .is_ok());

    let mut scan = EnvironmentScan::new(path("/env"));
    scan.add_override(&path("/env/B"), "B".to_owned(), "2".to_owned())
        .map_err(|error| error.message())?;
    scan.add_override(&path("/env/A"), "A".to_owned(), "1".to_owned())
        .map_err(|error| error.message())?;
    let found = scan
        .finish(directory(), directory())
        .map_err(|error| error.message())?;
    let mut expected = Environment::new();
    expected.insert("A".to_owned(), "1".to_owned());
    expected.insert("B".to_owned(), "2".to_owned());
    assert_eq!(found, expected);
    assert_eq!(found.get("B").map(String::as_str), Some("2"));
    assert_eq!(found.get("C"), None);
    Ok(())
}
