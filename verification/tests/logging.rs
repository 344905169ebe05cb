//! Rotation, retention, and shutdown order.

use immortal_core::config::FileLogConfig;
use immortal_core::fault::{Fault, FaultKind};
use immortal_core::logging::rotation::{
    already_gone, archive_catalog, archive_identity, archive_name, archive_name_is_available,
    archive_prefix, excess_archives, incoming_bytes, owned_archive, unix_nanoseconds,
    validate_destination, validate_rotation_policy,
};
use immortal_core::logging::{
    Archive, LoggingError, LoggingShutdown, LoggingShutdownEffect, LoggingShutdownPhase,
    RotationPolicy, RotationState,
};
use immortal_core::path::UnixPath;

fn reason(fault: Fault) -> String {
    fault.text
}

/// A destination held in memory, driven by the rotation rules.
struct Sink {
    state: RotationState,
    live: Vec<u8>,
    entries: Vec<(String, Vec<u8>)>,
    now: i128,
}

impl Sink {
    fn open(policy: RotationPolicy, entries: Vec<(String, Vec<u8>)>) -> Result<Self, String> {
        validate_rotation_policy(policy).map_err(reason)?;
        let state = RotationState::opened(policy, true, 0, Some(0), None, 0).map_err(reason)?;
        let mut sink = Sink {
            state,
            live: Vec::new(),
            entries,
            now: 0,
        };
        sink.enforce_retention();
        Ok(sink)
    }

    fn catalog(&self) -> Vec<Archive> {
        let found = self
            .entries
            .iter()
            .filter_map(|(name, bytes)| {
                owned_archive(
                    UnixPath::from_text(name),
                    name,
                    "api.log.@",
                    true,
                    bytes.len() as u64,
                )
            })
            .collect();
        archive_catalog(found)
    }

    fn enforce_retention(&mut self) {
        let catalog = self.catalog();
        let removed = excess_archives(&catalog, self.state.policy);
        for archive in &catalog[..removed] {
            self.entries
                .retain(|(name, _)| UnixPath::from_text(name) != *archive.path());
        }
    }

    fn write(&mut self, bytes: &[u8]) -> Result<(), String> {
        self.now += 1;
        let incoming = incoming_bytes(&[bytes]).map_err(reason)?;
        if self.state.is_due(incoming, self.now) {
            let timestamp = unix_nanoseconds(self.now).map_err(reason)?;
            let name = self
                .state
                .next_archive_name("api.log.@", timestamp, 7, 0)
                .map_err(reason)?;
            self.entries.push((name, std::mem::take(&mut self.live)));
            self.state.record_rotation(self.now);
            self.enforce_retention();
        }
        self.live.extend_from_slice(bytes);
        self.state.record_write(incoming);
        Ok(())
    }

    fn archived(&self) -> Vec<Vec<u8>> {
        self.catalog()
            .iter()
            .map(|archive| {
                self.entries
                    .iter()
                    .find(|(name, _)| UnixPath::from_text(name) == *archive.path())
                    .map(|(_, bytes)| bytes.clone())
                    .expect("archive is listed")
            })
            .collect()
    }
}

#[test]
fn rotation_syncs_and_enforces_archive_count() -> Result<(), String> {
    let mut sink = Sink::open(
        RotationPolicy {
            max_bytes: Some(5),
            keep: Some(2),
            ..RotationPolicy::default()
        },
        Vec::new(),
    )?;
    for bytes in [b"aaa".as_slice(), b"bbb", b"ccc", b"ddd"] {
        sink.write(bytes)?;
    }
    assert_eq!(sink.live, b"ddd");
    assert_eq!(sink.archived(), [b"bbb".to_vec(), b"ccc".to_vec()]);
    Ok(())
}

#[test]
fn rotation_enforces_total_archive_bytes() -> Result<(), String> {
    let mut sink = Sink::open(
        RotationPolicy {
            max_bytes: Some(3),
            keep: Some(10),
            max_total_bytes: Some(3),
            ..RotationPolicy::default()
        },
        Vec::new(),
    )?;
    sink.write(b"aaa")?;
    sink.write(b"bbb")?;
    sink.write(b"ccc")?;

    assert_eq!(sink.archived(), [b"bbb".to_vec()]);
    Ok(())
}

#[test]
fn archive_timestamp_rejects_pre_epoch_clock() -> Result<(), String> {
    let error = unix_nanoseconds(-1)
        .err()
        .ok_or("pre-epoch time was accepted")?;
    assert!(error.text.contains("before the Unix epoch"));
    assert_eq!(unix_nanoseconds(12).map_err(reason)?, 12);
    Ok(())
}

#[test]
fn archive_sequence_exhaustion_is_reported() -> Result<(), String> {
    let mut state = RotationState::opened(RotationPolicy::default(), true, 0, None, None, 0)
        .map_err(reason)?;
    state.archive_sequence = u64::MAX;

    let error = state
        .next_archive_name("api.log.@", 1, 2, 0)
        .err()
        .ok_or("exhausted archive sequence was accepted")?;
    assert!(error.text.contains("sequence is exhausted"));
    state.archive_sequence = 4;
    assert_eq!(
        state.next_archive_name("api.log.@", 1, 2, 0).map_err(reason)?,
        "api.log.@1.2.5"
    );
    assert!(state
        .next_archive_name("api.log.@", 1, 2, 1024)
        .is_err_and(|error| error.kind == FaultKind::AlreadyExists));
    Ok(())
}

#[test]
fn archive_allocation_treats_dangling_symlink_as_a_collision() -> Result<(), String> {
    assert!(!archive_name_is_available(Ok(())).map_err(reason)?);
    let missing = Fault::new(FaultKind::NotFound, "missing");
    assert!(archive_name_is_available(Err(missing)).map_err(reason)?);
    let denied = Fault::new(FaultKind::PermissionDenied, "denied");
    assert!(archive_name_is_available(Err(denied)).is_err());
    Ok(())
}

#[test]
fn archive_catalog_uses_exact_ownership_and_numeric_order() {
    let contents = |bytes: &[u8]| bytes.to_vec();
    let mut entries = vec![
        ("api.log.@10.9.2".to_owned(), contents(b"ccc")),
        ("api.log.@2.10.10".to_owned(), contents(b"bb")),
        ("api.log.@2.3.20".to_owned(), contents(b"a")),
    ];
    for unrelated in [
        "api.log.immortal-archive.1.2.3",
        "api.log.@3.4",
        "api.log.@3.4.5.extra",
        "api.log.@not-a-time.4.5",
        "api.log.@+3.4.5",
        "api.log.@3.+4.5",
        "api.log.@3.4.+5",
        "api.log.@340282366920938463463374607431768211456.4.5",
    ] {
        entries.push((unrelated.to_owned(), contents(b"unowned")));
    }
    let directory = owned_archive(
        UnixPath::from_text("api.log.@3.4.5"),
        "api.log.@3.4.5",
        "api.log.@",
        false,
        0,
    );
    assert!(directory.is_none());

    let found: Vec<Archive> = archive_catalog(
        entries
            .iter()
            .filter_map(|(name, bytes)| {
                owned_archive(
                    UnixPath::from_text(name),
                    name,
                    "api.log.@",
                    true,
                    bytes.len() as u64,
                )
            })
            .collect(),
    );
    let paths: Vec<UnixPath> = found.iter().map(|archive| archive.path().clone()).collect();
    assert_eq!(
        paths,
        [
            UnixPath::from_text("api.log.@2.3.20"),
            UnixPath::from_text("api.log.@2.10.10"),
            UnixPath::from_text("api.log.@10.9.2"),
        ]
    );
    assert_eq!(found.first().map(Archive::unix_nanoseconds), Some(2));
    assert_eq!(found.first().map(Archive::adapter_pid), Some(3));
    assert_eq!(found.first().map(Archive::sequence), Some(20));
    assert_eq!(found.first().map(Archive::byte_length), Some(1));
}

#[test]
fn reopen_recovers_rotation_state_without_removing_unowned_files() -> Result<(), String> {
    let entries: Vec<(String, Vec<u8>)> = [
        ("api.log.@100.7.1", b"old".as_slice()),
        ("api.log.@200.7.2", b"new"),
        ("api.log.immortal-archive.50.7.1", b"prototype"),
        ("api.log.@operator-copy", b"operator"),
    ]
    .into_iter()
    .map(|(name, bytes)| (name.to_owned(), bytes.to_vec()))
    .collect();
    let mut sink = Sink::open(
        RotationPolicy {
            keep: Some(1),
            ..RotationPolicy::default()
        },
        entries,
    )?;
    sink.write(b"live")?;

    let names: Vec<&str> = sink.entries.iter().map(|(name, _)| name.as_str()).collect();
    assert_eq!(
        names,
        [
            "api.log.@200.7.2",
            "api.log.immortal-archive.50.7.1",
            "api.log.@operator-copy"
        ]
    );
    assert_eq!(sink.live, b"live");
    Ok(())
}

#[test]
fn sink_rejects_invalid_limits_and_missing_parent() {
    let policy = RotationPolicy {
        max_bytes: Some(0),
        ..RotationPolicy::default()
    };
    assert!(validate_rotation_policy(policy).is_err());
    assert!(validate_destination(true, policy).is_err());
    assert!(validate_destination(false, RotationPolicy::default()).is_err());
    assert!(validate_destination(true, RotationPolicy::default()).is_ok());
    assert!(RotationState::opened(RotationPolicy::default(), false, 0, None, None, 0).is_err());
}

/// The age clock follows when the live file was created, not when it was last
/// touched.
#[test]
fn reopening_does_not_reset_the_age_clock() -> Result<(), String> {
    let policy = RotationPolicy {
        max_age_nanoseconds: Some(150_000_000),
        ..RotationPolicy::default()
    };
    let now = 400_000_000;
    let state =
        RotationState::opened(policy, true, 12, Some(0), Some(now - 1), now).map_err(reason)?;
    assert!(state.is_due(7, now));
    Ok(())
}

/// A fresh destination is not immediately due for age-based rotation.
#[test]
fn a_new_destination_is_not_immediately_aged_out() -> Result<(), String> {
    let policy = RotationPolicy {
        max_age_nanoseconds: Some(3_600_000_000_000),
        ..RotationPolicy::default()
    };
    let mut state = RotationState::opened(policy, true, 0, Some(5), None, 5).map_err(reason)?;
    assert!(!state.is_due(6, 5));
    state.record_write(6);
    assert!(!state.is_due(7, 6));
    assert!(state.is_due(7, 3_600_000_000_005));
    Ok(())
}

#[test]
fn concurrently_removed_archives_are_absorbed() {
    assert!(already_gone(FaultKind::NotFound));
    assert!(!already_gone(FaultKind::PermissionDenied));
}

#[test]
fn archive_names_read_back_exactly() -> Result<(), String> {
    let prefix = archive_prefix(Some("api.log")).map_err(reason)?;
    assert_eq!(prefix, "api.log.@");
    assert!(archive_prefix(None).is_err());
    let name = archive_name(&prefix, u128::MAX, u32::MAX, u64::MAX);
    assert_eq!(
        archive_identity(&name, &prefix),
        Some((u128::MAX, u32::MAX, u64::MAX))
    );
    assert_eq!(archive_identity("other.@1.2.3", &prefix), None);
    Ok(())
}

#[test]
fn policies_follow_their_configuration() -> Result<(), String> {
    let file = FileLogConfig {
        file: UnixPath::from_text("/var/log/api.log"),
        max_age_seconds: Some(2),
        keep: Some(3),
        max_bytes: Some(4),
        timestamp: false,
    };
    let policy = RotationPolicy::from_config(&file).map_err(LoggingError::message)?;
    assert_eq!(policy.max_age_nanoseconds, Some(2_000_000_000));
    assert_eq!(policy.keep, Some(3));
    assert_eq!(policy.max_bytes, Some(4));
    assert_eq!(policy.max_total_bytes, None);
    Ok(())
}

#[test]
fn shutdown_order_cannot_stop_loggers_before_service_and_drain() -> Result<(), String> {
    let mut shutdown = LoggingShutdown::default();
    assert!(shutdown.drain_finished().is_err());
    assert_eq!(
        shutdown.begin(true).map_err(LoggingError::message)?,
        LoggingShutdownEffect::StopService
    );
    assert!(shutdown.loggers_stopped().is_err());
    assert_eq!(
        shutdown.service_stopped().map_err(LoggingError::message)?,
        LoggingShutdownEffect::BeginDrain
    );
    assert_eq!(
        shutdown.drain_finished().map_err(LoggingError::message)?,
        LoggingShutdownEffect::StopLoggersDownstreamFirst
    );
    assert_eq!(
        shutdown.loggers_stopped().map_err(LoggingError::message)?,
        LoggingShutdownEffect::Complete
    );
    assert_eq!(shutdown.phase(), LoggingShutdownPhase::Complete);
    Ok(())
}
