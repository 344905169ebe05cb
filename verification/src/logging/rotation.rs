//! Rotation policy, archive names, and archive retention.
//!
//! Rotation is decided by size and age before a write. Archives carry their
//! rotation time, adapter process, and sequence in their names, so that retention
//! removes only siblings inside the exact archive namespace, oldest first.

use vstd::multiset::*;
use vstd::prelude::*;
use vstd::seq_lib::*;
use vstd::string::*;

use crate::config::FileLogConfig;
use crate::fault::{Fault, FaultKind};
use crate::fault;
use crate::fields;
use crate::fields::{push_wide_decimal, read_numeral, split_text};
use crate::path::UnixPath;
use crate::text;
use crate::text::{characters, push_decimal};

use super::LoggingError;

verus! {

/// How many archive names are tried for one rotation.
pub const ARCHIVE_NAME_ATTEMPTS: u32 = 1024;

/// Nanoseconds in one second.
pub const NANOS_PER_SECOND: u128 = 1_000_000_000;

// ---------------------------------------------------------------------------
// Policy
// ---------------------------------------------------------------------------

/// Rotation and retention policy used by the external file adapter.
#[derive(Clone, Copy, Debug, PartialEq, Eq, Structural)]
pub struct RotationPolicy {
    /// Rotate before a write would exceed this many bytes.
    pub max_bytes: Option<u64>,
    /// Rotate a nonempty file after this elapsed age.
    pub max_age_nanoseconds: Option<u128>,
    /// Maximum number of Immortal-owned archives.
    pub keep: Option<usize>,
    /// Maximum combined bytes across Immortal-owned archives.
    pub max_total_bytes: Option<u64>,
}

impl Default for RotationPolicy {
    fn default() -> (policy: Self)
        ensures
            policy == (RotationPolicy {
                max_bytes: None,
                max_age_nanoseconds: None,
                keep: None,
                max_total_bytes: None,
            }),
    {
        RotationPolicy {
            max_bytes: None,
            max_age_nanoseconds: None,
            keep: None,
            max_total_bytes: None,
        }
    }
}

/// Limits which a destination configures.
pub open spec fn configured_policy(
    max_bytes: Option<u64>,
    max_age_seconds: Option<u64>,
    keep: Option<u32>,
) -> RotationPolicy {
    RotationPolicy {
        max_bytes,
        max_age_nanoseconds: match max_age_seconds {
            Some(seconds) => Some((seconds * NANOS_PER_SECOND) as u128),
            None => None,
        },
        keep: match keep {
            Some(count) => Some(count as usize),
            None => None,
        },
        max_total_bytes: None,
    }
}

/// Whether some configured limit is zero.
pub open spec fn degenerate(policy: RotationPolicy) -> bool {
    ||| policy.max_bytes == Some(0u64)
    ||| policy.max_age_nanoseconds == Some(0u128)
    ||| policy.keep == Some(0usize)
    ||| policy.max_total_bytes == Some(0u64)
}

impl RotationPolicy {
    /// Convert validated service configuration into adapter limits.
    ///
    /// # Errors
    ///
    /// Returns an error if the archive count cannot fit the target platform's
    /// address space, which every supported platform's can.
    pub fn from_config(config: &FileLogConfig) -> (policy: Result<Self, LoggingError>)
        ensures
            policy == Ok::<RotationPolicy, LoggingError>(
                configured_policy(config.max_bytes, config.max_age_seconds, config.keep),
            ),
    {
        Ok(
            RotationPolicy {
                max_bytes: config.max_bytes,
                max_age_nanoseconds: match config.max_age_seconds {
                    Some(seconds) => Some((seconds as u128) * NANOS_PER_SECOND),
                    None => None,
                },
                keep: match config.keep {
                    Some(count) => Some(count as usize),
                    None => None,
                },
                max_total_bytes: None,
            },
        )
    }
}

/// What a checked rule reported.
pub open spec fn ruled(result: Result<(), Fault>, expected: Option<fault::FaultModel>) -> bool {
    match result {
        Ok(()) => expected is None,
        Err(error) => expected == Some(error@),
    }
}

/// Refuse a policy with a limit of zero.
///
/// # Errors
///
/// Fails exactly when some configured limit is zero.
pub fn validate_rotation_policy(policy: RotationPolicy) -> (result: Result<(), Fault>)
    ensures
        ruled(
            result,
            if degenerate(policy) {
                Some(
                    fault::raised(
                        FaultKind::InvalidInput,
                        "configured rotation limits must be greater than zero"@,
                    ),
                )
            } else {
                None
            },
        ),
{
    let zero = match policy.max_bytes {
        Some(limit) => limit == 0,
        None => false,
    } || match policy.max_age_nanoseconds {
        Some(limit) => limit == 0,
        None => false,
    } || match policy.keep {
        Some(limit) => limit == 0,
        None => false,
    } || match policy.max_total_bytes {
        Some(limit) => limit == 0,
        None => false,
    };
    if zero {
        return Err(
            Fault::new(
                FaultKind::InvalidInput,
                "configured rotation limits must be greater than zero",
            ),
        );
    }
    Ok(())
}

/// Refuse a destination before it is opened: it needs a filename and usable
/// limits.
///
/// # Errors
///
/// Fails without a filename, and then for a limit of zero.
pub fn validate_destination(has_filename: bool, policy: RotationPolicy) -> (result: Result<
    (),
    Fault,
>)
    ensures
        ruled(
            result,
            if !has_filename {
                Some(
                    fault::raised(
                        FaultKind::InvalidInput,
                        "log destination must have a filename"@,
                    ),
                )
            } else if degenerate(policy) {
                Some(
                    fault::raised(
                        FaultKind::InvalidInput,
                        "configured rotation limits must be greater than zero"@,
                    ),
                )
            } else {
                None
            },
        ),
{
    if !has_filename {
        return Err(
            Fault::new(FaultKind::InvalidInput, "log destination must have a filename"),
        );
    }
    validate_rotation_policy(policy)
}

// ---------------------------------------------------------------------------
// Rotation
// ---------------------------------------------------------------------------

/// Rotation bookkeeping of one open destination. Times are nanoseconds since the
/// Unix epoch and may lie before it.
#[derive(Clone, Copy, Debug, PartialEq, Eq, Structural)]
pub struct RotationState {
    /// Configured limits.
    pub policy: RotationPolicy,
    /// Length of the live file.
    pub bytes_written: u64,
    /// When the live file was created.
    pub opened_at: i128,
    /// Last archive sequence which was given out.
    pub archive_sequence: u64,
}

/// Whether the live file has to be rotated before `incoming` more bytes. An empty
/// file never is.
pub open spec fn rotation_due(state: RotationState, incoming: u64, now: i128) -> bool {
    &&& state.bytes_written > 0
    &&& {
        ||| state.policy.max_bytes matches Some(limit) && state.bytes_written + incoming > limit
            && limit < u64::MAX
        ||| state.policy.max_age_nanoseconds matches Some(limit) && now - state.opened_at >= limit
            && now >= state.opened_at
    }
}

impl RotationState {
    /// Bookkeeping of a destination which was just opened. Its age counts from
    /// creation, so that reopening does not restart the clock.
    ///
    /// # Errors
    ///
    /// Fails when the destination is not a regular file.
    pub fn opened(
        policy: RotationPolicy,
        regular: bool,
        length: u64,
        created: Option<i128>,
        modified: Option<i128>,
        now: i128,
    ) -> (state: Result<Self, Fault>)
        ensures
            match state {
                Ok(state) => regular && state == (RotationState {
                    policy,
                    bytes_written: length,
                    opened_at: match created {
                        Some(created) => created,
                        None => match modified {
                            Some(modified) => modified,
                            None => now,
                        },
                    },
                    archive_sequence: 0,
                }),
                Err(error) => !regular && error@ == fault::raised(
                    FaultKind::InvalidInput,
                    "log destination is not a regular file"@,
                ),
            },
    {
        if !regular {
            return Err(
                Fault::new(FaultKind::InvalidInput, "log destination is not a regular file"),
            );
        }
        let opened_at: i128 = match created {
            Some(created) => created,
            None => match modified {
                Some(modified) => modified,
                None => now,
            },
        };
        Ok(RotationState { policy, bytes_written: length, opened_at, archive_sequence: 0 })
    }

    /// Whether the live file has to be rotated before `incoming` more bytes.
    #[must_use]
    pub fn is_due(&self, incoming: u64, now: i128) -> (due: bool)
        ensures
            due == rotation_due(*self, incoming, now),
    {
        if self.bytes_written == 0 {
            return false;
        }
        let size_due = match self.policy.max_bytes {
            Some(limit) => self.bytes_written.saturating_add(incoming) > limit,
            None => false,
        };
        let age_due = match self.policy.max_age_nanoseconds {
            Some(limit) => now >= self.opened_at && elapsed(self.opened_at, now) >= limit,
            None => false,
        };
        size_due || age_due
    }

    /// Record a completed rotation.
    pub fn record_rotation(&mut self, now: i128)
        ensures
            *final(self) == (RotationState { bytes_written: 0, opened_at: now, ..*old(self) }),
    {
        self.bytes_written = 0;
        self.opened_at = now;
    }

    /// Record a completed write.
    pub fn record_write(&mut self, incoming: u64)
        ensures
            *final(self) == (RotationState {
                bytes_written: if old(self).bytes_written + incoming > u64::MAX {
                    u64::MAX
                } else {
                    (old(self).bytes_written + incoming) as u64
                },
                ..*old(self)
            }),
    {
        self.bytes_written = self.bytes_written.saturating_add(incoming);
    }

    /// Next archive name to try. `attempt` counts the names which were taken
    /// already.
    ///
    /// # Errors
    ///
    /// Fails after too many taken names, and when no sequence is left.
    pub fn next_archive_name(
        &mut self,
        prefix: &str,
        timestamp: u128,
        adapter_pid: u32,
        attempt: u32,
    ) -> (name: Result<String, Fault>)
        ensures
            match name {
                Ok(name) => {
                    &&& attempt < ARCHIVE_NAME_ATTEMPTS
                    &&& old(self).archive_sequence < u64::MAX
                    &&& *final(self) == (RotationState {
                        archive_sequence: (old(self).archive_sequence + 1) as u64,
                        ..*old(self)
                    })
                    &&& name@ == archive_spelling(
                        prefix@,
                        timestamp,
                        adapter_pid,
                        final(self).archive_sequence,
                    )
                },
                Err(error) => {
                    &&& *final(self) == *old(self)
                    &&& error@ == (if attempt >= ARCHIVE_NAME_ATTEMPTS {
                        fault::raised(
                            FaultKind::AlreadyExists,
                            "unable to allocate unique log archive name"@,
                        )
                    } else {
                        fault::raised(
                            FaultKind::Other,
                            "log archive sequence is exhausted"@,
                        )
                    })
                    &&& attempt >= ARCHIVE_NAME_ATTEMPTS || old(self).archive_sequence == u64::MAX
                },
            },
    {
        if attempt >= ARCHIVE_NAME_ATTEMPTS {
            return Err(
                Fault::new(
                    FaultKind::AlreadyExists,
                    "unable to allocate unique log archive name",
                ),
            );
        }
        if self.archive_sequence == u64::MAX {
            return Err(Fault::new(FaultKind::Other, "log archive sequence is exhausted"));
        }
        self.archive_sequence = self.archive_sequence + 1;
        Ok(archive_name(prefix, timestamp, adapter_pid, self.archive_sequence))
    }
}

fn elapsed(earlier: i128, later: i128) -> (span: u128)
    requires
        earlier <= later,
    ensures
        span == later - earlier,
{
    if earlier >= 0 || later < 0 {
        assert(0 <= later - earlier <= i128::MAX);
        return (later - earlier) as u128;
    }
    let after: u128 = later as u128;
    let before: u128 = if earlier == i128::MIN {
        170_141_183_460_469_231_731_687_303_715_884_105_728
    } else {
        (0 - earlier) as u128
    };
    after + before
}

/// Bytes of several parts together.
pub open spec fn total_length(parts: Seq<Seq<u8>>) -> nat
    decreases parts.len(),
{
    if parts.len() == 0 {
        0
    } else {
        total_length(parts.drop_last()) + parts.last().len()
    }
}

/// Views of parts in order.
pub open spec fn part_views(parts: Seq<&[u8]>) -> Seq<Seq<u8>> {
    parts.map_values(|part: &[u8]| part@)
}

proof fn lemma_total_grows(parts: Seq<Seq<u8>>, count: int)
    requires
        0 <= count <= parts.len(),
    ensures
        total_length(parts.take(count)) <= total_length(parts),
    decreases parts.len() - count,
{
    if count < parts.len() {
        lemma_total_grows(parts, count + 1);
        assert(parts.take(count + 1).drop_last() =~= parts.take(count));
    } else {
        assert(parts.take(count) =~= parts);
    }
}

/// Bytes which one rotation unit brings.
///
/// # Errors
///
/// Fails when the parts together are longer than any file.
pub fn incoming_bytes(parts: &[&[u8]]) -> (incoming: Result<u64, Fault>)
    ensures
        match incoming {
            Ok(incoming) => incoming == total_length(part_views(parts@)),
            Err(error) => total_length(part_views(parts@)) > u64::MAX && error@ == fault::raised(
                FaultKind::InvalidInput,
                "log write is too large"@,
            ),
        },
{
    let mut total: u64 = 0;
    let mut index: usize = 0;
    let ghost views = part_views(parts@);
    assert(views.take(0) =~= Seq::empty());
    while index < parts.len()
        invariant
            index <= parts@.len(),
            views == part_views(parts@),
            total == total_length(views.take(index as int)),
        decreases parts@.len() - index,
    {
        let part: &[u8] = parts[index];
        proof {
            assert(views.take(index + 1).drop_last() =~= views.take(index as int));
            assert(views.take(index + 1).last() == part@);
            lemma_total_grows(views, index + 1);
        }
        let length: u64 = part.len() as u64;
        match total.checked_add(length) {
            Some(sum) => {
                total = sum;
            },
            None => return Err(Fault::new(FaultKind::InvalidInput, "log write is too large")),
        }
        index = index + 1;
    }
    assert(views.take(index as int) =~= views);
    Ok(total)
}

// ---------------------------------------------------------------------------
// Archive names
// ---------------------------------------------------------------------------

/// Wall-clock time as an archive carries it.
///
/// # Errors
///
/// Fails for a clock before the Unix epoch.
pub fn unix_nanoseconds(time: i128) -> (nanoseconds: Result<u128, Fault>)
    ensures
        match nanoseconds {
            Ok(nanoseconds) => nanoseconds == time,
            Err(error) => time < 0 && error@ == fault::raised(
                FaultKind::Other,
                "system clock is before the Unix epoch"@,
            ),
        },
{
    if time < 0 {
        Err(Fault::new(FaultKind::Other, "system clock is before the Unix epoch"))
    } else {
        Ok(time as u128)
    }
}

/// Start of every archive name of a live file.
///
/// # Errors
///
/// Fails when the live filename is absent or not UTF-8.
pub fn archive_prefix(filename: Option<&str>) -> (prefix: Result<String, Fault>)
    ensures
        match (filename, prefix) {
            (Some(filename), Ok(prefix)) => prefix@ == filename@ + ".@"@,
            (None, Err(error)) => error@ == fault::raised(
                FaultKind::InvalidInput,
                "log filename is not UTF-8"@,
            ),
            _ => false,
        },
{
    match filename {
        Some(filename) => {
            let mut prefix = filename.to_owned();
            prefix.append(".@");
            Ok(prefix)
        },
        None => Err(Fault::new(FaultKind::InvalidInput, "log filename is not UTF-8")),
    }
}

/// Archive name: prefix, rotation time, adapter process, and sequence.
pub open spec fn archive_spelling(
    prefix: Seq<char>,
    timestamp: u128,
    adapter_pid: u32,
    sequence: u64,
) -> Seq<char> {
    prefix + text::decimal(timestamp as nat) + "."@ + text::decimal(adapter_pid as nat) + "."@
        + text::decimal(sequence as nat)
}

/// Render an archive name.
#[must_use]
pub fn archive_name(prefix: &str, timestamp: u128, adapter_pid: u32, sequence: u64) -> (name:
    String)
    ensures
        name@ == archive_spelling(prefix@, timestamp, adapter_pid, sequence),
{
    let mut name = prefix.to_owned();
    push_wide_decimal(&mut name, timestamp);
    name.append(".");
    push_decimal(&mut name, adapter_pid as u64);
    name.append(".");
    push_decimal(&mut name, sequence);
    name
}

/// Identity which a filename carries, when it lies inside the archive namespace.
pub open spec fn identity(name: Seq<char>, prefix: Seq<char>) -> Option<(u128, u32, u64)> {
    if name.len() < prefix.len() || name.take(prefix.len() as int) != prefix {
        None
    } else {
        let parts = fields::split(name.skip(prefix.len() as int), '.');
        if parts.len() != 3 {
            None
        } else {
            match (
                fields::bounded_value(parts[0], u128::MAX as nat),
                fields::bounded_value(parts[1], u32::MAX as nat),
                fields::bounded_value(parts[2], u64::MAX as nat),
            ) {
                (Some(timestamp), Some(adapter_pid), Some(sequence)) => Some(
                    (timestamp as u128, adapter_pid as u32, sequence as u64),
                ),
                _ => None,
            }
        }
    }
}

fn strip_prefix(name: &Vec<char>, prefix: &Vec<char>) -> (rest: Option<Vec<char>>)
    ensures
        match rest {
            Some(rest) => {
                &&& name@.len() >= prefix@.len()
                &&& name@.take(prefix@.len() as int) == prefix@
                &&& rest@ == name@.skip(prefix@.len() as int)
            },
            None => name@.len() < prefix@.len() || name@.take(prefix@.len() as int) != prefix@,
        },
{
    if name.len() < prefix.len() {
        return None;
    }
    let mut index: usize = 0;
    while index < prefix.len()
        invariant
            index <= prefix@.len(),
            prefix@.len() <= name@.len(),
            forall|i: int| 0 <= i < index ==> name@[i] == prefix@[i],
        decreases prefix@.len() - index,
    {
        if name[index] != prefix[index] {
            assert(name@.take(prefix@.len() as int)[index as int] != prefix@[index as int]);
            return None;
        }
        index = index + 1;
    }
    assert(name@.take(prefix@.len() as int) =~= prefix@);
    let mut rest: Vec<char> = Vec::new();
    while index < name.len()
        invariant
            prefix@.len() <= index <= name@.len(),
            rest@ == name@.subrange(prefix@.len() as int, index as int),
        decreases name@.len() - index,
    {
        rest.push(name[index]);
        index = index + 1;
        assert(rest@ =~= name@.subrange(prefix@.len() as int, index as int));
    }
    assert(rest@ =~= name@.skip(prefix@.len() as int));
    Some(rest)
}

/// Identity which a filename carries, when it lies inside the archive namespace.
#[must_use]
pub fn archive_identity(name: &str, prefix: &str) -> (found: Option<(u128, u32, u64)>)
    ensures
        found == identity(name@, prefix@),
{
    let rest = match strip_prefix(&characters(name), &characters(prefix)) {
        Some(rest) => rest,
        None => return None,
    };
    let parts = split_text(rest.as_slice(), '.');
    proof {
        assert(fields::field_texts(parts@).len() == parts@.len());
        assert forall|i: int| 0 <= i < parts@.len() implies fields::split(rest@, '.')[i]
            == #[trigger] parts@[i]@ by {
            assert(fields::field_texts(parts@)[i] == parts@[i]@);
        }
    }
    if parts.len() != 3 {
        return None;
    }
    let timestamp: u128 = match read_numeral(parts[0].as_slice(), u128::MAX) {
        Some(timestamp) => timestamp,
        None => return None,
    };
    let adapter_pid: u128 = match read_numeral(parts[1].as_slice(), u32::MAX as u128) {
        Some(adapter_pid) => adapter_pid,
        None => return None,
    };
    let sequence: u128 = match read_numeral(parts[2].as_slice(), u64::MAX as u128) {
        Some(sequence) => sequence,
        None => return None,
    };
    Some((timestamp, adapter_pid as u32, sequence as u64))
}

/// Every archive name which rotation gives out is recognized with its exact
/// identity.
pub proof fn archive_names_read_back(
    prefix: Seq<char>,
    timestamp: u128,
    adapter_pid: u32,
    sequence: u64,
)
    ensures
        identity(archive_spelling(prefix, timestamp, adapter_pid, sequence), prefix) == Some(
            (timestamp, adapter_pid, sequence),
        ),
{
    reveal_strlit(".");
    let name = archive_spelling(prefix, timestamp, adapter_pid, sequence);
    let first = text::decimal(timestamp as nat);
    let second = text::decimal(adapter_pid as nat);
    let third = text::decimal(sequence as nat);
    fields::written_numbers_read_back(timestamp as nat);
    fields::written_numbers_read_back(adapter_pid as nat);
    fields::written_numbers_read_back(sequence as nat);
    fields::lemma_numerals_hold_no(first, '.');
    fields::lemma_numerals_hold_no(second, '.');
    fields::lemma_numerals_hold_no(third, '.');
    assert(name.take(prefix.len() as int) =~= prefix);
    assert("."@ =~= seq!['.']);
    assert(name.skip(prefix.len() as int) =~= (first.push('.') + second).push('.') + third);
    fields::lemma_split_single(first, '.');
    fields::lemma_split_appends(first, second, '.');
    fields::lemma_split_appends(first.push('.') + second, third, '.');
    assert(fields::split(name.skip(prefix.len() as int), '.') =~= seq![first, second, third]);
}

// ---------------------------------------------------------------------------
// Catalog
// ---------------------------------------------------------------------------

/// One Immortal-owned rotated file and its parsed storage identity.
#[derive(Clone, Debug, PartialEq, Eq)]
pub struct Archive {
    path: UnixPath,
    unix_nanoseconds: u128,
    adapter_pid: u32,
    sequence: u64,
    byte_length: u64,
}

/// Pure view of an archive.
#[verifier::ext_equal]
pub struct ArchiveModel {
    pub path: Seq<u8>,
    pub unix_nanoseconds: u128,
    pub adapter_pid: u32,
    pub sequence: u64,
    pub byte_length: u64,
}

impl View for Archive {
    type V = ArchiveModel;

    closed spec fn view(&self) -> ArchiveModel {
        ArchiveModel {
            path: self.path@,
            unix_nanoseconds: self.unix_nanoseconds,
            adapter_pid: self.adapter_pid,
            sequence: self.sequence,
            byte_length: self.byte_length,
        }
    }
}

impl Archive {
    /// Archive path.
    #[must_use]
    pub fn path(&self) -> (path: &UnixPath)
        ensures
            path@ == self@.path,
    {
        &self.path
    }

    /// Rotation time measured in nanoseconds since the Unix epoch.
    #[must_use]
    pub fn unix_nanoseconds(&self) -> (nanoseconds: u128)
        ensures
            nanoseconds == self@.unix_nanoseconds,
    {
        self.unix_nanoseconds
    }

    /// Process identifier of the `immortallog` adapter that rotated the file.
    #[must_use]
    pub fn adapter_pid(&self) -> (process: u32)
        ensures
            process == self@.adapter_pid,
    {
        self.adapter_pid
    }

    /// Per-adapter sequence used to disambiguate archive names.
    #[must_use]
    pub fn sequence(&self) -> (sequence: u64)
        ensures
            sequence == self@.sequence,
    {
        self.sequence
    }

    /// File length observed while scanning the archive directory.
    #[must_use]
    pub fn byte_length(&self) -> (length: u64)
        ensures
            length == self@.byte_length,
    {
        self.byte_length
    }
}

/// Archive which a directory entry is: only a regular file which is no symlink
/// and whose name lies inside the archive namespace.
pub open spec fn owned(
    path: Seq<u8>,
    name: Seq<char>,
    prefix: Seq<char>,
    plain_file: bool,
    byte_length: u64,
) -> Option<ArchiveModel> {
    match identity(name, prefix) {
        Some((unix_nanoseconds, adapter_pid, sequence)) => if plain_file {
            Some(
                ArchiveModel {
                    path,
                    unix_nanoseconds,
                    adapter_pid,
                    sequence,
                    byte_length,
                },
            )
        } else {
            None
        },
        None => None,
    }
}

/// Archive which a directory entry is.
#[must_use]
pub fn owned_archive(
    path: UnixPath,
    name: &str,
    prefix: &str,
    plain_file: bool,
    byte_length: u64,
) -> (archive: Option<Archive>)
    ensures
        match archive {
            Some(archive) => owned(path@, name@, prefix@, plain_file, byte_length) == Some(
                archive@,
            ),
            None => owned(path@, name@, prefix@, plain_file, byte_length) is None,
        },
{
    match archive_identity(name, prefix) {
        Some((unix_nanoseconds, adapter_pid, sequence)) => {
            if plain_file {
                Some(Archive { path, unix_nanoseconds, adapter_pid, sequence, byte_length })
            } else {
                None
            }
        },
        None => None,
    }
}

/// Chronological order: rotation time, then adapter process, then sequence.
pub open spec fn not_later(left: ArchiveModel, right: ArchiveModel) -> bool {
    ||| left.unix_nanoseconds < right.unix_nanoseconds
    ||| left.unix_nanoseconds == right.unix_nanoseconds && left.adapter_pid < right.adapter_pid
    ||| left.unix_nanoseconds == right.unix_nanoseconds && left.adapter_pid == right.adapter_pid
        && left.sequence <= right.sequence
}

/// Whether archives are in chronological order.
pub open spec fn chronological(archives: Seq<ArchiveModel>) -> bool {
    forall|i: int, j: int|
        0 <= i < j < archives.len() ==> not_later(#[trigger] archives[i], #[trigger] archives[j])
}

/// Views of archives in order.
pub open spec fn archive_views(archives: Seq<Archive>) -> Seq<ArchiveModel> {
    archives.map_values(|archive: Archive| archive@)
}

fn comes_not_later(left: &Archive, right: &Archive) -> (ordered: bool)
    ensures
        ordered == not_later(left@, right@),
{
    if left.unix_nanoseconds != right.unix_nanoseconds {
        return left.unix_nanoseconds < right.unix_nanoseconds;
    }
    if left.adapter_pid != right.adapter_pid {
        return left.adapter_pid < right.adapter_pid;
    }
    left.sequence <= right.sequence
}

/// Bring archives into chronological order.
#[must_use]
pub fn archive_catalog(found: Vec<Archive>) -> (archives: Vec<Archive>)
    ensures
        chronological(archive_views(archives@)),
        archive_views(archives@).to_multiset() == archive_views(found@).to_multiset(),
{
    broadcast use group_to_multiset_ensures;

    let mut found = found;
    let ghost all = archive_views(found@).to_multiset();
    let mut archives: Vec<Archive> = Vec::new();
    proof {
        assert(archive_views(archives@) =~= Seq::empty());
        assert(all.add(Multiset::empty()) =~= all);
    }
    while found.len() > 0
        invariant
            chronological(archive_views(archives@)),
            archive_views(found@).to_multiset().add(archive_views(archives@).to_multiset()) == all,
        decreases found@.len(),
    {
        broadcast use group_to_multiset_ensures;

        let ghost pending = archive_views(found@);
        let ghost placed = archive_views(archives@);
        let archive = found.remove(0);
        let mut position: usize = archives.len();
        while position > 0 && !comes_not_later(&archives[position - 1], &archive)
            invariant
                position <= archives@.len(),
                placed == archive_views(archives@),
                chronological(placed),
                forall|i: int|
                    position <= i < placed.len() ==> !not_later(#[trigger] placed[i], archive@),
            decreases position,
        {
            position = position - 1;
            assert(placed[position as int] == archives@[position as int]@);
        }
        proof {
            if position > 0 {
                assert(placed[position - 1] == archives@[position - 1]@);
            }
        }
        let ghost model = archive@;
        archives.insert(position, archive);
        proof {
            assert(archive_views(found@) =~= pending.remove(0));
            assert(pending[0] == model);
            assert(archive_views(archives@) =~= placed.insert(position as int, model));
            lemma_insertion_keeps_order(placed, position as int, model);
            assert(pending =~= seq![model] + pending.remove(0));
            lemma_multiset_commutative(seq![model], pending.remove(0));
            assert(seq![model].to_multiset() =~= Multiset::singleton(model)) by {
                assert(seq![model] =~= Seq::<ArchiveModel>::empty().push(model));
            }
            assert(placed.insert(position as int, model).to_multiset()
                =~= placed.to_multiset().insert(model));
            assert(archive_views(found@).to_multiset().add(
                archive_views(archives@).to_multiset(),
            ) =~= all);
        }
    }
    proof {
        assert(archive_views(found@) =~= Seq::empty());
        assert(archive_views(archives@).to_multiset() =~= all);
    }
    archives
}

proof fn lemma_insertion_keeps_order(
    placed: Seq<ArchiveModel>,
    position: int,
    model: ArchiveModel,
)
    requires
        chronological(placed),
        0 <= position <= placed.len(),
        position > 0 ==> not_later(placed[position - 1], model),
        forall|i: int|
            position <= i < placed.len() ==> !not_later(#[trigger] placed[i], model),
    ensures
        chronological(placed.insert(position, model)),
{
    let after = placed.insert(position, model);
    assert forall|i: int, j: int| 0 <= i < j < after.len() implies not_later(
        #[trigger] after[i],
        #[trigger] after[j],
    ) by {
        let left = if i < position {
            i
        } else {
            i - 1
        };
        let right = if j < position {
            j
        } else {
            j - 1
        };
        if i != position {
            assert(after[i] == placed[left]);
        }
        if j != position {
            assert(after[j] == placed[right]);
        }
        if j == position && i < position - 1 {
            assert(not_later(placed[i], placed[position - 1]));
        }
    }
}

// ---------------------------------------------------------------------------
// Retention
// ---------------------------------------------------------------------------

/// Combined length of archives.
pub open spec fn combined_length(archives: Seq<ArchiveModel>) -> nat
    decreases archives.len(),
{
    if archives.len() == 0 {
        0
    } else {
        combined_length(archives.drop_last()) + archives.last().byte_length as nat
    }
}

/// Accounted length once the oldest `removed` archives are gone. An account never
/// exceeds the largest file length.
pub open spec fn accounted_length(archives: Seq<ArchiveModel>, removed: int) -> nat {
    let total = if combined_length(archives) > u64::MAX {
        u64::MAX as int
    } else {
        combined_length(archives) as int
    };
    let gone = combined_length(archives.take(removed)) as int;
    if gone > total {
        0
    } else {
        (total - gone) as nat
    }
}

/// Whether a number of archives with a combined length exceeds the policy.
pub open spec fn over_limit(policy: RotationPolicy, count: int, length: nat) -> bool {
    ||| policy.keep matches Some(keep) && count > keep
    ||| policy.max_total_bytes matches Some(limit) && length > limit
}

/// Whether the oldest `removed` archives are exactly those which have to go.
pub open spec fn retention(
    archives: Seq<ArchiveModel>,
    policy: RotationPolicy,
    removed: int,
) -> bool {
    &&& 0 <= removed <= archives.len()
    &&& forall|k: int|
        0 <= k < removed ==> over_limit(
            policy,
            archives.len() - k,
            #[trigger] accounted_length(archives, k),
        )
    &&& removed < archives.len() ==> !over_limit(
        policy,
        archives.len() - removed,
        accounted_length(archives, removed),
    )
}

proof fn lemma_combined_grows(archives: Seq<ArchiveModel>, count: int)
    requires
        0 <= count < archives.len(),
    ensures
        combined_length(archives.take(count + 1)) == combined_length(archives.take(count))
            + archives[count].byte_length,
{
    assert(archives.take(count + 1).drop_last() =~= archives.take(count));
}

/// How many of the oldest archives have to go.
#[must_use]
pub fn excess_archives(archives: &Vec<Archive>, policy: RotationPolicy) -> (removed: usize)
    ensures
        retention(archive_views(archives@), policy, removed as int),
{
    let ghost views = archive_views(archives@);
    let mut total: u64 = 0;
    let mut index: usize = 0;
    assert(views.take(0) =~= Seq::empty());
    while index < archives.len()
        invariant
            index <= archives@.len(),
            views == archive_views(archives@),
            total == (if combined_length(views.take(index as int)) > u64::MAX {
                u64::MAX as int
            } else {
                combined_length(views.take(index as int)) as int
            }),
        decreases archives@.len() - index,
    {
        proof {
            lemma_combined_grows(views, index as int);
            assert(views[index as int] == archives@[index as int]@);
        }
        total = total.saturating_add(archives[index].byte_length);
        index = index + 1;
    }
    assert(views.take(index as int) =~= views);
    let mut removed: usize = 0;
    assert(accounted_length(views, 0) == total);
    while removed < archives.len()
        invariant
            removed <= archives@.len(),
            views == archive_views(archives@),
            total == accounted_length(views, removed as int),
            forall|k: int|
                0 <= k < removed ==> over_limit(
                    policy,
                    archives@.len() - k,
                    #[trigger] accounted_length(views, k),
                ),
        decreases archives@.len() - removed,
    {
        let remaining: usize = archives.len() - removed;
        let over_count = match policy.keep {
            Some(keep) => remaining > keep,
            None => false,
        };
        let over_bytes = match policy.max_total_bytes {
            Some(limit) => total > limit,
            None => false,
        };
        if !(over_count || over_bytes) {
            return removed;
        }
        proof {
            lemma_combined_grows(views, removed as int);
            assert(views[removed as int] == archives@[removed as int]@);
        }
        total = total.saturating_sub(archives[removed].byte_length);
        removed = removed + 1;
    }
    removed
}

proof fn lemma_combined_parts(archives: Seq<ArchiveModel>, count: int)
    requires
        0 <= count <= archives.len(),
    ensures
        combined_length(archives) == combined_length(archives.take(count)) + combined_length(
            archives.skip(count),
        ),
    decreases archives.len(),
{
    if count == archives.len() {
        assert(archives.take(count) =~= archives);
        assert(archives.skip(count) =~= Seq::empty());
    } else {
        let shorter = archives.drop_last();
        lemma_combined_parts(shorter, count);
        assert(shorter.take(count) =~= archives.take(count));
        assert(archives.skip(count).drop_last() =~= shorter.skip(count));
        assert(archives.skip(count).last() == archives.last());
    }
}

/// What retention keeps satisfies every configured limit. Combined lengths beyond
/// the largest file length are accounted as that length, so the byte limit is
/// promised for combined lengths which fit it.
pub proof fn retention_meets_its_limits(
    archives: Seq<ArchiveModel>,
    policy: RotationPolicy,
    removed: int,
)
    requires
        retention(archives, policy, removed),
        combined_length(archives) <= u64::MAX,
    ensures
        policy.keep matches Some(keep) ==> archives.skip(removed).len() <= keep,
        policy.max_total_bytes matches Some(limit) ==> combined_length(archives.skip(removed))
            <= limit,
{
    lemma_combined_parts(archives, removed);
    if removed == archives.len() {
        assert(archives.skip(removed) =~= Seq::empty());
    }
}

/// Retention removes nothing while every limit is met.
pub proof fn retention_removes_nothing_within_limits(
    archives: Seq<ArchiveModel>,
    policy: RotationPolicy,
    removed: int,
)
    requires
        retention(archives, policy, removed),
        !over_limit(policy, archives.len() as int, combined_length(archives)),
        combined_length(archives) <= u64::MAX,
    ensures
        removed == 0,
{
    assert(archives.take(0) =~= Seq::empty());
    assert(accounted_length(archives, 0) == combined_length(archives));
}

/// Whether a failed lookup or removal only lost a race: an entry which is gone
/// already needs no removal.
#[must_use]
pub fn already_gone(kind: FaultKind) -> (gone: bool)
    ensures
        gone == (kind is NotFound),
{
    matches!(kind, FaultKind::NotFound)
}

/// Whether an archive name is free, by a lookup which does not follow links.
///
/// # Errors
///
/// Fails when the lookup failed for any reason but absence.
pub fn archive_name_is_available(lookup: Result<(), Fault>) -> (available: Result<bool, Fault>)
    ensures
        match (lookup, available) {
            (Ok(()), Ok(available)) => !available,
            (Err(error), Ok(available)) => available && error.kind is NotFound,
            (Err(error), Err(reported)) => !(error.kind is NotFound) && reported == error,
            (Ok(()), Err(_)) => false,
        },
{
    match lookup {
        Ok(()) => Ok(false),
        Err(error) => {
            if already_gone(error.kind) {
                Ok(true)
            } else {
                Err(error)
            }
        },
    }
}

// ---------------------------------------------------------------------------
// What each limit promises
// ---------------------------------------------------------------------------

/// Each limit stands on its own: a nonempty file which the write would grow past
/// `max_bytes` is due whatever its age, and one which reached `max_age` is due
/// whatever its size. Lengths are accounted up to the largest file length, so no
/// write grows past a limit of that length.
pub proof fn each_rotation_limit_suffices(state: RotationState, incoming: u64, now: i128)
    requires
        state.bytes_written > 0,
    ensures
        state.policy.max_bytes matches Some(limit) ==> (limit < u64::MAX && limit
            < state.bytes_written + incoming ==> rotation_due(state, incoming, now)),
        state.policy.max_age_nanoseconds matches Some(limit) ==> (state.opened_at + limit <= now
            ==> rotation_due(state, incoming, now)),
{
}

/// Nothing else makes a file due: an empty file never is, and a file which is has
/// outgrown a configured size or reached a configured age.
pub proof fn rotations_have_a_reason(state: RotationState, incoming: u64, now: i128)
    requires
        rotation_due(state, incoming, now),
    ensures
        state.bytes_written > 0,
        (state.policy.max_bytes matches Some(limit) && limit < state.bytes_written + incoming) || (
        state.policy.max_age_nanoseconds matches Some(limit) && state.opened_at + limit <= now),
{
}

/// Without a rotation no nonempty file is written past its configured size.
pub proof fn unrotated_files_stay_within_their_size(
    state: RotationState,
    incoming: u64,
    now: i128,
    limit: u64,
)
    requires
        state.bytes_written > 0,
        state.policy.max_bytes == Some(limit),
        limit < u64::MAX,
        !rotation_due(state, incoming, now),
    ensures
        state.bytes_written + incoming <= limit,
{
}

/// A destination's own limits are used as they were configured: bytes as bytes,
/// seconds as seconds, and archives as archives, with no limit nobody configured.
pub proof fn configured_limits_are_kept(
    max_bytes: Option<u64>,
    max_age_seconds: Option<u64>,
    keep: Option<u32>,
)
    ensures
        ({
            let policy = configured_policy(max_bytes, max_age_seconds, keep);
            &&& policy.max_bytes == max_bytes
            &&& policy.max_age_nanoseconds is Some <==> max_age_seconds is Some
            &&& max_age_seconds matches Some(seconds) ==> policy.max_age_nanoseconds->0 == seconds
                * 1_000_000_000
            &&& policy.keep is Some <==> keep is Some
            &&& keep matches Some(count) ==> policy.keep->0 == count
            &&& policy.max_total_bytes is None
        }),
{
    if let Some(seconds) = max_age_seconds {
        assert(0 <= seconds * 1_000_000_000 <= u128::MAX);
    }
}

/// A limit of zero is refused, wherever it stands, and nothing else is.
pub proof fn zero_limits_are_refused(policy: RotationPolicy)
    ensures
        policy.max_bytes matches Some(limit) ==> (limit == 0 ==> degenerate(policy)),
        policy.max_age_nanoseconds matches Some(limit) ==> (limit == 0 ==> degenerate(policy)),
        policy.keep matches Some(limit) ==> (limit == 0 ==> degenerate(policy)),
        policy.max_total_bytes matches Some(limit) ==> (limit == 0 ==> degenerate(policy)),
        degenerate(policy) ==> (policy.max_bytes matches Some(limit) && limit == 0) || (
        policy.max_age_nanoseconds matches Some(limit) && limit == 0) || (policy.keep matches Some(
            limit,
        ) && limit == 0) || (policy.max_total_bytes matches Some(limit) && limit == 0),
{
}

/// Retention removes the oldest archives: nothing which goes was rotated later
/// than anything which stays.
pub proof fn retention_removes_the_oldest(
    archives: Seq<ArchiveModel>,
    policy: RotationPolicy,
    removed: int,
    gone: int,
    kept: int,
)
    requires
        chronological(archives),
        retention(archives, policy, removed),
        0 <= gone < removed <= kept < archives.len(),
    ensures
        archives[gone].unix_nanoseconds <= archives[kept].unix_nanoseconds,
        archives[gone].unix_nanoseconds == archives[kept].unix_nanoseconds
            && archives[gone].adapter_pid == archives[kept].adapter_pid ==> archives[gone].sequence
            <= archives[kept].sequence,
{
}

/// Retention removes no more than it has to: with one archive more, some limit
/// would be exceeded.
pub proof fn retention_removes_no_more_than_needed(
    archives: Seq<ArchiveModel>,
    policy: RotationPolicy,
    removed: int,
)
    requires
        retention(archives, policy, removed),
        combined_length(archives) <= u64::MAX,
        removed > 0,
    ensures
        (policy.keep matches Some(keep) && archives.skip(removed - 1).len() > keep) || (
        policy.max_total_bytes matches Some(limit) && combined_length(archives.skip(removed - 1))
            > limit),
{
    lemma_combined_parts(archives, removed - 1);
    assert(over_limit(
        policy,
        archives.len() - (removed - 1),
        accounted_length(archives, removed - 1),
    ));
}

/// The combined length counts every archive once.
pub proof fn lengths_add_up(archives: Seq<ArchiveModel>, archive: ArchiveModel)
    ensures
        combined_length(Seq::empty()) == 0,
        combined_length(archives.push(archive)) == combined_length(archives)
            + archive.byte_length,
{
    assert(archives.push(archive).drop_last() =~= archives);
}

/// Only a plain file inside the archive namespace is owned, and it is owned under
/// the identity and the length it has.
pub proof fn foreign_files_are_never_owned(
    path: Seq<u8>,
    name: Seq<char>,
    prefix: Seq<char>,
    plain_file: bool,
    byte_length: u64,
)
    ensures
        owned(path, name, prefix, plain_file, byte_length) is Some ==> plain_file
            && prefix.is_prefix_of(name),
        owned(path, name, prefix, plain_file, byte_length) matches Some(archive) ==> archive.path
            == path && archive.byte_length == byte_length,
{
}

/// An archive which rotation named is owned again, with the time, process, and
/// sequence it was rotated with.
pub proof fn rotated_archives_are_owned(
    path: Seq<u8>,
    prefix: Seq<char>,
    timestamp: u128,
    adapter_pid: u32,
    sequence: u64,
    byte_length: u64,
)
    ensures
        owned(
            path,
            archive_spelling(prefix, timestamp, adapter_pid, sequence),
            prefix,
            true,
            byte_length,
        ) == Some(
            ArchiveModel {
                path,
                unix_nanoseconds: timestamp,
                adapter_pid,
                sequence,
                byte_length,
            },
        ),
{
    archive_names_read_back(prefix, timestamp, adapter_pid, sequence);
}

/// A rotation unit weighs as much as all its parts together.
pub proof fn parts_are_weighed_together(parts: Seq<Seq<u8>>, part: Seq<u8>)
    ensures
        total_length(Seq::empty()) == 0,
        total_length(parts.push(part)) == total_length(parts) + part.len(),
{
    assert(parts.push(part).drop_last() =~= parts);
}

} // verus!
