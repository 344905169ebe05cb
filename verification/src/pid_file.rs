//! Atomic, output-only PID publication with replacement-safe cleanup.
//!
//! A PID is written to a temporary file beside its destination and renamed over
//! it. The published file is removed again only while the destination still names
//! the very file which was renamed there.

use vstd::prelude::*;
use vstd::string::*;
use vstd::utf8::*;

use crate::fault;
use crate::fault::{Fault, FaultKind};
use crate::fields;
use crate::path;
use crate::path::{file_name, join, parent, UnixPath};
use crate::text;
use crate::text::push_decimal;

verus! {

/// Suffix which tells one temporary file from every other of the same name.
pub open spec fn temporary_suffix(process: nat, sequence: nat) -> Seq<char> {
    ".immortal-"@ + text::decimal(process) + "-"@ + text::decimal(sequence) + ".tmp"@
}

/// Name of the temporary file for a destination name.
pub open spec fn temporary_name(name: Seq<u8>, process: nat, sequence: nat) -> Seq<u8> {
    seq![46u8] + name + encode_utf8(temporary_suffix(process, sequence))
}

/// Where one PID is written and published.
#[derive(Clone, Debug, PartialEq, Eq)]
pub struct Publication {
    /// Directory which is synchronized after the rename.
    pub directory: UnixPath,
    /// Temporary file which is created exclusively.
    pub temporary: UnixPath,
    /// Text written into it.
    pub contents: String,
}

/// Text of a published PID.
pub open spec fn contents(process: nat) -> Seq<char> {
    text::decimal(process) + "\n"@
}

/// Reason why a destination cannot be published.
pub open spec fn unpublishable(destination: Seq<u8>) -> Option<fault::FaultModel> {
    if path::containing(destination) is None {
        Some(fault::raised(FaultKind::InvalidInput, "PID file has no parent directory"@))
    } else if path::last_name(destination) is None {
        Some(fault::raised(FaultKind::InvalidInput, "PID file has no filename"@))
    } else {
        None
    }
}

fn render_suffix(publisher: u32, sequence: u64) -> (suffix: String)
    ensures
        suffix@ == temporary_suffix(publisher as nat, sequence as nat),
{
    let mut suffix = ".immortal-".to_owned();
    push_decimal(&mut suffix, publisher as u64);
    suffix.append("-");
    push_decimal(&mut suffix, sequence);
    suffix.append(".tmp");
    suffix
}

/// Plan the publication of one PID by the process `publisher`, whose earlier
/// publications used smaller sequence numbers.
///
/// # Errors
///
/// Fails for a destination without a parent directory or without a filename.
pub fn plan_publication(
    destination: &UnixPath,
    process: u32,
    publisher: u32,
    sequence: u64,
) -> (result: Result<Publication, Fault>)
    ensures
        match result {
            Ok(publication) => {
                &&& unpublishable(destination@) is None
                &&& path::containing(destination@) == Some(publication.directory@)
                &&& publication.temporary@ == path::below(
                    publication.directory@,
                    temporary_name(
                        path::last_name(destination@)->Some_0,
                        publisher as nat,
                        sequence as nat,
                    ),
                )
                &&& publication.contents@ == contents(process as nat)
            },
            Err(error) => unpublishable(destination@) == Some(error@),
        },
{
    let directory = match parent(destination) {
        Some(directory) => directory,
        None => return Err(Fault::new(FaultKind::InvalidInput, "PID file has no parent directory")),
    };
    let name = match file_name(destination) {
        Some(name) => name,
        None => return Err(Fault::new(FaultKind::InvalidInput, "PID file has no filename")),
    };
    let suffix = render_suffix(publisher, sequence);
    let mut bytes: Vec<u8> = Vec::new();
    bytes.push(46);
    path::extend(&mut bytes, &name);
    let tail = vstd::slice::slice_to_vec(suffix.as_str().as_bytes());
    path::extend(&mut bytes, &tail);
    proof {
        assert(bytes@ =~= temporary_name(name@, publisher as nat, sequence as nat));
    }
    let temporary = join(&directory, &UnixPath { bytes });
    let mut written = String::new();
    push_decimal(&mut written, process as u64);
    written.append("\n");
    assert(written@ =~= contents(process as nat));
    Ok(Publication { directory, temporary, contents: written })
}

/// One atomically published PID file removed only while it remains ours.
#[derive(Clone, Debug, PartialEq, Eq)]
pub struct OwnedPidFile {
    /// Where the file was published.
    pub path: UnixPath,
    /// Device of the renamed file.
    pub device: u64,
    /// Inode of the renamed file.
    pub inode: u64,
}

/// What an inspection of the published path found, without following links.
#[derive(Clone, Copy, Debug, PartialEq, Eq, Structural)]
pub struct PublishedEntry {
    /// Whether the entry is a symbolic link.
    pub is_symlink: bool,
    /// Whether the entry is a regular file.
    pub is_file: bool,
    /// Device of the entry.
    pub device: u64,
    /// Inode of the entry.
    pub inode: u64,
}

impl OwnedPidFile {
    /// Whether an entry is the published file itself.
    pub open spec fn owns(self, found: Option<PublishedEntry>) -> bool {
        found matches Some(entry) && !entry.is_symlink && entry.is_file && entry.device
            == self.device && entry.inode == self.inode
    }

    /// Whether the published file is still in place; a path which cannot be
    /// inspected is not ours.
    #[must_use]
    pub fn still_owned(&self, found: Option<PublishedEntry>) -> (owned: bool)
        ensures
            owned == self.owns(found),
    {
        match found {
            Some(entry) => !entry.is_symlink && entry.is_file && entry.device == self.device
                && entry.inode == self.inode,
            None => false,
        }
    }
}

// ---------------------------------------------------------------------------
// Laws
// ---------------------------------------------------------------------------

/// Two publications of one destination name share a temporary file only when they
/// are the same publication: same publisher, same sequence number.
pub proof fn temporaries_never_collide(
    name: Seq<u8>,
    process: nat,
    sequence: nat,
    other_process: nat,
    other_sequence: nat,
)
    ensures
        temporary_name(name, process, sequence) == temporary_name(
            name,
            other_process,
            other_sequence,
        ) ==> process == other_process && sequence == other_sequence,
{
    let left = temporary_name(name, process, sequence);
    let right = temporary_name(name, other_process, other_sequence);
    if left == right {
        let first = temporary_suffix(process, sequence);
        let second = temporary_suffix(other_process, other_sequence);
        let head = seq![46u8] + name;
        assert(left.skip(head.len() as int) =~= encode_utf8(first));
        assert(right.skip(head.len() as int) =~= encode_utf8(second));
        text::lemma_encoding_is_injective(first, second);
        lemma_suffix_is_injective(process, sequence, other_process, other_sequence);
    }
}

proof fn lemma_suffix_is_injective(
    process: nat,
    sequence: nat,
    other_process: nat,
    other_sequence: nat,
)
    requires
        temporary_suffix(process, sequence) == temporary_suffix(other_process, other_sequence),
    ensures
        process == other_process,
        sequence == other_sequence,
{
    let first = temporary_suffix(process, sequence);
    let second = temporary_suffix(other_process, other_sequence);
    let p = text::decimal(process);
    let q = text::decimal(other_process);
    let s = text::decimal(sequence);
    let t = text::decimal(other_sequence);
    let head = ".immortal-"@;
    reveal_strlit(".immortal-");
    reveal_strlit("-");
    reveal_strlit(".tmp");
    fields::written_numbers_read_back(process);
    fields::written_numbers_read_back(other_process);
    fields::written_numbers_read_back(sequence);
    fields::written_numbers_read_back(other_sequence);
    let at = head.len() as int;
    assert(first[at + p.len()] == '-');
    assert(second[at + q.len()] == '-');
    if p.len() < q.len() {
        assert(second[at + p.len()] == q[p.len() as int]);
        assert(fields::is_digit(q[p.len() as int]));
    }
    if q.len() < p.len() {
        assert(first[at + q.len()] == p[q.len() as int]);
        assert(fields::is_digit(p[q.len() as int]));
    }
    assert(p =~= first.subrange(at, at + p.len()));
    assert(q =~= second.subrange(at, at + q.len()));
    let from = at + p.len() + 1;
    assert(s =~= first.subrange(from, first.len() - 4));
    assert(t =~= second.subrange(from, second.len() - 4));
}

/// A replacement of a published file, recognizable by its device or inode, is
/// never taken for the published file.
pub proof fn replacements_are_never_owned(owner: OwnedPidFile, found: PublishedEntry)
    requires
        found.device != owner.device || found.inode != owner.inode || found.is_symlink,
    ensures
        !owner.owns(Some(found)),
{
}

/// A published PID reads back as the process, and ends in a line feed.
pub proof fn published_pids_read_back(process: nat)
    ensures
        contents(process).len() > 1,
        contents(process).last() == '\n',
        fields::value(contents(process).drop_last()) == process,
        fields::numeral(contents(process).drop_last()),
{
    reveal_strlit("\n");
    fields::written_numbers_read_back(process);
    assert(contents(process).drop_last() =~= text::decimal(process));
}

/// A PID file is removed by its owner exactly when the path still shows the regular file
/// which was published, and never when it shows nothing.
pub proof fn owners_know_their_file(owner: OwnedPidFile, found: PublishedEntry)
    ensures
        owner.owns(Some(found)) <==> found.is_file && !found.is_symlink && found.device
            == owner.device && found.inode == owner.inode,
        !owner.owns(None),
{
}

} // verus!
