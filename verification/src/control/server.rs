//! Peer authorization, accept-failure policy, and socket ownership rules.
//!
//! Root and the socket owner are authorized; every other peer is refused. An
//! accept failure which is attributable to the peer, to scheduling, or to a
//! passing resource shortage leaves the listener usable, anything else ends it.

use vstd::prelude::*;
use vstd::string::*;

use crate::fault;
use crate::fault::{Fault, FaultKind, FaultModel};
use crate::path;
use crate::path::{file_name, UnixPath};
use crate::text;
use crate::text::push_decimal;

use super::response::{Response, ResponseCode, ResponseModel};

verus! {

/// Error numbers which the operating system reports for a passing shortage.
#[derive(Clone, Copy, Debug, PartialEq, Eq, Structural)]
pub struct ShortageCodes {
    /// The process has no free descriptor.
    pub process_descriptors: i32,
    /// The system has no free descriptor.
    pub system_descriptors: i32,
    /// No kernel buffer is free.
    pub buffers: i32,
    /// No memory is free.
    pub memory: i32,
}

/// Whether numbers are the shortage codes of a supported system. Linux, macOS, and
/// FreeBSD agree on all of them but the one for kernel buffers.
pub open spec fn known_codes(codes: ShortageCodes) -> bool {
    &&& codes.process_descriptors == 24
    &&& codes.system_descriptors == 23
    &&& codes.memory == 12
    &&& codes.buffers == 105 || codes.buffers == 55 || codes.buffers == 132
}

/// Read the constants `libc::EMFILE`, `libc::ENFILE`, `libc::ENOBUFS`, and
/// `libc::ENOMEM`. Which of the known values `ENOBUFS` has depends on the system,
/// so the contract leaves that open.
#[verifier::external_body]
fn shortage_codes() -> (codes: ShortageCodes)
    ensures
        known_codes(codes),
{
    ShortageCodes {
        process_descriptors: libc::EMFILE,
        system_descriptors: libc::ENFILE,
        buffers: libc::ENOBUFS,
        memory: libc::ENOMEM,
    }
}

/// Authenticated peer identity obtained from the Unix socket.
#[derive(Clone, Copy, Debug, PartialEq, Eq, Structural)]
pub struct PeerCredentials {
    /// Effective user ID of the connecting process.
    pub uid: u32,
    /// Effective group ID of the connecting process.
    pub gid: u32,
    /// Process ID when the operating system exposes it.
    pub pid: Option<i32>,
}

/// Failure while accepting and authenticating a control connection.
#[derive(Debug)]
pub enum AcceptError {
    /// Listener operation failed.
    Io(Fault),
    /// The accepted peer disconnected before its credentials were available.
    PeerCredentials(Fault),
    /// No client slot or connection arrived before the deadline.
    Timeout,
    /// Semaphore was closed during shutdown.
    ShuttingDown,
    /// Peer is neither root nor the supervisor owner.
    PermissionDenied {
        /// Effective UID rejected by the server.
        uid: u32,
    },
}

impl AcceptError {
    /// Diagnostic text of each failure.
    pub open spec fn text(self) -> Seq<char> {
        match self {
            AcceptError::Io(fault) => "unable to accept control connection: "@ + fault.text@,
            AcceptError::PeerCredentials(fault) => "unable to authenticate control peer: "@
                + fault.text@,
            AcceptError::Timeout => "control accept deadline exceeded"@,
            AcceptError::ShuttingDown => "control listener is shutting down"@,
            AcceptError::PermissionDenied { uid } => "control peer UID "@ + text::decimal(
                uid as nat,
            ) + " is not authorized"@,
        }
    }

    /// Diagnostic text.
    #[must_use]
    pub fn message(&self) -> (rendered: String)
        ensures
            rendered@ == self.text(),
    {
        match self {
            AcceptError::Io(fault) => {
                let mut rendered = "unable to accept control connection: ".to_owned();
                rendered.append(fault.text.as_str());
                rendered
            },
            AcceptError::PeerCredentials(fault) => {
                let mut rendered = "unable to authenticate control peer: ".to_owned();
                rendered.append(fault.text.as_str());
                rendered
            },
            AcceptError::Timeout => "control accept deadline exceeded".to_owned(),
            AcceptError::ShuttingDown => "control listener is shutting down".to_owned(),
            AcceptError::PermissionDenied { uid } => {
                let mut rendered = "control peer UID ".to_owned();
                push_decimal(&mut rendered, *uid as u64);
                rendered.append(" is not authorized");
                rendered
            },
        }
    }
}

/// Whether a peer may act on the supervisor of an owner.
pub open spec fn may_act(peer_uid: u32, owner_uid: u32) -> bool {
    peer_uid == 0 || peer_uid == owner_uid
}

/// Decide whether a connected peer may act on this supervisor.
///
/// This is the only authorization predicate in the control protocol. Root and
/// the uid which owns the socket are accepted; every other peer is refused.
#[must_use]
pub fn peer_is_authorized(peer_uid: u32, owner_uid: u32) -> (authorized: bool)
    ensures
        authorized == (peer_uid == 0 || peer_uid == owner_uid),
        authorized == may_act(peer_uid, owner_uid),
{
    peer_uid == 0 || peer_uid == owner_uid
}

/// Whether an error number is one of the shortage codes.
pub open spec fn shortage(os_error: i32, codes: ShortageCodes) -> bool {
    ||| os_error == codes.process_descriptors
    ||| os_error == codes.system_descriptors
    ||| os_error == codes.buffers
    ||| os_error == codes.memory
}

/// Whether a failure is a passing resource shortage.
pub open spec fn exhaustion(failure: FaultModel, codes: ShortageCodes) -> bool {
    failure.os_error matches Some(os_error) && shortage(os_error, codes)
}

/// Whether a failure is attributable to the peer or to scheduling.
pub open spec fn passing(failure: FaultModel) -> bool {
    ||| failure.kind == FaultKind::ConnectionAborted
    ||| failure.kind == FaultKind::ConnectionReset
    ||| failure.kind == FaultKind::Interrupted
    ||| failure.kind == FaultKind::WouldBlock
}

/// Whether a failure carries one of the given shortage codes.
#[must_use]
pub fn is_shortage(error: &Fault, codes: ShortageCodes) -> (paced: bool)
    ensures
        paced == exhaustion(error@, codes),
{
    match error.os_error {
        Some(os_error) => os_error == codes.process_descriptors || os_error
            == codes.system_descriptors || os_error == codes.buffers || os_error == codes.memory,
        None => false,
    }
}

/// Whether an accept failure is a transient resource shortage worth pacing.
#[must_use]
pub fn accept_error_is_exhaustion(error: &Fault) -> (paced: bool)
    ensures
        exists|codes: ShortageCodes|
            known_codes(codes) && paced == #[trigger] exhaustion(error@, codes),
{
    is_shortage(error, shortage_codes())
}

/// Whether an accept failure leaves the listener usable.
///
/// A connection aborted or reset between accept and the credential read is
/// attributable to the peer, and an interrupted or would-block accept to
/// scheduling. Descriptor or buffer exhaustion resolves on its own. Anything
/// else is treated as an unusable listener.
#[must_use]
pub fn accept_error_is_transient(error: &Fault) -> (usable: bool)
    ensures
        exists|codes: ShortageCodes|
            known_codes(codes) && usable == (passing(error@) || #[trigger] exhaustion(
                error@,
                codes,
            )),
{
    let passes = matches!(
        error.kind,
        FaultKind::ConnectionAborted
            | FaultKind::ConnectionReset
            | FaultKind::Interrupted
            | FaultKind::WouldBlock
    );
    let exhausted = is_shortage(error, shortage_codes());
    passes || exhausted
}

/// Delay before accepting again after a resource shortage, in milliseconds.
pub const ACCEPT_EXHAUSTION_BACKOFF_MILLIS: u64 = 100;

/// What the accept loop does after a failed accept.
#[derive(Clone, Copy, Debug, PartialEq, Eq, Structural)]
pub enum AcceptReaction {
    /// Accept the next connection at once.
    Continue,
    /// Accept again after a short delay.
    Pause {
        /// Delay in milliseconds.
        millis: u64,
    },
    /// End the server with this failure.
    Stop,
}

/// Reaction to each accept failure, given whether it is a resource shortage.
pub open spec fn reaction(error: AcceptError, exhausted: bool) -> AcceptReaction {
    match error {
        AcceptError::Timeout => AcceptReaction::Continue,
        AcceptError::PeerCredentials(_) => AcceptReaction::Continue,
        AcceptError::PermissionDenied { .. } => AcceptReaction::Continue,
        AcceptError::ShuttingDown => AcceptReaction::Stop,
        AcceptError::Io(fault) => if exhausted {
            AcceptReaction::Pause { millis: ACCEPT_EXHAUSTION_BACKOFF_MILLIS }
        } else if passing(fault@) {
            AcceptReaction::Continue
        } else {
            AcceptReaction::Stop
        },
    }
}

/// Whether an accept failure carries one of the given shortage codes.
pub open spec fn accept_exhausted(error: AcceptError, codes: ShortageCodes) -> bool {
    match error {
        AcceptError::Io(fault) => exhaustion(fault@, codes),
        _ => false,
    }
}

/// Decide how the accept loop continues after a failed accept.
#[must_use]
pub fn accept_reaction(error: &AcceptError, codes: ShortageCodes) -> (next: AcceptReaction)
    ensures
        next == reaction(*error, accept_exhausted(*error, codes)),
{
    match error {
        AcceptError::Timeout
        | AcceptError::PeerCredentials(_)
        | AcceptError::PermissionDenied { .. } => AcceptReaction::Continue,
        AcceptError::ShuttingDown => AcceptReaction::Stop,
        AcceptError::Io(fault) => if is_shortage(fault, codes) {
            AcceptReaction::Pause { millis: ACCEPT_EXHAUSTION_BACKOFF_MILLIS }
        } else if matches!(
            fault.kind,
            FaultKind::ConnectionAborted
                | FaultKind::ConnectionReset
                | FaultKind::Interrupted
                | FaultKind::WouldBlock
        ) {
            AcceptReaction::Continue
        } else {
            AcceptReaction::Stop
        },
    }
}

/// Decide how the accept loop continues on this system.
#[must_use]
pub fn local_accept_reaction(error: &AcceptError) -> (next: AcceptReaction)
    ensures
        exists|codes: ShortageCodes|
            known_codes(codes) && next == reaction(
                *error,
                #[trigger] accept_exhausted(*error, codes),
            ),
{
    accept_reaction(error, shortage_codes())
}

/// Answer to a peer which is neither root nor the owner.
pub open spec fn denial() -> ResponseModel {
    ResponseModel {
        code: ResponseCode::PermissionDenied,
        generation: None,
        message: "control peer is not authorized"@,
        status: None,
    }
}

/// The answer which tells an unauthorized peer why it was refused.
#[must_use]
pub fn unauthorized_response() -> (response: Response)
    ensures
        response@ == denial(),
{
    Response {
        code: ResponseCode::PermissionDenied,
        generation: None,
        message: "control peer is not authorized".to_owned(),
        status: None,
    }
}

/// Device and inode of a filesystem entry.
#[derive(Clone, Copy, Debug, PartialEq, Eq, Structural)]
pub struct SocketIdentity {
    /// Device which holds the entry.
    pub device: u64,
    /// Inode of the entry.
    pub inode: u64,
}

/// What the filesystem shows of a socket's parent directory.
#[derive(Clone, Copy, Debug, PartialEq, Eq, Structural)]
pub struct SocketParent {
    /// The parent equals its canonical path.
    pub canonical: bool,
    /// The parent is a directory.
    pub directory: bool,
    /// The parent is a symbolic link.
    pub symlink: bool,
    /// Permission bits of the parent.
    pub mode: u32,
}

/// Why a path cannot name a control socket, judged from its spelling alone.
pub open spec fn socket_path_fault(path: Seq<u8>) -> Option<FaultModel> {
    if !path::absolute(path) || path::last_name(path) is None {
        Some(
            fault::raised(
                FaultKind::InvalidInput,
                "control socket path must be an absolute file path"@,
            ),
        )
    } else {
        None
    }
}

/// Refuse a socket path which is not an absolute file path.
///
/// # Errors
///
/// Refuses a relative path and a path without a file name.
pub fn validate_socket_path(path: &UnixPath) -> (result: Result<(), Fault>)
    ensures
        match result {
            Ok(()) => socket_path_fault(path@) is None,
            Err(error) => socket_path_fault(path@) == Some(error@),
        },
{
    if !path.is_absolute() || file_name(path).is_none() {
        return Err(
            Fault::new(
                FaultKind::InvalidInput,
                "control socket path must be an absolute file path",
            ),
        );
    }
    Ok(())
}

/// Why a parent directory cannot hold a control socket, in checking order.
pub open spec fn socket_parent_fault(parent: SocketParent) -> Option<FaultModel> {
    if !parent.canonical {
        Some(
            fault::raised(
                FaultKind::InvalidInput,
                "control socket parent must be canonical and contain no symlink"@,
            ),
        )
    } else if !parent.directory || parent.symlink {
        Some(
            fault::raised(
                FaultKind::InvalidInput,
                "control socket parent is not a real directory"@,
            ),
        )
    } else if parent.mode & 0o022 != 0 {
        Some(
            fault::raised(
                FaultKind::PermissionDenied,
                "control socket parent must not be group or world writable"@,
            ),
        )
    } else {
        None
    }
}

/// Refuse a parent directory which is unsafe for a control socket.
///
/// # Errors
///
/// Refuses a parent which is not canonical, not a real directory, or writable
/// by group or world.
pub fn validate_socket_parent(parent: SocketParent) -> (result: Result<(), Fault>)
    ensures
        match result {
            Ok(()) => socket_parent_fault(parent) is None,
            Err(error) => socket_parent_fault(parent) == Some(error@),
        },
{
    if !parent.canonical {
        return Err(
            Fault::new(
                FaultKind::InvalidInput,
                "control socket parent must be canonical and contain no symlink",
            ),
        );
    }
    if !parent.directory || parent.symlink {
        return Err(
            Fault::new(
                FaultKind::InvalidInput,
                "control socket parent is not a real directory",
            ),
        );
    }
    if parent.mode & 0o022 != 0 {
        return Err(
            Fault::new(
                FaultKind::PermissionDenied,
                "control socket parent must not be group or world writable",
            ),
        );
    }
    Ok(())
}

/// What the filesystem shows of a socket path before binding.
#[derive(Debug)]
pub enum PathEntry {
    /// Some entry exists.
    Present,
    /// The entry could not be inspected.
    Unavailable(Fault),
}

/// Why binding is refused before a socket exists.
pub open spec fn bind_fault(max_clients: usize, entry: PathEntry) -> Option<FaultModel> {
    if max_clients == 0 {
        Some(
            fault::raised(
                FaultKind::InvalidInput,
                "maximum control clients must be greater than zero"@,
            ),
        )
    } else {
        match entry {
            PathEntry::Present => Some(
                fault::raised(FaultKind::AlreadyExists, "control socket path already exists"@),
            ),
            PathEntry::Unavailable(error) => if error.kind == FaultKind::NotFound {
                None
            } else {
                Some(error@)
            },
        }
    }
}

/// Decide whether a socket may be bound, given what the path shows now.
///
/// # Errors
///
/// Refuses a zero client limit, an existing entry, and an entry which could not
/// be inspected.
pub fn permit_bind(max_clients: usize, entry: PathEntry) -> (result: Result<(), Fault>)
    ensures
        match result {
            Ok(()) => bind_fault(max_clients, entry) is None,
            Err(error) => bind_fault(max_clients, entry) == Some(error@),
        },
{
    if max_clients == 0 {
        return Err(
            Fault::new(
                FaultKind::InvalidInput,
                "maximum control clients must be greater than zero",
            ),
        );
    }
    match entry {
        PathEntry::Present => Err(
            Fault::new(FaultKind::AlreadyExists, "control socket path already exists"),
        ),
        PathEntry::Unavailable(error) => if error.kind == FaultKind::NotFound {
            Ok(())
        } else {
            Err(error)
        },
    }
}

/// Why a freshly bound socket must be removed again.
pub open spec fn bound_socket_fault(
    is_socket: bool,
    socket_uid: u32,
    parent_uid: u32,
) -> Option<FaultModel> {
    if !is_socket {
        Some(fault::raised(FaultKind::Other, "new control socket path is not a socket"@))
    } else if socket_uid != parent_uid {
        Some(
            fault::raised(
                FaultKind::PermissionDenied,
                "control socket and runtime directory owners differ"@,
            ),
        )
    } else {
        None
    }
}

/// Check a freshly bound socket against its runtime directory.
///
/// # Errors
///
/// Refuses an entry which is not a socket, and one whose owner differs from its
/// directory's.
pub fn validate_bound_socket(is_socket: bool, socket_uid: u32, parent_uid: u32) -> (result: Result<
    (),
    Fault,
>)
    ensures
        match result {
            Ok(()) => bound_socket_fault(is_socket, socket_uid, parent_uid) is None,
            Err(error) => bound_socket_fault(is_socket, socket_uid, parent_uid) == Some(error@),
        },
{
    if !is_socket {
        return Err(Fault::new(FaultKind::Other, "new control socket path is not a socket"));
    }
    if socket_uid != parent_uid {
        return Err(
            Fault::new(
                FaultKind::PermissionDenied,
                "control socket and runtime directory owners differ",
            ),
        );
    }
    Ok(())
}

/// Whether an entry is the socket which a listener created.
pub open spec fn removable_entry(
    is_socket: bool,
    created: SocketIdentity,
    current: SocketIdentity,
) -> bool {
    is_socket && current == created
}

/// Whether listener cleanup may remove the entry which its path shows now.
///
/// Only the exact socket inode which the listener created is ever removed.
#[must_use]
pub fn may_remove_socket(
    is_socket: bool,
    created: SocketIdentity,
    current: SocketIdentity,
) -> (removable: bool)
    ensures
        removable == (is_socket && current == created),
        removable == removable_entry(is_socket, created, current),
{
    is_socket && current == created
}

// ---------------------------------------------------------------------------
// Laws
// ---------------------------------------------------------------------------

/// Root and the owner always may act, and two peers which may act on one supervisor
/// are the same peer unless one of them is root.
pub proof fn only_root_and_the_owner_act(first: u32, second: u32, owner: u32)
    ensures
        may_act(0, owner),
        may_act(owner, owner),
        may_act(first, owner) && may_act(second, owner) && first != 0 && second != 0 ==> first
            == second,
{
}

/// Nothing which one peer does ends the listener: a peer which is too slow, cannot be
/// identified, is refused, or leaves early only costs its own connection.
pub proof fn peers_cannot_end_the_listener(error: AcceptError, codes: ShortageCodes)
    requires
        match error {
            AcceptError::Timeout => true,
            AcceptError::PeerCredentials(_) => true,
            AcceptError::PermissionDenied { .. } => true,
            AcceptError::ShuttingDown => false,
            AcceptError::Io(fault) => fault.kind == FaultKind::ConnectionAborted || fault.kind
                == FaultKind::ConnectionReset || fault.kind == FaultKind::Interrupted || fault.kind
                == FaultKind::WouldBlock,
        },
    ensures
        reaction(error, accept_exhausted(error, codes)) != AcceptReaction::Stop,
        !(error is Io) ==> reaction(error, accept_exhausted(error, codes))
            == AcceptReaction::Continue,
{
}

/// A failed accept which carries any one of the shortage codes is retried after a delay
/// and never at once, whatever kind the failure has.
pub proof fn shortages_are_waited_out(fault: Fault, codes: ShortageCodes)
    ensures
        match reaction(
            AcceptError::Io(fault),
            accept_exhausted(AcceptError::Io(fault), codes),
        ) {
            AcceptReaction::Pause { millis } => millis > 0 && (fault.os_error == Some(
                codes.process_descriptors,
            ) || fault.os_error == Some(codes.system_descriptors) || fault.os_error == Some(
                codes.buffers,
            ) || fault.os_error == Some(codes.memory)),
            _ => fault.os_error != Some(codes.process_descriptors) && fault.os_error != Some(
                codes.system_descriptors,
            ) && fault.os_error != Some(codes.buffers) && fault.os_error != Some(codes.memory),
        },
{
}

/// A listener which shuts down, and one whose failure is neither a shortage nor of a
/// kind which a peer or scheduling causes, accepts nothing more.
pub proof fn broken_listeners_stop(fault: Fault, codes: ShortageCodes)
    ensures
        reaction(
            AcceptError::ShuttingDown,
            accept_exhausted(AcceptError::ShuttingDown, codes),
        ) == AcceptReaction::Stop,
        fault.os_error is None && (fault.kind == FaultKind::InvalidInput || fault.kind
            == FaultKind::PermissionDenied || fault.kind == FaultKind::NotFound || fault.kind
            == FaultKind::Other) ==> reaction(
            AcceptError::Io(fault),
            accept_exhausted(AcceptError::Io(fault), codes),
        ) == AcceptReaction::Stop,
{
}

/// A socket is bound only inside a real, canonical directory in which neither the group
/// nor the world may create entries; every such directory is accepted.
pub proof fn sockets_need_a_private_parent(parent: SocketParent)
    ensures
        socket_parent_fault(parent) is None <==> parent.canonical && parent.directory
            && !parent.symlink && parent.mode & 0o020 == 0 && parent.mode & 0o002 == 0,
{
    let mode = parent.mode;
    assert(mode & 0o022 == 0 <==> mode & 0o020 == 0 && mode & 0o002 == 0) by (bit_vector);
}

/// A socket is bound only where nothing exists, for at least one client; an entry
/// which cannot be inspected is never taken for a missing one.
pub proof fn sockets_never_replace_an_entry(max_clients: usize, failure: Fault)
    ensures
        bind_fault(max_clients, PathEntry::Present) is Some,
        bind_fault(max_clients, PathEntry::Unavailable(failure)) is None <==> max_clients > 0
            && failure.kind == FaultKind::NotFound,
        max_clients > 0 && failure.kind != FaultKind::NotFound ==> bind_fault(
            max_clients,
            PathEntry::Unavailable(failure),
        ) == Some(failure@),
{
}

/// A socket path begins at the root and ends in a name of its own.
pub proof fn sockets_have_absolute_names(path: Seq<u8>)
    ensures
        socket_path_fault(path) is None ==> path.len() > 0 && path[0] == 47,
        path.len() == 0 || path[0] != 47 ==> socket_path_fault(path) is Some,
        socket_path_fault(path) is None ==> path::names(path).len() > 0,
{
}

/// A bound socket is kept exactly when it is a socket which belongs to the owner of its
/// directory.
pub proof fn bound_sockets_belong_to_the_directory_owner(
    is_socket: bool,
    socket_uid: u32,
    parent_uid: u32,
)
    ensures
        bound_socket_fault(is_socket, socket_uid, parent_uid) is None <==> is_socket && socket_uid
            == parent_uid,
{
}

/// Cleanup removes nothing but a socket with the device and the inode which the
/// listener created.
pub proof fn cleanup_removes_only_its_own_socket(
    is_socket: bool,
    created: SocketIdentity,
    current: SocketIdentity,
)
    ensures
        removable_entry(is_socket, created, current) <==> is_socket && current.device
            == created.device && current.inode == created.inode,
{
}

} // verus!
