//! Control protocol, decision, and server policy.

use immortal_core::control::server::{
    accept_reaction, is_shortage, local_accept_reaction, may_remove_socket, permit_bind,
    unauthorized_response, validate_bound_socket, validate_socket_parent, validate_socket_path,
    AcceptReaction, PathEntry, ShortageCodes, SocketIdentity, SocketParent,
};
use immortal_core::control::transport::payload_length;
use immortal_core::control::{
    accept_error_is_exhaustion, accept_error_is_transient, decide_request, peer_is_authorized,
    AcceptError, ControlEffect, GenerationMatch, Operation, ProtocolError, Request, Response,
    ResponseCode, Signal, SignalScope, StopCompletion, TransportError, MAX_FRAME_BYTES,
    PROTOCOL_VERSION,
};
use immortal_core::fault::{Fault, FaultKind};
use immortal_core::path::UnixPath;
use immortal_core::service_name::is_safe_service_name;
use immortal_core::status::{
    LastResult, LoggerStatus, ReadinessStatus, ServiceState, StatusSnapshot, MAX_STATUS_ARGUMENTS,
};
use immortal_core::supervisor::{
    DesiredState, FailureReason, Generation, RestartDecision, StateMachine, SupervisorState,
    TransitionError,
};

fn report(error: ProtocolError) -> String {
    error.message()
}

fn refused(error: TransitionError) -> String {
    format!("{error:?}")
}

#[test]
fn all_signal_names_round_trip() -> Result<(), String> {
    for name in [
        "usr1", "usr2", "alrm", "cont", "hup", "int", "kill", "ttin", "ttou", "quit", "stop",
        "term", "winch",
    ] {
        let signal = Signal::from_name(name).ok_or(ProtocolError::UnknownSignal(u8::MAX)).map_err(report)?;
        let request = Request {
            operation: Operation::Signal,
            service: "api.worker-1".to_owned(),
            expected_generation: GenerationMatch::Exact(Generation::from_protocol(42)),
            scope: SignalScope::Group,
            signal: Some(signal),
        };
        assert_eq!(Request::decode(&request.encode().map_err(report)?).map_err(report)?, request);
        assert_eq!(signal.name(), name);
    }
    Ok(())
}

#[test]
fn status_is_valid_before_the_first_child() {
    let mut machine = StateMachine::default();
    let decision = decide_request(
        "api",
        &mut machine,
        &Request {
            operation: Operation::Status,
            service: "api".to_owned(),
            expected_generation: GenerationMatch::Any,
            scope: SignalScope::Main,
            signal: None,
        },
    );
    assert_eq!(decision.response.code, ResponseCode::Success);
    assert_eq!(decision.response.generation, None);
    assert_eq!(decision.response.message, "desired=up state=down");
    assert_eq!(decision.effect, ControlEffect::Nothing);
}

#[test]
fn restart_is_bound_to_the_exact_live_generation() -> Result<(), String> {
    let mut machine = ready_machine()?;
    let generation = machine
        .state()
        .live_generation()
        .ok_or("ready machine has no generation")?;
    let stale = decide_request(
        "api",
        &mut machine,
        &Request {
            operation: Operation::Restart,
            service: "api".to_owned(),
            expected_generation: GenerationMatch::NoChild,
            scope: SignalScope::Main,
            signal: None,
        },
    );
    assert_eq!(stale.response.code, ResponseCode::Conflict);
    assert_eq!(stale.effect, ControlEffect::Nothing);

    let accepted = decide_request(
        "api",
        &mut machine,
        &Request {
            operation: Operation::Restart,
            service: "api".to_owned(),
            expected_generation: GenerationMatch::Exact(generation),
            scope: SignalScope::Main,
            signal: None,
        },
    );
    assert_eq!(accepted.response.code, ResponseCode::Success);
    assert_eq!(machine.desired(), DesiredState::Up);
    assert_eq!(
        accepted.effect,
        ControlEffect::StopGroup {
            generation,
            after: StopCompletion::Restart,
        }
    );
    Ok(())
}

#[test]
fn signal_requires_a_live_generation() {
    let mut machine = StateMachine::default();
    let decision = decide_request(
        "api",
        &mut machine,
        &Request {
            operation: Operation::Signal,
            service: "api".to_owned(),
            expected_generation: GenerationMatch::NoChild,
            scope: SignalScope::Main,
            signal: Some(Signal::Hangup),
        },
    );
    assert_eq!(decision.response.code, ResponseCode::Invalid);
    assert_eq!(decision.effect, ControlEffect::Nothing);
}

#[test]
fn manual_restart_resets_configured_failure() -> Result<(), String> {
    let mut machine = StateMachine::default();
    machine.begin_start().map_err(refused)?;
    let generation = machine.preconditions_ready().map_err(refused)?;
    machine.child_started(generation).map_err(refused)?;
    machine.child_reaped(generation, RestartDecision::Fail(FailureReason::RetryLimit)).map_err(refused)?;
    assert!(matches!(machine.state(), SupervisorState::Failed(_)));

    let decision = decide_request(
        "api",
        &mut machine,
        &Request {
            operation: Operation::Restart,
            service: "api".to_owned(),
            expected_generation: GenerationMatch::NoChild,
            scope: SignalScope::Main,
            signal: None,
        },
    );
    assert_eq!(machine.state(), SupervisorState::Down);
    assert_eq!(machine.desired(), DesiredState::Up);
    assert_eq!(decision.effect, ControlEffect::BeginStart);
    Ok(())
}

fn ready_machine() -> Result<StateMachine, String> {
    let mut machine = StateMachine::default();
    machine.begin_start().map_err(refused)?;
    let generation = machine.preconditions_ready().map_err(refused)?;
    machine.child_started(generation).map_err(refused)?;
    machine.child_ready(generation).map_err(refused)?;
    Ok(machine)
}

#[test]
fn every_lifecycle_operation_round_trips() -> Result<(), String> {
    for operation in [
        Operation::Status,
        Operation::Start,
        Operation::Stop,
        Operation::Restart,
        Operation::Once,
        Operation::Exit,
        Operation::Halt,
    ] {
        let request = Request {
            operation,
            service: "api".to_owned(),
            expected_generation: if operation == Operation::Status {
                GenerationMatch::Any
            } else {
                GenerationMatch::NoChild
            },
            scope: SignalScope::Main,
            signal: None,
        };
        assert_eq!(Request::decode(&request.encode().map_err(report)?).map_err(report)?, request);
    }
    Ok(())
}

#[test]
fn short_responses_are_truncated_and_long_ones_trail() -> Result<(), String> {
    let mut frame = b"IMMO".to_vec();
    frame.extend_from_slice(&[1, 0, 0, 0]);
    frame.extend_from_slice(&[0; 8]);
    frame.extend_from_slice(&[0, 4, 0, 2]);
    frame.push(b'h');
    assert!(matches!(
        Response::decode(&frame),
        Err(ProtocolError::Truncated)
    ));
    frame.push(b'i');
    assert_eq!(Response::decode(&frame).map_err(report)?.message, "hi");
    frame.push(b'!');
    assert!(matches!(
        Response::decode(&frame),
        Err(ProtocolError::TrailingBytes)
    ));
    Ok(())
}

#[test]
fn rejects_oversized_truncated_and_trailing_frames() -> Result<(), String> {
    assert!(matches!(
        Request::decode(&vec![0; MAX_FRAME_BYTES + 1]),
        Err(ProtocolError::FrameTooLarge(_))
    ));
    assert!(matches!(
        Request::decode(b"IMMO"),
        Err(ProtocolError::Truncated)
    ));
    let mut valid = Request {
        operation: Operation::Status,
        service: "api".to_owned(),
        expected_generation: GenerationMatch::NoChild,
        scope: SignalScope::Main,
        signal: None,
    }
    .encode().map_err(report)?;
    valid.push(0);
    assert!(matches!(
        Request::decode(&valid),
        Err(ProtocolError::TrailingBytes)
    ));
    Ok(())
}

#[test]
fn rejects_unknown_version_operation_scope_and_signal() -> Result<(), String> {
    let request = Request {
        operation: Operation::Signal,
        service: "api".to_owned(),
        expected_generation: GenerationMatch::NoChild,
        scope: SignalScope::Main,
        signal: Some(Signal::Hangup),
    };
    let frame = request.encode().map_err(report)?;

    let mut version = frame.clone();
    if let Some(byte) = version.get_mut(4) {
        *byte = PROTOCOL_VERSION.saturating_add(1);
    }
    assert!(matches!(
        Request::decode(&version),
        Err(ProtocolError::UnsupportedVersion(_))
    ));

    let mut operation = frame.clone();
    if let Some(byte) = operation.get_mut(5) {
        *byte = u8::MAX;
    }
    assert!(matches!(
        Request::decode(&operation),
        Err(ProtocolError::UnknownOperation(_))
    ));

    let mut scope = frame.clone();
    if let Some(byte) = scope.get_mut(6) {
        *byte = u8::MAX;
    }
    assert!(matches!(
        Request::decode(&scope),
        Err(ProtocolError::UnknownScope(_))
    ));

    let mut signal = frame;
    if let Some(byte) = signal.get_mut(7) {
        *byte = u8::MAX;
    }
    assert!(matches!(
        Request::decode(&signal),
        Err(ProtocolError::UnknownSignal(_))
    ));
    Ok(())
}

#[test]
fn rejects_unsafe_names_and_inconsistent_signal_fields() {
    let unsafe_name = Request {
        operation: Operation::Status,
        service: "../api".to_owned(),
        expected_generation: GenerationMatch::Any,
        scope: SignalScope::Main,
        signal: None,
    };
    assert!(matches!(
        unsafe_name.encode(),
        Err(ProtocolError::UnsafeServiceName)
    ));

    let missing = Request {
        operation: Operation::Signal,
        service: "api".to_owned(),
        expected_generation: GenerationMatch::NoChild,
        scope: SignalScope::Main,
        signal: None,
    };
    assert!(matches!(
        missing.encode(),
        Err(ProtocolError::MissingSignal)
    ));

    let unguarded = Request {
        operation: Operation::Restart,
        service: "api".to_owned(),
        expected_generation: GenerationMatch::Any,
        scope: SignalScope::Main,
        signal: None,
    };
    assert!(matches!(
        unguarded.encode(),
        Err(ProtocolError::MissingGenerationMatch)
    ));
}

#[test]
fn bounded_response_round_trips() -> Result<(), String> {
    for code in [
        ResponseCode::Success,
        ResponseCode::NotFound,
        ResponseCode::PermissionDenied,
        ResponseCode::Conflict,
        ResponseCode::Invalid,
        ResponseCode::Internal,
    ] {
        let response = Response {
            code,
            generation: Some(Generation::from_protocol(7)),
            message: "state=ready".to_owned(),
            status: None,
        };
        assert_eq!(Response::decode(&response.encode().map_err(report)?).map_err(report)?, response);
    }
    Ok(())
}

#[test]
fn typed_status_payload_round_trips_every_field() -> Result<(), String> {
    let status = StatusSnapshot {
        supervisor_pid: Some(101),
        main_pid: Some(202),
        desired: DesiredState::Up,
        state: ServiceState::Backoff,
        readiness: ReadinessStatus::TimedOut,
        uptime_seconds: Some(17),
        down_seconds: Some(3),
        starts: 9,
        failures: 4,
        last_result: Some(LastResult::Signaled(9)),
        backoff_seconds: Some(8),
        logger: LoggerStatus::Failed,
        command: vec!["/usr/bin/api".to_owned(), "argument with spaces".to_owned()],
    };
    let response = Response {
        code: ResponseCode::Success,
        generation: Some(Generation::from_protocol(7)),
        message: "status".to_owned(),
        status: Some(status),
    };
    assert_eq!(Response::decode(&response.encode().map_err(report)?).map_err(report)?, response);
    Ok(())
}

#[test]
fn typed_status_rejects_unknown_payload_and_unbounded_arguments() -> Result<(), String> {
    let response = Response {
        code: ResponseCode::Success,
        generation: None,
        message: String::new(),
        status: None,
    };
    let mut unknown = response.encode().map_err(report)?;
    if let Some(payload) = unknown.get_mut(6) {
        *payload = u8::MAX;
    }
    assert!(matches!(
        Response::decode(&unknown),
        Err(ProtocolError::UnknownResponsePayload(_))
    ));

    let mut status = StatusSnapshot::from_machine(&StateMachine::default());
    status.command = vec!["argument".to_owned(); MAX_STATUS_ARGUMENTS + 1];
    assert!(matches!(
        (Response {
            code: ResponseCode::Success,
            generation: None,
            message: String::new(),
            status: Some(status),
        })
        .encode(),
        Err(ProtocolError::TooManyStatusArguments)
    ));
    Ok(())
}

#[test]
fn response_rejects_oversized_and_malformed_data() {
    let oversized = Response {
        code: ResponseCode::Success,
        generation: None,
        message: "x".repeat(MAX_FRAME_BYTES),
        status: None,
    };
    assert!(matches!(
        oversized.encode(),
        Err(ProtocolError::MessageTooLong | ProtocolError::FrameTooLarge(_))
    ));
    assert!(matches!(
        Response::decode(b"IMMO"),
        Err(ProtocolError::Truncated)
    ));
}

#[test]
fn peer_policy_allows_only_root_or_owner() {
    assert!(peer_is_authorized(0, 1000));
    assert!(peer_is_authorized(1000, 1000));
    assert!(!peer_is_authorized(1001, 1000));
}

fn os_fault(errno: i32) -> Fault {
    Fault {
        kind: FaultKind::Other,
        os_error: Some(errno),
        text: format!("os error {errno}"),
    }
}

#[test]
fn accept_classification_separates_peer_and_resource_faults_from_listener_faults() {
    for kind in [
        FaultKind::ConnectionAborted,
        FaultKind::ConnectionReset,
        FaultKind::Interrupted,
        FaultKind::WouldBlock,
    ] {
        let error = Fault::new(kind, "peer or scheduling fault");
        assert!(
            accept_error_is_transient(&error),
            "{kind:?} must be transient"
        );
        assert!(
            !accept_error_is_exhaustion(&error),
            "{kind:?} must not be paced as exhaustion"
        );
    }

    for errno in [libc::EMFILE, libc::ENFILE, libc::ENOBUFS, libc::ENOMEM] {
        let error = os_fault(errno);
        assert!(
            accept_error_is_transient(&error),
            "errno {errno} must be transient"
        );
        assert!(
            accept_error_is_exhaustion(&error),
            "errno {errno} must be paced"
        );
    }

    for errno in [libc::EBADF, libc::EINVAL, libc::ENOTSOCK, libc::EFAULT] {
        let error = os_fault(errno);
        assert!(
            !accept_error_is_transient(&error),
            "errno {errno} must stay fatal"
        );
    }
}

#[test]
fn accept_reactions_follow_the_failure() {
    let codes = ShortageCodes {
        process_descriptors: 24,
        system_descriptors: 23,
        buffers: 105,
        memory: 12,
    };
    assert!(is_shortage(&os_fault(23), codes));
    assert!(!is_shortage(&os_fault(9), codes));
    assert_eq!(
        accept_reaction(&AcceptError::Io(os_fault(105)), codes),
        AcceptReaction::Pause { millis: 100 }
    );
    assert_eq!(
        accept_reaction(&AcceptError::Io(os_fault(9)), codes),
        AcceptReaction::Stop
    );
    assert_eq!(
        accept_reaction(&AcceptError::ShuttingDown, codes),
        AcceptReaction::Stop
    );
    for error in [
        AcceptError::Timeout,
        AcceptError::PermissionDenied { uid: 7 },
        AcceptError::PeerCredentials(os_fault(9)),
        AcceptError::Io(Fault::new(FaultKind::ConnectionReset, "reset")),
    ] {
        assert_eq!(accept_reaction(&error, codes), AcceptReaction::Continue);
    }
    assert_eq!(
        local_accept_reaction(&AcceptError::Io(os_fault(libc::EMFILE))),
        AcceptReaction::Pause { millis: 100 }
    );
    assert_eq!(
        local_accept_reaction(&AcceptError::Io(os_fault(libc::EBADF))),
        AcceptReaction::Stop
    );
}

#[test]
fn accept_failures_are_described() {
    assert_eq!(
        AcceptError::Io(Fault::new(FaultKind::Other, "broken")).message(),
        "unable to accept control connection: broken"
    );
    assert_eq!(
        AcceptError::PeerCredentials(Fault::new(FaultKind::Other, "gone")).message(),
        "unable to authenticate control peer: gone"
    );
    assert_eq!(
        AcceptError::Timeout.message(),
        "control accept deadline exceeded"
    );
    assert_eq!(
        AcceptError::ShuttingDown.message(),
        "control listener is shutting down"
    );
    assert_eq!(
        AcceptError::PermissionDenied { uid: 1001 }.message(),
        "control peer UID 1001 is not authorized"
    );
}

#[test]
fn unauthorized_peers_are_told_why() -> Result<(), String> {
    let response = unauthorized_response();
    assert_eq!(response.code, ResponseCode::PermissionDenied);
    assert_eq!(response.message, "control peer is not authorized");
    assert_eq!(
        Response::decode(&response.encode().map_err(report)?).map_err(report)?,
        response
    );
    Ok(())
}

#[test]
fn declared_payloads_are_bounded_before_they_are_read() -> Result<(), String> {
    let frame = Request {
        operation: Operation::Status,
        service: "api".to_owned(),
        expected_generation: GenerationMatch::Any,
        scope: SignalScope::Main,
        signal: None,
    }
    .encode()
    .map_err(report)?;
    let length = payload_length(&frame[..18]).map_err(report)?;
    assert_eq!(length, frame.len() - 18);
    let mut oversized = frame[..18].to_vec();
    oversized[16] = 0xff;
    oversized[17] = 0xff;
    assert!(matches!(
        payload_length(&oversized),
        Err(ProtocolError::FrameTooLarge(actual)) if actual == 18 + 65_535
    ));
    assert!(matches!(
        payload_length(&frame[..17]),
        Err(ProtocolError::Truncated)
    ));
    Ok(())
}

#[test]
fn listeners_refuse_unsafe_paths_and_parents() {
    assert!(validate_socket_path(&UnixPath::from_text("relative/control.sock")).is_err());
    assert!(validate_socket_path(&UnixPath::from_text("/run/api/control.sock")).is_ok());
    let parent = SocketParent {
        canonical: true,
        directory: true,
        symlink: false,
        mode: 0o700,
    };
    assert!(validate_socket_parent(parent).is_ok());
    for unsafe_parent in [
        SocketParent { canonical: false, ..parent },
        SocketParent { directory: false, ..parent },
        SocketParent { symlink: true, ..parent },
        SocketParent { mode: 0o777, ..parent },
    ] {
        assert!(validate_socket_parent(unsafe_parent).is_err());
    }
    let missing = Fault::new(FaultKind::NotFound, "missing");
    assert!(permit_bind(4, PathEntry::Unavailable(missing.clone())).is_ok());
    assert!(permit_bind(0, PathEntry::Unavailable(missing)).is_err());
    assert!(permit_bind(4, PathEntry::Present).is_err_and(|error| error.kind
        == FaultKind::AlreadyExists));
    assert!(validate_bound_socket(true, 1000, 1000).is_ok());
    assert!(validate_bound_socket(false, 1000, 1000).is_err());
    assert!(validate_bound_socket(true, 1001, 1000).is_err());
}

#[test]
fn replaced_sockets_are_never_removed() {
    let bound = SocketIdentity { device: 1, inode: 2 };
    let replacement = SocketIdentity { device: 1, inode: 3 };
    assert!(may_remove_socket(true, bound, bound));
    assert!(!may_remove_socket(true, bound, replacement));
    assert!(!may_remove_socket(false, bound, bound));
}

#[test]
fn protocol_failures_are_described() {
    assert_eq!(
        ProtocolError::FrameTooLarge(70000).message(),
        "control frame is 70000 bytes; limit is 65536 bytes"
    );
    assert_eq!(
        TransportError::Timeout.message(),
        "control transport deadline exceeded"
    );
}

#[test]
fn service_names_stay_within_one_directory() {
    for name in ["api", "api.worker-1", "a"] {
        assert!(is_safe_service_name(name), "{name}");
    }
    for name in ["", ".", "..", "../api", "a/b", "a b", "-a\0"] {
        assert!(!is_safe_service_name(name), "{name}");
    }
}

fn status_request() -> Request {
    Request {
        operation: Operation::Status,
        service: "api".to_owned(),
        expected_generation: GenerationMatch::Any,
        scope: SignalScope::Main,
        signal: None,
    }
}

#[test]
fn each_malformed_request_is_named() -> Result<(), String> {
    let frame = status_request().encode().map_err(report)?;

    let mut magic = frame.clone();
    magic[0] = b'X';
    assert!(matches!(
        Request::decode(&magic),
        Err(ProtocolError::InvalidMagic)
    ));

    let mut name = frame.clone();
    name[18] = 0xff;
    match Request::decode(&name) {
        Err(ProtocolError::InvalidUtf8(reason)) => assert_eq!(
            reason,
            "invalid utf-8 sequence of 1 bytes from index 0"
        ),
        other => panic!("unexpected result {other:?}"),
    }

    let mut unsafe_name = frame;
    unsafe_name[18] = b'/';
    assert!(matches!(
        Request::decode(&unsafe_name),
        Err(ProtocolError::UnsafeServiceName)
    ));

    let mut unexpected = status_request();
    unexpected.signal = Some(Signal::Kill);
    assert!(matches!(
        unexpected.encode(),
        Err(ProtocolError::UnexpectedSignal)
    ));

    let mut long = status_request();
    long.service = "a".repeat(256);
    assert!(matches!(
        long.encode(),
        Err(ProtocolError::NameTooLong | ProtocolError::UnsafeServiceName)
    ));
    long.service = "a".repeat(255);
    assert_eq!(
        Request::decode(&long.encode().map_err(report)?).map_err(report)?,
        long
    );
    Ok(())
}

#[test]
fn each_malformed_response_is_named() -> Result<(), String> {
    let mut response = Response {
        code: ResponseCode::Success,
        generation: None,
        message: String::new(),
        status: None,
    };
    let frame = response.encode().map_err(report)?;
    let mut code = frame.clone();
    code[5] = u8::MAX;
    assert!(matches!(
        Response::decode(&code),
        Err(ProtocolError::UnknownResponseCode(u8::MAX))
    ));
    let mut reserved = frame;
    reserved[7] = 1;
    assert!(matches!(
        Response::decode(&reserved),
        Err(ProtocolError::InvalidReservedBits)
    ));

    let mut status = StatusSnapshot::from_machine(&StateMachine::default());
    status.command = vec!["x".repeat(65536)];
    response.status = Some(status);
    assert!(matches!(
        response.encode(),
        Err(ProtocolError::StatusArgumentTooLong)
    ));
    Ok(())
}

#[test]
fn transport_failures_are_described() {
    assert_eq!(
        TransportError::Io(Fault::new(FaultKind::BrokenPipe, "pipe")).message(),
        "control transport I/O failed: pipe"
    );
    assert_eq!(
        TransportError::Protocol(ProtocolError::Truncated).message(),
        "truncated control frame"
    );
}

#[test]
fn codes_read_back() {
    for code in 0..=u8::MAX {
        if let Some(signal) = Signal::from_code(code) {
            assert_eq!(signal.code(), code);
            assert_eq!(Signal::from_name(signal.name()), Some(signal));
        }
        if let Some(operation) = Operation::from_code(code) {
            assert_eq!(operation.code(), code);
        }
        if let Some(scope) = SignalScope::from_code(code) {
            assert_eq!(scope.code(), code);
        }
        if let Some(category) = ResponseCode::from_code(code) {
            assert_eq!(category.code(), code);
        }
    }
    assert_eq!(Signal::from_name("TERM"), Some(Signal::Terminate));
    assert_eq!(Signal::from_name("nope"), None);
}
