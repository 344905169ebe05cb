//! Request and response models plus their bounded wire codecs.
//!
//! The control protocol accepts one authenticated request and returns one
//! bounded supervisor response. Encoding validates service-name safety,
//! generation guards, signal consistency, payload lengths, and typed status
//! fields before bytes cross the socket. Decoding walks the frame in protocol
//! order, rejects unknown versions and codes before later fields, and fails on
//! truncation or trailing bytes.

use vstd::arithmetic::power::*;
use vstd::prelude::*;
use vstd::string::*;
use vstd::utf8::*;

use crate::service_name;
use crate::service_name::{is_safe_service_name, MAX_SERVICE_NAME_BYTES};
use crate::supervisor::machine;
use crate::text;
use crate::text::decode_text;

use super::error::{ProtocolError, ProtocolFault};
use super::operation;
use super::operation::{
    GenerationMatch, Operation, Signal, SignalScope, MAX_FRAME_BYTES, PROTOCOL_VERSION,
};
use super::wire;
use super::wire::{is_magic, push_be, push_bytes, push_magic, Cursor, HEADER_BYTES};

verus! {

/// One authenticated request sent to a single supervisor.
#[derive(Clone, Debug, PartialEq, Eq)]
pub struct Request {
    /// Requested operation.
    pub operation: Operation,
    /// Service name expected at the socket endpoint.
    pub service: String,
    /// Optimistic-concurrency generation condition.
    pub expected_generation: GenerationMatch,
    /// Signal target. Ignored for lifecycle operations.
    pub scope: SignalScope,
    /// Signal carried by [`Operation::Signal`].
    pub signal: Option<Signal>,
}

/// Pure view of a request.
#[verifier::ext_equal]
pub struct RequestModel {
    pub operation: Operation,
    pub service: Seq<char>,
    pub expected_generation: GenerationMatch,
    pub scope: SignalScope,
    pub signal: Option<Signal>,
}

impl View for Request {
    type V = RequestModel;

    open spec fn view(&self) -> RequestModel {
        RequestModel {
            operation: self.operation,
            service: self.service@,
            expected_generation: self.expected_generation,
            scope: self.scope,
            signal: self.signal,
        }
    }
}

/// Why a service name cannot be carried, if it cannot.
pub open spec fn service_name_fault(name: Seq<char>) -> Option<ProtocolFault> {
    if encode_utf8(name).len() > MAX_SERVICE_NAME_BYTES {
        Some(ProtocolFault::NameTooLong)
    } else if !service_name::safe_service_name(name) {
        Some(ProtocolFault::UnsafeServiceName)
    } else {
        None
    }
}

/// Why a request is not acceptable, if it is not.
pub open spec fn request_fault(request: RequestModel) -> Option<ProtocolFault> {
    if service_name_fault(request.service) is Some {
        service_name_fault(request.service)
    } else if request.operation != Operation::Status && request.expected_generation
        == GenerationMatch::Any {
        Some(ProtocolFault::MissingGenerationMatch)
    } else if request.operation == Operation::Signal && request.signal is None {
        Some(ProtocolFault::MissingSignal)
    } else if request.operation != Operation::Signal && request.signal is Some {
        Some(ProtocolFault::UnexpectedSignal)
    } else {
        None
    }
}

/// Protocol number of an optional signal.
pub open spec fn signal_number(signal: Option<Signal>) -> u8 {
    match signal {
        Some(signal) => signal.number(),
        None => 0,
    }
}

/// Wire form of a request.
pub open spec fn request_bytes(request: RequestModel) -> Seq<u8> {
    let name = encode_utf8(request.service);
    wire::magic() + seq![
        PROTOCOL_VERSION,
        request.operation.number(),
        request.scope.number(),
        signal_number(request.signal),
    ] + wire::be_bytes(request.expected_generation.number() as nat, 8) + wire::be_bytes(
        name.len(),
        2,
    ) + name
}

/// Declared name length of a request header.
pub open spec fn declared_length(frame: Seq<u8>) -> nat {
    wire::be_value(frame.subrange(16, 18))
}

/// The request which a complete, consistent frame carries, ignoring request rules.
pub open spec fn framed_request(frame: Seq<u8>) -> RequestModel {
    RequestModel {
        operation: Operation::numbered(frame[5])->0,
        service: decode_utf8(frame.skip(18)),
        expected_generation: GenerationMatch::numbered(
            wire::be_value(frame.subrange(8, 16)) as u64,
        ),
        scope: SignalScope::numbered(frame[6])->0,
        signal: Signal::numbered(frame[7]),
    }
}

/// Meaning of a request frame: fields are checked strictly in protocol order.
pub open spec fn decoded_request(frame: Seq<u8>) -> Result<RequestModel, ProtocolFault> {
    if frame.len() > MAX_FRAME_BYTES {
        Err(ProtocolFault::FrameTooLarge(frame.len() as usize))
    } else if frame.len() < 4 {
        Err(ProtocolFault::Truncated)
    } else if frame.take(4) != wire::magic() {
        Err(ProtocolFault::InvalidMagic)
    } else if frame.len() < 5 {
        Err(ProtocolFault::Truncated)
    } else if frame[4] != PROTOCOL_VERSION {
        Err(ProtocolFault::UnsupportedVersion(frame[4]))
    } else if frame.len() < 6 {
        Err(ProtocolFault::Truncated)
    } else if Operation::numbered(frame[5]) is None {
        Err(ProtocolFault::UnknownOperation(frame[5]))
    } else if frame.len() < 7 {
        Err(ProtocolFault::Truncated)
    } else if SignalScope::numbered(frame[6]) is None {
        Err(ProtocolFault::UnknownScope(frame[6]))
    } else if frame.len() < 8 {
        Err(ProtocolFault::Truncated)
    } else if frame[7] != 0 && Signal::numbered(frame[7]) is None {
        Err(ProtocolFault::UnknownSignal(frame[7]))
    } else if frame.len() < HEADER_BYTES {
        Err(ProtocolFault::Truncated)
    } else if declared_length(frame) > MAX_SERVICE_NAME_BYTES {
        Err(ProtocolFault::NameTooLong)
    } else if frame.len() < HEADER_BYTES + declared_length(frame) {
        Err(ProtocolFault::Truncated)
    } else if frame.len() > HEADER_BYTES + declared_length(frame) {
        Err(ProtocolFault::TrailingBytes)
    } else if !valid_utf8(frame.skip(18)) {
        Err(ProtocolFault::InvalidUtf8(text::utf8_error_text(frame.skip(18))))
    } else {
        match request_fault(framed_request(frame)) {
            Some(fault) => Err(fault),
            None => Ok(framed_request(frame)),
        }
    }
}

fn validate_service_name(name: &str) -> (result: Result<(), ProtocolError>)
    ensures
        match result {
            Ok(()) => service_name_fault(name@) is None,
            Err(error) => service_name_fault(name@) == Some(error@),
        },
{
    if name.as_bytes().len() > MAX_SERVICE_NAME_BYTES {
        return Err(ProtocolError::NameTooLong);
    }
    if is_safe_service_name(name) {
        Ok(())
    } else {
        Err(ProtocolError::UnsafeServiceName)
    }
}

/// Check one request against the protocol's request rules.
pub(crate) fn validate_request(request: &Request) -> (result: Result<(), ProtocolError>)
    ensures
        match result {
            Ok(()) => request_fault(request@) is None,
            Err(error) => request_fault(request@) == Some(error@),
        },
{
    match validate_service_name(request.service.as_str()) {
        Ok(()) => {},
        Err(error) => return Err(error),
    }
    if request.operation != Operation::Status && request.expected_generation
        == GenerationMatch::Any {
        return Err(ProtocolError::MissingGenerationMatch);
    }
    match (request.operation, request.signal) {
        (Operation::Signal, Some(_)) | (Operation::Status, None) => Ok(()),
        (Operation::Signal, None) => Err(ProtocolError::MissingSignal),
        (_, Some(_)) => Err(ProtocolError::UnexpectedSignal),
        (_, None) => Ok(()),
    }
}

impl Request {
    /// Encode a request into a bounded frame.
    ///
    /// # Errors
    ///
    /// Returns an error for an unsafe service name or inconsistent signal fields.
    pub fn encode(&self) -> (result: Result<Vec<u8>, ProtocolError>)
        ensures
            match result {
                Ok(frame) => request_fault(self@) is None && frame@ == request_bytes(self@),
                Err(error) => request_fault(self@) == Some(error@),
            },
    {
        match validate_request(self) {
            Ok(()) => {},
            Err(error) => return Err(error),
        }
        let name = self.service.as_str().as_bytes();
        let mut frame: Vec<u8> = Vec::new();
        push_magic(&mut frame);
        frame.push(PROTOCOL_VERSION);
        frame.push(self.operation.code());
        frame.push(self.scope.code());
        frame.push(match self.signal {
            Some(signal) => signal.code(),
            None => 0,
        });
        push_be(&mut frame, self.expected_generation.encode(), 8);
        push_be(&mut frame, name.len() as u64, 2);
        push_bytes(&mut frame, name);
        assert(frame@ =~= request_bytes(self@));
        Ok(frame)
    }

    /// Decode and validate one complete request frame.
    ///
    /// # Errors
    ///
    /// Returns an error for truncated, oversized, malformed, unsupported, or
    /// internally inconsistent input.
    pub fn decode(frame: &[u8]) -> (result: Result<Self, ProtocolError>)
        ensures
            match result {
                Ok(request) => decoded_request(frame@) == Ok::<_, ProtocolFault>(request@),
                Err(error) => decoded_request(frame@) == Err::<RequestModel, _>(error@),
            },
    {
        if frame.len() > MAX_FRAME_BYTES {
            return Err(ProtocolError::FrameTooLarge(frame.len()));
        }
        let mut cursor = Cursor::new(frame);
        let magic = match cursor.bytes(4) {
            Some(magic) => magic,
            None => return Err(ProtocolError::Truncated),
        };
        if !is_magic(magic) {
            return Err(ProtocolError::InvalidMagic);
        }
        let version: u8 = match cursor.byte() {
            Some(version) => version,
            None => return Err(ProtocolError::Truncated),
        };
        assert(version == frame@[4]);
        if version != PROTOCOL_VERSION {
            return Err(ProtocolError::UnsupportedVersion(version));
        }
        let operation_code: u8 = match cursor.byte() {
            Some(code) => code,
            None => return Err(ProtocolError::Truncated),
        };
        assert(operation_code == frame@[5]);
        let operation = match Operation::from_code(operation_code) {
            Some(operation) => operation,
            None => return Err(ProtocolError::UnknownOperation(operation_code)),
        };
        let scope_code: u8 = match cursor.byte() {
            Some(code) => code,
            None => return Err(ProtocolError::Truncated),
        };
        assert(scope_code == frame@[6]);
        let scope = match SignalScope::from_code(scope_code) {
            Some(scope) => scope,
            None => return Err(ProtocolError::UnknownScope(scope_code)),
        };
        let signal_code: u8 = match cursor.byte() {
            Some(code) => code,
            None => return Err(ProtocolError::Truncated),
        };
        assert(signal_code == frame@[7]);
        let signal = Signal::from_code(signal_code);
        if signal_code != 0 && signal.is_none() {
            return Err(ProtocolError::UnknownSignal(signal_code));
        }
        assert(cursor.remaining() =~= frame@.skip(8));
        let generation_value: u64 = match cursor.number(8) {
            Some(value) => value,
            None => return Err(ProtocolError::Truncated),
        };
        assert(frame@.skip(8).take(8) =~= frame@.subrange(8, 16));
        assert(cursor.remaining() =~= frame@.skip(16));
        let name_length: usize = match cursor.number(2) {
            Some(value) => {
                proof {
                    wire::lemma_wire_widths();
                }
                value as usize
            },
            None => return Err(ProtocolError::Truncated),
        };
        assert(frame@.skip(16).take(2) =~= frame@.subrange(16, 18));
        assert(cursor.remaining() =~= frame@.skip(18));
        if name_length > MAX_SERVICE_NAME_BYTES {
            return Err(ProtocolError::NameTooLong);
        }
        let name_bytes = match cursor.bytes(name_length) {
            Some(bytes) => bytes,
            None => return Err(ProtocolError::Truncated),
        };
        if !cursor.is_empty() {
            return Err(ProtocolError::TrailingBytes);
        }
        assert(name_bytes@ =~= frame@.skip(18));
        let service = match decode_text(name_bytes) {
            Ok(service) => service,
            Err(reason) => return Err(ProtocolError::InvalidUtf8(reason)),
        };
        let request = Request {
            operation,
            service,
            expected_generation: GenerationMatch::decode(generation_value),
            scope,
            signal,
        };
        assert(request@ == framed_request(frame@));
        match validate_request(&request) {
            Ok(()) => Ok(request),
            Err(error) => Err(error),
        }
    }
}

/// A condition which survives the wire: no generation number collides with the
/// two reserved values.
pub open spec fn distinct_on_wire(condition: GenerationMatch) -> bool {
    condition matches GenerationMatch::Exact(generation) ==> 0 < generation.number() < u64::MAX
}

/// Every acceptable request is recovered exactly from its frame.
pub proof fn request_round_trips(request: RequestModel)
    requires
        request_fault(request) is None,
        distinct_on_wire(request.expected_generation),
    ensures
        decoded_request(request_bytes(request)) == Ok::<_, ProtocolFault>(request),
{
    broadcast use {wire::lemma_be_bytes_len, machine::generation_is_its_number};

    let frame = request_bytes(request);
    let name = encode_utf8(request.service);
    let condition = request.expected_generation.number();
    wire::lemma_wire_widths();
    wire::lemma_be_round_trip(condition as nat, 8);
    wire::lemma_be_round_trip(name.len(), 2);
    operation::codes_round_trip(
        request.operation,
        request.scope,
        if request.signal is Some {
            request.signal->0
        } else {
            Signal::User1
        },
    );
    encode_utf8_valid_utf8(request.service);
    encode_utf8_decode_utf8(request.service);
    assert(frame.take(4) =~= wire::magic());
    assert(frame.subrange(8, 16) =~= wire::be_bytes(condition as nat, 8));
    assert(frame.subrange(16, 18) =~= wire::be_bytes(name.len(), 2));
    assert(frame.skip(18) =~= name);
    assert(framed_request(frame) =~= request);
}

/// A frame which decodes is exactly the frame its request encodes to.
pub proof fn request_frames_are_canonical(frame: Seq<u8>)
    requires
        decoded_request(frame) is Ok,
    ensures
        request_bytes(decoded_request(frame)->Ok_0) == frame,
        request_fault(decoded_request(frame)->Ok_0) is None,
        distinct_on_wire(decoded_request(frame)->Ok_0.expected_generation),
{
    broadcast use {wire::lemma_be_bytes_len, machine::generation_numbers_are_identities};

    let request = framed_request(frame);
    let name = frame.skip(18);
    wire::lemma_wire_widths();
    wire::lemma_be_value_bound(frame.subrange(8, 16));
    wire::lemma_be_value_round_trip(frame.subrange(8, 16));
    wire::lemma_be_value_round_trip(frame.subrange(16, 18));
    decode_utf8_encode_utf8(name);
    operation::numbers_round_trip(frame[5]);
    operation::numbers_round_trip(frame[6]);
    operation::numbers_round_trip(frame[7]);
    assert(frame.take(4)[0] == frame[0]);
    assert(frame.take(4)[1] == frame[1]);
    assert(frame.take(4)[2] == frame[2]);
    assert(frame.take(4)[3] == frame[3]);
    let rebuilt = request_bytes(request);
    assert(rebuilt.len() == frame.len());
    assert forall|i: int| 0 <= i < frame.len() implies rebuilt[i] == frame[i] by {
        if 8 <= i < 16 {
            assert(frame.subrange(8, 16)[i - 8] == frame[i]);
        } else if 16 <= i < 18 {
            assert(frame.subrange(16, 18)[i - 16] == frame[i]);
        } else if 18 <= i {
            assert(name[i - 18] == frame[i]);
        }
    }
    assert(rebuilt =~= frame);
}

/// A request is acceptable exactly when its name is safe, every operation but a status
/// request names the generation it expects, and a signal is given exactly to a signal
/// request.
pub proof fn acceptable_requests_are_complete(request: RequestModel)
    ensures
        request_fault(request) is None <==> service_name::safe_service_name(request.service) && (
        request.operation == Operation::Status || request.expected_generation
            != GenerationMatch::Any) && (request.operation == Operation::Signal <==> request.signal
            is Some),
{
}

/// Every request frame spells the protocol name, the version, and one byte each for
/// operation, scope, and signal, before eight bytes of generation, two bytes of length,
/// and the name itself.
pub proof fn request_fields_have_fixed_places(request: RequestModel)
    ensures
        ({
            let frame = request_bytes(request);
            let name = encode_utf8(request.service);
            &&& frame.len() == 18 + name.len()
            &&& frame[0] == 0x49 && frame[1] == 0x4d && frame[2] == 0x4d && frame[3] == 0x4f
            &&& frame[4] == 1
            &&& Operation::numbered(frame[5]) == Some(request.operation)
            &&& SignalScope::numbered(frame[6]) == Some(request.scope)
            &&& Signal::numbered(frame[7]) == request.signal
            &&& wire::be_value(frame.subrange(8, 16)) == request.expected_generation.number()
            &&& name.len() < 0x1_0000 ==> wire::be_value(frame.subrange(16, 18)) == name.len()
            &&& frame.skip(18) == name
        }),
{
    broadcast use wire::lemma_be_bytes_len;

    let frame = request_bytes(request);
    let name = encode_utf8(request.service);
    let condition = request.expected_generation.number();
    wire::lemma_wire_widths();
    wire::lemma_be_round_trip(condition as nat, 8);
    if name.len() < 0x1_0000 {
        wire::lemma_be_round_trip(name.len(), 2);
    }
    assert(frame.subrange(8, 16) =~= wire::be_bytes(condition as nat, 8));
    assert(frame.subrange(16, 18) =~= wire::be_bytes(name.len(), 2));
    assert(frame.skip(18) =~= name);
}

/// No frame is accepted which is longer than the protocol allows, carries another
/// version, or whose declared length is not the length of what follows.
pub proof fn accepted_requests_are_framed(frame: Seq<u8>)
    requires
        decoded_request(frame) is Ok,
    ensures
        18 < frame.len() <= 18 + 255,
        frame[0] == 0x49 && frame[1] == 0x4d && frame[2] == 0x4d && frame[3] == 0x4f,
        frame[4] == 1,
        1 <= frame[5] <= 8,
        1 <= frame[6] <= 2,
        frame[7] <= 13,
        (frame[5] == 8) == (frame[7] != 0),
        wire::be_value(frame.subrange(16, 18)) == frame.len() - 18,
{
    assert(frame.take(4)[0] == 73 && frame.take(4)[1] == 77 && frame.take(4)[2] == 77
        && frame.take(4)[3] == 79);
    if frame.len() == 18 {
        assert(frame.skip(18) =~= Seq::empty());
        assert(decode_utf8(frame.skip(18)).len() == 0);
    }
}

} // verus!
