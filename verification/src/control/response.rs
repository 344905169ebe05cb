//! Supervisor response model and its bounded wire codec.
//!
//! Decoding walks the frame in protocol order, rejects unknown versions and
//! codes before later fields, and fails on truncation or trailing bytes.

use vstd::arithmetic::power::*;
use vstd::prelude::*;
use vstd::string::*;
use vstd::utf8::*;

use crate::status::{StatusModel, StatusSnapshot};
use crate::supervisor::machine;
use crate::supervisor::Generation;

use super::error::{ProtocolError, ProtocolFault};
use super::operation::{MAX_FRAME_BYTES, PROTOCOL_VERSION};
use super::status_codec;
use super::status_codec::{decode_argument, decode_status, encode_status};
use super::status_laws;
use super::wire;
use super::wire::{
    is_magic, push_be, push_bytes, push_magic, Cursor, HEADER_BYTES, RESPONSE_PAYLOAD_NONE,
    RESPONSE_PAYLOAD_STATUS,
};

verus! {

/// Stable result category returned by the privileged supervisor.
#[derive(Clone, Copy, Debug, PartialEq, Eq, Structural)]
pub enum ResponseCode {
    /// Operation completed successfully.
    Success,
    /// Requested service or live child does not exist.
    NotFound,
    /// Peer credentials do not authorize this operation.
    PermissionDenied,
    /// Expected generation or desired state conflicts with current state.
    Conflict,
    /// Request is well-framed but invalid for the current state.
    Invalid,
    /// Supervisor encountered an internal operating-system failure.
    Internal,
}

impl ResponseCode {
    /// Protocol number of each category.
    pub open spec fn number(self) -> u8 {
        match self {
            ResponseCode::Success => 0,
            ResponseCode::NotFound => 1,
            ResponseCode::PermissionDenied => 2,
            ResponseCode::Conflict => 3,
            ResponseCode::Invalid => 4,
            ResponseCode::Internal => 5,
        }
    }

    /// The category with a protocol number.
    pub open spec fn numbered(code: u8) -> Option<ResponseCode> {
        if code == 0 {
            Some(ResponseCode::Success)
        } else if code == 1 {
            Some(ResponseCode::NotFound)
        } else if code == 2 {
            Some(ResponseCode::PermissionDenied)
        } else if code == 3 {
            Some(ResponseCode::Conflict)
        } else if code == 4 {
            Some(ResponseCode::Invalid)
        } else if code == 5 {
            Some(ResponseCode::Internal)
        } else {
            None
        }
    }

    /// Stable lowercase spelling of each category.
    pub open spec fn spelling(self) -> Seq<char> {
        match self {
            ResponseCode::Success => "ok"@,
            ResponseCode::NotFound => "not-found"@,
            ResponseCode::PermissionDenied => "permission-denied"@,
            ResponseCode::Conflict => "conflict"@,
            ResponseCode::Invalid => "invalid"@,
            ResponseCode::Internal => "internal"@,
        }
    }

    /// Stable lowercase name used by table and JSON clients.
    #[must_use]
    pub fn name(self) -> (name: &'static str)
        ensures
            name@ == self.spelling(),
    {
        match self {
            ResponseCode::Success => "ok",
            ResponseCode::NotFound => "not-found",
            ResponseCode::PermissionDenied => "permission-denied",
            ResponseCode::Conflict => "conflict",
            ResponseCode::Invalid => "invalid",
            ResponseCode::Internal => "internal",
        }
    }

    /// Whether the server completed the request successfully.
    #[must_use]
    pub fn is_success(self) -> (success: bool)
        ensures
            success == (self == ResponseCode::Success),
    {
        matches!(self, ResponseCode::Success)
    }

    /// Protocol number.
    #[must_use]
    pub fn code(self) -> (code: u8)
        ensures
            code == self.number(),
    {
        match self {
            ResponseCode::Success => 0,
            ResponseCode::NotFound => 1,
            ResponseCode::PermissionDenied => 2,
            ResponseCode::Conflict => 3,
            ResponseCode::Invalid => 4,
            ResponseCode::Internal => 5,
        }
    }

    /// The category with a protocol number.
    #[must_use]
    pub fn from_code(code: u8) -> (category: Option<Self>)
        ensures
            category == ResponseCode::numbered(code),
    {
        match code {
            0 => Some(ResponseCode::Success),
            1 => Some(ResponseCode::NotFound),
            2 => Some(ResponseCode::PermissionDenied),
            3 => Some(ResponseCode::Conflict),
            4 => Some(ResponseCode::Invalid),
            5 => Some(ResponseCode::Internal),
            _ => None,
        }
    }
}

/// One bounded supervisor response.
#[derive(Clone, Debug, PartialEq, Eq)]
pub struct Response {
    /// Stable result category.
    pub code: ResponseCode,
    /// Generation observed after processing the request.
    pub generation: Option<Generation>,
    /// Bounded UTF-8 diagnostic or status summary.
    pub message: String,
    /// Typed status payload, present only for successful status operations.
    pub status: Option<StatusSnapshot>,
}

/// Pure view of a response.
#[verifier::ext_equal]
pub struct ResponseModel {
    pub code: ResponseCode,
    pub generation: Option<Generation>,
    pub message: Seq<char>,
    pub status: Option<StatusModel>,
}

impl View for Response {
    type V = ResponseModel;

    open spec fn view(&self) -> ResponseModel {
        ResponseModel {
            code: self.code,
            generation: self.generation,
            message: self.message@,
            status: match self.status {
                Some(status) => Some(status@),
                None => None,
            },
        }
    }
}

/// Wire number of an optional generation.
pub open spec fn generation_number(generation: Option<Generation>) -> u64 {
    match generation {
        Some(generation) => generation.number(),
        None => 0,
    }
}

/// Payload tag of a response.
pub open spec fn payload_tag(response: ResponseModel) -> u8 {
    if response.status is Some {
        RESPONSE_PAYLOAD_STATUS
    } else {
        RESPONSE_PAYLOAD_NONE
    }
}

/// Bytes of an optional status.
pub open spec fn optional_status(status: Option<StatusModel>) -> Seq<u8> {
    match status {
        Some(status) => status_codec::status_bytes(status),
        None => Seq::empty(),
    }
}

/// Bytes behind the header: the message, then the optional status.
pub open spec fn payload_bytes(response: ResponseModel) -> Seq<u8> {
    status_codec::argument_bytes(response.message) + optional_status(response.status)
}

/// Header in front of a payload of a given length.
pub open spec fn header_bytes(response: ResponseModel, length: nat) -> Seq<u8> {
    wire::magic() + seq![PROTOCOL_VERSION, response.code.number(), payload_tag(response), 0u8]
        + wire::be_bytes(generation_number(response.generation) as nat, 8) + wire::be_bytes(
        length,
        2,
    )
}

/// Wire form of a response.
pub open spec fn response_bytes(response: ResponseModel) -> Seq<u8> {
    header_bytes(response, payload_bytes(response).len()) + payload_bytes(response)
}

/// Why a response cannot be carried, if it cannot.
pub open spec fn response_fault(response: ResponseModel) -> Option<ProtocolFault> {
    let length = HEADER_BYTES + payload_bytes(response).len();
    if encode_utf8(response.message).len() > 0xffff {
        Some(ProtocolFault::MessageTooLong)
    } else if response.status matches Some(status) && status_codec::status_fault(status) is Some {
        status_codec::status_fault(response.status->0)
    } else if length > MAX_FRAME_BYTES {
        Some(ProtocolFault::FrameTooLarge(length as usize))
    } else {
        None
    }
}

/// Generation carried by a response header.
pub open spec fn framed_generation(frame: Seq<u8>) -> Option<Generation> {
    let value = wire::be_value(frame.subrange(8, 16)) as u64;
    if value == 0 {
        None
    } else {
        Some(Generation::of(value))
    }
}

/// Meaning of the bytes behind a response header.
pub open spec fn parse_payload(bytes: Seq<u8>, tag: u8) -> Result<
    (Seq<char>, Option<StatusModel>),
    ProtocolFault,
> {
    match status_codec::parse_argument(bytes) {
        Err(fault) => Err(fault),
        Ok((message, rest)) => if tag == RESPONSE_PAYLOAD_STATUS {
            match status_codec::parse_status(rest) {
                Err(fault) => Err(fault),
                Ok((status, end)) => if end.len() > 0 {
                    Err(ProtocolFault::TrailingBytes)
                } else {
                    Ok((message, Some(status)))
                },
            }
        } else if rest.len() > 0 {
            Err(ProtocolFault::TrailingBytes)
        } else {
            Ok((message, None))
        },
    }
}

/// Meaning of a response frame: fields are checked strictly in protocol order.
pub open spec fn decoded_response(frame: Seq<u8>) -> Result<ResponseModel, ProtocolFault> {
    if frame.len() > MAX_FRAME_BYTES {
        Err(ProtocolFault::FrameTooLarge(frame.len() as usize))
    } else if frame.len() < 4 {
        Err(ProtocolFault::Truncated)
    } else if frame.take(4) != wire::magic() {
        Err(ProtocolFault::InvalidMagic)
    } else if frame.len() < 5 {
        Err(ProtocolFault::Truncated)
    } else if frame[4] != PROTOCOL_VERSION {
        Err(ProtocolFault::UnsupportedVersion(frame[4]))
    } else if frame.len() < 6 {
        Err(ProtocolFault::Truncated)
    } else if ResponseCode::numbered(frame[5]) is None {
        Err(ProtocolFault::UnknownResponseCode(frame[5]))
    } else if frame.len() < 7 {
        Err(ProtocolFault::Truncated)
    } else if frame[6] != RESPONSE_PAYLOAD_NONE && frame[6] != RESPONSE_PAYLOAD_STATUS {
        Err(ProtocolFault::UnknownResponsePayload(frame[6]))
    } else if frame.len() < 8 {
        Err(ProtocolFault::Truncated)
    } else if frame[7] != 0 {
        Err(ProtocolFault::InvalidReservedBits)
    } else if frame.len() < HEADER_BYTES {
        Err(ProtocolFault::Truncated)
    } else if frame.len() < HEADER_BYTES + wire::be_value(frame.subrange(16, 18)) {
        Err(ProtocolFault::Truncated)
    } else if frame.len() > HEADER_BYTES + wire::be_value(frame.subrange(16, 18)) {
        Err(ProtocolFault::TrailingBytes)
    } else {
        match parse_payload(frame.skip(18), frame[6]) {
            Err(fault) => Err(fault),
            Ok((message, status)) => Ok(
                ResponseModel {
                    code: ResponseCode::numbered(frame[5])->0,
                    generation: framed_generation(frame),
                    message,
                    status,
                },
            ),
        }
    }
}

impl Response {
    /// Encode one complete bounded response frame.
    ///
    /// # Errors
    ///
    /// Returns an error if the message or the typed status cannot fit in the
    /// protocol frame.
    pub fn encode(&self) -> (result: Result<Vec<u8>, ProtocolError>)
        ensures
            match result {
                Ok(frame) => response_fault(self@) is None && frame@ == response_bytes(self@),
                Err(error) => response_fault(self@) == Some(error@),
            },
    {
        let message = self.message.as_str().as_bytes();
        if message.len() > 65535 {
            return Err(ProtocolError::MessageTooLong);
        }
        let mut frame: Vec<u8> = Vec::new();
        push_magic(&mut frame);
        frame.push(PROTOCOL_VERSION);
        frame.push(self.code.code());
        frame.push(
            if self.status.is_some() {
                RESPONSE_PAYLOAD_STATUS
            } else {
                RESPONSE_PAYLOAD_NONE
            },
        );
        frame.push(0);
        push_be(
            &mut frame,
            match self.generation {
                Some(generation) => generation.get(),
                None => 0,
            },
            8,
        );
        push_be(&mut frame, 0, 2);
        let ghost header = frame@;
        proof {
            wire::lemma_be_bytes_len(generation_number(self@.generation) as nat, 8);
            wire::lemma_be_bytes_len(0, 2);
            assert(header =~= header_bytes(self@, 0));
            assert(header.len() == HEADER_BYTES);
        }
        push_be(&mut frame, message.len() as u64, 2);
        push_bytes(&mut frame, message);
        assert(frame@ =~= header + status_codec::argument_bytes(self@.message));
        if let Some(status) = &self.status {
            match encode_status(status, &mut frame) {
                Ok(()) => {},
                Err(error) => return Err(error),
            }
        }
        assert(frame@ =~= header + payload_bytes(self@));
        if frame.len() > MAX_FRAME_BYTES {
            return Err(ProtocolError::FrameTooLarge(frame.len()));
        }
        let payload_length: usize = frame.len() - HEADER_BYTES;
        frame.set(HEADER_BYTES - 2, (payload_length / 256) as u8);
        frame.set(HEADER_BYTES - 1, (payload_length % 256) as u8);
        proof {
            lemma_two_bytes(payload_length as nat);
            wire::lemma_be_bytes_len(payload_length as nat, 2);
            assert(frame@ =~= response_bytes(self@));
        }
        Ok(frame)
    }

    /// Decode one complete bounded response frame.
    ///
    /// # Errors
    ///
    /// Returns an error for malformed, truncated, unsupported, or oversized input.
    pub fn decode(frame: &[u8]) -> (result: Result<Self, ProtocolError>)
        ensures
            match result {
                Ok(response) => decoded_response(frame@) == Ok::<_, ProtocolFault>(response@),
                Err(error) => decoded_response(frame@) == Err::<ResponseModel, _>(error@),
            },
    {
        if frame.len() > MAX_FRAME_BYTES {
            return Err(ProtocolError::FrameTooLarge(frame.len()));
        }
        let mut cursor = Cursor::new(frame);
        let magic = match cursor.bytes(4) {
            Some(magic) => magic,
            None => return Err(ProtocolError::Truncated),
        };
        if !is_magic(magic) {
            return Err(ProtocolError::InvalidMagic);
        }
        let version: u8 = match cursor.byte() {
            Some(version) => version,
            None => return Err(ProtocolError::Truncated),
        };
        assert(version == frame@[4]);
        if version != PROTOCOL_VERSION {
            return Err(ProtocolError::UnsupportedVersion(version));
        }
        let code_value: u8 = match cursor.byte() {
            Some(code) => code,
            None => return Err(ProtocolError::Truncated),
        };
        assert(code_value == frame@[5]);
        let code = match ResponseCode::from_code(code_value) {
            Some(code) => code,
            None => return Err(ProtocolError::UnknownResponseCode(code_value)),
        };
        let payload: u8 = match cursor.byte() {
            Some(payload) => payload,
            None => return Err(ProtocolError::Truncated),
        };
        assert(payload == frame@[6]);
        if payload != RESPONSE_PAYLOAD_NONE && payload != RESPONSE_PAYLOAD_STATUS {
            return Err(ProtocolError::UnknownResponsePayload(payload));
        }
        let reserved: u8 = match cursor.byte() {
            Some(reserved) => reserved,
            None => return Err(ProtocolError::Truncated),
        };
        assert(reserved == frame@[7]);
        if reserved != 0 {
            return Err(ProtocolError::InvalidReservedBits);
        }
        assert(cursor.remaining() =~= frame@.skip(8));
        let generation_value: u64 = match cursor.number(8) {
            Some(value) => value,
            None => return Err(ProtocolError::Truncated),
        };
        assert(frame@.skip(8).take(8) =~= frame@.subrange(8, 16));
        assert(cursor.remaining() =~= frame@.skip(16));
        let payload_length: u64 = match cursor.number(2) {
            Some(value) => value,
            None => return Err(ProtocolError::Truncated),
        };
        assert(frame@.skip(16).take(2) =~= frame@.subrange(16, 18));
        assert(cursor.remaining() =~= frame@.skip(18));
        let available: u64 = cursor.len() as u64;
        if available < payload_length {
            return Err(ProtocolError::Truncated);
        }
        if available > payload_length {
            return Err(ProtocolError::TrailingBytes);
        }
        let message = match decode_argument(&mut cursor) {
            Ok(message) => message,
            Err(error) => return Err(error),
        };
        let status = if payload == RESPONSE_PAYLOAD_STATUS {
            match decode_status(&mut cursor) {
                Ok(status) => Some(status),
                Err(error) => return Err(error),
            }
        } else {
            None
        };
        if !cursor.is_empty() {
            return Err(ProtocolError::TrailingBytes);
        }
        Ok(
            Response {
                code,
                generation: if generation_value == 0 {
                    None
                } else {
                    Some(Generation::from_protocol(generation_value))
                },
                message,
                status,
            },
        )
    }
}

/// Big-endian spelling of a two-byte number.
proof fn lemma_two_bytes(value: nat)
    requires
        value < 0x1_0000,
    ensures
        wire::be_bytes(value, 2) == seq![(value / 256) as u8, (value % 256) as u8],
{
    reveal_with_fuel(wire::be_bytes, 3);
    assert(wire::be_bytes(value, 2) =~= seq![(value / 256) as u8, (value % 256) as u8]);
}

/// Every carriable response is recovered exactly from its frame.
pub proof fn response_round_trips(response: ResponseModel)
    requires
        response_fault(response) is None,
        response.generation matches Some(generation) ==> generation.number() != 0,
    ensures
        decoded_response(response_bytes(response)) == Ok::<_, ProtocolFault>(response),
{
    broadcast use {wire::lemma_be_bytes_len, machine::generation_is_its_number};

    let frame = response_bytes(response);
    let payload = payload_bytes(response);
    let number = generation_number(response.generation);
    let rest = optional_status(response.status);
    wire::lemma_wire_widths();
    wire::lemma_be_round_trip(number as nat, 8);
    wire::lemma_be_round_trip(payload.len(), 2);
    assert(frame.take(4) =~= wire::magic());
    assert(frame.subrange(8, 16) =~= wire::be_bytes(number as nat, 8));
    assert(frame.subrange(16, 18) =~= wire::be_bytes(payload.len(), 2));
    assert(frame.skip(18) =~= payload);
    assert(frame[5] == response.code.number());
    assert(frame[6] == payload_tag(response));
    status_laws::argument_round_trips(response.message, rest);
    match response.status {
        Some(status) => {
            status_laws::status_round_trips(status, Seq::empty());
            assert(rest + Seq::<u8>::empty() =~= rest);
        },
        None => {},
    }
}

/// A frame which decodes is exactly the frame its response encodes to.
pub proof fn response_frames_are_canonical(frame: Seq<u8>)
    requires
        decoded_response(frame) is Ok,
    ensures
        response_bytes(decoded_response(frame)->Ok_0) == frame,
        response_fault(decoded_response(frame)->Ok_0) is None,
{
    broadcast use {wire::lemma_be_bytes_len, machine::generation_numbers_are_identities};

    let response = decoded_response(frame)->Ok_0;
    let payload = frame.skip(18);
    let (message, rest) = status_codec::parse_argument(payload)->Ok_0;
    wire::lemma_wire_widths();
    wire::lemma_be_value_bound(frame.subrange(8, 16));
    wire::lemma_be_value_round_trip(frame.subrange(8, 16));
    wire::lemma_be_value_round_trip(frame.subrange(16, 18));
    status_laws::argument_bytes_are_canonical(payload);
    if frame[6] == RESPONSE_PAYLOAD_STATUS {
        status_laws::status_bytes_are_canonical(rest);
        let (status, end) = status_codec::parse_status(rest)->Ok_0;
        assert(status_codec::status_bytes(status) + end =~= status_codec::status_bytes(status));
    } else {
        assert(rest =~= Seq::empty());
    }
    assert(payload == payload_bytes(response));
    assert(frame.take(4)[0] == frame[0]);
    assert(frame.take(4)[1] == frame[1]);
    assert(frame.take(4)[2] == frame[2]);
    assert(frame.take(4)[3] == frame[3]);
    let rebuilt = response_bytes(response);
    assert(rebuilt.len() == frame.len());
    assert forall|i: int| 0 <= i < frame.len() implies rebuilt[i] == frame[i] by {
        if 8 <= i < 16 {
            assert(frame.subrange(8, 16)[i - 8] == frame[i]);
        } else if 16 <= i < 18 {
            assert(frame.subrange(16, 18)[i - 16] == frame[i]);
        } else if 18 <= i {
            assert(payload[i - 18] == frame[i]);
        }
    }
    assert(rebuilt =~= frame);
}

} // verus!
