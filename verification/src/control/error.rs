//! Typed failures for control protocol decoding and validation.
//!
//! Every request and response codec reports malformed frames, unsupported
//! versions, unknown codes, inconsistent request fields, invalid UTF-8, and
//! bounded status violations through this enum.

use vstd::prelude::*;
use vstd::string::*;

use crate::text;
use crate::text::push_decimal;

use super::operation::MAX_FRAME_BYTES;

verus! {

/// Protocol decoding or validation error.
#[derive(Debug)]
pub enum ProtocolError {
    /// Frame exceeds `MAX_FRAME_BYTES`.
    FrameTooLarge(usize),
    /// Frame ended before a declared field was complete.
    Truncated,
    /// Magic bytes do not identify the Immortal protocol.
    InvalidMagic,
    /// Peer uses a protocol version this implementation does not support.
    UnsupportedVersion(u8),
    /// Operation code is not defined by this protocol version.
    UnknownOperation(u8),
    /// Signal scope code is invalid.
    UnknownScope(u8),
    /// Signal code is invalid.
    UnknownSignal(u8),
    /// Response result code is invalid.
    UnknownResponseCode(u8),
    /// Response payload tag is not defined by this protocol version.
    UnknownResponsePayload(u8),
    /// Signal operation omitted its signal.
    MissingSignal,
    /// A mutating operation omitted its optimistic generation condition.
    MissingGenerationMatch,
    /// A non-signal operation carried a signal.
    UnexpectedSignal,
    /// Service name exceeds `MAX_SERVICE_NAME_BYTES`.
    NameTooLong,
    /// Response message cannot fit in a frame.
    MessageTooLong,
    /// Status contains more command arguments than the bounded decoder accepts.
    TooManyStatusArguments,
    /// One status command argument cannot fit its length field.
    StatusArgumentTooLong,
    /// Typed status fields violate the protocol contract.
    MalformedStatus(&'static str),
    /// Service name is empty or unsafe for runtime-directory lookup.
    UnsafeServiceName,
    /// A text field is not valid UTF-8.
    InvalidUtf8(String),
    /// Complete declared frame was followed by unparsed data.
    TrailingBytes,
    /// Reserved protocol header bits were nonzero.
    InvalidReservedBits,
}

/// Pure view of a protocol error.
pub enum ProtocolFault {
    FrameTooLarge(usize),
    Truncated,
    InvalidMagic,
    UnsupportedVersion(u8),
    UnknownOperation(u8),
    UnknownScope(u8),
    UnknownSignal(u8),
    UnknownResponseCode(u8),
    UnknownResponsePayload(u8),
    MissingSignal,
    MissingGenerationMatch,
    UnexpectedSignal,
    NameTooLong,
    MessageTooLong,
    TooManyStatusArguments,
    StatusArgumentTooLong,
    MalformedStatus(Seq<char>),
    UnsafeServiceName,
    InvalidUtf8(Seq<char>),
    TrailingBytes,
    InvalidReservedBits,
}

impl View for ProtocolError {
    type V = ProtocolFault;

    open spec fn view(&self) -> ProtocolFault {
        match *self {
            ProtocolError::FrameTooLarge(actual) => ProtocolFault::FrameTooLarge(actual),
            ProtocolError::Truncated => ProtocolFault::Truncated,
            ProtocolError::InvalidMagic => ProtocolFault::InvalidMagic,
            ProtocolError::UnsupportedVersion(version) => ProtocolFault::UnsupportedVersion(
                version,
            ),
            ProtocolError::UnknownOperation(code) => ProtocolFault::UnknownOperation(code),
            ProtocolError::UnknownScope(code) => ProtocolFault::UnknownScope(code),
            ProtocolError::UnknownSignal(code) => ProtocolFault::UnknownSignal(code),
            ProtocolError::UnknownResponseCode(code) => ProtocolFault::UnknownResponseCode(code),
            ProtocolError::UnknownResponsePayload(code) => ProtocolFault::UnknownResponsePayload(
                code,
            ),
            ProtocolError::MissingSignal => ProtocolFault::MissingSignal,
            ProtocolError::MissingGenerationMatch => ProtocolFault::MissingGenerationMatch,
            ProtocolError::UnexpectedSignal => ProtocolFault::UnexpectedSignal,
            ProtocolError::NameTooLong => ProtocolFault::NameTooLong,
            ProtocolError::MessageTooLong => ProtocolFault::MessageTooLong,
            ProtocolError::TooManyStatusArguments => ProtocolFault::TooManyStatusArguments,
            ProtocolError::StatusArgumentTooLong => ProtocolFault::StatusArgumentTooLong,
            ProtocolError::MalformedStatus(reason) => ProtocolFault::MalformedStatus(reason@),
            ProtocolError::UnsafeServiceName => ProtocolFault::UnsafeServiceName,
            ProtocolError::InvalidUtf8(reason) => ProtocolFault::InvalidUtf8(reason@),
            ProtocolError::TrailingBytes => ProtocolFault::TrailingBytes,
            ProtocolError::InvalidReservedBits => ProtocolFault::InvalidReservedBits,
        }
    }
}

impl ProtocolFault {
    /// Diagnostic text of each fault.
    pub open spec fn text(self) -> Seq<char> {
        match self {
            ProtocolFault::FrameTooLarge(actual) => "control frame is "@ + text::decimal(
                actual as nat,
            ) + " bytes; limit is "@ + text::decimal(MAX_FRAME_BYTES as nat) + " bytes"@,
            ProtocolFault::Truncated => "truncated control frame"@,
            ProtocolFault::InvalidMagic => "invalid control protocol magic"@,
            ProtocolFault::UnsupportedVersion(version) => "unsupported control protocol version "@
                + text::decimal(version as nat),
            ProtocolFault::UnknownOperation(code) => "unknown control operation "@ + text::decimal(
                code as nat,
            ),
            ProtocolFault::UnknownScope(code) => "unknown signal scope "@ + text::decimal(
                code as nat,
            ),
            ProtocolFault::UnknownSignal(code) => "unknown signal "@ + text::decimal(code as nat),
            ProtocolFault::UnknownResponseCode(code) => "unknown response code "@ + text::decimal(
                code as nat,
            ),
            ProtocolFault::UnknownResponsePayload(code) => "unknown response payload "@
                + text::decimal(code as nat),
            ProtocolFault::MissingSignal => "signal operation omitted its signal"@,
            ProtocolFault::MissingGenerationMatch =>
                "mutating control operation omitted its generation condition"@,
            ProtocolFault::UnexpectedSignal =>
                "non-signal operation unexpectedly carried a signal"@,
            ProtocolFault::NameTooLong => "service name is too long"@,
            ProtocolFault::MessageTooLong => "response message is too long"@,
            ProtocolFault::TooManyStatusArguments => "status contains too many command arguments"@,
            ProtocolFault::StatusArgumentTooLong => "status command argument is too long"@,
            ProtocolFault::MalformedStatus(reason) => "malformed status: "@ + reason,
            ProtocolFault::UnsafeServiceName => "service name is unsafe"@,
            ProtocolFault::InvalidUtf8(reason) => "control text is not UTF-8: "@ + reason,
            ProtocolFault::TrailingBytes => "control frame has trailing bytes"@,
            ProtocolFault::InvalidReservedBits => "control frame has nonzero reserved bits"@,
        }
    }
}

fn numbered(prefix: &str, number: u64) -> (rendered: String)
    ensures
        rendered@ == prefix@ + text::decimal(number as nat),
{
    let mut rendered = prefix.to_owned();
    push_decimal(&mut rendered, number);
    rendered
}

impl ProtocolError {
    /// Diagnostic text.
    #[must_use]
    pub fn message(&self) -> (rendered: String)
        ensures
            rendered@ == self@.text(),
    {
        match self {
            ProtocolError::FrameTooLarge(actual) => {
                let mut rendered = numbered("control frame is ", *actual as u64);
                rendered.append(" bytes; limit is ");
                push_decimal(&mut rendered, MAX_FRAME_BYTES as u64);
                rendered.append(" bytes");
                rendered
            },
            ProtocolError::Truncated => "truncated control frame".to_owned(),
            ProtocolError::InvalidMagic => "invalid control protocol magic".to_owned(),
            ProtocolError::UnsupportedVersion(version) => numbered(
                "unsupported control protocol version ",
                *version as u64,
            ),
            ProtocolError::UnknownOperation(code) => numbered(
                "unknown control operation ",
                *code as u64,
            ),
            ProtocolError::UnknownScope(code) => numbered("unknown signal scope ", *code as u64),
            ProtocolError::UnknownSignal(code) => numbered("unknown signal ", *code as u64),
            ProtocolError::UnknownResponseCode(code) => numbered(
                "unknown response code ",
                *code as u64,
            ),
            ProtocolError::UnknownResponsePayload(code) => numbered(
                "unknown response payload ",
                *code as u64,
            ),
            ProtocolError::MissingSignal => "signal operation omitted its signal".to_owned(),
            ProtocolError::MissingGenerationMatch =>
                "mutating control operation omitted its generation condition".to_owned(),
            ProtocolError::UnexpectedSignal =>
                "non-signal operation unexpectedly carried a signal".to_owned(),
            ProtocolError::NameTooLong => "service name is too long".to_owned(),
            ProtocolError::MessageTooLong => "response message is too long".to_owned(),
            ProtocolError::TooManyStatusArguments =>
                "status contains too many command arguments".to_owned(),
            ProtocolError::StatusArgumentTooLong =>
                "status command argument is too long".to_owned(),
            ProtocolError::MalformedStatus(reason) => {
                let mut rendered = "malformed status: ".to_owned();
                rendered.append(*reason);
                rendered
            },
            ProtocolError::UnsafeServiceName => "service name is unsafe".to_owned(),
            ProtocolError::InvalidUtf8(reason) => {
                let mut rendered = "control text is not UTF-8: ".to_owned();
                rendered.append(reason.as_str());
                rendered
            },
            ProtocolError::TrailingBytes => "control frame has trailing bytes".to_owned(),
            ProtocolError::InvalidReservedBits =>
                "control frame has nonzero reserved bits".to_owned(),
        }
    }
}

} // verus!
