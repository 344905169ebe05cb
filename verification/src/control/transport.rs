//! Frame length rule and failures of the control transport.
//!
//! The declared payload length is read from the fixed header, and an oversized
//! frame is refused before any payload is read.

use vstd::arithmetic::power::*;
use vstd::prelude::*;
use vstd::string::*;

use crate::fault::Fault;

use super::error::{ProtocolError, ProtocolFault};
use super::operation::MAX_FRAME_BYTES;
use super::wire;
use super::wire::{Cursor, HEADER_BYTES};

verus! {

/// Failure while transferring one bounded frame.
#[derive(Debug)]
pub enum TransportError {
    /// Asynchronous stream I/O failed.
    Io(Fault),
    /// Complete frame violated the control protocol.
    Protocol(ProtocolError),
    /// Peer did not complete the operation before the idle deadline.
    Timeout,
}

impl TransportError {
    /// Diagnostic text of each failure.
    pub open spec fn text(self) -> Seq<char> {
        match self {
            TransportError::Io(fault) => "control transport I/O failed: "@ + fault.text@,
            TransportError::Protocol(error) => error@.text(),
            TransportError::Timeout => "control transport deadline exceeded"@,
        }
    }

    /// Diagnostic text.
    #[must_use]
    pub fn message(&self) -> (rendered: String)
        ensures
            rendered@ == self.text(),
    {
        match self {
            TransportError::Io(fault) => {
                let mut rendered = "control transport I/O failed: ".to_owned();
                rendered.append(fault.text.as_str());
                rendered
            },
            TransportError::Protocol(error) => error.message(),
            TransportError::Timeout => "control transport deadline exceeded".to_owned(),
        }
    }
}

/// Payload length declared by a complete header.
pub open spec fn declared_payload(header: Seq<u8>) -> nat {
    wire::be_value(header.subrange(16, 18))
}

/// Payload length to read behind a header, or why the frame is refused.
///
/// # Errors
///
/// Refuses an incomplete header and a frame above the protocol bound.
pub fn payload_length(header: &[u8]) -> (result: Result<usize, ProtocolError>)
    ensures
        match result {
            Ok(length) => {
                &&& header@.len() == HEADER_BYTES
                &&& length == declared_payload(header@)
                &&& HEADER_BYTES + length <= MAX_FRAME_BYTES
            },
            Err(error) => if header@.len() != HEADER_BYTES {
                error@ == ProtocolFault::Truncated
            } else {
                &&& HEADER_BYTES + declared_payload(header@) > MAX_FRAME_BYTES
                &&& error@ == ProtocolFault::FrameTooLarge(
                    (HEADER_BYTES + declared_payload(header@)) as usize,
                )
            },
        },
{
    if header.len() != HEADER_BYTES {
        return Err(ProtocolError::Truncated);
    }
    let mut cursor = Cursor::new(header);
    let _skipped = cursor.bytes(HEADER_BYTES - 2);
    assert(cursor.remaining() =~= header@.skip(16));
    assert(header@.skip(16).take(2) =~= header@.subrange(16, 18));
    proof {
        wire::lemma_wire_widths();
    }
    let length: usize = match cursor.number(2) {
        Some(length) => length as usize,
        None => return Err(ProtocolError::Truncated),
    };
    if HEADER_BYTES + length > MAX_FRAME_BYTES {
        return Err(ProtocolError::FrameTooLarge(HEADER_BYTES + length));
    }
    Ok(length)
}

} // verus!
