//! Bounded, versioned local control protocol.
//!
//! The privileged supervisor accepts a small binary request vocabulary.
//! `operation` owns the request-intent enums and public protocol limits,
//! `message` and `response` own the request and response models plus their
//! bounded codecs, `status_codec` the typed status payload, `decision` pure
//! supervisor intent validation, `transport` the frame length rule, `server`
//! peer authorization and socket ownership, and `wire` the shared framing
//! constants and cursor state.

pub mod decision;
pub mod error;
pub mod message;
pub mod operation;
pub mod response;
pub mod server;
pub mod status_codec;
pub mod status_laws;
pub mod transport;
pub mod wire;

pub use crate::service_name::MAX_SERVICE_NAME_BYTES;

pub use decision::{decide_request, ControlDecision, ControlEffect, StopCompletion};
pub use error::ProtocolError;
pub use message::Request;
pub use operation::{
    GenerationMatch, Operation, Signal, SignalScope, CONTROL_IO_TIMEOUT,
    DEFAULT_MAX_CONTROL_CLIENTS, MAX_FRAME_BYTES, PROTOCOL_VERSION,
};
pub use response::{Response, ResponseCode};
pub use server::{
    accept_error_is_exhaustion, accept_error_is_transient, peer_is_authorized, AcceptError,
    PeerCredentials,
};
pub use transport::TransportError;
pub use wire::HEADER_BYTES;
