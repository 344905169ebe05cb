//! Bounded wire form of the typed status payload.
//!
//! A status starts with presence flags and four state codes, continues with the
//! present counters in a fixed order, and ends with the counted argv.

use vstd::arithmetic::power::*;
use vstd::prelude::*;
use vstd::string::*;
use vstd::utf8::*;

use crate::status;
use crate::status::{
    desired_state_code, desired_state_from_code, LastResult, LoggerStatus, ReadinessStatus,
    ServiceState, StatusModel, StatusSnapshot, MAX_STATUS_ARGUMENTS,
};
use crate::supervisor::DesiredState;
use crate::text;
use crate::text::decode_text;

use super::error::{ProtocolError, ProtocolFault};
use super::wire;
use super::wire::{push_be, push_bytes, Cursor};

verus! {

/// Presence flag of an optional field.
pub open spec fn flag(present: bool, weight: nat) -> nat {
    if present {
        weight
    } else {
        0
    }
}

/// Presence flags of a status.
#[verifier::opaque]
pub open spec fn status_flags(status: StatusModel) -> nat {
    flag(status.supervisor_pid is Some, 1) + flag(status.main_pid is Some, 2) + flag(
        status.uptime_seconds is Some,
        4,
    ) + flag(status.down_seconds is Some, 8) + flag(status.backoff_seconds is Some, 16) + flag(
        status.last_result is Some,
        32,
    )
}

/// Whether a presence flag is set.
#[verifier::opaque]
pub open spec fn has_flag(flags: nat, weight: nat) -> bool {
    (flags / weight) % 2 == 1
}

/// Big-endian bytes of an optional 32-bit field.
pub open spec fn optional_u32(value: Option<u32>) -> Seq<u8> {
    match value {
        Some(value) => wire::be_bytes(value as nat, 4),
        None => Seq::empty(),
    }
}

/// Big-endian bytes of an optional 64-bit field.
pub open spec fn optional_u64(value: Option<u64>) -> Seq<u8> {
    match value {
        Some(value) => wire::be_bytes(value as nat, 8),
        None => Seq::empty(),
    }
}

/// Bytes of an optional last result.
pub open spec fn optional_result(result: Option<LastResult>) -> Seq<u8> {
    match result {
        Some(result) => seq![result.numbers().0, result.numbers().1],
        None => Seq::empty(),
    }
}

/// Presence flags and state codes.
pub open spec fn head_bytes(status: StatusModel) -> Seq<u8> {
    wire::be_bytes(status_flags(status), 2) + seq![
        status::desired_number(status.desired),
        status.state.number(),
        status.readiness.number(),
        status.logger.number(),
    ]
}

/// Bytes of one length-prefixed argument.
pub open spec fn argument_bytes(argument: Seq<char>) -> Seq<u8> {
    wire::be_bytes(encode_utf8(argument).len(), 2) + encode_utf8(argument)
}

/// Bytes of the arguments in order.
pub open spec fn arguments_bytes(arguments: Seq<Seq<char>>) -> Seq<u8>
    decreases arguments.len(),
{
    if arguments.len() == 0 {
        Seq::empty()
    } else {
        argument_bytes(arguments[0]) + arguments_bytes(arguments.drop_first())
    }
}

/// Present counters in protocol order.
pub open spec fn counter_bytes(status: StatusModel) -> Seq<u8> {
    optional_u32(status.supervisor_pid) + (optional_u32(status.main_pid) + (optional_u64(
        status.uptime_seconds,
    ) + (optional_u64(status.down_seconds) + (wire::be_bytes(status.starts as nat, 8) + (
    wire::be_bytes(status.failures as nat, 8) + (optional_u64(status.backoff_seconds)
        + optional_result(status.last_result)))))))
}

/// Counted argv.
pub open spec fn argv_bytes(arguments: Seq<Seq<char>>) -> Seq<u8> {
    wire::be_bytes(arguments.len(), 2) + arguments_bytes(arguments)
}

/// Wire form of a status.
pub open spec fn status_bytes(status: StatusModel) -> Seq<u8> {
    head_bytes(status) + counter_bytes(status) + argv_bytes(status.command)
}

/// Whether every argument fits its length field.
pub open spec fn arguments_fit(arguments: Seq<Seq<char>>) -> bool {
    forall|i: int| 0 <= i < arguments.len() ==> encode_utf8(#[trigger] arguments[i]).len() < 0x1_0000
}

/// Why a status cannot be carried, if it cannot.
pub open spec fn status_fault(status: StatusModel) -> Option<ProtocolFault> {
    if status.supervisor_pid == Some(0u32) || status.main_pid == Some(0u32) {
        Some(ProtocolFault::MalformedStatus("PID must be nonzero"@))
    } else if status.command.len() > MAX_STATUS_ARGUMENTS {
        Some(ProtocolFault::TooManyStatusArguments)
    } else if !arguments_fit(status.command) {
        Some(ProtocolFault::StatusArgumentTooLong)
    } else {
        None
    }
}

// ---------------------------------------------------------------------------
// Meaning of status bytes
// ---------------------------------------------------------------------------

/// A parsed value with the bytes behind it.
pub type Parsed<T> = Result<(T, Seq<u8>), ProtocolFault>;

/// One number of a fixed width.
#[verifier::opaque]
pub open spec fn parse_number(bytes: Seq<u8>, width: nat) -> Parsed<nat> {
    if bytes.len() < width {
        Err(ProtocolFault::Truncated)
    } else {
        Ok((wire::be_value(bytes.take(width as int)), bytes.skip(width as int)))
    }
}

/// One optional process identifier.
#[verifier::opaque]
pub open spec fn parse_pid(bytes: Seq<u8>, present: bool) -> Parsed<Option<u32>> {
    if !present {
        Ok((None, bytes))
    } else {
        match parse_number(bytes, 4) {
            Err(fault) => Err(fault),
            Ok((value, rest)) => if value == 0 {
                Err(ProtocolFault::MalformedStatus("PID must be nonzero"@))
            } else {
                Ok((Some(value as u32), rest))
            },
        }
    }
}

/// One optional 64-bit counter.
#[verifier::opaque]
pub open spec fn parse_optional_u64(bytes: Seq<u8>, present: bool) -> Parsed<Option<u64>> {
    if !present {
        Ok((None, bytes))
    } else {
        match parse_number(bytes, 8) {
            Err(fault) => Err(fault),
            Ok((value, rest)) => Ok((Some(value as u64), rest)),
        }
    }
}

/// One optional last result.
#[verifier::opaque]
pub open spec fn parse_last_result(bytes: Seq<u8>, present: bool) -> Parsed<Option<LastResult>> {
    if !present {
        Ok((None, bytes))
    } else if bytes.len() < 2 {
        Err(ProtocolFault::Truncated)
    } else {
        match LastResult::numbered(bytes[0], bytes[1]) {
            None => Err(ProtocolFault::MalformedStatus("unknown last-result code"@)),
            Some(result) => Ok((Some(result), bytes.skip(2))),
        }
    }
}

/// Presence flags and state codes of a status.
pub struct StatusHead {
    pub flags: nat,
    pub desired: DesiredState,
    pub state: ServiceState,
    pub readiness: ReadinessStatus,
    pub logger: LoggerStatus,
}

/// Parse presence flags and state codes.
pub open spec fn parse_head(bytes: Seq<u8>) -> Parsed<StatusHead> {
    if bytes.len() < 2 {
        Err(ProtocolFault::Truncated)
    } else if wire::be_value(bytes.take(2)) >= 64 {
        Err(ProtocolFault::MalformedStatus("unknown status flags"@))
    } else if bytes.len() < 3 {
        Err(ProtocolFault::Truncated)
    } else if status::desired_numbered(bytes[2]) is None {
        Err(ProtocolFault::MalformedStatus("unknown desired state"@))
    } else if bytes.len() < 4 {
        Err(ProtocolFault::Truncated)
    } else if ServiceState::numbered(bytes[3]) is None {
        Err(ProtocolFault::MalformedStatus("unknown service state"@))
    } else if bytes.len() < 5 {
        Err(ProtocolFault::Truncated)
    } else if ReadinessStatus::numbered(bytes[4]) is None {
        Err(ProtocolFault::MalformedStatus("unknown readiness state"@))
    } else if bytes.len() < 6 {
        Err(ProtocolFault::Truncated)
    } else if LoggerStatus::numbered(bytes[5]) is None {
        Err(ProtocolFault::MalformedStatus("unknown logger state"@))
    } else {
        Ok(
            (
                StatusHead {
                    flags: wire::be_value(bytes.take(2)),
                    desired: status::desired_numbered(bytes[2])->0,
                    state: ServiceState::numbered(bytes[3])->0,
                    readiness: ReadinessStatus::numbered(bytes[4])->0,
                    logger: LoggerStatus::numbered(bytes[5])->0,
                },
                bytes.skip(6),
            ),
        )
    }
}

/// Counters of a status.
pub struct StatusCounters {
    pub supervisor_pid: Option<u32>,
    pub main_pid: Option<u32>,
    pub uptime_seconds: Option<u64>,
    pub down_seconds: Option<u64>,
    pub starts: u64,
    pub failures: u64,
    pub backoff_seconds: Option<u64>,
    pub last_result: Option<LastResult>,
}

/// Parse the present counters in protocol order.
pub open spec fn parse_counters(bytes: Seq<u8>, flags: nat) -> Parsed<StatusCounters> {
    match parse_pid(bytes, has_flag(flags, 1)) {
        Err(fault) => Err(fault),
        Ok((supervisor_pid, bytes)) => match parse_pid(bytes, has_flag(flags, 2)) {
            Err(fault) => Err(fault),
            Ok((main_pid, bytes)) => match parse_optional_u64(bytes, has_flag(flags, 4)) {
                Err(fault) => Err(fault),
                Ok((uptime_seconds, bytes)) => match parse_optional_u64(
                    bytes,
                    has_flag(flags, 8),
                ) {
                    Err(fault) => Err(fault),
                    Ok((down_seconds, bytes)) => match parse_number(bytes, 8) {
                        Err(fault) => Err(fault),
                        Ok((starts, bytes)) => match parse_number(bytes, 8) {
                            Err(fault) => Err(fault),
                            Ok((failures, bytes)) => match parse_optional_u64(
                                bytes,
                                has_flag(flags, 16),
                            ) {
                                Err(fault) => Err(fault),
                                Ok((backoff_seconds, bytes)) => match parse_last_result(
                                    bytes,
                                    has_flag(flags, 32),
                                ) {
                                    Err(fault) => Err(fault),
                                    Ok((last_result, bytes)) => Ok(
                                        (
                                            StatusCounters {
                                                supervisor_pid,
                                                main_pid,
                                                uptime_seconds,
                                                down_seconds,
                                                starts: starts as u64,
                                                failures: failures as u64,
                                                backoff_seconds,
                                                last_result,
                                            },
                                            bytes,
                                        ),
                                    ),
                                },
                            },
                        },
                    },
                },
            },
        },
    }
}

/// Parse one length-prefixed argument.
pub open spec fn parse_argument(bytes: Seq<u8>) -> Parsed<Seq<char>> {
    match parse_number(bytes, 2) {
        Err(fault) => Err(fault),
        Ok((length, rest)) => if rest.len() < length {
            Err(ProtocolFault::Truncated)
        } else if !valid_utf8(rest.take(length as int)) {
            Err(ProtocolFault::InvalidUtf8(text::utf8_error_text(rest.take(length as int))))
        } else {
            Ok((decode_utf8(rest.take(length as int)), rest.skip(length as int)))
        },
    }
}

/// Parse a counted run of arguments.
pub open spec fn parse_arguments(bytes: Seq<u8>, count: nat) -> Parsed<Seq<Seq<char>>>
    decreases count,
{
    if count == 0 {
        Ok((Seq::empty(), bytes))
    } else {
        match parse_argument(bytes) {
            Err(fault) => Err(fault),
            Ok((first, rest)) => match parse_arguments(rest, (count - 1) as nat) {
                Err(fault) => Err(fault),
                Ok((others, end)) => Ok((seq![first] + others, end)),
            },
        }
    }
}

/// Parse the counted argv.
pub open spec fn parse_argv(bytes: Seq<u8>) -> Parsed<Seq<Seq<char>>> {
    match parse_number(bytes, 2) {
        Err(fault) => Err(fault),
        Ok((count, rest)) => if count > MAX_STATUS_ARGUMENTS {
            Err(ProtocolFault::TooManyStatusArguments)
        } else {
            parse_arguments(rest, count)
        },
    }
}

/// The status which a head, its counters, and an argv make up.
pub open spec fn assembled(
    head: StatusHead,
    counters: StatusCounters,
    command: Seq<Seq<char>>,
) -> StatusModel {
    StatusModel {
        supervisor_pid: counters.supervisor_pid,
        main_pid: counters.main_pid,
        desired: head.desired,
        state: head.state,
        readiness: head.readiness,
        uptime_seconds: counters.uptime_seconds,
        down_seconds: counters.down_seconds,
        starts: counters.starts,
        failures: counters.failures,
        last_result: counters.last_result,
        backoff_seconds: counters.backoff_seconds,
        logger: head.logger,
        command,
    }
}

/// Meaning of status bytes: fields are checked strictly in protocol order.
pub open spec fn parse_status(bytes: Seq<u8>) -> Parsed<StatusModel> {
    match parse_head(bytes) {
        Err(fault) => Err(fault),
        Ok((head, bytes)) => match parse_counters(bytes, head.flags) {
            Err(fault) => Err(fault),
            Ok((counters, bytes)) => match parse_argv(bytes) {
                Err(fault) => Err(fault),
                Ok((command, bytes)) => Ok((assembled(head, counters, command), bytes)),
            },
        },
    }
}

// ---------------------------------------------------------------------------
// Encoding
// ---------------------------------------------------------------------------

fn push_optional_u64(frame: &mut Vec<u8>, value: Option<u64>)
    ensures
        final(frame)@ == old(frame)@ + optional_u64(value),
{
    if let Some(value) = value {
        push_be(frame, value, 8);
    }
    assert(frame@ =~= old(frame)@ + optional_u64(value));
}

fn push_optional_u32(frame: &mut Vec<u8>, value: Option<u32>)
    ensures
        final(frame)@ == old(frame)@ + optional_u32(value),
{
    if let Some(value) = value {
        push_be(frame, value as u64, 4);
    }
    assert(frame@ =~= old(frame)@ + optional_u32(value));
}

fn push_optional_result(frame: &mut Vec<u8>, result: Option<LastResult>)
    ensures
        final(frame)@ == old(frame)@ + optional_result(result),
{
    if let Some(result) = result {
        let (kind, value) = result.code();
        frame.push(kind);
        frame.push(value);
    }
    assert(frame@ =~= old(frame)@ + optional_result(result));
}

fn weight(present: bool, value: u64) -> (weighted: u64)
    ensures
        weighted == flag(present, value as nat),
{
    if present {
        value
    } else {
        0
    }
}

fn push_arguments(frame: &mut Vec<u8>, command: &Vec<String>) -> (result: Result<(), ProtocolError>)
    ensures
        match result {
            Ok(()) => {
                &&& arguments_fit(text::texts(command@))
                &&& final(frame)@ == old(frame)@ + arguments_bytes(text::texts(command@))
            },
            Err(error) => {
                &&& !arguments_fit(text::texts(command@))
                &&& error@ == ProtocolFault::StatusArgumentTooLong
            },
        },
{
    let ghost arguments = text::texts(command@);
    let mut index: usize = 0;
    proof {
        assert(arguments.take(0) =~= Seq::empty());
    }
    while index < command.len()
        invariant
            arguments == text::texts(command@),
            index <= command@.len(),
            forall|i: int|
                0 <= i < index ==> encode_utf8(#[trigger] arguments[i]).len() < 0x1_0000,
            frame@ == old(frame)@ + arguments_bytes(arguments.take(index as int)),
        decreases command@.len() - index,
    {
        let bytes = command[index].as_str().as_bytes();
        assert(bytes@ == encode_utf8(arguments[index as int]));
        if bytes.len() > 65535 {
            return Err(ProtocolError::StatusArgumentTooLong);
        }
        push_be(frame, bytes.len() as u64, 2);
        push_bytes(frame, bytes);
        proof {
            lemma_arguments_push(arguments.take(index as int), arguments[index as int]);
            assert(arguments.take(index as int).push(arguments[index as int]) =~= arguments.take(
                index + 1,
            ));
            assert(frame@ =~= old(frame)@ + arguments_bytes(arguments.take(index + 1)));
        }
        index = index + 1;
    }
    assert(arguments.take(index as int) =~= arguments);
    Ok(())
}

/// Appending an argument appends its bytes.
proof fn lemma_arguments_push(arguments: Seq<Seq<char>>, argument: Seq<char>)
    ensures
        arguments_bytes(arguments.push(argument)) == arguments_bytes(arguments) + argument_bytes(
            argument,
        ),
    decreases arguments.len(),
{
    if arguments.len() == 0 {
        assert(arguments.push(argument).drop_first() =~= Seq::empty());
        assert(arguments_bytes(Seq::<Seq<char>>::empty()) == Seq::<u8>::empty());
        assert(arguments_bytes(arguments.push(argument)) =~= arguments_bytes(arguments)
            + argument_bytes(argument));
    } else {
        assert(arguments.push(argument).drop_first() =~= arguments.drop_first().push(argument));
        lemma_arguments_push(arguments.drop_first(), argument);
        assert(arguments_bytes(arguments.push(argument)) =~= arguments_bytes(arguments)
            + argument_bytes(argument));
    }
}

fn presence(status: &StatusSnapshot) -> (flags: u64)
    ensures
        flags == status_flags(status@),
{
    reveal(status_flags);
    weight(status.supervisor_pid.is_some(), 1) + weight(status.main_pid.is_some(), 2) + weight(
        status.uptime_seconds.is_some(),
        4,
    ) + weight(status.down_seconds.is_some(), 8) + weight(status.backoff_seconds.is_some(), 16)
        + weight(status.last_result.is_some(), 32)
}

fn push_head(frame: &mut Vec<u8>, status: &StatusSnapshot)
    ensures
        final(frame)@ == old(frame)@ + head_bytes(status@),
{
    let flags: u64 = presence(status);
    push_be(frame, flags, 2);
    frame.push(desired_state_code(status.desired));
    frame.push(status.state.code());
    frame.push(status.readiness.code());
    frame.push(status.logger.code());
    proof {
        wire::lemma_be_bytes_len(flags as nat, 2);
        assert(frame@ =~= old(frame)@ + head_bytes(status@));
    }
}

fn push_counters(frame: &mut Vec<u8>, status: &StatusSnapshot)
    ensures
        final(frame)@ == old(frame)@ + counter_bytes(status@),
{
    push_optional_u32(frame, status.supervisor_pid);
    let ghost supervisor = frame@;
    push_optional_u32(frame, status.main_pid);
    let ghost main = frame@;
    push_optional_u64(frame, status.uptime_seconds);
    let ghost uptime = frame@;
    push_optional_u64(frame, status.down_seconds);
    let ghost down = frame@;
    push_be(frame, status.starts, 8);
    let ghost starts = frame@;
    push_be(frame, status.failures, 8);
    let ghost failures = frame@;
    push_optional_u64(frame, status.backoff_seconds);
    push_optional_result(frame, status.last_result);
    proof {
        let tail = optional_u64(status.backoff_seconds) + optional_result(status.last_result);
        lemma_concat(
            failures,
            optional_u64(status.backoff_seconds),
            optional_result(status.last_result),
        );
        let tail_failures = wire::be_bytes(status.failures as nat, 8) + tail;
        lemma_concat(starts, wire::be_bytes(status.failures as nat, 8), tail);
        let tail_starts = wire::be_bytes(status.starts as nat, 8) + tail_failures;
        lemma_concat(down, wire::be_bytes(status.starts as nat, 8), tail_failures);
        let tail_down = optional_u64(status.down_seconds) + tail_starts;
        lemma_concat(uptime, optional_u64(status.down_seconds), tail_starts);
        let tail_uptime = optional_u64(status.uptime_seconds) + tail_down;
        lemma_concat(main, optional_u64(status.uptime_seconds), tail_down);
        let tail_main = optional_u32(status.main_pid) + tail_uptime;
        lemma_concat(supervisor, optional_u32(status.main_pid), tail_uptime);
        lemma_concat(old(frame)@, optional_u32(status.supervisor_pid), tail_main);
    }
}

/// Concatenation is associative.
proof fn lemma_concat(first: Seq<u8>, second: Seq<u8>, third: Seq<u8>)
    ensures
        (first + second) + third == first + (second + third),
{
    assert((first + second) + third =~= first + (second + third));
}

/// Append the wire form of a status.
pub(crate) fn encode_status(status: &StatusSnapshot, frame: &mut Vec<u8>) -> (result: Result<
    (),
    ProtocolError,
>)
    ensures
        match result {
            Ok(()) => {
                &&& status_fault(status@) is None
                &&& final(frame)@ == old(frame)@ + status_bytes(status@)
            },
            Err(error) => status_fault(status@) == Some(error@),
        },
{
    if status.supervisor_pid == Some(0) || status.main_pid == Some(0) {
        return Err(ProtocolError::MalformedStatus("PID must be nonzero"));
    }
    if status.command.len() > MAX_STATUS_ARGUMENTS {
        return Err(ProtocolError::TooManyStatusArguments);
    }
    push_head(frame, status);
    push_counters(frame, status);
    let ghost counted = frame@;
    push_be(frame, status.command.len() as u64, 2);
    match push_arguments(frame, &status.command) {
        Ok(()) => {},
        Err(error) => return Err(error),
    }
    assert(frame@ =~= counted + argv_bytes(status@.command));
    assert(frame@ =~= old(frame)@ + status_bytes(status@));
    Ok(())
}

// ---------------------------------------------------------------------------
// Decoding
// ---------------------------------------------------------------------------

/// What a decoding step read, over the bytes before and after it.
pub open spec fn read_as<T>(parsed: Parsed<T>, value: T, after: Seq<u8>) -> bool {
    parsed == Ok::<(T, Seq<u8>), ProtocolFault>((value, after))
}

fn decode_number(cursor: &mut Cursor<'_>, width: usize) -> (result: Result<u64, ProtocolError>)
    requires
        old(cursor).wf(),
        width <= 8,
    ensures
        final(cursor).wf(),
        match result {
            Ok(value) => {
                &&& value < pow(256, width as nat)
                &&& read_as(
                    parse_number(old(cursor).remaining(), width as nat),
                    value as nat,
                    final(cursor).remaining(),
                )
            },
            Err(error) => parse_number(old(cursor).remaining(), width as nat) == Err::<
                (nat, Seq<u8>),
                _,
            >(error@),
        },
{
    reveal(parse_number);
    match cursor.number(width) {
        Some(value) => Ok(value),
        None => Err(ProtocolError::Truncated),
    }
}

fn decode_optional_u32(cursor: &mut Cursor<'_>, present: bool) -> (result: Result<
    Option<u32>,
    ProtocolError,
>)
    requires
        old(cursor).wf(),
    ensures
        final(cursor).wf(),
        match result {
            Ok(value) => read_as(
                parse_pid(old(cursor).remaining(), present),
                value,
                final(cursor).remaining(),
            ),
            Err(error) => parse_pid(old(cursor).remaining(), present) == Err::<
                (Option<u32>, Seq<u8>),
                _,
            >(error@),
        },
{
    reveal(parse_pid);
    reveal(parse_number);
    if !present {
        return Ok(None);
    }
    let value: u64 = match decode_number(cursor, 4) {
        Ok(value) => value,
        Err(error) => return Err(error),
    };
    proof {
        wire::lemma_wire_widths();
    }
    if value == 0 {
        return Err(ProtocolError::MalformedStatus("PID must be nonzero"));
    }
    Ok(Some(value as u32))
}

fn decode_optional_u64(cursor: &mut Cursor<'_>, present: bool) -> (result: Result<
    Option<u64>,
    ProtocolError,
>)
    requires
        old(cursor).wf(),
    ensures
        final(cursor).wf(),
        match result {
            Ok(value) => read_as(
                parse_optional_u64(old(cursor).remaining(), present),
                value,
                final(cursor).remaining(),
            ),
            Err(error) => parse_optional_u64(old(cursor).remaining(), present) == Err::<
                (Option<u64>, Seq<u8>),
                _,
            >(error@),
        },
{
    reveal(parse_optional_u64);
    if !present {
        return Ok(None);
    }
    match decode_number(cursor, 8) {
        Ok(value) => Ok(Some(value)),
        Err(error) => Err(error),
    }
}

fn decode_last_result(cursor: &mut Cursor<'_>, present: bool) -> (result: Result<
    Option<LastResult>,
    ProtocolError,
>)
    requires
        old(cursor).wf(),
    ensures
        final(cursor).wf(),
        match result {
            Ok(value) => read_as(
                parse_last_result(old(cursor).remaining(), present),
                value,
                final(cursor).remaining(),
            ),
            Err(error) => parse_last_result(old(cursor).remaining(), present) == Err::<
                (Option<LastResult>, Seq<u8>),
                _,
            >(error@),
        },
{
    reveal(parse_last_result);
    if !present {
        return Ok(None);
    }
    let bytes = match cursor.bytes(2) {
        Some(bytes) => bytes,
        None => return Err(ProtocolError::Truncated),
    };
    match LastResult::from_code(bytes[0], bytes[1]) {
        Some(result) => Ok(Some(result)),
        None => Err(ProtocolError::MalformedStatus("unknown last-result code")),
    }
}

/// Decoded presence flags and state codes.
struct DecodedHead {
    flags: u64,
    desired: DesiredState,
    state: ServiceState,
    readiness: ReadinessStatus,
    logger: LoggerStatus,
}

impl View for DecodedHead {
    type V = StatusHead;

    closed spec fn view(&self) -> StatusHead {
        StatusHead {
            flags: self.flags as nat,
            desired: self.desired,
            state: self.state,
            readiness: self.readiness,
            logger: self.logger,
        }
    }
}

fn decode_head(cursor: &mut Cursor<'_>) -> (result: Result<DecodedHead, ProtocolError>)
    requires
        old(cursor).wf(),
    ensures
        final(cursor).wf(),
        match result {
            Ok(head) => read_as(
                parse_head(old(cursor).remaining()),
                head@,
                final(cursor).remaining(),
            ),
            Err(error) => parse_head(old(cursor).remaining()) == Err::<(StatusHead, Seq<u8>), _>(
                error@,
            ),
        },
{
    let ghost bytes = cursor.remaining();
    let flags: u64 = match cursor.number(2) {
        Some(flags) => flags,
        None => return Err(ProtocolError::Truncated),
    };
    if flags >= 64 {
        return Err(ProtocolError::MalformedStatus("unknown status flags"));
    }
    let desired = match cursor.byte() {
        Some(code) => match desired_state_from_code(code) {
            Some(desired) => desired,
            None => return Err(ProtocolError::MalformedStatus("unknown desired state")),
        },
        None => return Err(ProtocolError::Truncated),
    };
    let state = match cursor.byte() {
        Some(code) => match ServiceState::from_code(code) {
            Some(state) => state,
            None => return Err(ProtocolError::MalformedStatus("unknown service state")),
        },
        None => return Err(ProtocolError::Truncated),
    };
    let readiness = match cursor.byte() {
        Some(code) => match ReadinessStatus::from_code(code) {
            Some(readiness) => readiness,
            None => return Err(ProtocolError::MalformedStatus("unknown readiness state")),
        },
        None => return Err(ProtocolError::Truncated),
    };
    let logger = match cursor.byte() {
        Some(code) => match LoggerStatus::from_code(code) {
            Some(logger) => logger,
            None => return Err(ProtocolError::MalformedStatus("unknown logger state")),
        },
        None => return Err(ProtocolError::Truncated),
    };
    assert(cursor.remaining() =~= bytes.skip(6));
    Ok(DecodedHead { flags, desired, state, readiness, logger })
}

fn flag_is_set(flags: u64, value: u64) -> (set: bool)
    requires
        value > 0,
    ensures
        set == has_flag(flags as nat, value as nat),
{
    reveal(has_flag);
    (flags / value) % 2 == 1
}

/// Decode one length-prefixed text at the cursor.
pub(crate) fn decode_argument(cursor: &mut Cursor<'_>) -> (result: Result<String, ProtocolError>)
    requires
        old(cursor).wf(),
    ensures
        final(cursor).wf(),
        match result {
            Ok(argument) => read_as(
                parse_argument(old(cursor).remaining()),
                argument@,
                final(cursor).remaining(),
            ),
            Err(error) => parse_argument(old(cursor).remaining()) == Err::<
                (Seq<char>, Seq<u8>),
                _,
            >(error@),
        },
{
    let length: u64 = match decode_number(cursor, 2) {
        Ok(length) => length,
        Err(error) => return Err(error),
    };
    proof {
        wire::lemma_wire_widths();
    }
    let value = match cursor.bytes(length as usize) {
        Some(value) => value,
        None => return Err(ProtocolError::Truncated),
    };
    match decode_text(value) {
        Ok(argument) => Ok(argument),
        Err(reason) => Err(ProtocolError::InvalidUtf8(reason)),
    }
}

fn decode_arguments(cursor: &mut Cursor<'_>, count: usize) -> (result: Result<
    Vec<String>,
    ProtocolError,
>)
    requires
        old(cursor).wf(),
    ensures
        final(cursor).wf(),
        match result {
            Ok(command) => read_as(
                parse_arguments(old(cursor).remaining(), count as nat),
                text::texts(command@),
                final(cursor).remaining(),
            ),
            Err(error) => parse_arguments(old(cursor).remaining(), count as nat) == Err::<
                (Seq<Seq<char>>, Seq<u8>),
                _,
            >(error@),
        },
{
    let ghost bytes = cursor.remaining();
    let mut command: Vec<String> = Vec::new();
    let mut index: usize = 0;
    proof {
        assert(text::texts(command@) =~= Seq::empty());
        lemma_resume_arguments(bytes, Seq::empty(), bytes, count as nat);
    }
    while index < count
        invariant
            index <= count,
            cursor.wf(),
            bytes == old(cursor).remaining(),
            resumes(
                bytes,
                count as nat,
                text::texts(command@),
                cursor.remaining(),
                (count - index) as nat,
            ),
        decreases count - index,
    {
        let ghost before = cursor.remaining();
        let ghost decoded = text::texts(command@);
        let argument = match decode_argument(cursor) {
            Ok(argument) => argument,
            Err(error) => {
                assert(parse_arguments(before, (count - index) as nat) is Err);
                return Err(error);
            },
        };
        command.push(argument);
        index = index + 1;
        proof {
            assert(text::texts(command@) =~= decoded.push(argument@));
            lemma_resume_step(
                bytes,
                count as nat,
                decoded,
                before,
                argument@,
                cursor.remaining(),
                (count - index) as nat,
            );
        }
    }
    assert(text::texts(command@) + Seq::<Seq<char>>::empty() =~= text::texts(command@));
    Ok(command)
}

/// Parsing `count` arguments from `bytes` continues with `left` arguments from
/// `rest` once `decoded` was read.
pub open spec fn resumes(
    bytes: Seq<u8>,
    count: nat,
    decoded: Seq<Seq<char>>,
    rest: Seq<u8>,
    left: nat,
) -> bool {
    parse_arguments(bytes, count) == match parse_arguments(rest, left) {
        Err(fault) => Err::<(Seq<Seq<char>>, Seq<u8>), ProtocolFault>(fault),
        Ok((others, end)) => Ok((decoded + others, end)),
    }
}

proof fn lemma_resume_arguments(
    bytes: Seq<u8>,
    decoded: Seq<Seq<char>>,
    rest: Seq<u8>,
    count: nat,
)
    requires
        decoded == Seq::<Seq<char>>::empty(),
        rest == bytes,
    ensures
        resumes(bytes, count, decoded, rest, count),
{
    if parse_arguments(bytes, count) is Ok {
        let others = parse_arguments(bytes, count)->Ok_0.0;
        assert(decoded + others =~= others);
    }
}

proof fn lemma_resume_step(
    bytes: Seq<u8>,
    count: nat,
    decoded: Seq<Seq<char>>,
    rest: Seq<u8>,
    argument: Seq<char>,
    after: Seq<u8>,
    left: nat,
)
    requires
        resumes(bytes, count, decoded, rest, left + 1),
        parse_argument(rest) == Ok::<(Seq<char>, Seq<u8>), ProtocolFault>((argument, after)),
    ensures
        resumes(bytes, count, decoded.push(argument), after, left),
{
    if parse_arguments(after, left) is Ok {
        let others = parse_arguments(after, left)->Ok_0.0;
        assert(decoded + (seq![argument] + others) =~= decoded.push(argument) + others);
    }
}

/// Decode the status payload at the cursor.
pub(crate) fn decode_status(cursor: &mut Cursor<'_>) -> (result: Result<
    StatusSnapshot,
    ProtocolError,
>)
    requires
        old(cursor).wf(),
    ensures
        final(cursor).wf(),
        match result {
            Ok(status) => read_as(
                parse_status(old(cursor).remaining()),
                status@,
                final(cursor).remaining(),
            ),
            Err(error) => parse_status(old(cursor).remaining()) == Err::<
                (StatusModel, Seq<u8>),
                _,
            >(error@),
        },
{
    let head = match decode_head(cursor) {
        Ok(head) => head,
        Err(error) => return Err(error),
    };
    let supervisor_pid = match decode_optional_u32(cursor, flag_is_set(head.flags, 1)) {
        Ok(value) => value,
        Err(error) => return Err(error),
    };
    let main_pid = match decode_optional_u32(cursor, flag_is_set(head.flags, 2)) {
        Ok(value) => value,
        Err(error) => return Err(error),
    };
    let uptime_seconds = match decode_optional_u64(cursor, flag_is_set(head.flags, 4)) {
        Ok(value) => value,
        Err(error) => return Err(error),
    };
    let down_seconds = match decode_optional_u64(cursor, flag_is_set(head.flags, 8)) {
        Ok(value) => value,
        Err(error) => return Err(error),
    };
    let starts: u64 = match decode_number(cursor, 8) {
        Ok(value) => value,
        Err(error) => return Err(error),
    };
    let failures: u64 = match decode_number(cursor, 8) {
        Ok(value) => value,
        Err(error) => return Err(error),
    };
    let backoff_seconds = match decode_optional_u64(cursor, flag_is_set(head.flags, 16)) {
        Ok(value) => value,
        Err(error) => return Err(error),
    };
    let last_result = match decode_last_result(cursor, flag_is_set(head.flags, 32)) {
        Ok(value) => value,
        Err(error) => return Err(error),
    };
    let argument_count: u64 = match decode_number(cursor, 2) {
        Ok(value) => value,
        Err(error) => return Err(error),
    };
    if argument_count > MAX_STATUS_ARGUMENTS as u64 {
        return Err(ProtocolError::TooManyStatusArguments);
    }
    let command = match decode_arguments(cursor, argument_count as usize) {
        Ok(command) => command,
        Err(error) => return Err(error),
    };
    Ok(
        StatusSnapshot {
            supervisor_pid,
            main_pid,
            desired: head.desired,
            state: head.state,
            readiness: head.readiness,
            uptime_seconds,
            down_seconds,
            starts,
            failures,
            last_result,
            backoff_seconds,
            logger: head.logger,
            command,
        },
    )
}

} // verus!
