//! The status payload is recovered exactly from its wire form, and no two
//! payloads share one.

use vstd::arithmetic::power::*;
use vstd::prelude::*;
use vstd::utf8::*;

use crate::status;
use crate::status::{LastResult, LoggerStatus, ReadinessStatus, ServiceState, StatusModel};

use super::error::ProtocolFault;
use super::status_codec;
use super::status_codec::{StatusCounters, StatusHead};
use super::wire;

verus! {

proof fn lemma_assoc(first: Seq<u8>, second: Seq<u8>, third: Seq<u8>)
    ensures
        (first + second) + third == first + (second + third),
{
    assert((first + second) + third =~= first + (second + third));
}

/// A number in front of other bytes is read back.
proof fn lemma_number(value: nat, width: nat, rest: Seq<u8>)
    requires
        value < pow(256, width),
    ensures
        status_codec::parse_number(wire::be_bytes(value, width) + rest, width) == Ok::<
            (nat, Seq<u8>),
            ProtocolFault,
        >((value, rest)),
{
    reveal(status_codec::parse_number);
    wire::lemma_be_bytes_len(value, width);
    wire::lemma_be_round_trip(value, width);
    let bytes = wire::be_bytes(value, width) + rest;
    assert(bytes.take(width as int) =~= wire::be_bytes(value, width));
    assert(bytes.skip(width as int) =~= rest);
}

/// A number which was read was written with its own bytes.
proof fn lemma_number_back(bytes: Seq<u8>, width: nat)
    requires
        status_codec::parse_number(bytes, width) is Ok,
    ensures
        ({
            let (value, rest) = status_codec::parse_number(bytes, width)->Ok_0;
            value < pow(256, width) && bytes == wire::be_bytes(value, width) + rest
        }),
{
    reveal(status_codec::parse_number);
    wire::lemma_be_value_round_trip(bytes.take(width as int));
    wire::lemma_be_value_bound(bytes.take(width as int));
    assert(bytes =~= bytes.take(width as int) + bytes.skip(width as int));
}

proof fn lemma_pid(value: Option<u32>, rest: Seq<u8>)
    requires
        value != Some(0u32),
    ensures
        status_codec::parse_pid(status_codec::optional_u32(value) + rest, value is Some) == Ok::<
            (Option<u32>, Seq<u8>),
            ProtocolFault,
        >((value, rest)),
{
    reveal(status_codec::parse_pid);
    wire::lemma_wire_widths();
    match value {
        Some(number) => lemma_number(number as nat, 4, rest),
        None => assert(status_codec::optional_u32(value) + rest =~= rest),
    }
}

proof fn lemma_pid_back(bytes: Seq<u8>, present: bool)
    requires
        status_codec::parse_pid(bytes, present) is Ok,
    ensures
        ({
            let (value, rest) = status_codec::parse_pid(bytes, present)->Ok_0;
            &&& value is Some == present
            &&& value != Some(0u32)
            &&& bytes == status_codec::optional_u32(value) + rest
        }),
{
    reveal(status_codec::parse_pid);
    wire::lemma_wire_widths();
    if present {
        lemma_number_back(bytes, 4);
    } else {
        assert(status_codec::optional_u32(None) + bytes =~= bytes);
    }
}

proof fn lemma_u64(value: Option<u64>, rest: Seq<u8>)
    ensures
        status_codec::parse_optional_u64(status_codec::optional_u64(value) + rest, value is Some)
            == Ok::<(Option<u64>, Seq<u8>), ProtocolFault>((value, rest)),
{
    reveal(status_codec::parse_optional_u64);
    wire::lemma_wire_widths();
    match value {
        Some(number) => lemma_number(number as nat, 8, rest),
        None => assert(status_codec::optional_u64(value) + rest =~= rest),
    }
}

proof fn lemma_u64_back(bytes: Seq<u8>, present: bool)
    requires
        status_codec::parse_optional_u64(bytes, present) is Ok,
    ensures
        ({
            let (value, rest) = status_codec::parse_optional_u64(bytes, present)->Ok_0;
            value is Some == present && bytes == status_codec::optional_u64(value) + rest
        }),
{
    reveal(status_codec::parse_optional_u64);
    wire::lemma_wire_widths();
    if present {
        lemma_number_back(bytes, 8);
    } else {
        assert(status_codec::optional_u64(None) + bytes =~= bytes);
    }
}

proof fn lemma_result(value: Option<LastResult>, rest: Seq<u8>)
    ensures
        status_codec::parse_last_result(
            status_codec::optional_result(value) + rest,
            value is Some,
        ) == Ok::<(Option<LastResult>, Seq<u8>), ProtocolFault>((value, rest)),
{
    reveal(status_codec::parse_last_result);
    let bytes = status_codec::optional_result(value) + rest;
    match value {
        Some(result) => {
            assert(bytes[0] == result.numbers().0);
            assert(bytes[1] == result.numbers().1);
            assert(bytes.skip(2) =~= rest);
        },
        None => assert(bytes =~= rest),
    }
}

proof fn lemma_result_back(bytes: Seq<u8>, present: bool)
    requires
        status_codec::parse_last_result(bytes, present) is Ok,
    ensures
        ({
            let (value, rest) = status_codec::parse_last_result(bytes, present)->Ok_0;
            value is Some == present && bytes == status_codec::optional_result(value) + rest
        }),
{
    reveal(status_codec::parse_last_result);
    let (value, rest) = status_codec::parse_last_result(bytes, present)->Ok_0;
    assert(bytes =~= status_codec::optional_result(value) + rest);
}

/// Presence flags and presence agree.
proof fn lemma_flags(value: StatusModel)
    ensures
        status_codec::status_flags(value) < 64,
        status_codec::has_flag(status_codec::status_flags(value), 1) == value.supervisor_pid is Some,
        status_codec::has_flag(status_codec::status_flags(value), 2) == value.main_pid is Some,
        status_codec::has_flag(status_codec::status_flags(value), 4) == value.uptime_seconds is Some,
        status_codec::has_flag(status_codec::status_flags(value), 8) == value.down_seconds is Some,
        status_codec::has_flag(status_codec::status_flags(value), 16)
            == value.backoff_seconds is Some,
        status_codec::has_flag(status_codec::status_flags(value), 32) == value.last_result is Some,
{
    reveal(status_codec::status_flags);
    reveal(status_codec::has_flag);
}

/// Known flags are the sum of the set ones.
proof fn lemma_flags_back(flags: nat)
    requires
        flags < 64,
    ensures
        flags == status_codec::flag(status_codec::has_flag(flags, 1), 1) + status_codec::flag(
            status_codec::has_flag(flags, 2),
            2,
        ) + status_codec::flag(status_codec::has_flag(flags, 4), 4) + status_codec::flag(
            status_codec::has_flag(flags, 8),
            8,
        ) + status_codec::flag(status_codec::has_flag(flags, 16), 16) + status_codec::flag(
            status_codec::has_flag(flags, 32),
            32,
        ),
{
    reveal(status_codec::has_flag);
}

/// The head part of a status.
pub open spec fn head_of(value: StatusModel) -> StatusHead {
    StatusHead {
        flags: status_codec::status_flags(value),
        desired: value.desired,
        state: value.state,
        readiness: value.readiness,
        logger: value.logger,
    }
}

/// The counter part of a status.
pub open spec fn counters_of(value: StatusModel) -> StatusCounters {
    StatusCounters {
        supervisor_pid: value.supervisor_pid,
        main_pid: value.main_pid,
        uptime_seconds: value.uptime_seconds,
        down_seconds: value.down_seconds,
        starts: value.starts,
        failures: value.failures,
        backoff_seconds: value.backoff_seconds,
        last_result: value.last_result,
    }
}

/// Every state code is recovered from its number and the other way around.
proof fn lemma_state_codes(value: StatusModel)
    ensures
        status::desired_numbered(status::desired_number(value.desired)) == Some(value.desired),
        ServiceState::numbered(value.state.number()) == Some(value.state),
        ReadinessStatus::numbered(value.readiness.number()) == Some(value.readiness),
        LoggerStatus::numbered(value.logger.number()) == Some(value.logger),
{
}

proof fn lemma_head(value: StatusModel, rest: Seq<u8>)
    ensures
        status_codec::parse_head(status_codec::head_bytes(value) + rest) == Ok::<
            (StatusHead, Seq<u8>),
            ProtocolFault,
        >((head_of(value), rest)),
{
    let flags = status_codec::status_flags(value);
    let bytes = status_codec::head_bytes(value) + rest;
    lemma_flags(value);
    lemma_state_codes(value);
    wire::lemma_wire_widths();
    wire::lemma_be_bytes_len(flags, 2);
    wire::lemma_be_round_trip(flags, 2);
    assert(bytes.take(2) =~= wire::be_bytes(flags, 2));
    assert(bytes[2] == status::desired_number(value.desired));
    assert(bytes[3] == value.state.number());
    assert(bytes[4] == value.readiness.number());
    assert(bytes[5] == value.logger.number());
    assert(bytes.skip(6) =~= rest);
}

proof fn lemma_counters(value: StatusModel, rest: Seq<u8>)
    requires
        value.supervisor_pid != Some(0u32),
        value.main_pid != Some(0u32),
    ensures
        status_codec::parse_counters(
            status_codec::counter_bytes(value) + rest,
            status_codec::status_flags(value),
        ) == Ok::<(StatusCounters, Seq<u8>), ProtocolFault>((counters_of(value), rest)),
{
    lemma_flags(value);
    wire::lemma_wire_widths();
    let p1 = status_codec::optional_u32(value.supervisor_pid);
    let p2 = status_codec::optional_u32(value.main_pid);
    let p3 = status_codec::optional_u64(value.uptime_seconds);
    let p4 = status_codec::optional_u64(value.down_seconds);
    let p5 = wire::be_bytes(value.starts as nat, 8);
    let p6 = wire::be_bytes(value.failures as nat, 8);
    let p7 = status_codec::optional_u64(value.backoff_seconds);
    let p8 = status_codec::optional_result(value.last_result);
    let t7 = p7 + p8;
    let t6 = p6 + t7;
    let t5 = p5 + t6;
    let t4 = p4 + t5;
    let t3 = p3 + t4;
    let t2 = p2 + t3;
    lemma_assoc(p1, t2, rest);
    lemma_assoc(p2, t3, rest);
    lemma_assoc(p3, t4, rest);
    lemma_assoc(p4, t5, rest);
    lemma_assoc(p5, t6, rest);
    lemma_assoc(p6, t7, rest);
    lemma_assoc(p7, p8, rest);
    lemma_pid(value.supervisor_pid, t2 + rest);
    lemma_pid(value.main_pid, t3 + rest);
    lemma_u64(value.uptime_seconds, t4 + rest);
    lemma_u64(value.down_seconds, t5 + rest);
    lemma_number(value.starts as nat, 8, t6 + rest);
    lemma_number(value.failures as nat, 8, t7 + rest);
    lemma_u64(value.backoff_seconds, p8 + rest);
    lemma_result(value.last_result, rest);
}

/// A length-prefixed text is recovered exactly, whatever bytes follow it.
pub proof fn argument_round_trips(argument: Seq<char>, rest: Seq<u8>)
    requires
        encode_utf8(argument).len() < 0x1_0000,
    ensures
        status_codec::parse_argument(status_codec::argument_bytes(argument) + rest) == Ok::<
            (Seq<char>, Seq<u8>),
            ProtocolFault,
        >((argument, rest)),
{
    let encoded = encode_utf8(argument);
    wire::lemma_wire_widths();
    lemma_assoc(wire::be_bytes(encoded.len(), 2), encoded, rest);
    lemma_number(encoded.len(), 2, encoded + rest);
    assert((encoded + rest).take(encoded.len() as int) =~= encoded);
    assert((encoded + rest).skip(encoded.len() as int) =~= rest);
    encode_utf8_valid_utf8(argument);
    encode_utf8_decode_utf8(argument);
}

/// A length-prefixed text which parses has exactly its own bytes.
pub proof fn argument_bytes_are_canonical(bytes: Seq<u8>)
    requires
        status_codec::parse_argument(bytes) is Ok,
    ensures
        ({
            let (argument, rest) = status_codec::parse_argument(bytes)->Ok_0;
            &&& encode_utf8(argument).len() < 0x1_0000
            &&& bytes == status_codec::argument_bytes(argument) + rest
        }),
{
    let (length, tail) = status_codec::parse_number(bytes, 2)->Ok_0;
    let encoded = tail.take(length as int);
    let rest = tail.skip(length as int);
    wire::lemma_wire_widths();
    lemma_number_back(bytes, 2);
    decode_utf8_encode_utf8(encoded);
    assert(tail =~= encoded + rest);
    lemma_assoc(wire::be_bytes(length, 2), encoded, rest);
}

proof fn lemma_arguments(arguments: Seq<Seq<char>>, rest: Seq<u8>)
    requires
        status_codec::arguments_fit(arguments),
    ensures
        status_codec::parse_arguments(
            status_codec::arguments_bytes(arguments) + rest,
            arguments.len(),
        ) == Ok::<(Seq<Seq<char>>, Seq<u8>), ProtocolFault>((arguments, rest)),
    decreases arguments.len(),
{
    if arguments.len() == 0 {
        assert(status_codec::arguments_bytes(arguments) + rest =~= rest);
        assert(arguments =~= Seq::empty());
    } else {
        let others = arguments.drop_first();
        assert forall|i: int| 0 <= i < others.len() implies encode_utf8(
            #[trigger] others[i],
        ).len() < 0x1_0000 by {
            assert(others[i] == arguments[i + 1]);
        }
        lemma_arguments(others, rest);
        lemma_assoc(
            status_codec::argument_bytes(arguments[0]),
            status_codec::arguments_bytes(others),
            rest,
        );
        argument_round_trips(arguments[0], status_codec::arguments_bytes(others) + rest);
        assert(seq![arguments[0]] + others =~= arguments);
    }
}

proof fn lemma_arguments_back(bytes: Seq<u8>, count: nat)
    requires
        status_codec::parse_arguments(bytes, count) is Ok,
    ensures
        ({
            let (arguments, rest) = status_codec::parse_arguments(bytes, count)->Ok_0;
            &&& arguments.len() == count
            &&& status_codec::arguments_fit(arguments)
            &&& bytes == status_codec::arguments_bytes(arguments) + rest
        }),
    decreases count,
{
    let (arguments, rest) = status_codec::parse_arguments(bytes, count)->Ok_0;
    if count == 0 {
        assert(status_codec::arguments_bytes(arguments) + rest =~= rest);
    } else {
        let (first, tail) = status_codec::parse_argument(bytes)->Ok_0;
        let (others, end) = status_codec::parse_arguments(tail, (count - 1) as nat)->Ok_0;
        argument_bytes_are_canonical(bytes);
        lemma_arguments_back(tail, (count - 1) as nat);
        assert(arguments == seq![first] + others);
        assert(arguments[0] == first);
        assert(arguments.drop_first() =~= others);
        lemma_assoc(
            status_codec::argument_bytes(first),
            status_codec::arguments_bytes(others),
            rest,
        );
        assert forall|i: int| 0 <= i < arguments.len() implies encode_utf8(
            #[trigger] arguments[i],
        ).len() < 0x1_0000 by {
            if i > 0 {
                assert(arguments[i] == others[i - 1]);
            }
        }
    }
}

/// Every carriable status is recovered exactly, whatever bytes follow it.
pub proof fn status_round_trips(value: StatusModel, rest: Seq<u8>)
    requires
        status_codec::status_fault(value) is None,
    ensures
        status_codec::parse_status(status_codec::status_bytes(value) + rest) == Ok::<
            (StatusModel, Seq<u8>),
            ProtocolFault,
        >((value, rest)),
{
    let head = status_codec::head_bytes(value);
    let counters = status_codec::counter_bytes(value);
    let argv = status_codec::argv_bytes(value.command);
    let listed = status_codec::arguments_bytes(value.command);
    wire::lemma_wire_widths();
    lemma_assoc(head + counters, argv, rest);
    lemma_assoc(head, counters, argv + rest);
    lemma_head(value, counters + (argv + rest));
    lemma_counters(value, argv + rest);
    lemma_assoc(wire::be_bytes(value.command.len(), 2), listed, rest);
    lemma_number(value.command.len(), 2, listed + rest);
    lemma_arguments(value.command, rest);
    assert(status_codec::assembled(head_of(value), counters_of(value), value.command) =~= value);
}

proof fn lemma_head_back(bytes: Seq<u8>, value: StatusModel)
    requires
        status_codec::parse_head(bytes) is Ok,
        status_codec::parse_head(bytes)->Ok_0.0 == head_of(value),
    ensures
        bytes == status_codec::head_bytes(value) + status_codec::parse_head(bytes)->Ok_0.1,
{
    wire::lemma_be_value_round_trip(bytes.take(2));
    assert(bytes.take(2)[0] == bytes[0]);
    assert(bytes.take(2)[1] == bytes[1]);
    wire::lemma_be_bytes_len(status_codec::status_flags(value), 2);
    assert(bytes =~= status_codec::head_bytes(value) + bytes.skip(6));
}

proof fn lemma_counters_back(bytes: Seq<u8>, flags: nat)
    requires
        flags < 64,
        status_codec::parse_counters(bytes, flags) is Ok,
    ensures
        ({
            let (counters, rest) = status_codec::parse_counters(bytes, flags)->Ok_0;
            forall|value: StatusModel| #[trigger]
                counters_of(value) == counters ==> {
                    &&& status_codec::status_flags(value) == flags
                    &&& value.supervisor_pid != Some(0u32)
                    &&& value.main_pid != Some(0u32)
                    &&& bytes == status_codec::counter_bytes(value) + rest
                }
        }),
{
    let (counters, rest) = status_codec::parse_counters(bytes, flags)->Ok_0;
    wire::lemma_wire_widths();
    lemma_flags_back(flags);
    let b1 = status_codec::parse_pid(bytes, status_codec::has_flag(flags, 1))->Ok_0.1;
    let b2 = status_codec::parse_pid(b1, status_codec::has_flag(flags, 2))->Ok_0.1;
    let b3 = status_codec::parse_optional_u64(b2, status_codec::has_flag(flags, 4))->Ok_0.1;
    let b4 = status_codec::parse_optional_u64(b3, status_codec::has_flag(flags, 8))->Ok_0.1;
    let b5 = status_codec::parse_number(b4, 8)->Ok_0.1;
    let b6 = status_codec::parse_number(b5, 8)->Ok_0.1;
    let b7 = status_codec::parse_optional_u64(b6, status_codec::has_flag(flags, 16))->Ok_0.1;
    lemma_pid_back(bytes, status_codec::has_flag(flags, 1));
    lemma_pid_back(b1, status_codec::has_flag(flags, 2));
    lemma_u64_back(b2, status_codec::has_flag(flags, 4));
    lemma_u64_back(b3, status_codec::has_flag(flags, 8));
    lemma_number_back(b4, 8);
    lemma_number_back(b5, 8);
    lemma_u64_back(b6, status_codec::has_flag(flags, 16));
    lemma_result_back(b7, status_codec::has_flag(flags, 32));
    let p1 = status_codec::optional_u32(counters.supervisor_pid);
    let p2 = status_codec::optional_u32(counters.main_pid);
    let p3 = status_codec::optional_u64(counters.uptime_seconds);
    let p4 = status_codec::optional_u64(counters.down_seconds);
    let p5 = wire::be_bytes(counters.starts as nat, 8);
    let p6 = wire::be_bytes(counters.failures as nat, 8);
    let p7 = status_codec::optional_u64(counters.backoff_seconds);
    let p8 = status_codec::optional_result(counters.last_result);
    let t7 = p7 + p8;
    let t6 = p6 + t7;
    let t5 = p5 + t6;
    let t4 = p4 + t5;
    let t3 = p3 + t4;
    let t2 = p2 + t3;
    lemma_assoc(p7, p8, rest);
    lemma_assoc(p6, t7, rest);
    lemma_assoc(p5, t6, rest);
    lemma_assoc(p4, t5, rest);
    lemma_assoc(p3, t4, rest);
    lemma_assoc(p2, t3, rest);
    lemma_assoc(p1, t2, rest);
    assert(bytes == (p1 + t2) + rest);
    assert forall|value: StatusModel| #[trigger] counters_of(value) == counters implies {
        &&& status_codec::status_flags(value) == flags
        &&& value.supervisor_pid != Some(0u32)
        &&& value.main_pid != Some(0u32)
        &&& bytes == status_codec::counter_bytes(value) + rest
    } by {
        reveal(status_codec::status_flags);
        assert(status_codec::counter_bytes(value) == p1 + t2);
    }
}

/// Status bytes which parse are exactly the wire form of the parsed status.
pub proof fn status_bytes_are_canonical(bytes: Seq<u8>)
    requires
        status_codec::parse_status(bytes) is Ok,
    ensures
        ({
            let (value, rest) = status_codec::parse_status(bytes)->Ok_0;
            &&& bytes == status_codec::status_bytes(value) + rest
            &&& status_codec::status_fault(value) is None
        }),
{
    let (value, rest) = status_codec::parse_status(bytes)->Ok_0;
    let (head, after_head) = status_codec::parse_head(bytes)->Ok_0;
    let (counters, after_counters) = status_codec::parse_counters(
        after_head,
        head.flags,
    )->Ok_0;
    let (count, after_count) = status_codec::parse_number(after_counters, 2)->Ok_0;
    lemma_counters_back(after_head, head.flags);
    assert(counters_of(value) == counters);
    assert(head_of(value) == head);
    lemma_head_back(bytes, value);
    lemma_number_back(after_counters, 2);
    lemma_arguments_back(after_count, count);
    let p1 = status_codec::head_bytes(value);
    let p2 = status_codec::counter_bytes(value);
    let p3 = status_codec::argv_bytes(value.command);
    let listed = status_codec::arguments_bytes(value.command);
    lemma_assoc(wire::be_bytes(count, 2), listed, rest);
    lemma_assoc(p1 + p2, p3, rest);
    lemma_assoc(p1, p2, p3 + rest);
}

} // verus!
