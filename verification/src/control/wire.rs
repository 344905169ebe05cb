//! Shared frame envelope constants, big-endian integers, and the decode cursor.
//!
//! Control frames begin with fixed magic, version, operation or result fields,
//! and a two-byte payload length at the end of the fixed header. The cursor
//! advances through decoded bytes with checked splits, so truncated input is an
//! absent value rather than an unchecked index.

use vstd::arithmetic::power::*;
use vstd::prelude::*;

verus! {

/// Length of the fixed frame header.
pub const HEADER_BYTES: usize = 18;

/// Response without a typed payload.
pub const RESPONSE_PAYLOAD_NONE: u8 = 0;

/// Response with a status payload.
pub const RESPONSE_PAYLOAD_STATUS: u8 = 1;

/// Bytes which identify the protocol.
pub open spec fn magic() -> Seq<u8> {
    seq![73u8, 77u8, 77u8, 79u8]
}

/// Big-endian bytes of `value`, truncated to `width` bytes.
pub open spec fn be_bytes(value: nat, width: nat) -> Seq<u8>
    decreases width,
{
    if width == 0 {
        Seq::empty()
    } else {
        be_bytes(value / 256, (width - 1) as nat).push((value % 256) as u8)
    }
}

/// Number spelled by big-endian bytes.
pub open spec fn be_value(bytes: Seq<u8>) -> nat
    decreases bytes.len(),
{
    if bytes.len() == 0 {
        0
    } else {
        be_value(bytes.drop_last()) * 256 + bytes.last() as nat
    }
}

/// A big-endian spelling has the requested width.
pub broadcast proof fn lemma_be_bytes_len(value: nat, width: nat)
    ensures
        (#[trigger] be_bytes(value, width)).len() == width,
    decreases width,
{
    if width > 0 {
        lemma_be_bytes_len(value / 256, (width - 1) as nat);
    }
}

/// A number which fits is recovered from its big-endian spelling.
pub proof fn lemma_be_round_trip(value: nat, width: nat)
    requires
        value < pow(256, width),
    ensures
        be_value(be_bytes(value, width)) == value,
    decreases width,
{
    lemma_pow0(256);
    if width > 0 {
        reveal(pow);
        lemma_be_round_trip(value / 256, (width - 1) as nat);
        assert(be_bytes(value, width).drop_last() =~= be_bytes(value / 256, (width - 1) as nat));
    }
}

/// Bytes are recovered from the number which they spell.
pub proof fn lemma_be_value_round_trip(bytes: Seq<u8>)
    ensures
        be_bytes(be_value(bytes), bytes.len()) == bytes,
    decreases bytes.len(),
{
    if bytes.len() > 0 {
        let rest = bytes.drop_last();
        lemma_be_value_round_trip(rest);
        assert(be_value(bytes) / 256 == be_value(rest));
        assert(be_value(bytes) % 256 == bytes.last());
        assert(be_bytes(be_value(bytes), bytes.len()) =~= rest.push(bytes.last()));
        assert(bytes =~= rest.push(bytes.last()));
    } else {
        assert(be_bytes(be_value(bytes), bytes.len()) =~= bytes);
    }
}

/// A big-endian spelling of `n` bytes stays below `256 ^ n`.
pub proof fn lemma_be_value_bound(bytes: Seq<u8>)
    ensures
        be_value(bytes) < pow(256, bytes.len()),
    decreases bytes.len(),
{
    lemma_pow0(256);
    if bytes.len() > 0 {
        reveal(pow);
        lemma_be_value_bound(bytes.drop_last());
    }
}

/// Powers which bound the widths used on the wire.
pub proof fn lemma_wire_widths()
    ensures
        pow(256, 1) == 0x100,
        pow(256, 2) == 0x1_0000,
        pow(256, 4) == 0x1_0000_0000,
        pow(256, 8) == 0x1_0000_0000_0000_0000,
{
    reveal(pow);
    reveal_with_fuel(pow, 10);
}

/// Append the big-endian bytes of `value`.
pub(crate) fn push_be(frame: &mut Vec<u8>, value: u64, width: usize)
    ensures
        final(frame)@ == old(frame)@ + be_bytes(value as nat, width as nat),
    decreases width,
{
    if width > 0 {
        push_be(frame, value / 256, width - 1);
        frame.push((value % 256) as u8);
    }
    assert(frame@ =~= old(frame)@ + be_bytes(value as nat, width as nat));
}

/// Append raw bytes.
pub(crate) fn push_bytes(frame: &mut Vec<u8>, bytes: &[u8])
    ensures
        final(frame)@ == old(frame)@ + bytes@,
{
    let mut index: usize = 0;
    while index < bytes.len()
        invariant
            index <= bytes@.len(),
            frame@ == old(frame)@ + bytes@.take(index as int),
        decreases bytes@.len() - index,
    {
        frame.push(bytes[index]);
        index = index + 1;
        assert(frame@ =~= old(frame)@ + bytes@.take(index as int));
    }
    assert(bytes@.take(index as int) =~= bytes@);
}

/// Append the protocol magic.
pub(crate) fn push_magic(frame: &mut Vec<u8>)
    ensures
        final(frame)@ == old(frame)@ + magic(),
{
    frame.push(73);
    frame.push(77);
    frame.push(77);
    frame.push(79);
    assert(frame@ =~= old(frame)@ + magic());
}

/// Whether four bytes are the protocol magic.
pub(crate) fn is_magic(bytes: &[u8]) -> (found: bool)
    requires
        bytes@.len() == 4,
    ensures
        found == (bytes@ == magic()),
{
    let found = bytes[0] == 73 && bytes[1] == 77 && bytes[2] == 77 && bytes[3] == 79;
    proof {
        if found {
            assert(bytes@ =~= magic());
        }
    }
    found
}

/// Bounded decode position inside one complete frame.
pub(crate) struct Cursor<'a> {
    frame: &'a [u8],
    position: usize,
}

impl<'a> Cursor<'a> {
    /// The position lies inside the frame.
    pub closed spec fn wf(self) -> bool {
        self.position <= self.frame@.len()
    }

    /// Bytes which were not consumed yet.
    pub closed spec fn remaining(self) -> Seq<u8> {
        self.frame@.skip(self.position as int)
    }

    /// Begin at the first byte.
    pub fn new(frame: &'a [u8]) -> (cursor: Self)
        ensures
            cursor.wf(),
            cursor.remaining() == frame@,
    {
        let cursor = Cursor { frame, position: 0 };
        assert(frame@.skip(0) =~= frame@);
        cursor
    }

    /// Number of bytes which were not consumed yet.
    pub fn len(&self) -> (length: usize)
        requires
            self.wf(),
        ensures
            length == self.remaining().len(),
    {
        self.frame.len() - self.position
    }

    /// Whether every byte was consumed.
    pub fn is_empty(&self) -> (empty: bool)
        requires
            self.wf(),
        ensures
            empty == (self.remaining().len() == 0),
    {
        self.frame.len() == self.position
    }

    /// Consume `count` bytes, or leave the cursor alone when fewer are left.
    pub fn bytes(&mut self, count: usize) -> (taken: Option<&'a [u8]>)
        requires
            old(self).wf(),
        ensures
            final(self).wf(),
            match taken {
                Some(value) => {
                    &&& count <= old(self).remaining().len()
                    &&& value@ == old(self).remaining().take(count as int)
                    &&& final(self).remaining() == old(self).remaining().skip(count as int)
                },
                None => count > old(self).remaining().len() && *final(self) == *old(self),
            },
    {
        if self.frame.len() - self.position < count {
            return None;
        }
        let start: usize = self.position;
        self.position = start + count;
        let value = vstd::slice::slice_subrange(self.frame, start, start + count);
        assert(value@ =~= old(self).remaining().take(count as int));
        assert(self.remaining() =~= old(self).remaining().skip(count as int));
        Some(value)
    }

    /// Consume one byte.
    pub fn byte(&mut self) -> (taken: Option<u8>)
        requires
            old(self).wf(),
        ensures
            final(self).wf(),
            match taken {
                Some(value) => {
                    &&& old(self).remaining().len() >= 1
                    &&& value == old(self).remaining()[0]
                    &&& final(self).remaining() == old(self).remaining().skip(1)
                },
                None => old(self).remaining().len() == 0,
            },
    {
        match self.bytes(1) {
            Some(value) => Some(value[0]),
            None => None,
        }
    }

    /// Consume one big-endian number of at most eight bytes.
    pub fn number(&mut self, width: usize) -> (taken: Option<u64>)
        requires
            old(self).wf(),
            width <= 8,
        ensures
            final(self).wf(),
            match taken {
                Some(value) => {
                    &&& width <= old(self).remaining().len()
                    &&& value == be_value(old(self).remaining().take(width as int))
                    &&& value < pow(256, width as nat)
                    &&& final(self).remaining() == old(self).remaining().skip(width as int)
                },
                None => width > old(self).remaining().len(),
            },
    {
        let bytes = match self.bytes(width) {
            Some(bytes) => bytes,
            None => return None,
        };
        let mut value: u64 = 0;
        let mut index: usize = 0;
        while index < bytes.len()
            invariant
                index <= bytes@.len(),
                bytes@.len() == width <= 8,
                value == be_value(bytes@.take(index as int)),
            decreases bytes@.len() - index,
        {
            let ghost seen = bytes@.take(index + 1);
            proof {
                lemma_be_value_bound(seen);
                lemma_pow_increases(256, seen.len(), 8);
                lemma_wire_widths();
                assert(seen.drop_last() =~= bytes@.take(index as int));
            }
            value = value * 256 + bytes[index] as u64;
            index = index + 1;
        }
        proof {
            assert(bytes@.take(index as int) =~= bytes@);
            lemma_be_value_bound(bytes@);
        }
        Some(value)
    }
}

/// Numbers of one width are ordered as their bytes are: the first byte in which they
/// differ decides, and a single byte is its own value.
pub proof fn leading_bytes_weigh_most(left: Seq<u8>, right: Seq<u8>, at: int)
    requires
        left.len() == right.len(),
        0 <= at < left.len(),
        forall|i: int| 0 <= i < at ==> left[i] == right[i],
        left[at] < right[at],
    ensures
        be_value(left) < be_value(right),
        left.len() == 1 ==> be_value(left) == left[0],
    decreases left.len(),
{
    if at == left.len() - 1 {
        assert(left.drop_last() =~= right.drop_last());
    } else {
        leading_bytes_weigh_most(left.drop_last(), right.drop_last(), at);
    }
    if left.len() == 1 {
        assert(left.drop_last().len() == 0);
    }
}

} // verus!
