//! Environment overrides and the direct-command environment-directory rules.
//!
//! Overrides are kept in byte order of their keys, at most one per key. A
//! directory of small files contributes each regular file's name and first line.
//! Every read is guarded against replacement: the directory and each file are
//! inspected again, by identity, size, and modification time, after every
//! operation which could race, and symlinks are never followed.

use vstd::prelude::*;
use vstd::string::*;
use vstd::utf8::*;

use crate::fault;
use crate::fault::{Fault, FaultKind};
use crate::path::UnixPath;
use crate::text;
use crate::text::{
    concat2, concat3, debug_quoted, decode_text, push_decimal, text_contains, text_equal,
};

use super::error::{ConfigError, ConfigFault};

verus! {

/// Maximum number of entries inspected in one direct-command environment directory.
pub const MAX_ENVIRONMENT_DIRECTORY_ENTRIES: usize = 4_096;

/// Maximum accepted byte length of one environment-file first line.
pub const MAX_ENVIRONMENT_VALUE_BYTES: usize = 262_144;

/// Maximum aggregate byte length of loaded environment keys and values.
pub const MAX_ENVIRONMENT_DIRECTORY_BYTES: usize = 1_048_576;

/// Most bytes read from one environment file: a value and its line ending.
pub const MAX_ENVIRONMENT_VALUE_READ_BYTES: u64 = 262_146;

// ---------------------------------------------------------------------------
// Byte order
// ---------------------------------------------------------------------------

/// Strict lexicographic order of bytes.
pub open spec fn precedes(left: Seq<u8>, right: Seq<u8>) -> bool
    decreases left.len(),
{
    if right.len() == 0 {
        false
    } else if left.len() == 0 {
        true
    } else if left[0] != right[0] {
        left[0] < right[0]
    } else {
        precedes(left.drop_first(), right.drop_first())
    }
}

proof fn lemma_order_is_strict(left: Seq<u8>, right: Seq<u8>)
    ensures
        precedes(left, right) ==> !precedes(right, left) && left != right,
        left != right && !precedes(left, right) ==> precedes(right, left),
    decreases left.len(),
{
    if left.len() > 0 && right.len() > 0 && left[0] == right[0] {
        lemma_order_is_strict(left.drop_first(), right.drop_first());
        if left.drop_first() == right.drop_first() {
            assert(left =~= seq![left[0]] + left.drop_first());
            assert(right =~= seq![right[0]] + right.drop_first());
        }
    } else if left.len() == 0 && right.len() == 0 {
        assert(left =~= right);
    }
}

proof fn lemma_order_chains(first: Seq<u8>, second: Seq<u8>, third: Seq<u8>)
    requires
        precedes(first, second),
        precedes(second, third),
    ensures
        precedes(first, third),
    decreases first.len(),
{
    if first.len() > 0 && first[0] == second[0] && second[0] == third[0] {
        lemma_order_chains(first.drop_first(), second.drop_first(), third.drop_first());
    }
}

fn comes_before(left: &[u8], right: &[u8]) -> (before: bool)
    ensures
        before == precedes(left@, right@),
{
    let mut index: usize = 0;
    assert(left@.skip(0) =~= left@);
    assert(right@.skip(0) =~= right@);
    loop
        invariant
            index <= left@.len(),
            index <= right@.len(),
            precedes(left@.skip(index as int), right@.skip(index as int)) == precedes(
                left@,
                right@,
            ),
        decreases left@.len() - index,
    {
        if index == right.len() {
            return false;
        }
        if index == left.len() {
            return true;
        }
        proof {
            assert(left@.skip(index as int)[0] == left@[index as int]);
            assert(right@.skip(index as int)[0] == right@[index as int]);
            assert(left@.skip(index as int).drop_first() =~= left@.skip(index + 1));
            assert(right@.skip(index as int).drop_first() =~= right@.skip(index + 1));
        }
        if left[index] != right[index] {
            return left[index] < right[index];
        }
        index = index + 1;
    }
}

// ---------------------------------------------------------------------------
// Overrides
// ---------------------------------------------------------------------------

/// One environment override.
#[derive(Clone, Debug, PartialEq, Eq)]
pub struct EnvironmentEntry {
    /// Variable name.
    pub key: String,
    /// Variable value.
    pub value: String,
}

/// One scalar of an environment mapping.
#[derive(Clone, Debug, PartialEq, Eq)]
pub enum EnvironmentScalar {
    /// Text as it is.
    Text(String),
    /// A signed integer.
    Signed(i64),
    /// An integer beyond the signed range.
    Unsigned(u64),
    /// A truth value.
    Boolean(bool),
}

impl EnvironmentScalar {
    /// Value of the variable which a scalar sets.
    pub open spec fn spelled(self) -> Seq<char> {
        match self {
            EnvironmentScalar::Text(value) => value@,
            EnvironmentScalar::Signed(value) => text::signed_decimal(value as int),
            EnvironmentScalar::Unsigned(value) => text::decimal(value as nat),
            EnvironmentScalar::Boolean(value) => if value {
                "true"@
            } else {
                "false"@
            },
        }
    }

    /// Value of the variable which a scalar sets.
    #[must_use]
    pub fn into_text(self) -> (value: String)
        ensures
            value@ == self.spelled(),
    {
        match self {
            EnvironmentScalar::Text(value) => value,
            EnvironmentScalar::Signed(value) => {
                let mut spelled = String::new();
                text::push_signed_decimal(&mut spelled, value);
                assert(spelled@ =~= text::signed_decimal(value as int));
                spelled
            },
            EnvironmentScalar::Unsigned(value) => {
                let mut spelled = String::new();
                text::push_decimal(&mut spelled, value);
                assert(spelled@ =~= text::decimal(value as nat));
                spelled
            },
            EnvironmentScalar::Boolean(value) => if value {
                "true".to_owned()
            } else {
                "false".to_owned()
            },
        }
    }
}

/// Environment overrides, at most one per key, ordered by key bytes.
#[derive(Debug, PartialEq, Eq)]
pub struct Environment {
    entries: Vec<EnvironmentEntry>,
}

/// Name and value pairs of entries.
pub open spec fn entry_views(entries: Seq<EnvironmentEntry>) -> Seq<(Seq<char>, Seq<char>)> {
    entries.map_values(|entry: EnvironmentEntry| (entry.key@, entry.value@))
}

/// Whether pairs are strictly ordered by key bytes.
pub open spec fn ordered(pairs: Seq<(Seq<char>, Seq<char>)>) -> bool {
    forall|i: int, j: int|
        0 <= i < j < pairs.len() ==> precedes(
            encode_utf8((#[trigger] pairs[i]).0),
            encode_utf8((#[trigger] pairs[j]).0),
        )
}

/// Whether a key is bound.
pub open spec fn binds(pairs: Seq<(Seq<char>, Seq<char>)>, key: Seq<char>) -> bool {
    exists|i: int| 0 <= i < pairs.len() && (#[trigger] pairs[i]).0 == key
}

/// Position of a bound key.
pub open spec fn key_position(pairs: Seq<(Seq<char>, Seq<char>)>, key: Seq<char>) -> int {
    choose|i: int| 0 <= i < pairs.len() && (#[trigger] pairs[i]).0 == key
}

/// Value of a bound key.
pub open spec fn bound_value(pairs: Seq<(Seq<char>, Seq<char>)>, key: Seq<char>) -> Seq<char> {
    pairs[key_position(pairs, key)].1
}

/// Bindings of pairs.
pub open spec fn bindings(pairs: Seq<(Seq<char>, Seq<char>)>) -> Map<Seq<char>, Seq<char>> {
    Map::new(|key: Seq<char>| binds(pairs, key), |key: Seq<char>| bound_value(pairs, key))
}

impl View for Environment {
    type V = Seq<(Seq<char>, Seq<char>)>;

    closed spec fn view(&self) -> Seq<(Seq<char>, Seq<char>)> {
        entry_views(self.entries@)
    }
}

impl Clone for Environment {
    fn clone(&self) -> (copy: Self)
        ensures
            copy@ == self@,
    {
        proof {
            use_type_invariant(self);
        }
        let mut entries: Vec<EnvironmentEntry> = Vec::new();
        let mut index: usize = 0;
        while index < self.entries.len()
            invariant
                index <= self.entries@.len(),
                entry_views(entries@) == self@.take(index as int),
            decreases self.entries@.len() - index,
        {
            let ghost copied = entry_views(entries@);
            entries.push(
                EnvironmentEntry {
                    key: self.entries[index].key.clone(),
                    value: self.entries[index].value.clone(),
                },
            );
            assert(entry_views(entries@) =~= copied.push(self@[index as int]));
            assert(self@.take(index + 1) =~= self@.take(index as int).push(self@[index as int]));
            index = index + 1;
        }
        assert(self@.take(index as int) =~= self@);
        Environment { entries }
    }
}

proof fn lemma_keys_are_unique(pairs: Seq<(Seq<char>, Seq<char>)>, left: int, right: int)
    requires
        ordered(pairs),
        0 <= left < pairs.len(),
        0 <= right < pairs.len(),
        pairs[left].0 == pairs[right].0,
    ensures
        left == right,
{
    lemma_order_is_strict(encode_utf8(pairs[left].0), encode_utf8(pairs[right].0));
}

/// In ordered pairs each key is bound to the value beside it.
pub proof fn lemma_bound_value(pairs: Seq<(Seq<char>, Seq<char>)>, index: int)
    requires
        ordered(pairs),
        0 <= index < pairs.len(),
    ensures
        binds(pairs, pairs[index].0),
        bound_value(pairs, pairs[index].0) == pairs[index].1,
{
    assert(binds(pairs, pairs[index].0));
    lemma_keys_are_unique(pairs, key_position(pairs, pairs[index].0), index);
}

proof fn lemma_replaced(
    pairs: Seq<(Seq<char>, Seq<char>)>,
    index: int,
    key: Seq<char>,
    value: Seq<char>,
)
    requires
        ordered(pairs),
        0 <= index < pairs.len(),
        pairs[index].0 == key,
    ensures
        ordered(pairs.update(index, (key, value))),
        bindings(pairs.update(index, (key, value))) == bindings(pairs).insert(key, value),
{
    let after = pairs.update(index, (key, value));
    assert(ordered(after)) by {
        assert forall|i: int, j: int| 0 <= i < j < after.len() implies precedes(
            encode_utf8((#[trigger] after[i]).0),
            encode_utf8((#[trigger] after[j]).0),
        ) by {
            assert(after[i].0 == pairs[i].0);
            assert(after[j].0 == pairs[j].0);
        }
    }
    assert forall|other: Seq<char>| binds(after, other) == (other == key || binds(pairs, other)) by {
        if binds(after, other) {
            let i = choose|i: int| 0 <= i < after.len() && (#[trigger] after[i]).0 == other;
            assert(pairs[i].0 == other);
        }
        if binds(pairs, other) {
            let i = choose|i: int| 0 <= i < pairs.len() && (#[trigger] pairs[i]).0 == other;
            assert(after[i].0 == other);
        }
        assert(after[index].0 == key);
    }
    assert forall|other: Seq<char>| binds(after, other) implies bound_value(after, other) == (
    if other == key {
        value
    } else {
        bound_value(pairs, other)
    }) by {
        let i = choose|i: int| 0 <= i < after.len() && (#[trigger] after[i]).0 == other;
        lemma_bound_value(after, i);
        if i != index {
            assert(pairs[i] == after[i]);
            lemma_bound_value(pairs, i);
            if other == key {
                lemma_keys_are_unique(pairs, i, index);
            }
        }
    }
    assert(bindings(after) =~= bindings(pairs).insert(key, value));
}

proof fn lemma_inserted(
    pairs: Seq<(Seq<char>, Seq<char>)>,
    index: int,
    key: Seq<char>,
    value: Seq<char>,
)
    requires
        ordered(pairs),
        0 <= index <= pairs.len(),
        forall|i: int|
            0 <= i < index ==> precedes(encode_utf8((#[trigger] pairs[i]).0), encode_utf8(key)),
        forall|i: int|
            index <= i < pairs.len() ==> precedes(
                encode_utf8(key),
                encode_utf8((#[trigger] pairs[i]).0),
            ),
    ensures
        ordered(pairs.insert(index, (key, value))),
        bindings(pairs.insert(index, (key, value))) == bindings(pairs).insert(key, value),
{
    let after = pairs.insert(index, (key, value));
    assert(ordered(after)) by {
        assert forall|i: int, j: int| 0 <= i < j < after.len() implies precedes(
            encode_utf8((#[trigger] after[i]).0),
            encode_utf8((#[trigger] after[j]).0),
        ) by {
            if i < index {
                assert(after[i] == pairs[i]);
            } else if i > index {
                assert(after[i] == pairs[i - 1]);
            }
            if j < index {
                assert(after[j] == pairs[j]);
            } else if j > index {
                assert(after[j] == pairs[j - 1]);
            }
        }
    }
    assert forall|other: Seq<char>| binds(after, other) == (other == key || binds(pairs, other)) by {
        if binds(after, other) {
            let i = choose|i: int| 0 <= i < after.len() && (#[trigger] after[i]).0 == other;
            if i < index {
                assert(pairs[i].0 == other);
            } else if i > index {
                assert(pairs[i - 1].0 == other);
            }
        }
        if binds(pairs, other) {
            let i = choose|i: int| 0 <= i < pairs.len() && (#[trigger] pairs[i]).0 == other;
            if i < index {
                assert(after[i].0 == other);
            } else {
                assert(after[i + 1].0 == other);
            }
        }
        assert(after[index].0 == key);
    }
    assert forall|other: Seq<char>| binds(after, other) implies bound_value(after, other) == (
    if other == key {
        value
    } else {
        bound_value(pairs, other)
    }) by {
        let i = choose|i: int| 0 <= i < after.len() && (#[trigger] after[i]).0 == other;
        lemma_bound_value(after, i);
        if i != index {
            let before = if i < index {
                i
            } else {
                i - 1
            };
            assert(pairs[before] == after[i]);
            lemma_bound_value(pairs, before);
            if other == key {
                lemma_order_is_strict(encode_utf8(pairs[before].0), encode_utf8(key));
            }
        }
    }
    assert(bindings(after) =~= bindings(pairs).insert(key, value));
}

impl Environment {
    #[verifier::type_invariant]
    closed spec fn well_formed(self) -> bool {
        ordered(entry_views(self.entries@))
    }

    /// No override at all.
    #[must_use]
    pub fn new() -> (environment: Self)
        ensures
            environment@ == Seq::<(Seq<char>, Seq<char>)>::empty(),
    {
        let entries: Vec<EnvironmentEntry> = Vec::new();
        assert(entry_views(entries@) =~= Seq::empty());
        Environment { entries }
    }

    /// Overrides in key order.
    #[must_use]
    pub fn entries(&self) -> (entries: &Vec<EnvironmentEntry>)
        ensures
            entry_views(entries@) == self@,
            ordered(self@),
    {
        proof {
            use_type_invariant(self);
        }
        &self.entries
    }

    /// Value of one override.
    #[must_use]
    pub fn get(&self, key: &str) -> (value: Option<&String>)
        ensures
            match value {
                Some(value) => binds(self@, key@) && bound_value(self@, key@) == value@,
                None => !binds(self@, key@),
            },
    {
        proof {
            use_type_invariant(self);
        }
        let mut index: usize = 0;
        while index < self.entries.len()
            invariant
                index <= self.entries@.len(),
                ordered(self@),
                forall|i: int| 0 <= i < index ==> (#[trigger] self@[i]).0 != key@,
            decreases self.entries@.len() - index,
        {
            assert(self@[index as int] == (
                self.entries@[index as int].key@,
                self.entries@[index as int].value@,
            ));
            if text_equal(self.entries[index].key.as_str(), key) {
                proof {
                    lemma_bound_value(self@, index as int);
                }
                return Some(&self.entries[index].value);
            }
            index = index + 1;
        }
        None
    }

    /// Bind a key, replacing an earlier value.
    pub fn insert(&mut self, key: String, value: String)
        ensures
            ordered(final(self)@),
            bindings(final(self)@) == bindings(old(self)@).insert(key@, value@),
    {
        proof {
            use_type_invariant(&*self);
        }
        let mut entries: Vec<EnvironmentEntry> = Vec::new();
        assert(entry_views(entries@) =~= Seq::empty());
        std::mem::swap(&mut entries, &mut self.entries);
        let ghost pairs = entry_views(entries@);
        let mut index: usize = 0;
        while index < entries.len() && comes_before(
            entries[index].key.as_str().as_bytes(),
            key.as_str().as_bytes(),
        )
            invariant
                index <= entries@.len(),
                pairs == entry_views(entries@),
                forall|i: int|
                    0 <= i < index ==> precedes(
                        encode_utf8((#[trigger] pairs[i]).0),
                        encode_utf8(key@),
                    ),
            decreases entries@.len() - index,
        {
            assert(pairs[index as int].0 == entries@[index as int].key@);
            index = index + 1;
        }
        let ghost new_key = key@;
        let ghost new_value = value@;
        if index < entries.len() && text_equal(entries[index].key.as_str(), key.as_str()) {
            let entry = EnvironmentEntry { key, value };
            entries.set(index, entry);
            proof {
                assert(pairs[index as int].0 == new_key);
                lemma_replaced(pairs, index as int, new_key, new_value);
                assert(entry_views(entries@) =~= pairs.update(
                    index as int,
                    (new_key, new_value),
                ));
            }
        } else {
            proof {
                assert forall|i: int| index <= i < pairs.len() implies precedes(
                    encode_utf8(new_key),
                    encode_utf8((#[trigger] pairs[i]).0),
                ) by {
                    assert(pairs[index as int].0 == entries@[index as int].key@);
                    text::lemma_encoding_is_injective(new_key, pairs[index as int].0);
                    lemma_order_is_strict(encode_utf8(new_key), encode_utf8(
                        pairs[index as int].0,
                    ));
                    if i > index {
                        lemma_order_chains(
                            encode_utf8(new_key),
                            encode_utf8(pairs[index as int].0),
                            encode_utf8(pairs[i].0),
                        );
                    }
                }
                lemma_inserted(pairs, index as int, new_key, new_value);
            }
            entries.insert(index, EnvironmentEntry { key, value });
            assert(entry_views(entries@) =~= pairs.insert(index as int, (new_key, new_value)));
        }
        self.entries = entries;
    }
}

/// Ordered pairs are determined by their bindings, so an environment is nothing
/// but a map from keys to values.
pub proof fn environments_are_maps(
    left: Seq<(Seq<char>, Seq<char>)>,
    right: Seq<(Seq<char>, Seq<char>)>,
)
    requires
        ordered(left),
        ordered(right),
        bindings(left) == bindings(right),
    ensures
        left == right,
    decreases left.len(),
{
    if left.len() == 0 {
        if right.len() > 0 {
            lemma_bound_value(right, 0);
            assert(bindings(right).dom().contains(right[0].0));
            assert(bindings(left).dom().contains(right[0].0));
        }
        assert(left =~= right);
    } else {
        let count = left.len() - 1;
        lemma_bound_value(left, count);
        assert(bindings(left).dom().contains(left[count].0));
        assert(bindings(right).dom().contains(left[count].0));
        assert(right.len() > 0);
        let last = right.len() - 1;
        lemma_bound_value(right, last);
        assert(bindings(right).dom().contains(right[last].0));
        assert(bindings(left).dom().contains(right[last].0));
        let there = choose|i: int| 0 <= i < right.len() && (#[trigger] right[i]).0 == left[count].0;
        let here = choose|i: int| 0 <= i < left.len() && (#[trigger] left[i]).0 == right[last].0;
        lemma_order_is_strict(encode_utf8(left[count].0), encode_utf8(right[last].0));
        if there < last && here < count {
            assert(precedes(encode_utf8(right[there].0), encode_utf8(right[last].0)));
            assert(precedes(encode_utf8(left[here].0), encode_utf8(left[count].0)));
        }
        if there < last {
            assert(here == count);
            lemma_keys_are_unique(right, there, last);
        }
        if here < count {
            lemma_keys_are_unique(left, here, count);
        }
        assert(left[count].0 == right[last].0);
        assert(bindings(left)[left[count].0] == left[count].1);
        assert(bindings(right)[right[last].0] == right[last].1);
        let shorter = left.drop_last();
        let other = right.drop_last();
        assert(ordered(shorter)) by {
            assert forall|i: int, j: int| 0 <= i < j < shorter.len() implies precedes(
                encode_utf8((#[trigger] shorter[i]).0),
                encode_utf8((#[trigger] shorter[j]).0),
            ) by {
                assert(shorter[i] == left[i] && shorter[j] == left[j]);
            }
        }
        assert(ordered(other)) by {
            assert forall|i: int, j: int| 0 <= i < j < other.len() implies precedes(
                encode_utf8((#[trigger] other[i]).0),
                encode_utf8((#[trigger] other[j]).0),
            ) by {
                assert(other[i] == right[i] && other[j] == right[j]);
            }
        }
        lemma_shorter_bindings(left);
        lemma_shorter_bindings(right);
        environments_are_maps(shorter, other);
        assert(left =~= shorter.push(left[count]));
        assert(right =~= other.push(right[last]));
    }
}

proof fn lemma_shorter_bindings(pairs: Seq<(Seq<char>, Seq<char>)>)
    requires
        ordered(pairs),
        pairs.len() > 0,
        ordered(pairs.drop_last()),
    ensures
        bindings(pairs.drop_last()) == bindings(pairs).remove(pairs.last().0),
{
    let shorter = pairs.drop_last();
    let last = pairs.len() - 1;
    assert forall|key: Seq<char>| binds(shorter, key) == (binds(pairs, key) && key
        != pairs.last().0) by {
        if binds(shorter, key) {
            let i = choose|i: int| 0 <= i < shorter.len() && (#[trigger] shorter[i]).0 == key;
            assert(pairs[i].0 == key);
            if key == pairs.last().0 {
                lemma_keys_are_unique(pairs, i, last);
            }
        }
        if binds(pairs, key) && key != pairs.last().0 {
            let i = choose|i: int| 0 <= i < pairs.len() && (#[trigger] pairs[i]).0 == key;
            assert(shorter[i].0 == key);
        }
    }
    assert forall|key: Seq<char>| binds(shorter, key) implies bound_value(shorter, key)
        == bound_value(pairs, key) by {
        let i = choose|i: int| 0 <= i < shorter.len() && (#[trigger] shorter[i]).0 == key;
        lemma_bound_value(shorter, i);
        lemma_bound_value(pairs, i);
        assert(shorter[i] == pairs[i]);
    }
    assert(bindings(shorter) =~= bindings(pairs).remove(pairs.last().0));
}

// ---------------------------------------------------------------------------
// Well-formed entries
// ---------------------------------------------------------------------------

/// Whether text is an acceptable environment-variable name.
pub open spec fn valid_key(key: Seq<char>) -> bool {
    key.len() > 0 && !key.contains('=') && !key.contains('\0')
}

/// Whether text is an acceptable environment-variable value.
pub open spec fn valid_value(value: Seq<char>) -> bool {
    !value.contains('\0')
}

/// Whether `key` is an acceptable environment-variable name.
#[must_use]
pub fn environment_key_is_valid(key: &str) -> (valid: bool)
    ensures
        valid == valid_key(key@),
{
    !text::is_empty_text(key) && !text_contains(key, '=') && !text_contains(key, '\0')
}

/// Whether `value` is an acceptable environment-variable value.
#[must_use]
pub fn environment_value_is_valid(value: &str) -> (valid: bool)
    ensures
        valid == valid_value(value@),
{
    !text_contains(value, '\0')
}

// ---------------------------------------------------------------------------
// Directory rules
// ---------------------------------------------------------------------------

/// What an inspection of one filesystem entry reported.
#[derive(Clone, Copy, Debug, PartialEq, Eq, Structural)]
pub struct EntrySnapshot {
    /// Device of the entry.
    pub device: u64,
    /// Inode of the entry.
    pub inode: u64,
    /// Length of the entry.
    pub length: u64,
    /// Modification time in nanoseconds since the epoch, when it is known.
    pub modified: Option<i128>,
    /// Whether the entry is a directory.
    pub is_directory: bool,
    /// Whether the entry is a regular file.
    pub is_file: bool,
    /// Whether the entry is a symbolic link.
    pub is_symlink: bool,
}

/// Whether two inspections saw the same unchanged entry.
pub open spec fn unchanged(before: EntrySnapshot, after: EntrySnapshot) -> bool {
    &&& before.device == after.device
    &&& before.inode == after.inode
    &&& before.length == after.length
    &&& before.modified == after.modified
}

/// Failure of one environment input.
pub open spec fn rejected_input(path: Seq<u8>, message: Seq<char>) -> ConfigFault {
    ConfigFault::EnvironmentInput { path, source: fault::raised(FaultKind::InvalidData, message) }
}

fn invalid_environment_input(path: &UnixPath, message: &str) -> (error: ConfigError)
    ensures
        error@ == rejected_input(path@, message@),
{
    ConfigError::EnvironmentInput {
        path: path.duplicate(),
        source: Fault::new(FaultKind::InvalidData, message),
    }
}

/// What a directory rule reported.
pub open spec fn ruled(result: Result<(), ConfigError>, expected: Option<ConfigFault>) -> bool {
    match result {
        Ok(()) => expected is None,
        Err(error) => expected == Some(error@),
    }
}

fn same_entry(before: EntrySnapshot, after: EntrySnapshot) -> (same: bool)
    ensures
        same == unchanged(before, after),
{
    let modified = match (before.modified, after.modified) {
        (Some(left), Some(right)) => left == right,
        (None, None) => true,
        _ => false,
    };
    before.device == after.device && before.inode == after.inode && before.length == after.length
        && modified
}

/// Accept an environment path only as a real directory.
///
/// # Errors
///
/// Fails for a symlink and for anything but a directory.
pub fn admit_environment_directory(path: &UnixPath, observed: EntrySnapshot) -> (result: Result<
    (),
    ConfigError,
>)
    ensures
        ruled(
            result,
            if observed.is_symlink || !observed.is_directory {
                Some(
                    rejected_input(
                        path@,
                        "environment path must be a real directory, not a symlink"@,
                    ),
                )
            } else {
                None
            },
        ),
{
    if observed.is_symlink || !observed.is_directory {
        return Err(
            invalid_environment_input(
                path,
                "environment path must be a real directory, not a symlink",
            ),
        );
    }
    Ok(())
}

/// Accept the canonical directory only as the entry which was admitted.
///
/// # Errors
///
/// Fails when the directory changed meanwhile.
pub fn confirm_environment_directory(
    path: &UnixPath,
    admitted: EntrySnapshot,
    canonical: EntrySnapshot,
) -> (result: Result<(), ConfigError>)
    ensures
        ruled(
            result,
            if unchanged(admitted, canonical) && canonical.is_directory {
                None
            } else {
                Some(
                    rejected_input(path@, "environment directory changed during validation"@),
                )
            },
        ),
{
    if same_entry(admitted, canonical) && canonical.is_directory {
        return Ok(());
    }
    Err(invalid_environment_input(path, "environment directory changed during validation"))
}

/// Accept an opened file only as the entry which was inspected.
///
/// # Errors
///
/// Fails when the file changed before it was opened.
pub fn confirm_opened_file(
    path: &UnixPath,
    inspected: EntrySnapshot,
    opened: EntrySnapshot,
) -> (result: Result<(), ConfigError>)
    ensures
        ruled(
            result,
            if unchanged(inspected, opened) && opened.is_file {
                None
            } else {
                Some(rejected_input(path@, "environment file changed before it was opened"@))
            },
        ),
{
    if same_entry(inspected, opened) && opened.is_file {
        return Ok(());
    }
    Err(invalid_environment_input(path, "environment file changed before it was opened"))
}

/// First line of the bytes up to and including a line feed: CRLF and LF are
/// dropped.
pub open spec fn line_of(bytes: Seq<u8>) -> Seq<u8> {
    if bytes.len() > 0 && bytes.last() == 10 {
        let line = bytes.drop_last();
        if line.len() > 0 && line.last() == 13 {
            line.drop_last()
        } else {
            line
        }
    } else {
        bytes
    }
}

/// Explanation for a first line which is too long.
pub open spec fn long_line_text(length: nat) -> Seq<char> {
    "environment first line is "@ + text::decimal(length) + " bytes; limit is "@ + text::decimal(
        MAX_ENVIRONMENT_VALUE_BYTES as nat,
    )
}

/// Value of the bytes which were read up to the first line feed: none for a
/// physically empty file, and otherwise the first line.
pub open spec fn line_value(bytes: Seq<u8>) -> Result<Option<Seq<char>>, Seq<char>> {
    let line = line_of(bytes);
    if bytes.len() == 0 {
        Ok(None)
    } else if line.len() > MAX_ENVIRONMENT_VALUE_BYTES {
        Err(long_line_text(line.len()))
    } else if line.contains(0u8) {
        Err("environment first line contains NUL"@)
    } else if !valid_utf8(line) {
        Err("environment first line is not valid UTF-8: "@ + text::utf8_error_text(line))
    } else {
        Ok(Some(decode_utf8(line)))
    }
}

/// View of an optional value.
pub open spec fn optional_text(value: Option<String>) -> Option<Seq<char>> {
    match value {
        Some(value) => Some(value@),
        None => None,
    }
}

/// Value of one environment file, from the bytes up to its first line feed and
/// the inspections around the read.
pub open spec fn file_value(
    path: Seq<u8>,
    opened: EntrySnapshot,
    file_after: EntrySnapshot,
    path_after: EntrySnapshot,
    bytes: Seq<u8>,
) -> Result<Option<Seq<char>>, ConfigFault> {
    let stable = {
        &&& !path_after.is_symlink
        &&& unchanged(opened, file_after) && file_after.is_file
        &&& unchanged(opened, path_after) && path_after.is_file
    };
    if !stable {
        Err(rejected_input(path, "environment file changed while it was read"@))
    } else {
        match line_value(bytes) {
            Ok(value) => Ok(value),
            Err(message) => Err(rejected_input(path, message)),
        }
    }
}

fn contains_nul(bytes: &Vec<u8>) -> (found: bool)
    ensures
        found == bytes@.contains(0u8),
{
    let mut index: usize = 0;
    while index < bytes.len()
        invariant
            index <= bytes@.len(),
            forall|i: int| 0 <= i < index ==> bytes@[i] != 0,
        decreases bytes@.len() - index,
    {
        if bytes[index] == 0 {
            assert(bytes@[index as int] == 0u8);
            return true;
        }
        index = index + 1;
    }
    false
}

/// Value of one environment file. `bytes` were read up to and including the first
/// line feed, or up to the end of the file.
///
/// # Errors
///
/// Fails when the file changed while it was read, and for a first line which is
/// too long, contains NUL, or is not UTF-8.
pub fn read_environment_value(
    path: &UnixPath,
    opened: EntrySnapshot,
    file_after: EntrySnapshot,
    path_after: EntrySnapshot,
    bytes: Vec<u8>,
) -> (result: Result<Option<String>, ConfigError>)
    ensures
        match result {
            Ok(value) => file_value(path@, opened, file_after, path_after, bytes@) == Ok::<
                Option<Seq<char>>,
                ConfigFault,
            >(optional_text(value)),
            Err(error) => file_value(path@, opened, file_after, path_after, bytes@) == Err::<
                Option<Seq<char>>,
                ConfigFault,
            >(error@),
        },
{
    if path_after.is_symlink || !same_entry(opened, file_after) || !file_after.is_file
        || !same_entry(opened, path_after) || !path_after.is_file {
        return Err(
            invalid_environment_input(path, "environment file changed while it was read"),
        );
    }
    let mut line = bytes;
    let ghost read = line@;
    if line.len() == 0 {
        return Ok(None);
    }
    if line[line.len() - 1] == 10 {
        line.pop();
        assert(line@ =~= read.drop_last());
        if line.len() > 0 && line[line.len() - 1] == 13 {
            let ghost longer = line@;
            line.pop();
            assert(line@ =~= longer.drop_last());
        }
    }
    assert(line@ == line_of(read));
    if line.len() > MAX_ENVIRONMENT_VALUE_BYTES {
        let mut message = "environment first line is ".to_owned();
        push_decimal(&mut message, line.len() as u64);
        message.append(" bytes; limit is ");
        push_decimal(&mut message, MAX_ENVIRONMENT_VALUE_BYTES as u64);
        return Err(invalid_environment_input(path, message.as_str()));
    }
    if contains_nul(&line) {
        return Err(invalid_environment_input(path, "environment first line contains NUL"));
    }
    match decode_text(line.as_slice()) {
        Ok(value) => Ok(Some(value)),
        Err(reason) => {
            let message = concat2(
                "environment first line is not valid UTF-8: ",
                reason.as_str(),
            );
            Err(invalid_environment_input(path, message.as_str()))
        },
    }
}

/// Scan of one environment directory.
#[derive(Debug)]
pub struct EnvironmentScan {
    directory: UnixPath,
    environment: Environment,
    entry_count: usize,
    total_bytes: usize,
}

/// Pure view of a scan.
#[verifier::ext_equal]
pub struct ScanModel {
    pub directory: Seq<u8>,
    pub bindings: Map<Seq<char>, Seq<char>>,
    pub entry_count: nat,
    pub total_bytes: nat,
}

impl View for EnvironmentScan {
    type V = ScanModel;

    closed spec fn view(&self) -> ScanModel {
        ScanModel {
            directory: self.directory@,
            bindings: bindings(self.environment@),
            entry_count: self.entry_count as nat,
            total_bytes: self.total_bytes as nat,
        }
    }
}

/// Explanation for a directory with too many entries.
pub open spec fn crowded_text() -> Seq<char> {
    "environment directory has more than "@ + text::decimal(
        MAX_ENVIRONMENT_DIRECTORY_ENTRIES as nat,
    ) + " entries"@
}

/// Explanation for a directory with too many bytes.
pub open spec fn heavy_text() -> Seq<char> {
    "environment keys and values exceed "@ + text::decimal(
        MAX_ENVIRONMENT_DIRECTORY_BYTES as nat,
    ) + " bytes"@
}

/// Explanation for a filename which is no key.
pub open spec fn bad_key_text(key: Seq<char>) -> Seq<char> {
    "environment filename "@ + text::debug_text(key) + " is not a valid key"@
}

/// Key which a directory entry contributes: none unless it is a regular file, and
/// otherwise its name.
pub open spec fn entry_key(
    path: Seq<u8>,
    observed: EntrySnapshot,
    name: Seq<u8>,
) -> Result<Option<Seq<char>>, ConfigFault> {
    if observed.is_symlink || !observed.is_file {
        Ok(None)
    } else if !valid_utf8(name) {
        Err(rejected_input(path, "environment filename is not valid UTF-8"@))
    } else if !valid_key(decode_utf8(name)) {
        Err(rejected_input(path, bad_key_text(decode_utf8(name))))
    } else {
        Ok(Some(decode_utf8(name)))
    }
}

/// Key which a directory entry contributes.
///
/// # Errors
///
/// Fails for a regular file whose name is not UTF-8 or not a valid key.
pub fn environment_entry_key(path: &UnixPath, observed: EntrySnapshot, name: &[u8]) -> (result:
    Result<Option<String>, ConfigError>)
    ensures
        match result {
            Ok(key) => entry_key(path@, observed, name@) == Ok::<
                Option<Seq<char>>,
                ConfigFault,
            >(optional_text(key)),
            Err(error) => entry_key(path@, observed, name@) == Err::<
                Option<Seq<char>>,
                ConfigFault,
            >(error@),
        },
{
    if observed.is_symlink || !observed.is_file {
        return Ok(None);
    }
    let key = match decode_text(name) {
        Ok(key) => key,
        Err(_) => return Err(
            invalid_environment_input(path, "environment filename is not valid UTF-8"),
        ),
    };
    if !environment_key_is_valid(key.as_str()) {
        let quoted = debug_quoted(key.as_str());
        let message = concat3("environment filename ", quoted.as_str(), " is not a valid key");
        return Err(invalid_environment_input(path, message.as_str()));
    }
    Ok(Some(key))
}

/// Bytes which one override counts.
pub open spec fn entry_bytes(key: Seq<char>, value: Seq<char>) -> nat {
    encode_utf8(key).len() + encode_utf8(value).len()
}

/// Reason why one more override is refused.
pub open spec fn refused_override(
    scan: ScanModel,
    path: Seq<u8>,
    key: Seq<char>,
    value: Seq<char>,
) -> Option<ConfigFault> {
    let bytes = entry_bytes(key, value);
    if bytes > usize::MAX {
        Some(rejected_input(path, "environment entry size overflowed"@))
    } else if scan.total_bytes + bytes > usize::MAX {
        Some(rejected_input(scan.directory, "environment aggregate size overflowed"@))
    } else if scan.total_bytes + bytes > MAX_ENVIRONMENT_DIRECTORY_BYTES {
        Some(rejected_input(scan.directory, heavy_text()))
    } else {
        None
    }
}

impl EnvironmentScan {
    /// A scan of a canonical directory which saw nothing yet.
    #[must_use]
    pub fn new(directory: UnixPath) -> (scan: Self)
        ensures
            scan@ == (ScanModel {
                directory: directory@,
                bindings: Map::empty(),
                entry_count: 0,
                total_bytes: 0,
            }),
    {
        let environment = Environment::new();
        assert(bindings(environment@) =~= Map::empty());
        EnvironmentScan { directory, environment, entry_count: 0, total_bytes: 0 }
    }

    /// Count one more entry.
    ///
    /// # Errors
    ///
    /// Fails once the directory has too many entries.
    pub fn count_entry(&mut self) -> (result: Result<(), ConfigError>)
        ensures
            ({
                let count = old(self)@.entry_count + 1;
                if count > usize::MAX {
                    ruled(
                        result,
                        Some(
                            rejected_input(
                                old(self)@.directory,
                                "environment entry count overflowed"@,
                            ),
                        ),
                    ) && final(self)@ == old(self)@
                } else {
                    &&& final(self)@ == (ScanModel { entry_count: count as nat, ..old(self)@ })
                    &&& ruled(
                        result,
                        if count > MAX_ENVIRONMENT_DIRECTORY_ENTRIES {
                            Some(rejected_input(old(self)@.directory, crowded_text()))
                        } else {
                            None
                        },
                    )
                }
            }),
    {
        if self.entry_count == usize::MAX {
            return Err(
                invalid_environment_input(
                    &self.directory,
                    "environment entry count overflowed",
                ),
            );
        }
        self.entry_count = self.entry_count + 1;
        if self.entry_count > MAX_ENVIRONMENT_DIRECTORY_ENTRIES {
            let mut message = "environment directory has more than ".to_owned();
            push_decimal(&mut message, MAX_ENVIRONMENT_DIRECTORY_ENTRIES as u64);
            message.append(" entries");
            return Err(invalid_environment_input(&self.directory, message.as_str()));
        }
        Ok(())
    }

    /// Add one override.
    ///
    /// # Errors
    ///
    /// Fails once keys and values are too long together.
    pub fn add_override(&mut self, path: &UnixPath, key: String, value: String) -> (result: Result<
        (),
        ConfigError,
    >)
        ensures
            ruled(result, refused_override(old(self)@, path@, key@, value@)),
            result is Ok ==> final(self)@ == (ScanModel {
                bindings: old(self)@.bindings.insert(key@, value@),
                total_bytes: old(self)@.total_bytes + entry_bytes(key@, value@),
                ..old(self)@
            }),
            result is Err ==> final(self)@ == old(self)@,
    {
        let key_bytes: usize = key.as_str().as_bytes().len();
        let value_bytes: usize = value.as_str().as_bytes().len();
        let bytes: usize = match key_bytes.checked_add(value_bytes) {
            Some(bytes) => bytes,
            None => return Err(
                invalid_environment_input(path, "environment entry size overflowed"),
            ),
        };
        let total: usize = match self.total_bytes.checked_add(bytes) {
            Some(total) => total,
            None => return Err(
                invalid_environment_input(
                    &self.directory,
                    "environment aggregate size overflowed",
                ),
            ),
        };
        if total > MAX_ENVIRONMENT_DIRECTORY_BYTES {
            let mut message = "environment keys and values exceed ".to_owned();
            push_decimal(&mut message, MAX_ENVIRONMENT_DIRECTORY_BYTES as u64);
            message.append(" bytes");
            return Err(invalid_environment_input(&self.directory, message.as_str()));
        }
        self.total_bytes = total;
        self.environment.insert(key, value);
        Ok(())
    }

    /// End the scan and hand out its snapshot.
    ///
    /// # Errors
    ///
    /// Fails when the directory changed during the scan.
    pub fn finish(self, before: EntrySnapshot, after: EntrySnapshot) -> (result: Result<
        Environment,
        ConfigError,
    >)
        ensures
            match result {
                Ok(environment) => {
                    &&& unchanged(before, after) && after.is_directory
                    &&& ordered(environment@)
                    &&& bindings(environment@) == self@.bindings
                },
                Err(error) => {
                    &&& !(unchanged(before, after) && after.is_directory)
                    &&& error@ == rejected_input(
                        self@.directory,
                        "environment directory changed during the scan"@,
                    )
                },
            },
    {
        if same_entry(before, after) && after.is_directory {
            proof {
                use_type_invariant(&self.environment);
            }
            return Ok(self.environment);
        }
        Err(
            invalid_environment_input(
                &self.directory,
                "environment directory changed during the scan",
            ),
        )
    }
}

// ---------------------------------------------------------------------------
// Laws
// ---------------------------------------------------------------------------

/// A value which a file contributes is always acceptable and bounded.
pub proof fn file_values_are_acceptable(bytes: Seq<u8>)
    ensures
        line_value(bytes) matches Ok(Some(value)) ==> valid_value(value) && encode_utf8(
            value,
        ).len() <= MAX_ENVIRONMENT_VALUE_BYTES,
{
    if line_value(bytes) is Ok && bytes.len() > 0 {
        let line = line_of(bytes);
        let value = decode_utf8(line);
        decode_utf8_encode_utf8(line);
        if value.contains('\0') {
            lemma_nul_is_encoded(value);
        }
    }
}

/// Text with NUL is encoded with a zero byte.
proof fn lemma_nul_is_encoded(text: Seq<char>)
    requires
        text.contains('\0'),
    ensures
        encode_utf8(text).contains(0u8),
    decreases text.len(),
{
    let first = encode_scalar(text[0] as u32);
    let rest = encode_utf8(text.drop_first());
    assert(encode_utf8(text) == first + rest);
    if text[0] == '\0' {
        assert(first =~= seq![0u8]) by {
            assert((0u32 & 0x7F) as u8 == 0u8) by (bit_vector);
        }
        assert((first + rest)[0] == 0u8);
    } else {
        let i = choose|i: int| 0 <= i < text.len() && text[i] == '\0';
        assert(text.drop_first()[i - 1] == '\0');
        lemma_nul_is_encoded(text.drop_first());
        let j = choose|j: int| 0 <= j < rest.len() && rest[j] == 0u8;
        assert((first + rest)[first.len() + j] == 0u8);
    }
}

/// A key is judged by its characters one by one and has to have one; a value may hold
/// anything but NUL, and may be empty.
pub proof fn keys_and_values_are_judged_by_character(text: Seq<char>)
    ensures
        valid_key(text) <==> text.len() > 0 && forall|i: int|
            0 <= i < text.len() ==> #[trigger] text[i] != '=' && text[i] != '\0',
        valid_value(text) <==> forall|i: int| 0 <= i < text.len() ==> #[trigger] text[i] != '\0',
        valid_key(text) ==> valid_value(text),
{
    if text.contains('=') {
        let i = choose|i: int| 0 <= i < text.len() && text[i] == '=';
        assert(text[i] == '=');
    }
    if text.contains('\0') {
        let i = choose|i: int| 0 <= i < text.len() && text[i] == '\0';
        assert(text[i] == '\0');
    }
}

/// The value of a file is its first line without the line ending: a line feed, with or
/// without a carriage return in front of it, leaves the line as it is, and without a
/// line feed nothing is taken away.
pub proof fn line_endings_are_not_part_of_a_value(line: Seq<u8>)
    ensures
        line.len() == 0 || line.last() != 13 ==> line_of(line.push(10)) == line,
        line_of(line.push(13).push(10)) == line,
        line.len() > 0 && line.last() != 10 ==> line_of(line) == line,
        line.len() > 0 && line.last() == 13 ==> line_of(line) == line,
{
    assert(line.push(10).drop_last() =~= line);
    assert(line.push(13).push(10).drop_last() =~= line.push(13));
    assert(line.push(13).drop_last() =~= line);
}

/// A physically empty file unsets its variable and an empty line sets it to nothing;
/// any other line is its own value when it is short enough UTF-8 without NUL, and
/// refused when it is not.
pub proof fn lines_are_their_own_value(line: Seq<u8>)
    requires
        line.len() == 0 || (line.last() != 10 && line.last() != 13),
    ensures
        line_value(Seq::<u8>::empty()) == Ok::<_, Seq<char>>(None::<Seq<char>>),
        line.len() <= 256 * 1024 && valid_utf8(line) && !line.contains(0u8) ==> line_value(
            line.push(10),
        ) == Ok::<_, Seq<char>>(Some(decode_utf8(line))),
        line.len() > 256 * 1024 || !valid_utf8(line) || line.contains(0u8) ==> line_value(
            line.push(10),
        ) is Err,
        line.len() > 0 ==> line_value(line) == line_value(line.push(10)),
{
    line_endings_are_not_part_of_a_value(line);
}

/// A file yields a value only if it is the same regular file before and after the read:
/// device, inode, length, and modification time all have to agree.
pub proof fn changed_files_are_refused(
    path: Seq<u8>,
    opened: EntrySnapshot,
    file_after: EntrySnapshot,
    path_after: EntrySnapshot,
    bytes: Seq<u8>,
)
    ensures
        file_value(path, opened, file_after, path_after, bytes) is Ok ==> opened.device
            == file_after.device == path_after.device && opened.inode == file_after.inode
            == path_after.inode && opened.length == file_after.length == path_after.length
            && opened.modified == file_after.modified && opened.modified == path_after.modified
            && file_after.is_file
            && path_after.is_file && !path_after.is_symlink,
        file_value(path, opened, file_after, path_after, bytes) matches Ok(value) ==> line_value(
            bytes,
        ) == Ok::<_, Seq<char>>(value),
        opened == file_after && file_after == path_after && opened.is_file && !opened.is_symlink
            && line_value(bytes) is Ok ==> file_value(path, opened, file_after, path_after, bytes)
            is Ok,
{
}

/// Links and everything else which is no regular file contribute nothing and refuse
/// nothing; a regular file contributes exactly the key which its name spells.
pub proof fn only_regular_files_contribute(path: Seq<u8>, observed: EntrySnapshot, name: Seq<u8>)
    ensures
        observed.is_symlink || !observed.is_file ==> entry_key(path, observed, name) == Ok::<
            _,
            ConfigFault,
        >(None::<Seq<char>>),
        !observed.is_symlink && observed.is_file ==> match entry_key(path, observed, name) {
            Ok(Some(key)) => valid_utf8(name) && key == decode_utf8(name) && valid_key(key),
            Ok(None) => false,
            Err(_) => !valid_utf8(name) || !valid_key(decode_utf8(name)),
        },
{
}

/// An override is taken while keys and values together stay within a mebibyte, and
/// refused from then on.
pub proof fn overrides_stay_within_a_mebibyte(
    scan: ScanModel,
    path: Seq<u8>,
    key: Seq<char>,
    value: Seq<char>,
)
    ensures
        refused_override(scan, path, key, value) is None <==> scan.total_bytes + encode_utf8(
            key,
        ).len() + encode_utf8(value).len() <= 1024 * 1024,
{
}

} // verus!
