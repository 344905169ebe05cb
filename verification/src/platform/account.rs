//! Account group rules for child credential transitions.
//!
//! The account database is read before any process is created; only resolved
//! numeric identities travel further. Group lists are bounded and free of
//! duplicates. The textual list of the system `id` utility is accepted only as
//! bounded, purely numeric output.

use vstd::prelude::*;
use vstd::string::*;
use vstd::utf8::*;

use crate::fault;
use crate::fault::{Fault, FaultKind};
use crate::fields;
use crate::fields::read_numeral;
use crate::text;
use crate::text::{characters, decode_text};

verus! {

/// Most groups of one account.
pub const MAX_GROUPS: usize = 65_536;

/// Most bytes of a textual group list.
pub const MAX_GROUP_OUTPUT_BYTES: usize = 1_048_576;

/// Numeric account data safe to carry through the process-broker protocol.
#[derive(Clone, Debug, PartialEq, Eq)]
pub struct AccountIdentity {
    /// User of the account.
    pub user: u32,
    /// Primary group of the account.
    pub group: u32,
    /// Every group of the account.
    pub supplementary_groups: Vec<u32>,
}

/// A malformed group list.
pub open spec fn malformed(text: Seq<char>) -> fault::FaultModel {
    fault::raised(FaultKind::InvalidData, text)
}

// ---------------------------------------------------------------------------
// Numeric lists
// ---------------------------------------------------------------------------

/// Values of a list at their first occurrence.
pub open spec fn first_occurrences(groups: Seq<u32>) -> Seq<u32>
    decreases groups.len(),
{
    if groups.len() == 0 {
        Seq::empty()
    } else {
        let before = first_occurrences(groups.drop_last());
        if groups.drop_last().contains(groups.last()) {
            before
        } else {
            before.push(groups.last())
        }
    }
}

proof fn lemma_first_occurrences_keep_values(groups: Seq<u32>)
    ensures
        forall|group: u32|
            groups.contains(group) <==> #[trigger] first_occurrences(groups).contains(group),
    decreases groups.len(),
{
    if groups.len() > 0 {
        let rest = groups.drop_last();
        let last = groups.last();
        lemma_first_occurrences_keep_values(rest);
        assert forall|group: u32|
            groups.contains(group) <==> #[trigger] first_occurrences(groups).contains(group) by {
            assert(groups =~= rest.push(last));
            if groups.contains(group) {
                let at = choose|i: int| 0 <= i < groups.len() && groups[i] == group;
                if at < rest.len() {
                    assert(rest[at] == group);
                    assert(first_occurrences(rest).contains(group));
                    let to = choose|i: int|
                        0 <= i < first_occurrences(rest).len() && first_occurrences(rest)[i]
                            == group;
                    assert(first_occurrences(groups)[to] == group);
                } else if rest.contains(last) {
                    assert(first_occurrences(rest).contains(group));
                } else {
                    assert(first_occurrences(groups).last() == group);
                }
            }
            if first_occurrences(groups).contains(group) {
                let at = choose|i: int|
                    0 <= i < first_occurrences(groups).len() && first_occurrences(groups)[i]
                        == group;
                if at < first_occurrences(rest).len() {
                    assert(first_occurrences(rest)[at] == group);
                    assert(first_occurrences(rest).contains(group));
                    assert(rest.contains(group));
                    let from = choose|i: int| 0 <= i < rest.len() && rest[i] == group;
                    assert(groups[from] == group);
                } else {
                    assert(groups[groups.len() - 1] == group);
                }
            }
        }
    } else {
        assert(first_occurrences(groups) =~= groups);
    }
}

fn holds(groups: &Vec<u32>, group: u32) -> (found: bool)
    ensures
        found == groups@.contains(group),
{
    let mut index: usize = 0;
    while index < groups.len()
        invariant
            index <= groups@.len(),
            forall|i: int| 0 <= i < index ==> groups@[i] != group,
        decreases groups@.len() - index,
    {
        if groups[index] == group {
            assert(groups@[index as int] == group);
            return true;
        }
        index = index + 1;
    }
    false
}

/// Bound the group list of an account and drop repeated groups.
///
/// # Errors
///
/// Fails for a list which exceeds the limit.
pub fn supplementary_groups(groups: &[u32]) -> (result: Result<Vec<u32>, Fault>)
    ensures
        match result {
            Ok(kept) => groups@.len() <= MAX_GROUPS && kept@ == first_occurrences(groups@),
            Err(error) => groups@.len() > MAX_GROUPS && error@ == malformed(
                "account group count exceeds the broker limit"@,
            ),
        },
{
    if groups.len() > MAX_GROUPS {
        return Err(
            Fault::new(
                FaultKind::InvalidData,
                "account group count exceeds the broker limit",
            ),
        );
    }
    let mut kept: Vec<u32> = Vec::new();
    let mut index: usize = 0;
    assert(groups@.take(0) =~= Seq::empty());
    while index < groups.len()
        invariant
            index <= groups@.len(),
            kept@ == first_occurrences(groups@.take(index as int)),
        decreases groups@.len() - index,
    {
        let group: u32 = groups[index];
        proof {
            assert(groups@.take(index + 1).drop_last() =~= groups@.take(index as int));
            assert(groups@.take(index + 1).last() == group);
            lemma_first_occurrences_keep_values(groups@.take(index as int));
        }
        if !holds(&kept, group) {
            kept.push(group);
        }
        index = index + 1;
    }
    assert(groups@.take(index as int) =~= groups@);
    Ok(kept)
}

// ---------------------------------------------------------------------------
// Textual lists
// ---------------------------------------------------------------------------

/// Whether a character separates two words: one of the ASCII whitespace
/// characters.
pub open spec fn is_blank(c: char) -> bool {
    c == ' ' || c == '\t' || c == '\n' || c == '\r' || c == '\u{c}'
}

/// Maximal runs of characters which are no blanks.
pub open spec fn words(text: Seq<char>) -> Seq<Seq<char>>
    decreases text.len(),
{
    if text.len() == 0 {
        Seq::empty()
    } else {
        let before = words(text.drop_last());
        if is_blank(text.last()) {
            before
        } else if text.len() == 1 || is_blank(text[text.len() - 2]) {
            before.push(seq![text.last()])
        } else {
            before.drop_last().push(before.last().push(text.last()))
        }
    }
}

/// A word without the one sign which an unsigned number may carry.
pub open spec fn unsigned(word: Seq<char>) -> Seq<char> {
    if word.len() > 0 && word[0] == '+' {
        word.skip(1)
    } else {
        word
    }
}

/// Group which a word names, or the reason why it names none.
pub open spec fn named_group(word: Seq<char>) -> Result<u32, fault::FaultModel> {
    match fields::bounded_value(unsigned(word), u64::MAX as nat) {
        None => Err(malformed("macOS account group output contains a nonnumeric group"@)),
        Some(value) => if value > u32::MAX {
            Err(malformed("macOS account group output contains an out-of-range group"@))
        } else {
            Ok(value as u32)
        },
    }
}

/// Groups named by words, together with the primary group; the first word which
/// cannot be accepted decides.
pub open spec fn gathered(words: Seq<Seq<char>>, primary: u32) -> Result<
    Set<u32>,
    fault::FaultModel,
>
    decreases words.len(),
{
    if words.len() == 0 {
        Ok(set![primary])
    } else {
        match gathered(words.drop_last(), primary) {
            Err(fault) => Err(fault),
            Ok(before) => match named_group(words.last()) {
                Err(fault) => Err(fault),
                Ok(group) => if before.insert(group).len() > MAX_GROUPS {
                    Err(malformed("account group count exceeds the broker limit"@))
                } else {
                    Ok(before.insert(group))
                },
            },
        }
    }
}

/// Groups listed by output, or the reason why the output is refused.
pub open spec fn listed(bytes: Seq<u8>, primary: u32) -> Result<Set<u32>, fault::FaultModel> {
    if bytes.len() == 0 || bytes.len() > MAX_GROUP_OUTPUT_BYTES {
        Err(malformed("macOS account group output is empty or exceeds the broker limit"@))
    } else if !valid_utf8(bytes) {
        Err(malformed("macOS account group output is not UTF-8"@))
    } else {
        let words = words(decode_utf8(bytes));
        match gathered(words, primary) {
            Err(fault) => Err(fault),
            Ok(groups) => if words.len() == 0 {
                Err(malformed("macOS account group output contains no groups"@))
            } else {
                Ok(groups)
            },
        }
    }
}

/// Whether a list holds exactly the groups of a set, in ascending order.
pub open spec fn ascending(groups: Seq<u32>, members: Set<u32>) -> bool {
    &&& forall|i: int, j: int| 0 <= i < j < groups.len() ==> groups[i] < groups[j]
    &&& groups.to_set() =~= members
}

fn blank(c: char) -> (separates: bool)
    ensures
        separates == is_blank(c),
{
    c == ' ' || c == '\t' || c == '\n' || c == '\r' || c == '\u{c}'
}

/// Words of a text.
fn split_words(chars: &Vec<char>) -> (found: Vec<Vec<char>>)
    ensures
        fields::field_texts(found@) == words(chars@),
{
    let mut found: Vec<Vec<char>> = Vec::new();
    let mut current: Vec<char> = Vec::new();
    let mut index: usize = 0;
    proof {
        assert(chars@.take(0) =~= Seq::empty());
        assert(fields::field_texts(found@) =~= words(chars@.take(0)));
    }
    while index < chars.len()
        invariant
            index <= chars@.len(),
            current@.len() > 0 <==> index > 0 && !is_blank(chars@[index - 1]),
            words(chars@.take(index as int)) == if current@.len() > 0 {
                fields::field_texts(found@).push(current@)
            } else {
                fields::field_texts(found@)
            },
        decreases chars@.len() - index,
    {
        let c: char = chars[index];
        let ghost before = words(chars@.take(index as int));
        let ghost collected = fields::field_texts(found@);
        let ghost word = current@;
        let ghost longer = chars@.take(index + 1);
        proof {
            assert(longer.drop_last() =~= chars@.take(index as int));
            assert(longer.last() == c);
            if index > 0 {
                assert(longer[longer.len() - 2] == chars@[index - 1]);
            }
        }
        if blank(c) {
            if current.len() > 0 {
                found.push(current);
                current = Vec::new();
                assert(fields::field_texts(found@) =~= collected.push(word));
            }
        } else {
            current.push(c);
            proof {
                if word.len() > 0 {
                    assert(before.drop_last() =~= collected);
                    assert(before.last() == word);
                } else {
                    assert(current@ =~= seq![c]);
                }
            }
        }
        index = index + 1;
    }
    proof {
        assert(chars@.take(index as int) =~= chars@);
    }
    let ghost collected = fields::field_texts(found@);
    let ghost word = current@;
    if current.len() > 0 {
        found.push(current);
        assert(fields::field_texts(found@) =~= collected.push(word));
    }
    found
}

/// Group which a word names.
fn read_group(word: &Vec<char>) -> (result: Result<u32, Fault>)
    ensures
        match result {
            Ok(group) => named_group(word@) == Ok::<u32, fault::FaultModel>(group),
            Err(error) => named_group(word@) == Err::<u32, fault::FaultModel>(error@),
        },
{
    let start: usize = if word.len() > 0 && word[0] == '+' {
        1
    } else {
        0
    };
    let digits = vstd::slice::slice_subrange(word.as_slice(), start, word.len());
    assert(digits@ =~= unsigned(word@));
    match read_numeral(digits, u64::MAX as u128) {
        Some(value) => {
            if value > u32::MAX as u128 {
                Err(
                    Fault::new(
                        FaultKind::InvalidData,
                        "macOS account group output contains an out-of-range group",
                    ),
                )
            } else {
                Ok(value as u32)
            }
        },
        None => Err(
            Fault::new(
                FaultKind::InvalidData,
                "macOS account group output contains a nonnumeric group",
            ),
        ),
    }
}

/// Add one group to an ascending list.
fn insert_group(groups: &mut Vec<u32>, group: u32)
    requires
        ascending(old(groups)@, old(groups)@.to_set()),
    ensures
        ascending(final(groups)@, old(groups)@.to_set().insert(group)),
{
    let ghost before = groups@;
    let mut index: usize = 0;
    while index < groups.len() && groups[index] < group
        invariant
            index <= groups@.len(),
            groups@ == before,
            forall|i: int| 0 <= i < index ==> groups@[i] < group,
        decreases groups@.len() - index,
    {
        index = index + 1;
    }
    if index < groups.len() && groups[index] == group {
        proof {
            assert(before[index as int] == group);
            assert(before.to_set() =~= before.to_set().insert(group));
        }
        return ;
    }
    groups.insert(index, group);
    proof {
        let after = groups@;
        assert(after == before.insert(index as int, group));
        assert forall|i: int, j: int| 0 <= i < j < after.len() implies after[i] < after[j] by {
            if i < index {
                assert(after[i] == before[i]);
            } else if i > index {
                assert(after[i] == before[i - 1]);
            }
            if j < index {
                assert(after[j] == before[j]);
            } else if j > index {
                assert(after[j] == before[j - 1]);
            }
            if i == index {
                assert(before[index as int] <= before[j - 1]);
            }
        }
        assert forall|value: u32|
            after.to_set().contains(value) == before.to_set().insert(group).contains(value) by {
            if after.contains(value) {
                let at = choose|i: int| 0 <= i < after.len() && after[i] == value;
                if at < index {
                    assert(before[at] == value);
                } else if at > index {
                    assert(before[at - 1] == value);
                }
            }
            if before.contains(value) {
                let at = choose|i: int| 0 <= i < before.len() && before[i] == value;
                if at < index {
                    assert(after[at] == value);
                } else {
                    assert(after[at + 1] == value);
                }
            }
            if value == group {
                assert(after[index as int] == value);
            }
        }
        assert(after.to_set() =~= before.to_set().insert(group));
    }
}

proof fn lemma_ascending_length(groups: Seq<u32>)
    requires
        ascending(groups, groups.to_set()),
    ensures
        groups.to_set().len() == groups.len(),
{
    assert(groups.no_duplicates());
    groups.unique_seq_to_set();
}

/// Read a textual group list. The result is ascending, free of duplicates, and
/// holds the primary group.
///
/// # Errors
///
/// Fails for output which is empty, oversized, not UTF-8, or holds anything but
/// group numbers, and for more groups than the limit.
pub fn parse_group_ids(bytes: &[u8], primary: u32) -> (result: Result<Vec<u32>, Fault>)
    ensures
        match result {
            Ok(groups) => listed(bytes@, primary) matches Ok(members) && ascending(
                groups@,
                members,
            ),
            Err(error) => listed(bytes@, primary) == Err::<Set<u32>, fault::FaultModel>(error@),
        },
{
    if bytes.len() == 0 || bytes.len() > MAX_GROUP_OUTPUT_BYTES {
        return Err(
            Fault::new(
                FaultKind::InvalidData,
                "macOS account group output is empty or exceeds the broker limit",
            ),
        );
    }
    let text = match decode_text(bytes) {
        Ok(text) => text,
        Err(_) => return Err(
            Fault::new(FaultKind::InvalidData, "macOS account group output is not UTF-8"),
        ),
    };
    let chars = characters(text.as_str());
    let found = split_words(&chars);
    let ghost all = words(decode_utf8(bytes@));
    let mut groups: Vec<u32> = Vec::new();
    groups.push(primary);
    let mut index: usize = 0;
    proof {
        assert(fields::field_texts(found@) == all);
        assert(all.take(0) =~= Seq::empty());
        assert(groups@ =~= seq![primary]);
        assert(groups@.to_set() =~= set![primary]) by {
            assert(groups@[0] == primary);
        }
    }
    while index < found.len()
        invariant
            index <= found@.len(),
            fields::field_texts(found@) == all,
            all == words(decode_utf8(bytes@)),
            0 < bytes@.len() <= MAX_GROUP_OUTPUT_BYTES,
            valid_utf8(bytes@),
            gathered(all.take(index as int), primary) == Ok::<Set<u32>, fault::FaultModel>(
                groups@.to_set(),
            ),
            ascending(groups@, groups@.to_set()),
        decreases found@.len() - index,
    {
        let ghost before = groups@.to_set();
        proof {
            assert(all.take(index + 1).drop_last() =~= all.take(index as int));
            assert(all.take(index + 1).last() == found@[index as int]@);
        }
        let group: u32 = match read_group(&found[index]) {
            Ok(group) => group,
            Err(error) => {
                proof {
                    lemma_faults_decide(all, index + 1, primary);
                }
                return Err(error);
            },
        };
        insert_group(&mut groups, group);
        proof {
            assert(groups@.to_set() =~= before.insert(group));
            lemma_ascending_length(groups@);
        }
        if groups.len() > MAX_GROUPS {
            proof {
                lemma_faults_decide(all, index + 1, primary);
            }
            return Err(
                Fault::new(
                    FaultKind::InvalidData,
                    "account group count exceeds the broker limit",
                ),
            );
        }
        index = index + 1;
    }
    proof {
        assert(all.take(index as int) =~= all);
    }
    if found.len() == 0 {
        return Err(
            Fault::new(FaultKind::InvalidData, "macOS account group output contains no groups"),
        );
    }
    Ok(groups)
}

proof fn lemma_faults_decide(words: Seq<Seq<char>>, count: int, primary: u32)
    requires
        0 <= count <= words.len(),
        gathered(words.take(count), primary) is Err,
    ensures
        gathered(words, primary) == gathered(words.take(count), primary),
    decreases words.len() - count,
{
    if count < words.len() {
        assert(words.take(count + 1).drop_last() =~= words.take(count));
        lemma_faults_decide(words, count + 1, primary);
    } else {
        assert(words.take(count) =~= words);
    }
}

// ---------------------------------------------------------------------------
// Laws
// ---------------------------------------------------------------------------

/// An accepted textual list holds the primary group and never more groups than
/// the limit.
pub proof fn accepted_lists_are_bounded(bytes: Seq<u8>, primary: u32)
    ensures
        listed(bytes, primary) matches Ok(members) ==> members.contains(primary) && members.len()
            <= MAX_GROUPS,
{
    if bytes.len() > 0 && bytes.len() <= MAX_GROUP_OUTPUT_BYTES && valid_utf8(bytes) {
        lemma_gathered_bounded(words(decode_utf8(bytes)), primary);
    }
}

proof fn lemma_gathered_bounded(words: Seq<Seq<char>>, primary: u32)
    ensures
        gathered(words, primary) matches Ok(members) ==> members.contains(primary)
            && members.finite() && members.len() <= MAX_GROUPS,
    decreases words.len(),
{
    if words.len() == 0 {
        assert(set![primary].len() == 1) by {
            assert(set![primary] =~= Set::empty().insert(primary));
        }
    } else {
        lemma_gathered_bounded(words.drop_last(), primary);
    }
}

/// Bounding a numeric list keeps every group exactly once.
pub proof fn bounded_lists_keep_every_group(groups: Seq<u32>)
    ensures
        first_occurrences(groups).no_duplicates(),
        forall|group: u32|
            groups.contains(group) <==> #[trigger] first_occurrences(groups).contains(group),
    decreases groups.len(),
{
    lemma_first_occurrences_keep_values(groups);
    if groups.len() > 0 {
        let before = first_occurrences(groups.drop_last());
        bounded_lists_keep_every_group(groups.drop_last());
        if !groups.drop_last().contains(groups.last()) {
            assert(!before.contains(groups.last()));
            assert forall|i: int, j: int|
                0 <= i < before.len() + 1 && 0 <= j < before.len() + 1 && i != j implies before.push(
                groups.last(),
            )[i] != before.push(groups.last())[j] by {
                if i < before.len() {
                    assert(before.contains(before[i]));
                }
                if j < before.len() {
                    assert(before.contains(before[j]));
                }
            }
        }
    }
}

/// The groups of an account are the primary one and exactly those which some word
/// names, and every word names one.
pub proof fn groups_are_those_which_are_named(words: Seq<Seq<char>>, primary: u32, group: u32)
    ensures
        gathered(words, primary) matches Ok(members) ==> (members.contains(group) <==> group
            == primary || exists|i: int|
            0 <= i < words.len() && #[trigger] named_group(words[i]) == Ok::<
                u32,
                fault::FaultModel,
            >(group)) && (forall|i: int|
            0 <= i < words.len() ==> #[trigger] named_group(words[i]) is Ok),
    decreases words.len(),
{
    if words.len() > 0 && gathered(words, primary) is Ok {
        let before = words.drop_last();
        let last = words.len() - 1;
        groups_are_those_which_are_named(before, primary, group);
        assert(words.last() == words[last]);
        assert forall|i: int| 0 <= i < words.len() implies #[trigger] named_group(words[i])
            is Ok by {
            if i < last {
                assert(before[i] == words[i]);
                assert(named_group(before[i]) is Ok);
            }
        }
        if exists|i: int|
            0 <= i < before.len() && #[trigger] named_group(before[i]) == Ok::<
                u32,
                fault::FaultModel,
            >(group) {
            let i = choose|i: int|
                0 <= i < before.len() && #[trigger] named_group(before[i]) == Ok::<
                    u32,
                    fault::FaultModel,
                >(group);
            assert(named_group(words[i]) == Ok::<u32, fault::FaultModel>(group));
        }
        if exists|i: int|
            0 <= i < words.len() && #[trigger] named_group(words[i]) == Ok::<
                u32,
                fault::FaultModel,
            >(group) {
            let i = choose|i: int|
                0 <= i < words.len() && #[trigger] named_group(words[i]) == Ok::<
                    u32,
                    fault::FaultModel,
                >(group);
            if i < last {
                assert(named_group(before[i]) == Ok::<u32, fault::FaultModel>(group));
            }
        }
    }
}

/// A written group number names that group, with or without a plus sign, and a number
/// which no group can have is refused.
pub proof fn written_groups_are_named(group: u32, number: nat)
    ensures
        named_group(text::decimal(group as nat)) == Ok::<u32, fault::FaultModel>(group),
        named_group(seq!['+'] + text::decimal(group as nat)) == Ok::<u32, fault::FaultModel>(
            group,
        ),
        number > u32::MAX ==> named_group(text::decimal(number)) is Err,
        named_group(Seq::<char>::empty()) is Err,
{
    fields::written_numbers_read_back(group as nat);
    fields::written_numbers_read_back(number);
    let spelled = text::decimal(group as nat);
    assert((seq!['+'] + spelled).skip(1) =~= spelled);
    assert(fields::is_digit(spelled[0]));
    assert(fields::is_digit(text::decimal(number)[0]));
}

/// Words hold no blanks, are never empty, and blanks around a text add none.
pub proof fn words_are_what_blanks_leave(text: Seq<char>, blank: char)
    requires
        blank == ' ' || blank == '\t' || blank == '\n' || blank == '\r',
    ensures
        forall|i: int, j: int|
            0 <= i < words(text).len() && 0 <= j < words(text)[i].len()
                ==> !is_blank(#[trigger] words(text)[i][j]),
        forall|i: int| 0 <= i < words(text).len() ==> (#[trigger] words(text)[i]).len() > 0,
        words(text.push(blank)) == words(text),
        text.len() > 0 && !is_blank(text.last()) ==> words(text).len() > 0,
    decreases text.len(),
{
    assert(text.push(blank).drop_last() =~= text);
    if text.len() > 0 {
        let before = text.drop_last();
        words_are_what_blanks_leave(before, blank);
        if !is_blank(text.last()) && text.len() > 1 && !is_blank(text[text.len() - 2]) {
            assert(before.last() == text[text.len() - 2]);
            assert(words(before).len() > 0);
            let last = words(before).len() - 1;
            assert forall|i: int, j: int|
                0 <= i < words(text).len() && 0 <= j < words(text)[i].len() implies !is_blank(
                #[trigger] words(text)[i][j],
            ) by {
                if i < last {
                    assert(words(text)[i] == words(before)[i]);
                    assert(!is_blank(words(before)[i][j]));
                } else if j < words(before)[last].len() {
                    assert(!is_blank(words(before)[last][j]));
                }
            }
        } else if !is_blank(text.last()) {
            assert forall|i: int, j: int|
                0 <= i < words(text).len() && 0 <= j < words(text)[i].len() implies !is_blank(
                #[trigger] words(text)[i][j],
            ) by {
                if i < words(before).len() {
                    assert(words(text)[i] == words(before)[i]);
                    assert(!is_blank(words(before)[i][j]));
                }
            }
        }
    }
}

} // verus!
