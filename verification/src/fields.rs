//! Separated text fields and decimal numerals.
//!
//! File names, command output, and quantities are made of fields between
//! separators. A numeral is one or more ASCII digits; leading zeros are accepted
//! when it is read and never written.

use vstd::prelude::*;
use vstd::string::*;

use crate::text;

verus! {

/// Whether a character is an ASCII digit.
pub open spec fn is_digit(c: char) -> bool {
    '0' <= c <= '9'
}

/// Whether text is a numeral.
pub open spec fn numeral(text: Seq<char>) -> bool {
    text.len() > 0 && forall|i: int| 0 <= i < text.len() ==> is_digit(#[trigger] text[i])
}

/// Number which a numeral stands for.
pub open spec fn value(text: Seq<char>) -> nat
    decreases text.len(),
{
    if text.len() == 0 {
        0
    } else {
        (value(text.drop_last()) * 10 + ((text.last() as int) - ('0' as int))) as nat
    }
}

/// Number which a numeral stands for, when it does not exceed `limit`.
pub open spec fn bounded_value(text: Seq<char>, limit: nat) -> Option<nat> {
    if numeral(text) && value(text) <= limit {
        Some(value(text))
    } else {
        None
    }
}

/// View of an optional number.
pub open spec fn optional_nat(number: Option<u128>) -> Option<nat> {
    match number {
        Some(number) => Some(number as nat),
        None => None,
    }
}

/// Read a numeral which does not exceed `limit`.
pub(crate) fn read_numeral(chars: &[char], limit: u128) -> (number: Option<u128>)
    ensures
        optional_nat(number) == bounded_value(chars@, limit as nat),
{
    if chars.len() == 0 {
        return None;
    }
    let mut total: u128 = 0;
    let mut index: usize = 0;
    assert(chars@.take(0) =~= Seq::empty());
    while index < chars.len()
        invariant
            index <= chars@.len(),
            total <= limit,
            total == value(chars@.take(index as int)),
            forall|i: int| 0 <= i < index ==> is_digit(#[trigger] chars@[i]),
        decreases chars@.len() - index,
    {
        let c: char = chars[index];
        proof {
            assert(chars@.take(index + 1).drop_last() =~= chars@.take(index as int));
            assert(chars@.take(index + 1).last() == c);
        }
        if !('0' <= c && c <= '9') {
            assert(!is_digit(chars@[index as int]));
            return None;
        }
        let digit: u128 = (c as u128) - 48;
        if total > limit / 10 || digit > limit - total * 10 {
            proof {
                assert(value(chars@.take(index + 1)) == total * 10 + digit);
                assert(value(chars@.take(index + 1)) > limit) by {
                    if total > limit / 10 {
                        assert(total * 10 > limit);
                    }
                }
                lemma_value_grows(chars@, index + 1);
            }
            return None;
        }
        total = total * 10 + digit;
        index = index + 1;
    }
    assert(chars@.take(index as int) =~= chars@);
    Some(total)
}

/// A numeral is at least as large as each of its prefixes.
proof fn lemma_value_grows(text: Seq<char>, count: int)
    requires
        0 <= count <= text.len(),
    ensures
        numeral(text) ==> value(text.take(count)) <= value(text),
    decreases text.len() - count,
{
    if numeral(text) {
        if count < text.len() {
            lemma_value_grows(text, count + 1);
            assert(text.take(count + 1).drop_last() =~= text.take(count));
            assert(is_digit(text[count]));
        } else {
            assert(text.take(count) =~= text);
        }
    }
}

/// Every written number reads back.
pub proof fn written_numbers_read_back(number: nat)
    ensures
        numeral(text::decimal(number)),
        value(text::decimal(number)) == number,
    decreases number,
{
    let spelled = text::decimal(number);
    if number < 10 {
        assert(spelled.drop_last() =~= Seq::empty());
        assert(value(Seq::<char>::empty()) == 0);
        assert(spelled.last() == text::digit_char(number));
    } else {
        written_numbers_read_back(number / 10);
        let before = text::decimal(number / 10);
        assert(spelled.drop_last() =~= before);
        assert(spelled.last() == text::digit_char(number % 10));
        assert forall|i: int| 0 <= i < spelled.len() implies is_digit(#[trigger] spelled[i]) by {
            if i < before.len() {
                assert(spelled[i] == before[i]);
            }
        }
    }
}

/// Append the decimal spelling of a wide `number`.
pub(crate) fn push_wide_decimal(out: &mut String, number: u128)
    ensures
        final(out)@ == old(out)@ + text::decimal(number as nat),
    decreases number,
{
    if number < 10 {
        text::push_decimal(out, number as u64);
    } else {
        push_wide_decimal(out, number / 10);
        text::push_decimal(out, (number % 10) as u64);
        assert(out@ =~= old(out)@ + text::decimal(number as nat));
    }
}

/// Fields between separators, empty ones included.
pub open spec fn split(text: Seq<char>, separator: char) -> Seq<Seq<char>>
    decreases text.len(),
{
    if text.len() == 0 {
        seq![Seq::empty()]
    } else {
        let before = split(text.drop_last(), separator);
        if text.last() == separator {
            before.push(Seq::empty())
        } else {
            before.drop_last().push(before.last().push(text.last()))
        }
    }
}

/// Fields held as vectors.
pub open spec fn field_texts(fields: Seq<Vec<char>>) -> Seq<Seq<char>> {
    fields.map_values(|field: Vec<char>| field@)
}

/// Fields between separators, empty ones included.
pub(crate) fn split_text(chars: &[char], separator: char) -> (fields: Vec<Vec<char>>)
    ensures
        field_texts(fields@) == split(chars@, separator),
{
    let mut fields: Vec<Vec<char>> = Vec::new();
    let mut current: Vec<char> = Vec::new();
    let mut index: usize = 0;
    assert(chars@.take(0) =~= Seq::empty());
    assert(field_texts(fields@).push(current@) =~= split(chars@.take(0), separator));
    while index < chars.len()
        invariant
            index <= chars@.len(),
            field_texts(fields@).push(current@) == split(chars@.take(index as int), separator),
        decreases chars@.len() - index,
    {
        let c: char = chars[index];
        let ghost before = split(chars@.take(index as int), separator);
        let ghost collected = field_texts(fields@);
        proof {
            assert(chars@.take(index + 1).drop_last() =~= chars@.take(index as int));
            assert(chars@.take(index + 1).last() == c);
            assert(before.drop_last() =~= collected);
            assert(before.last() == current@);
        }
        if c == separator {
            let ghost field = current@;
            fields.push(current);
            current = Vec::new();
            assert(field_texts(fields@) =~= collected.push(field));
            assert(field_texts(fields@).push(current@) =~= before.push(Seq::empty()));
        } else {
            current.push(c);
            assert(field_texts(fields@).push(current@) =~= before.drop_last().push(
                before.last().push(c),
            ));
        }
        index = index + 1;
    }
    proof {
        assert(chars@.take(index as int) =~= chars@);
    }
    let ghost field = current@;
    let ghost collected = field_texts(fields@);
    fields.push(current);
    assert(field_texts(fields@) =~= collected.push(field));
    fields
}

/// A field without separators is appended as one field.
pub proof fn lemma_split_appends(text: Seq<char>, field: Seq<char>, separator: char)
    requires
        !field.contains(separator),
    ensures
        split(text.push(separator) + field, separator) == split(text, separator).push(field),
    decreases field.len(),
{
    if field.len() == 0 {
        assert(text.push(separator) + field =~= text.push(separator));
        assert(text.push(separator).drop_last() =~= text);
        assert(field =~= Seq::empty());
    } else {
        let shorter = field.drop_last();
        assert(!shorter.contains(separator)) by {
            if shorter.contains(separator) {
                let i = choose|i: int| 0 <= i < shorter.len() && shorter[i] == separator;
                assert(field[i] == separator);
            }
        }
        lemma_split_appends(text, shorter, separator);
        let whole = text.push(separator) + field;
        assert(whole.drop_last() =~= text.push(separator) + shorter);
        assert(whole.last() == field.last());
        assert(field[field.len() - 1] == field.last());
        let before = split(text, separator).push(shorter);
        assert(before.drop_last() =~= split(text, separator));
        assert(shorter.push(field.last()) =~= field);
    }
}

/// Text without separators is one field.
pub proof fn lemma_split_single(field: Seq<char>, separator: char)
    requires
        !field.contains(separator),
    ensures
        split(field, separator) == seq![field],
    decreases field.len(),
{
    if field.len() > 0 {
        let shorter = field.drop_last();
        assert(!shorter.contains(separator)) by {
            if shorter.contains(separator) {
                let i = choose|i: int| 0 <= i < shorter.len() && shorter[i] == separator;
                assert(field[i] == separator);
            }
        }
        lemma_split_single(shorter, separator);
        assert(field[field.len() - 1] == field.last());
        assert(seq![shorter].drop_last() =~= Seq::empty());
        assert(shorter.push(field.last()) =~= field);
        assert(split(field, separator) =~= seq![field]);
    } else {
        assert(field =~= Seq::empty());
    }
}

/// A numeral holds no character but digits.
pub proof fn lemma_numerals_hold_no(text: Seq<char>, c: char)
    requires
        numeral(text),
        !is_digit(c),
    ensures
        !text.contains(c),
{
    if text.contains(c) {
        let i = choose|i: int| 0 <= i < text.len() && text[i] == c;
        assert(is_digit(text[i]));
    }
}

/// A numeral counts in tens: one more digit behind it multiplies its value by ten and
/// counts the digit, and zeros in front of it change nothing.
pub proof fn numerals_count_in_tens(text: Seq<char>, digit: nat)
    requires
        digit < 10,
    ensures
        value(text.push(((('0' as u32) + digit) as u32) as char)) == value(text) * 10 + digit,
        value(seq!['0'] + text) == value(text),
        numeral(text) ==> numeral(text.push(((('0' as u32) + digit) as u32) as char)),
    decreases text.len(),
{
    let c = ((('0' as u32) + digit) as u32) as char;
    assert(text.push(c).drop_last() =~= text);
    assert(is_digit(c));
    if numeral(text) {
        assert forall|i: int| 0 <= i < text.push(c).len() implies is_digit(
            #[trigger] text.push(c)[i],
        ) by {
            if i < text.len() {
                assert(is_digit(text[i]));
            }
        }
    }
    if text.len() == 0 {
        assert((seq!['0'] + text).drop_last() =~= Seq::empty());
        assert(value(Seq::<char>::empty()) == 0);
    } else {
        assert((seq!['0'] + text).drop_last() =~= seq!['0'] + text.drop_last());
        numerals_count_in_tens(text.drop_last(), 0);
    }
}

} // verus!
