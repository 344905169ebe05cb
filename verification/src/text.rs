//! Text primitives shared by the codecs, renderers, and validators.
//!
//! Diagnostics and canonical spellings are assembled from literals and decimal
//! numbers only, so every rendered string has an exact character-level meaning.

use vstd::prelude::*;
use vstd::string::*;
use vstd::utf8::*;

verus! {

/// The rendered explanation of why `bytes` is not UTF-8.
pub uninterp spec fn utf8_error_text(bytes: Seq<u8>) -> Seq<char>;

/// Decode one UTF-8 byte sequence with `std::str::from_utf8`.
///
/// The call succeeds exactly on valid UTF-8 and yields the encoded characters.
/// Its failure is rendered through the error's own display form, which is named
/// rather than described.
#[verifier::external_body]
pub(crate) fn decode_text(bytes: &[u8]) -> (text: Result<String, String>)
    ensures
        match text {
            Ok(decoded) => valid_utf8(bytes@) && decoded@ == decode_utf8(bytes@),
            Err(reason) => !valid_utf8(bytes@) && reason@ == utf8_error_text(bytes@),
        },
{
    match std::str::from_utf8(bytes) {
        Ok(decoded) => Ok(decoded.to_owned()),
        Err(error) => Err(error.to_string()),
    }
}

/// Text of bytes whose invalid parts were replaced.
pub uninterp spec fn lossy_text(bytes: Seq<u8>) -> Seq<char>;

/// Decode bytes with `String::from_utf8_lossy`.
///
/// Valid UTF-8 yields exactly the encoded characters. Anything else is decoded
/// with invalid parts replaced, which is named rather than described.
#[verifier::external_body]
pub(crate) fn decode_lossy(bytes: &[u8]) -> (text: String)
    ensures
        text@ == lossy_text(bytes@),
        valid_utf8(bytes@) ==> text@ == decode_utf8(bytes@),
{
    String::from_utf8_lossy(bytes).into_owned()
}

/// Text quoted and escaped for a diagnostic.
pub uninterp spec fn debug_text(text: Seq<char>) -> Seq<char>;

/// Quote and escape text with the debug form of `str`, which is named rather than
/// described.
#[verifier::external_body]
pub(crate) fn debug_quoted(text: &str) -> (quoted: String)
    ensures
        quoted@ == debug_text(text@),
{
    format!("{text:?}")
}

/// Equal encodings come from equal text.
pub proof fn lemma_encoding_is_injective(left: Seq<char>, right: Seq<char>)
    ensures
        encode_utf8(left) == encode_utf8(right) ==> left == right,
{
    encode_utf8_decode_utf8(left);
    encode_utf8_decode_utf8(right);
}

/// Whether two byte slices hold the same bytes.
pub(crate) fn bytes_equal(left: &[u8], right: &[u8]) -> (equal: bool)
    ensures
        equal == (left@ == right@),
{
    if left.len() != right.len() {
        return false;
    }
    let mut index: usize = 0;
    while index < left.len()
        invariant
            index <= left@.len(),
            left@.len() == right@.len(),
            forall|i: int| 0 <= i < index ==> left@[i] == right@[i],
        decreases left@.len() - index,
    {
        if left[index] != right[index] {
            return false;
        }
        index = index + 1;
    }
    assert(left@ =~= right@);
    true
}

/// Whether two strings hold the same characters.
pub(crate) fn text_equal(left: &str, right: &str) -> (equal: bool)
    ensures
        equal == (left@ == right@),
{
    proof {
        lemma_encoding_is_injective(left@, right@);
    }
    bytes_equal(left.as_bytes(), right.as_bytes())
}

/// Whether text holds no character.
pub(crate) fn is_empty_text(text: &str) -> (empty: bool)
    ensures
        empty == (text@.len() == 0),
{
    characters(text).len() == 0
}

/// Whether two argument vectors hold the same text in the same order.
pub open spec fn texts(values: Seq<String>) -> Seq<Seq<char>> {
    values.map_values(|value: String| value@)
}

/// Whether `character` occurs in `text`.
pub(crate) fn text_contains(text: &str, character: char) -> (found: bool)
    ensures
        found == text@.contains(character),
{
    for current in iter: text.chars()
        invariant
            iter.seq() == text@,
            forall|i: int| 0 <= i < iter.index() ==> text@[i] != character,
    {
        if current == character {
            assert(text@[iter.index()] == character);
            return true;
        }
    }
    false
}

/// Lowercase form of an ASCII letter; every other character is kept.
pub open spec fn ascii_lower(c: char) -> char {
    if 'A' <= c <= 'Z' {
        ((c as u32) + 32) as char
    } else {
        c
    }
}

/// Text with every ASCII letter in lowercase.
pub open spec fn lowered(text: Seq<char>) -> Seq<char> {
    text.map_values(|c: char| ascii_lower(c))
}

/// Whether two strings differ at most in the case of ASCII letters.
pub(crate) fn equal_ignoring_ascii_case(left: &str, right: &str) -> (equal: bool)
    ensures
        equal == (lowered(left@) == lowered(right@)),
{
    let left_chars = characters(left);
    let right_chars = characters(right);
    proof {
        assert(lowered(left@).len() == left@.len());
        assert(lowered(right@).len() == right@.len());
    }
    if left_chars.len() != right_chars.len() {
        return false;
    }
    let mut index: usize = 0;
    while index < left_chars.len()
        invariant
            index <= left@.len(),
            left_chars@ == left@,
            right_chars@ == right@,
            left@.len() == right@.len(),
            forall|i: int| 0 <= i < index ==> ascii_lower(left@[i]) == ascii_lower(right@[i]),
        decreases left@.len() - index,
    {
        if lowercase(left_chars[index]) != lowercase(right_chars[index]) {
            assert(lowered(left@)[index as int] != lowered(right@)[index as int]);
            return false;
        }
        index = index + 1;
    }
    assert(lowered(left@) =~= lowered(right@));
    true
}

fn lowercase(c: char) -> (lower: char)
    ensures
        lower == ascii_lower(c),
{
    if 'A' <= c && c <= 'Z' {
        ((c as u8) + 32) as char
    } else {
        c
    }
}

/// The characters of a string in order.
pub(crate) fn characters(text: &str) -> (chars: Vec<char>)
    ensures
        chars@ == text@,
{
    let mut chars: Vec<char> = Vec::new();
    for current in iter: text.chars()
        invariant
            iter.seq() == text@,
            chars@ == text@.take(iter.index()),
    {
        assert(text@.take(iter.index() + 1) =~= text@.take(iter.index()).push(current));
        chars.push(current);
    }
    assert(text@.take(text@.len() as int) =~= text@);
    chars
}

/// One decimal digit.
pub open spec fn digit_char(digit: nat) -> char {
    (('0' as u32) + digit) as char
}

/// Decimal spelling of a natural number, without leading zeros.
pub open spec fn decimal(value: nat) -> Seq<char>
    decreases value,
{
    if value < 10 {
        seq![digit_char(value)]
    } else {
        decimal(value / 10).push(digit_char(value % 10))
    }
}

/// Append one decimal digit.
fn push_digit(out: &mut String, digit: u64)
    requires
        digit < 10,
    ensures
        final(out)@ == old(out)@.push(digit_char(digit as nat)),
{
    proof {
        reveal_strlit("0");
        reveal_strlit("1");
        reveal_strlit("2");
        reveal_strlit("3");
        reveal_strlit("4");
        reveal_strlit("5");
        reveal_strlit("6");
        reveal_strlit("7");
        reveal_strlit("8");
        reveal_strlit("9");
    }
    let literal: &str = match digit {
        0 => "0",
        1 => "1",
        2 => "2",
        3 => "3",
        4 => "4",
        5 => "5",
        6 => "6",
        7 => "7",
        8 => "8",
        _ => "9",
    };
    assert(literal@ =~= seq![digit_char(digit as nat)]);
    out.append(literal);
    assert(out@ =~= old(out)@.push(digit_char(digit as nat)));
}

/// Append the decimal spelling of `value`.
pub(crate) fn push_decimal(out: &mut String, value: u64)
    ensures
        final(out)@ == old(out)@ + decimal(value as nat),
    decreases value,
{
    if value < 10 {
        push_digit(out, value);
        assert(out@ =~= old(out)@ + decimal(value as nat));
    } else {
        push_decimal(out, value / 10);
        push_digit(out, value % 10);
        assert(out@ =~= old(out)@ + decimal(value as nat));
    }
}

/// Decimal spelling of an integer, with a sign when it is negative.
pub open spec fn signed_decimal(value: int) -> Seq<char> {
    if value < 0 {
        "-"@ + decimal((-value) as nat)
    } else {
        decimal(value as nat)
    }
}

/// Append the decimal spelling of a signed `value`.
pub(crate) fn push_signed_decimal(out: &mut String, value: i64)
    ensures
        final(out)@ == old(out)@ + signed_decimal(value as int),
{
    let wide: i128 = value as i128;
    if wide < 0 {
        out.append("-");
        push_decimal(out, (0 - wide) as u64);
        assert(out@ =~= old(out)@ + signed_decimal(value as int));
    } else {
        push_decimal(out, wide as u64);
    }
}

/// Copy text values in order.
pub(crate) fn copy_texts(values: &Vec<String>) -> (copies: Vec<String>)
    ensures
        texts(copies@) == texts(values@),
{
    let mut copies: Vec<String> = Vec::new();
    let mut index: usize = 0;
    while index < values.len()
        invariant
            index <= values@.len(),
            copies@.len() == index,
            forall|i: int| 0 <= i < index ==> (#[trigger] copies@[i])@ == values@[i]@,
        decreases values@.len() - index,
    {
        copies.push(values[index].clone());
        index = index + 1;
    }
    assert(texts(copies@) =~= texts(values@));
    copies
}

/// Texts joined by a separator.
pub open spec fn joined(values: Seq<Seq<char>>, separator: Seq<char>) -> Seq<char>
    decreases values.len(),
{
    if values.len() == 0 {
        Seq::empty()
    } else if values.len() == 1 {
        values[0]
    } else {
        joined(values.drop_last(), separator) + separator + values.last()
    }
}

/// Join texts by a separator.
pub(crate) fn join_texts(values: &Vec<String>, separator: &str) -> (text: String)
    ensures
        text@ == joined(texts(values@), separator@),
{
    let mut text = String::new();
    let mut index: usize = 0;
    let ghost views = texts(values@);
    assert(views.take(0) =~= Seq::empty());
    assert(text@ =~= Seq::empty());
    while index < values.len()
        invariant
            index <= values@.len(),
            views == texts(values@),
            text@ == joined(views.take(index as int), separator@),
        decreases values@.len() - index,
    {
        proof {
            assert(views.take(index + 1).drop_last() =~= views.take(index as int));
            assert(views.take(index + 1).last() == values@[index as int]@);
        }
        if index > 0 {
            text.append(separator);
        }
        text.append(values[index].as_str());
        index = index + 1;
        assert(text@ =~= joined(views.take(index as int), separator@));
    }
    assert(views.take(index as int) =~= views);
    text
}

/// Concatenate three texts.
pub(crate) fn concat3(first: &str, second: &str, third: &str) -> (text: String)
    ensures
        text@ == first@ + second@ + third@,
{
    let mut text = first.to_owned();
    text.append(second);
    text.append(third);
    text
}

/// Concatenate two texts.
pub(crate) fn concat2(first: &str, second: &str) -> (text: String)
    ensures
        text@ == first@ + second@,
{
    let mut text = first.to_owned();
    text.append(second);
    text
}

} // verus!
