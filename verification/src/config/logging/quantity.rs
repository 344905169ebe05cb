//! Compact duration and byte-size quantity codec shared by the `log` schema.
//!
//! `log.age` and `log.size` accept either a plain integer (seconds or mebibytes)
//! or a compact suffixed quantity such as `1h` or `2MiB`. Unknown or missing
//! suffixes, non-digit or leading-zero digit runs, a zero quantity, and overflow
//! are all rejected. Stored values are written back in the same spelling, using
//! the largest unit which divides them.

use vstd::prelude::*;
use vstd::string::*;

use crate::fields;
use crate::fields::read_numeral;
use crate::text;
use crate::text::{characters, concat2, push_decimal};

verus! {

/// Bytes in one mebibyte.
pub const MEBIBYTE: u64 = 1_048_576;

/// One scalar of the `log` schema.
#[derive(Clone, Debug, PartialEq, Eq)]
pub enum LogScalar {
    /// A plain integer.
    Integer(u64),
    /// A compact suffixed quantity.
    Text(String),
}

/// Pure view of a scalar.
pub enum ScalarModel {
    Integer(u64),
    Text(Seq<char>),
}

impl View for LogScalar {
    type V = ScalarModel;

    open spec fn view(&self) -> ScalarModel {
        match *self {
            LogScalar::Integer(value) => ScalarModel::Integer(value),
            LogScalar::Text(text) => ScalarModel::Text(text@),
        }
    }
}

/// Kind of a quantity.
#[derive(Clone, Copy, Debug, PartialEq, Eq, Structural)]
pub enum Quantity {
    /// A rotation age in seconds.
    Age,
    /// A rotation size in bytes.
    Size,
}

impl Quantity {
    /// Name in diagnostics.
    pub open spec fn name(self) -> Seq<char> {
        match self {
            Quantity::Age => "log age"@,
            Quantity::Size => "log size"@,
        }
    }

    /// Units from the largest to the smallest.
    pub open spec fn units(self) -> Seq<(Seq<char>, u64)> {
        match self {
            Quantity::Age => seq![
                ("w"@, 604_800u64),
                ("d"@, 86_400u64),
                ("h"@, 3_600u64),
                ("m"@, 60u64),
                ("s"@, 1u64),
            ],
            Quantity::Size => seq![
                ("GiB"@, 1_073_741_824u64),
                ("MiB"@, 1_048_576u64),
                ("KiB"@, 1_024u64),
                ("B"@, 1u64),
            ],
        }
    }

    fn description(self) -> (name: &'static str)
        ensures
            name@ == self.name(),
    {
        match self {
            Quantity::Age => "log age",
            Quantity::Size => "log size",
        }
    }

    fn table(self) -> (table: Vec<(&'static str, u64)>)
        ensures
            unit_views(table@) == self.units(),
    {
        let mut table: Vec<(&'static str, u64)> = Vec::new();
        match self {
            Quantity::Age => {
                table.push(("w", 604_800));
                table.push(("d", 86_400));
                table.push(("h", 3_600));
                table.push(("m", 60));
                table.push(("s", 1));
            },
            Quantity::Size => {
                table.push(("GiB", 1_073_741_824));
                table.push(("MiB", 1_048_576));
                table.push(("KiB", 1_024));
                table.push(("B", 1));
            },
        }
        assert(unit_views(table@) =~= self.units());
        table
    }
}

/// Views of units in order.
pub open spec fn unit_views(table: Seq<(&'static str, u64)>) -> Seq<(Seq<char>, u64)> {
    table.map_values(|unit: (&'static str, u64)| (unit.0@, unit.1))
}

/// Whether text ends in a suffix.
pub open spec fn ends_in(text: Seq<char>, suffix: Seq<char>) -> bool {
    text.len() >= suffix.len() && text.skip(text.len() - suffix.len()) == suffix
}

/// Position of the first unit from `from` on whose suffix ends the text.
pub open spec fn unit_position(
    text: Seq<char>,
    units: Seq<(Seq<char>, u64)>,
    from: int,
) -> Option<int>
    decreases units.len() - from,
{
    if from < 0 || from >= units.len() {
        None
    } else if ends_in(text, units[from].0) {
        Some(from)
    } else {
        unit_position(text, units, from + 1)
    }
}

/// Whether digits are a compact integer: a numeral without leading zeros.
pub open spec fn compact(digits: Seq<char>) -> bool {
    fields::numeral(digits) && !(digits.len() > 1 && digits[0] == '0')
}

/// Value of a compact suffixed quantity, or the reason why it is refused.
pub open spec fn compact_quantity(text: Seq<char>, kind: Quantity) -> Result<u64, Seq<char>> {
    match unit_position(text, kind.units(), 0) {
        None => Err(kind.name() + " has an unknown or missing unit"@),
        Some(position) => {
            let (suffix, multiplier) = kind.units()[position];
            let digits = text.take(text.len() - suffix.len());
            if !compact(digits) {
                Err(kind.name() + " must use a positive compact integer"@)
            } else if fields::value(digits) > u64::MAX {
                Err(kind.name() + " exceeds the supported numeric range"@)
            } else if fields::value(digits) == 0 {
                Err(kind.name() + " must be greater than zero"@)
            } else if fields::value(digits) * multiplier > u64::MAX {
                Err(kind.name() + " exceeds the supported numeric range"@)
            } else {
                Ok((fields::value(digits) * multiplier) as u64)
            }
        },
    }
}

/// Seconds which a `log.age` scalar stands for.
pub open spec fn age_seconds(value: ScalarModel) -> Result<u64, Seq<char>> {
    match value {
        ScalarModel::Integer(seconds) => if seconds == 0 {
            Err("log age"@ + " must be greater than zero"@)
        } else {
            Ok(seconds)
        },
        ScalarModel::Text(text) => compact_quantity(text, Quantity::Age),
    }
}

/// Bytes which a `log.size` scalar stands for.
pub open spec fn size_bytes(value: ScalarModel) -> Result<u64, Seq<char>> {
    match value {
        ScalarModel::Integer(mebibytes) => if mebibytes == 0 {
            Err("log size"@ + " must be greater than zero"@)
        } else if mebibytes * MEBIBYTE > u64::MAX {
            Err("log size exceeds the supported byte range"@)
        } else {
            Ok((mebibytes * MEBIBYTE) as u64)
        },
        ScalarModel::Text(text) => compact_quantity(text, Quantity::Size),
    }
}

/// What a codec reported.
pub open spec fn reports(
    result: Result<u64, String>,
    expected: Result<u64, Seq<char>>,
) -> bool {
    match result {
        Ok(value) => expected == Ok::<u64, Seq<char>>(value),
        Err(reason) => expected == Err::<u64, Seq<char>>(reason@),
    }
}

/// Read a `log.age` scalar.
///
/// # Errors
///
/// Fails with the reason why the scalar is refused.
pub fn parse_log_age(value: &LogScalar) -> (seconds: Result<u64, String>)
    ensures
        reports(seconds, age_seconds(value@)),
{
    match value {
        LogScalar::Integer(seconds) => {
            if *seconds == 0 {
                Err(concat2("log age", " must be greater than zero"))
            } else {
                Ok(*seconds)
            }
        },
        LogScalar::Text(duration) => parse_compact_quantity(duration.as_str(), Quantity::Age),
    }
}

/// Read a `log.size` scalar.
///
/// # Errors
///
/// Fails with the reason why the scalar is refused.
pub fn parse_log_size(value: &LogScalar) -> (bytes: Result<u64, String>)
    ensures
        reports(bytes, size_bytes(value@)),
{
    match value {
        LogScalar::Integer(mebibytes) => {
            if *mebibytes == 0 {
                return Err(concat2("log size", " must be greater than zero"));
            }
            match mebibytes.checked_mul(MEBIBYTE) {
                Some(bytes) => Ok(bytes),
                None => Err("log size exceeds the supported byte range".to_owned()),
            }
        },
        LogScalar::Text(size) => parse_compact_quantity(size.as_str(), Quantity::Size),
    }
}

fn has_suffix(chars: &Vec<char>, suffix: &Vec<char>) -> (found: bool)
    ensures
        found == ends_in(chars@, suffix@),
{
    if chars.len() < suffix.len() {
        return false;
    }
    let offset: usize = chars.len() - suffix.len();
    let mut index: usize = 0;
    while index < suffix.len()
        invariant
            index <= suffix@.len(),
            offset == chars.len() - suffix.len(),
            suffix.len() <= chars.len(),
            forall|i: int| 0 <= i < index ==> chars@[offset + i] == suffix@[i],
        decreases suffix@.len() - index,
    {
        if chars[offset + index] != suffix[index] {
            assert(chars@.skip(offset as int)[index as int] != suffix@[index as int]);
            return false;
        }
        index = index + 1;
    }
    assert(chars@.skip(offset as int) =~= suffix@);
    true
}

/// First unit whose suffix ends the text, with the digits in front of it.
fn find_unit(chars: &Vec<char>, table: &Vec<(&'static str, u64)>) -> (found: Option<
    (Vec<char>, u64),
>)
    ensures
        match (found, unit_position(chars@, unit_views(table@), 0)) {
            (Some((digits, multiplier)), Some(position)) => {
                let unit = unit_views(table@)[position];
                &&& digits@ == chars@.take(chars@.len() - unit.0.len())
                &&& multiplier == unit.1
            },
            (None, None) => true,
            _ => false,
        },
{
    let mut index: usize = 0;
    while index < table.len()
        invariant
            index <= table@.len(),
            unit_position(chars@, unit_views(table@), index as int) == unit_position(
                chars@,
                unit_views(table@),
                0,
            ),
        decreases table@.len() - index,
    {
        let suffix = characters(table[index].0);
        assert(unit_views(table@)[index as int] == (suffix@, table@[index as int].1));
        if has_suffix(chars, &suffix) {
            let count: usize = chars.len() - suffix.len();
            let mut digits: Vec<char> = Vec::new();
            let mut position: usize = 0;
            while position < count
                invariant
                    position <= count <= chars@.len(),
                    digits@ == chars@.take(position as int),
                decreases count - position,
            {
                digits.push(chars[position]);
                position = position + 1;
                assert(digits@ =~= chars@.take(position as int));
            }
            return Some((digits, table[index].1));
        }
        index = index + 1;
    }
    None
}

fn parse_compact_quantity(value: &str, kind: Quantity) -> (quantity: Result<u64, String>)
    ensures
        reports(quantity, compact_quantity(value@, kind)),
{
    let table = kind.table();
    let description = kind.description();
    let (digits, multiplier): (Vec<char>, u64) = match find_unit(&characters(value), &table) {
        Some(found) => found,
        None => return Err(concat2(description, " has an unknown or missing unit")),
    };
    if digits.len() > 1 && digits[0] == '0' {
        return Err(concat2(description, " must use a positive compact integer"));
    }
    if !is_numeral(&digits) {
        return Err(concat2(description, " must use a positive compact integer"));
    }
    let quantity: u64 = match read_numeral(digits.as_slice(), u64::MAX as u128) {
        Some(quantity) => quantity as u64,
        None => return Err(concat2(description, " exceeds the supported numeric range")),
    };
    if quantity == 0 {
        return Err(concat2(description, " must be greater than zero"));
    }
    match quantity.checked_mul(multiplier) {
        Some(product) => Ok(product),
        None => Err(concat2(description, " exceeds the supported numeric range")),
    }
}

fn is_numeral(digits: &Vec<char>) -> (found: bool)
    ensures
        found == fields::numeral(digits@),
{
    let mut index: usize = 0;
    while index < digits.len()
        invariant
            index <= digits@.len(),
            forall|i: int| 0 <= i < index ==> fields::is_digit(#[trigger] digits@[i]),
        decreases digits@.len() - index,
    {
        if !('0' <= digits[index] && digits[index] <= '9') {
            assert(!fields::is_digit(digits@[index as int]));
            return false;
        }
        index = index + 1;
    }
    digits.len() > 0
}

/// Position of the first unit from `from` on which divides a value.
pub open spec fn dividing_unit(
    value: u64,
    units: Seq<(Seq<char>, u64)>,
    from: int,
) -> Option<int>
    decreases units.len() - from,
{
    if from < 0 || from >= units.len() {
        None
    } else if value >= units[from].1 && value % units[from].1 == 0 {
        Some(from)
    } else {
        dividing_unit(value, units, from + 1)
    }
}

/// Compact spelling of a value in its largest dividing unit.
pub open spec fn spelled(value: u64, kind: Quantity) -> Seq<char> {
    match dividing_unit(value, kind.units(), 0) {
        Some(position) => text::decimal((value / kind.units()[position].1) as nat)
            + kind.units()[position].0,
        None => text::decimal(value as nat),
    }
}

proof fn lemma_units_are_positive(kind: Quantity)
    ensures
        forall|i: int| 0 <= i < kind.units().len() ==> (#[trigger] kind.units()[i]).1 > 0,
{
}

fn format_quantity(value: u64, kind: Quantity) -> (text: String)
    ensures
        text@ == spelled(value, kind),
{
    let table = kind.table();
    let mut text = String::new();
    let mut index: usize = 0;
    proof {
        lemma_units_are_positive(kind);
    }
    while index < table.len()
        invariant
            index <= table@.len(),
            unit_views(table@) == kind.units(),
            forall|i: int| 0 <= i < kind.units().len() ==> (#[trigger] kind.units()[i]).1 > 0,
            text@ == Seq::<char>::empty(),
            dividing_unit(value, kind.units(), index as int) == dividing_unit(
                value,
                kind.units(),
                0,
            ),
        decreases table@.len() - index,
    {
        let (suffix, multiplier): (&'static str, u64) = table[index];
        assert(kind.units()[index as int] == (suffix@, multiplier));
        if value >= multiplier && value % multiplier == 0 {
            push_decimal(&mut text, value / multiplier);
            text.append(suffix);
            assert(text@ =~= spelled(value, kind));
            return text;
        }
        index = index + 1;
    }
    push_decimal(&mut text, value);
    assert(text@ =~= spelled(value, kind));
    text
}

/// Render a rotation age using the same compact unit accepted by `log.age`.
#[must_use]
pub fn format_log_age(seconds: u64) -> (text: String)
    ensures
        text@ == spelled(seconds, Quantity::Age),
{
    format_quantity(seconds, Quantity::Age)
}

/// Render a rotation threshold using the same compact unit accepted by `log.size`.
#[must_use]
pub fn format_log_size(bytes: u64) -> (text: String)
    ensures
        text@ == spelled(bytes, Quantity::Size),
{
    format_quantity(bytes, Quantity::Size)
}

// ---------------------------------------------------------------------------
// Laws
// ---------------------------------------------------------------------------

proof fn lemma_decimals_are_compact(number: nat)
    ensures
        compact(text::decimal(number)),
    decreases number,
{
    fields::written_numbers_read_back(number);
    if number >= 10 {
        lemma_first_digit(number);
    }
}

proof fn lemma_first_digit(number: nat)
    requires
        number > 0,
    ensures
        text::decimal(number).len() > 0,
        text::decimal(number)[0] != '0',
    decreases number,
{
    if number >= 10 {
        lemma_first_digit(number / 10);
        assert(text::decimal(number)[0] == text::decimal(number / 10)[0]);
    } else {
        assert(text::decimal(number)[0] == text::digit_char(number));
    }
}

proof fn lemma_dividing_unit_is_found(value: u64, units: Seq<(Seq<char>, u64)>, from: int)
    requires
        value > 0,
        0 <= from < units.len(),
        units.last().1 == 1,
    ensures
        dividing_unit(value, units, from) matches Some(position) && from <= position < units.len()
            && value >= units[position].1 && value % units[position].1 == 0,
    decreases units.len() - from,
{
    if !(value >= units[from].1 && value % units[from].1 == 0) {
        assert(from < units.len() - 1) by {
            if from == units.len() - 1 {
                assert(value % 1 == 0) by (nonlinear_arith);
            }
        }
        lemma_dividing_unit_is_found(value, units, from + 1);
    }
}

/// The unit of a written quantity is the one which is read, since a number never
/// ends in a letter and no unit's spelling ends in an earlier unit's.
proof fn lemma_written_unit_is_read(number: nat, kind: Quantity, position: int)
    requires
        0 <= position < kind.units().len(),
    ensures
        unit_position(text::decimal(number) + kind.units()[position].0, kind.units(), 0) == Some(
            position,
        ),
{
    reveal_strlit("w");
    reveal_strlit("d");
    reveal_strlit("h");
    reveal_strlit("m");
    reveal_strlit("s");
    reveal_strlit("GiB");
    reveal_strlit("MiB");
    reveal_strlit("KiB");
    reveal_strlit("B");
    let digits = text::decimal(number);
    let units = kind.units();
    let suffix = units[position].0;
    let whole = digits + suffix;
    fields::written_numbers_read_back(number);
    assert(whole.skip(whole.len() - suffix.len()) =~= suffix);
    assert(ends_in(whole, suffix));
    assert forall|i: int| 0 <= i < position implies !ends_in(whole, (#[trigger] units[i]).0) by {
        let other = units[i].0;
        if ends_in(whole, other) {
            let tail = whole.skip(whole.len() - other.len());
            assert(tail == other);
            assert(tail[0] == other[0]);
            assert(tail[0] == whole[whole.len() - other.len()]);
            if other.len() > suffix.len() {
                assert(whole[whole.len() - other.len()] == digits[digits.len() + suffix.len()
                    - other.len()]);
                assert(fields::is_digit(digits[digits.len() + suffix.len() - other.len()]));
            } else {
                assert(whole[whole.len() - other.len()] == suffix[suffix.len() - other.len()]);
            }
        }
    }
    lemma_unit_is_first(whole, units, position, 0);
}

proof fn lemma_unit_is_first(
    whole: Seq<char>,
    units: Seq<(Seq<char>, u64)>,
    position: int,
    from: int,
)
    requires
        0 <= from <= position < units.len(),
        ends_in(whole, units[position].0),
        forall|i: int| 0 <= i < position ==> !ends_in(whole, (#[trigger] units[i]).0),
    ensures
        unit_position(whole, units, from) == Some(position),
    decreases position - from,
{
    if from < position {
        lemma_unit_is_first(whole, units, position, from + 1);
    }
}

/// Every positive quantity which is written reads back as the same value.
pub proof fn written_quantities_read_back(value: u64, kind: Quantity)
    requires
        value > 0,
    ensures
        compact_quantity(spelled(value, kind), kind) == Ok::<u64, Seq<char>>(value),
{
    lemma_units_are_positive(kind);
    lemma_dividing_unit_is_found(value, kind.units(), 0);
    let position = dividing_unit(value, kind.units(), 0)->0;
    let (suffix, multiplier) = kind.units()[position];
    let count = value / multiplier;
    let whole = spelled(value, kind);
    lemma_written_unit_is_read(count as nat, kind, position);
    assert(whole.take(whole.len() - suffix.len()) =~= text::decimal(count as nat));
    fields::written_numbers_read_back(count as nat);
    lemma_decimals_are_compact(count as nat);
    vstd::arithmetic::div_mod::lemma_fundamental_div_mod(value as int, multiplier as int);
    assert(count * multiplier == value) by (nonlinear_arith)
        requires
            value as int == (multiplier as int) * ((value as int) / (multiplier as int)) + (
            value as int) % (multiplier as int),
            (value as int) % (multiplier as int) == 0,
            count == (value as int) / (multiplier as int),
    ;
    assert(count > 0) by (nonlinear_arith)
        requires
            count * multiplier == value,
            value > 0,
            count >= 0,
    ;
}

/// One count behind which a unit stands is that many times the unit.
proof fn lemma_unit_multiplies(count: nat, kind: Quantity, position: int)
    requires
        0 <= position < kind.units().len(),
        count <= u64::MAX,
    ensures
        ({
            let read = compact_quantity(
                text::decimal(count) + kind.units()[position].0,
                kind,
            );
            if 0 < count && count * kind.units()[position].1 <= u64::MAX {
                read == Ok::<u64, Seq<char>>((count * kind.units()[position].1) as u64)
            } else {
                read is Err
            }
        }),
{
    let (suffix, multiplier) = kind.units()[position];
    let whole = text::decimal(count) + suffix;
    lemma_written_unit_is_read(count, kind, position);
    assert(whole.take(whole.len() - suffix.len()) =~= text::decimal(count));
    fields::written_numbers_read_back(count);
    lemma_decimals_are_compact(count);
}

/// An age is spelled in weeks, days, hours, minutes, or seconds.
pub proof fn ages_are_spelled_in_calendar_units(count: nat)
    requires
        0 < count,
        count * (7 * 24 * 60 * 60) <= u64::MAX,
    ensures
        age_seconds(ScalarModel::Text(text::decimal(count) + "w"@)) == Ok::<u64, Seq<char>>(
            (count * (7 * 24 * 60 * 60)) as u64,
        ),
        age_seconds(ScalarModel::Text(text::decimal(count) + "d"@)) == Ok::<u64, Seq<char>>(
            (count * (24 * 60 * 60)) as u64,
        ),
        age_seconds(ScalarModel::Text(text::decimal(count) + "h"@)) == Ok::<u64, Seq<char>>(
            (count * (60 * 60)) as u64,
        ),
        age_seconds(ScalarModel::Text(text::decimal(count) + "m"@)) == Ok::<u64, Seq<char>>(
            (count * 60) as u64,
        ),
        age_seconds(ScalarModel::Text(text::decimal(count) + "s"@)) == Ok::<u64, Seq<char>>(
            count as u64,
        ),
        age_seconds(ScalarModel::Integer(count as u64)) == Ok::<u64, Seq<char>>(count as u64),
{
    lemma_unit_multiplies(count, Quantity::Age, 0);
    lemma_unit_multiplies(count, Quantity::Age, 1);
    lemma_unit_multiplies(count, Quantity::Age, 2);
    lemma_unit_multiplies(count, Quantity::Age, 3);
    lemma_unit_multiplies(count, Quantity::Age, 4);
    assert(Quantity::Age.units()[4].1 == 1);
    assert(count * Quantity::Age.units()[4].1 == count) by (nonlinear_arith)
        requires
            Quantity::Age.units()[4].1 == 1,
    ;
}

/// A size is spelled in binary units, and a bare number counts mebibytes.
pub proof fn sizes_are_spelled_in_binary_units(count: nat)
    requires
        0 < count,
        count * (1024 * 1024 * 1024) <= u64::MAX,
    ensures
        size_bytes(ScalarModel::Text(text::decimal(count) + "GiB"@)) == Ok::<u64, Seq<char>>(
            (count * (1024 * 1024 * 1024)) as u64,
        ),
        size_bytes(ScalarModel::Text(text::decimal(count) + "MiB"@)) == Ok::<u64, Seq<char>>(
            (count * (1024 * 1024)) as u64,
        ),
        size_bytes(ScalarModel::Text(text::decimal(count) + "KiB"@)) == Ok::<u64, Seq<char>>(
            (count * 1024) as u64,
        ),
        size_bytes(ScalarModel::Text(text::decimal(count) + "B"@)) == Ok::<u64, Seq<char>>(
            count as u64,
        ),
        size_bytes(ScalarModel::Integer(count as u64)) == size_bytes(
            ScalarModel::Text(text::decimal(count) + "MiB"@),
        ),
{
    lemma_unit_multiplies(count, Quantity::Size, 0);
    lemma_unit_multiplies(count, Quantity::Size, 1);
    lemma_unit_multiplies(count, Quantity::Size, 2);
    lemma_unit_multiplies(count, Quantity::Size, 3);
    assert(Quantity::Size.units()[3].1 == 1);
    assert(count * Quantity::Size.units()[3].1 == count) by (nonlinear_arith)
        requires
            Quantity::Size.units()[3].1 == 1,
    ;
}

/// No accepted quantity is zero, in any spelling, and a quantity which does not fit is
/// refused rather than cut.
pub proof fn quantities_are_positive_and_fit(value: ScalarModel, count: u64)
    ensures
        age_seconds(value) matches Ok(seconds) ==> seconds > 0,
        size_bytes(value) matches Ok(bytes) ==> bytes > 0,
        count * (1024 * 1024) > u64::MAX ==> size_bytes(ScalarModel::Integer(count)) is Err,
        count * (7 * 24 * 60 * 60) > u64::MAX ==> age_seconds(
            ScalarModel::Text(text::decimal(count as nat) + "w"@),
        ) is Err,
        size_bytes(ScalarModel::Text(text::decimal(0) + "B"@)) is Err,
        age_seconds(ScalarModel::Text(text::decimal(0) + "s"@)) is Err,
{
    lemma_unit_multiplies(count as nat, Quantity::Age, 0);
    lemma_unit_multiplies(0, Quantity::Age, 4);
    lemma_unit_multiplies(0, Quantity::Size, 3);
    if value is Text {
        lemma_accepted_quantities_are_positive(value->Text_0, Quantity::Age);
        lemma_accepted_quantities_are_positive(value->Text_0, Quantity::Size);
    }
}

/// A quantity which is read is at least one.
proof fn lemma_accepted_quantities_are_positive(text: Seq<char>, kind: Quantity)
    ensures
        compact_quantity(text, kind) matches Ok(value) ==> value > 0,
{
    if compact_quantity(text, kind) is Ok {
        lemma_units_are_positive(kind);
        lemma_positions_name_units(text, kind.units(), 0);
        let position = unit_position(text, kind.units(), 0)->0;
        let (suffix, multiplier) = kind.units()[position];
        let count = fields::value(text.take(text.len() - suffix.len()));
        assert(count * multiplier > 0) by (nonlinear_arith)
            requires
                count > 0,
                multiplier > 0,
        ;
    }
}

/// A position which is found names a unit.
proof fn lemma_positions_name_units(text: Seq<char>, units: Seq<(Seq<char>, u64)>, from: int)
    requires
        0 <= from,
    ensures
        unit_position(text, units, from) matches Some(position) ==> from <= position
            < units.len(),
    decreases units.len() - from,
{
    if from < units.len() {
        lemma_positions_name_units(text, units, from + 1);
    }
}

} // verus!
