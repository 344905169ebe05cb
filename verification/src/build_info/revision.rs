//! Bounded Git metadata discovery for build invalidation.
//!
//! Only the active worktree metadata, the current symbolic ref, and packed refs
//! can change the revision of a build. Malformed pointers are treated as absent
//! rather than making an otherwise reproducible build fail.

use vstd::prelude::*;
use vstd::string::*;
use vstd::utf8::*;

use crate::path;
use crate::path::{join, parent, UnixPath};
use crate::text::characters;

verus! {

/// Most bytes of a pointer file.
pub const MAX_POINTER_BYTES: u64 = 4_096;

/// Whether an entry may be read as a pointer.
#[must_use]
pub fn is_pointer(is_file: bool, length: u64) -> (readable: bool)
    ensures
        readable == (is_file && length <= MAX_POINTER_BYTES),
{
    is_file && length <= MAX_POINTER_BYTES
}

// ---------------------------------------------------------------------------
// Lines
// ---------------------------------------------------------------------------

/// Text without the line feed at its end and the carriage return in front of it.
pub open spec fn unterminated(content: Seq<char>) -> Seq<char> {
    if content.len() > 0 && content.last() == '\n' {
        let line = content.drop_last();
        if line.len() > 0 && line.last() == '\r' {
            line.drop_last()
        } else {
            line
        }
    } else {
        content
    }
}

/// The one line of a content, or nothing when it holds none or several.
pub open spec fn only_line(content: Seq<char>) -> Option<Seq<char>> {
    if content.len() == 0 || content.drop_last().contains('\n') {
        None
    } else {
        Some(unterminated(content))
    }
}

/// The one line of a content.
#[must_use]
pub fn single_line(content: &str) -> (line: Option<String>)
    ensures
        match line {
            Some(line) => only_line(content@) == Some(line@),
            None => only_line(content@) is None,
        },
{
    let chars = characters(content);
    let length: usize = chars.len();
    if length == 0 {
        return None;
    }
    let mut index: usize = 0;
    while index < length - 1
        invariant
            index <= length - 1,
            length == chars@.len(),
            chars@ == content@,
            forall|i: int| 0 <= i < index ==> chars@[i] != '\n',
        decreases length - index,
    {
        if chars[index] == '\n' {
            assert(content@.drop_last()[index as int] == '\n');
            return None;
        }
        index = index + 1;
    }
    assert(!content@.drop_last().contains('\n'));
    let mut end: usize = length;
    if chars[length - 1] == '\n' {
        end = length - 1;
        if end > 0 && chars[end - 1] == '\r' {
            end = end - 1;
        }
    }
    let line = content.substring_char(0, end).to_owned();
    assert(line@ =~= unterminated(content@));
    Some(line)
}

// ---------------------------------------------------------------------------
// Values
// ---------------------------------------------------------------------------

/// Whether a character has the Unicode `White_Space` property.
pub open spec fn is_space(c: char) -> bool {
    ||| '\u{9}' <= c <= '\u{d}'
    ||| '\u{2000}' <= c <= '\u{200a}'
    ||| c == ' ' || c == '\u{85}' || c == '\u{a0}' || c == '\u{1680}'
    ||| c == '\u{2028}' || c == '\u{2029}' || c == '\u{202f}'
    ||| c == '\u{205f}' || c == '\u{3000}'
}

fn space(c: char) -> (found: bool)
    ensures
        found == is_space(c),
{
    let run = ('\u{9}' <= c && c <= '\u{d}') || ('\u{2000}' <= c && c <= '\u{200a}');
    let low = c == ' ' || c == '\u{85}' || c == '\u{a0}' || c == '\u{1680}';
    let high = c == '\u{2028}' || c == '\u{2029}' || c == '\u{202f}';
    run || low || high || c == '\u{205f}' || c == '\u{3000}'
}

/// Text without the whitespace at its front.
pub open spec fn front_trimmed(text: Seq<char>) -> Seq<char>
    decreases text.len(),
{
    if text.len() > 0 && is_space(text[0]) {
        front_trimmed(text.skip(1))
    } else {
        text
    }
}

/// Text without the whitespace at its end.
pub open spec fn back_trimmed(text: Seq<char>) -> Seq<char>
    decreases text.len(),
{
    if text.len() > 0 && is_space(text.last()) {
        back_trimmed(text.drop_last())
    } else {
        text
    }
}

/// Text without the whitespace around it.
pub open spec fn trimmed(text: Seq<char>) -> Seq<char> {
    back_trimmed(front_trimmed(text))
}

/// What follows a prefix.
pub open spec fn after(text: Seq<char>, prefix: Seq<char>) -> Option<Seq<char>> {
    if prefix.is_prefix_of(text) {
        Some(text.skip(prefix.len() as int))
    } else {
        None
    }
}

/// Whether a text starts with a prefix.
fn starts_with(chars: &Vec<char>, prefix: &Vec<char>) -> (found: bool)
    ensures
        found == prefix@.is_prefix_of(chars@),
{
    if prefix.len() > chars.len() {
        return false;
    }
    let mut index: usize = 0;
    while index < prefix.len()
        invariant
            index <= prefix@.len() <= chars@.len(),
            forall|i: int| 0 <= i < index ==> prefix@[i] == chars@[i],
        decreases prefix@.len() - index,
    {
        if chars[index] != prefix[index] {
            assert(prefix@[index as int] != chars@.subrange(0, prefix@.len() as int)[index as int]);
            return false;
        }
        index = index + 1;
    }
    assert(prefix@ =~= chars@.subrange(0, prefix@.len() as int));
    true
}

/// What follows a prefix, without the whitespace around it.
fn value_after(line: &str, prefix: &str) -> (value: Option<String>)
    ensures
        match value {
            Some(value) => after(line@, prefix@) is Some && value@ == trimmed(
                after(line@, prefix@)->Some_0,
            ),
            None => after(line@, prefix@) is None,
        },
{
    let chars = characters(line);
    let lead = characters(prefix);
    if !starts_with(&chars, &lead) {
        return None;
    }
    let length: usize = chars.len();
    let ghost rest = line@.skip(prefix@.len() as int);
    let mut start: usize = lead.len();
    assert(line@.skip(start as int) =~= rest);
    while start < length && space(chars[start])
        invariant
            start <= length,
            length == chars@.len(),
            chars@ == line@,
            front_trimmed(rest) == front_trimmed(line@.skip(start as int)),
        ensures
            start <= length,
            front_trimmed(rest) == line@.skip(start as int),
        decreases length - start,
    {
        proof {
            assert(line@.skip(start as int)[0] == chars@[start as int]);
            assert(line@.skip(start as int).skip(1) =~= line@.skip(start + 1));
        }
        start = start + 1;
    }
    let mut end: usize = length;
    let ghost kept = line@.skip(start as int);
    assert(line@.subrange(start as int, end as int) =~= kept);
    while end > start && space(chars[end - 1])
        invariant
            start <= end <= length,
            length == chars@.len(),
            chars@ == line@,
            back_trimmed(kept) == back_trimmed(line@.subrange(start as int, end as int)),
        ensures
            start <= end <= length,
            back_trimmed(kept) == line@.subrange(start as int, end as int),
        decreases end,
    {
        proof {
            let shown = line@.subrange(start as int, end as int);
            assert(shown.last() == chars@[end - 1]);
            assert(shown.drop_last() =~= line@.subrange(start as int, end - 1));
        }
        end = end - 1;
    }
    Some(line.substring_char(start, end).to_owned())
}

/// Whether a path climbs to a parent directory anywhere.
pub open spec fn climbs(location: Seq<u8>) -> bool {
    path::names(location).contains(path::parent_directory())
}

/// The reference which a `HEAD` line names, when it stays below `refs/`.
pub open spec fn reference(line: Seq<char>) -> Option<Seq<u8>> {
    match after(line, "ref:"@) {
        None => None,
        Some(rest) => {
            let name = trimmed(rest);
            if "refs/"@.is_prefix_of(name) && !climbs(encode_utf8(name)) {
                Some(encode_utf8(name))
            } else {
                None
            }
        },
    }
}

/// The reference which a `HEAD` line names.
#[must_use]
pub fn symbolic_reference(line: &str) -> (found: Option<UnixPath>)
    ensures
        match found {
            Some(found) => reference(line@) == Some(found@),
            None => reference(line@) is None,
        },
{
    let name = match value_after(line, "ref:") {
        Some(name) => name,
        None => return None,
    };
    let chars = characters(name.as_str());
    let root = characters("refs/");
    if !starts_with(&chars, &root) {
        return None;
    }
    let location = UnixPath::from_text(name.as_str());
    if path::has_parent_segment(&location) {
        None
    } else {
        Some(location)
    }
}

/// Location which a pointer line names: relative to the pointer's own directory
/// unless it is absolute.
pub open spec fn pointed(marker: Seq<u8>, prefix: Seq<char>, line: Seq<char>) -> Option<Seq<u8>> {
    match after(line, prefix) {
        None => None,
        Some(rest) => {
            let value = encode_utf8(trimmed(rest));
            if trimmed(rest).len() == 0 {
                None
            } else if path::absolute(value) {
                Some(value)
            } else {
                match path::containing(marker) {
                    Some(directory) => Some(path::below(directory, value)),
                    None => None,
                }
            }
        },
    }
}

/// Location which a pointer line names.
#[must_use]
pub fn relative_path(marker: &UnixPath, prefix: &str, line: &str) -> (location: Option<UnixPath>)
    ensures
        match location {
            Some(location) => pointed(marker@, prefix@, line@) == Some(location@),
            None => pointed(marker@, prefix@, line@) is None,
        },
{
    let value = match value_after(line, prefix) {
        Some(value) => value,
        None => return None,
    };
    if characters(value.as_str()).len() == 0 {
        return None;
    }
    let target = UnixPath::from_text(value.as_str());
    if target.is_absolute() {
        return Some(target);
    }
    match parent(marker) {
        Some(directory) => Some(join(&directory, &target)),
        None => None,
    }
}

// ---------------------------------------------------------------------------
// Watched paths
// ---------------------------------------------------------------------------

/// Views of watched paths.
pub open spec fn locations(paths: Seq<UnixPath>) -> Seq<Seq<u8>> {
    paths.map_values(|path: UnixPath| path@)
}

/// Whether a location is watched, however it is spelled.
pub open spec fn watched(paths: Seq<Seq<u8>>, location: Seq<u8>) -> bool {
    exists|i: int| 0 <= i < paths.len() && path::same_location(#[trigger] paths[i], location)
}

/// Watch a path which exists and is not watched yet.
pub fn push_existing(paths: &mut Vec<UnixPath>, path: UnixPath, exists: bool)
    ensures
        locations(final(paths)@) == if exists && !watched(locations(old(paths)@), path@) {
            locations(old(paths)@).push(path@)
        } else {
            locations(old(paths)@)
        },
{
    if !exists {
        return ;
    }
    let mut index: usize = 0;
    while index < paths.len()
        invariant
            index <= paths@.len(),
            paths@ == old(paths)@,
            forall|i: int|
                0 <= i < index ==> !path::same_location(
                    #[trigger] locations(paths@)[i],
                    path@,
                ),
        decreases paths@.len() - index,
    {
        assert(locations(paths@)[index as int] == paths@[index as int]@);
        if path::is_same_location(&paths[index], &path) {
            return ;
        }
        index = index + 1;
    }
    paths.push(path);
    assert(locations(paths@) =~= locations(old(paths)@).push(path@));
}

} // verus!
