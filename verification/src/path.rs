//! Unix paths as raw bytes, with lexical resolution.
//!
//! A path is split at `/`; empty and `.` segments carry no meaning, except that a
//! relative path may start with one `.` to name its directory. Lexical resolution
//! drops that one too: it joins a path to its base and removes every `..` together with the
//! segment in front of it, never climbing above the root.

use vstd::prelude::*;
use vstd::string::*;
use vstd::utf8::*;

use crate::text::bytes_equal;

verus! {

/// A Unix path: arbitrary bytes without a fixed encoding.
#[derive(Clone, Debug, PartialEq, Eq)]
pub struct UnixPath {
    /// Bytes as the operating system sees them.
    pub bytes: Vec<u8>,
}

impl View for UnixPath {
    type V = Seq<u8>;

    open spec fn view(&self) -> Seq<u8> {
        self.bytes@
    }
}

/// The path separator.
pub const SEPARATOR: u8 = 47;

/// Segments between separators, empty ones included.
pub open spec fn segments(path: Seq<u8>) -> Seq<Seq<u8>>
    decreases path.len(),
{
    if path.len() == 0 {
        seq![Seq::empty()]
    } else {
        let before = segments(path.drop_last());
        if path.last() == SEPARATOR {
            before.push(Seq::empty())
        } else {
            before.drop_last().push(before.last().push(path.last()))
        }
    }
}

/// The segment which names the current directory.
pub open spec fn current_directory() -> Seq<u8> {
    seq![46u8]
}

/// The segment which names the parent directory.
pub open spec fn parent_directory() -> Seq<u8> {
    seq![46u8, 46u8]
}

/// Whether a segment carries meaning.
pub open spec fn meaningful(segment: Seq<u8>) -> bool {
    segment.len() > 0 && segment != current_directory()
}

/// Meaningful segments in order.
pub open spec fn names(path: Seq<u8>) -> Seq<Seq<u8>> {
    segments(path).filter(|segment: Seq<u8>| meaningful(segment))
}

/// Whether a path starts at the root.
pub open spec fn absolute(path: Seq<u8>) -> bool {
    path.len() > 0 && path[0] == SEPARATOR
}

/// Names after every parent segment removed the name in front of it.
pub open spec fn collapsed(names: Seq<Seq<u8>>) -> Seq<Seq<u8>>
    decreases names.len(),
{
    if names.len() == 0 {
        Seq::empty()
    } else {
        let before = collapsed(names.drop_last());
        if names.last() == parent_directory() {
            if before.len() > 0 {
                before.drop_last()
            } else {
                before
            }
        } else {
            before.push(names.last())
        }
    }
}

/// Names joined by separators.
pub open spec fn joined(names: Seq<Seq<u8>>) -> Seq<u8>
    decreases names.len(),
{
    if names.len() == 0 {
        Seq::empty()
    } else if names.len() == 1 {
        names[0]
    } else {
        joined(names.drop_last()).push(SEPARATOR) + names.last()
    }
}

/// A path rendered from its names.
pub open spec fn rendered(from_root: bool, names: Seq<Seq<u8>>) -> Seq<u8> {
    (if from_root {
        seq![SEPARATOR]
    } else {
        Seq::empty()
    }) + joined(names)
}

/// Lexical resolution of `path` against `base`.
pub open spec fn resolved(base: Seq<u8>, path: Seq<u8>) -> Seq<u8> {
    if absolute(path) {
        rendered(true, collapsed(names(path)))
    } else {
        rendered(absolute(base), collapsed(names(base) + names(path)))
    }
}

/// Names held as vectors.
pub open spec fn name_bytes(names: Seq<Vec<u8>>) -> Seq<Seq<u8>> {
    names.map_values(|name: Vec<u8>| name@)
}

impl UnixPath {
    /// The path spelled by UTF-8 text.
    #[must_use]
    pub fn from_text(text: &str) -> (path: Self)
        ensures
            path@ == encode_utf8(text@),
    {
        UnixPath { bytes: vstd::slice::slice_to_vec(text.as_bytes()) }
    }

    /// An equal path.
    pub(crate) fn duplicate(&self) -> (copy: Self)
        ensures
            copy@ == self@,
    {
        UnixPath { bytes: copy_bytes(&self.bytes) }
    }

    /// Whether the path starts at the root.
    #[must_use]
    pub fn is_absolute(&self) -> (from_root: bool)
        ensures
            from_root == absolute(self@),
    {
        self.bytes.len() > 0 && self.bytes[0] == SEPARATOR
    }

    /// Whether the path holds no byte at all.
    #[must_use]
    pub fn is_empty(&self) -> (empty: bool)
        ensures
            empty == (self@.len() == 0),
    {
        self.bytes.len() == 0
    }
}

fn is_meaningful(segment: &Vec<u8>) -> (kept: bool)
    ensures
        kept == meaningful(segment@),
{
    let dot = segment.len() == 1 && segment[0] == 46;
    proof {
        if dot {
            assert(segment@ =~= current_directory());
        } else if segment@ == current_directory() {
            assert(segment@[0] == 46);
        }
    }
    segment.len() > 0 && !dot
}

fn is_parent(segment: &Vec<u8>) -> (parent: bool)
    ensures
        parent == (segment@ == parent_directory()),
{
    let parent = segment.len() == 2 && segment[0] == 46 && segment[1] == 46;
    proof {
        if parent {
            assert(segment@ =~= parent_directory());
        } else if segment@ == parent_directory() {
            assert(segment@[0] == 46);
            assert(segment@[1] == 46);
        }
    }
    parent
}

/// Append the meaningful segments of a path.
fn push_names(found: &mut Vec<Vec<u8>>, path: &[u8])
    ensures
        name_bytes(final(found)@) == name_bytes(old(found)@) + names(path@),
{
    let ghost keep = |segment: Seq<u8>| meaningful(segment);
    let mut current: Vec<u8> = Vec::new();
    let mut index: usize = 0;
    proof {
        reveal(Seq::filter);
        assert(path@.take(0) =~= Seq::empty());
        assert(segments(path@.take(0)).drop_last() =~= Seq::empty());
        assert(segments(path@.take(0)).drop_last().filter(keep) =~= Seq::empty());
        assert(name_bytes(found@) =~= name_bytes(old(found)@) + Seq::empty());
        assert(current@ =~= Seq::<u8>::empty());
    }
    while index < path.len()
        invariant
            index <= path@.len(),
            keep == (|segment: Seq<u8>| meaningful(segment)),
            segments(path@.take(index as int)).len() > 0,
            segments(path@.take(index as int)).last() == current@,
            name_bytes(found@) == name_bytes(old(found)@) + segments(
                path@.take(index as int),
            ).drop_last().filter(keep),
        decreases path@.len() - index,
    {
        let byte: u8 = path[index];
        let ghost before = segments(path@.take(index as int));
        proof {
            assert(path@.take(index + 1).drop_last() =~= path@.take(index as int));
            assert(path@.take(index + 1).last() == byte);
        }
        if byte == SEPARATOR {
            let ghost segment = current@;
            let ghost collected = found@;
            proof {
                reveal(Seq::filter);
                assert(before.push(Seq::empty()).drop_last() =~= before);
            }
            if is_meaningful(&current) {
                found.push(current);
                proof {
                    assert(name_bytes(found@) =~= name_bytes(collected).push(segment));
                    assert(name_bytes(found@) =~= name_bytes(old(found)@) + before.filter(keep));
                }
            } else {
                assert(name_bytes(found@) =~= name_bytes(old(found)@) + before.filter(keep));
            }
            current = Vec::new();
            assert(current@ =~= Seq::<u8>::empty());
        } else {
            current.push(byte);
            proof {
                assert(before.drop_last().push(before.last().push(byte)).drop_last()
                    =~= before.drop_last());
            }
        }
        index = index + 1;
    }
    proof {
        reveal(Seq::filter);
        assert(path@.take(index as int) =~= path@);
    }
    let ghost collected = found@;
    let ghost segment = current@;
    if is_meaningful(&current) {
        found.push(current);
        assert(name_bytes(found@) =~= name_bytes(collected).push(segment));
    }
    assert(name_bytes(found@) =~= name_bytes(old(found)@) + names(path@));
}

/// Remove every parent segment together with the name in front of it.
fn collapse(found: Vec<Vec<u8>>) -> (kept: Vec<Vec<u8>>)
    ensures
        name_bytes(kept@) == collapsed(name_bytes(found@)),
{
    let mut kept: Vec<Vec<u8>> = Vec::new();
    let mut index: usize = 0;
    let ghost all = name_bytes(found@);
    proof {
        assert(all.take(0) =~= Seq::empty());
        assert(name_bytes(kept@) =~= Seq::empty());
    }
    while index < found.len()
        invariant
            index <= found@.len(),
            all == name_bytes(found@),
            name_bytes(kept@) == collapsed(all.take(index as int)),
        decreases found@.len() - index,
    {
        let ghost previous = kept@;
        proof {
            assert(all.take(index + 1).drop_last() =~= all.take(index as int));
            assert(all.take(index + 1).last() == found@[index as int]@);
        }
        if is_parent(&found[index]) {
            if kept.len() > 0 {
                kept.pop();
                assert(name_bytes(kept@) =~= name_bytes(previous).drop_last());
            }
        } else {
            let name = copy_bytes(&found[index]);
            kept.push(name);
            assert(name_bytes(kept@) =~= name_bytes(previous).push(found@[index as int]@));
        }
        index = index + 1;
    }
    assert(all.take(index as int) =~= all);
    kept
}

fn copy_bytes(bytes: &Vec<u8>) -> (copy: Vec<u8>)
    ensures
        copy@ == bytes@,
{
    vstd::slice::slice_to_vec(bytes.as_slice())
}

/// Append bytes.
pub(crate) fn extend(out: &mut Vec<u8>, bytes: &Vec<u8>)
    ensures
        final(out)@ == old(out)@ + bytes@,
{
    let mut index: usize = 0;
    while index < bytes.len()
        invariant
            index <= bytes@.len(),
            out@ == old(out)@ + bytes@.take(index as int),
        decreases bytes@.len() - index,
    {
        out.push(bytes[index]);
        index = index + 1;
        assert(out@ =~= old(out)@ + bytes@.take(index as int));
    }
    assert(bytes@.take(index as int) =~= bytes@);
}

/// Render a path from its names.
fn render(from_root: bool, found: &Vec<Vec<u8>>) -> (path: UnixPath)
    ensures
        path@ == rendered(from_root, name_bytes(found@)),
{
    let mut bytes: Vec<u8> = Vec::new();
    if from_root {
        bytes.push(SEPARATOR);
    }
    let ghost prefix = bytes@;
    let ghost all = name_bytes(found@);
    let mut index: usize = 0;
    proof {
        assert(prefix =~= (if from_root {
            seq![SEPARATOR]
        } else {
            Seq::empty()
        }));
        assert(all.take(0) =~= Seq::empty());
        assert(bytes@ =~= prefix + joined(all.take(0)));
    }
    while index < found.len()
        invariant
            index <= found@.len(),
            all == name_bytes(found@),
            bytes@ == prefix + joined(all.take(index as int)),
        decreases found@.len() - index,
    {
        proof {
            assert(all.take(index + 1).drop_last() =~= all.take(index as int));
            assert(all.take(index + 1).last() == found@[index as int]@);
        }
        if index > 0 {
            bytes.push(SEPARATOR);
        }
        extend(&mut bytes, &found[index]);
        index = index + 1;
        assert(bytes@ =~= prefix + joined(all.take(index as int)));
    }
    assert(all.take(index as int) =~= all);
    UnixPath { bytes }
}

/// Resolve `path` against `base` without touching the filesystem.
#[must_use]
pub fn normalize_absolute(base: &UnixPath, path: &UnixPath) -> (normalized: UnixPath)
    ensures
        normalized@ == resolved(base@, path@),
{
    let mut found: Vec<Vec<u8>> = Vec::new();
    let mut from_root: bool = true;
    assert(name_bytes(found@) =~= Seq::empty());
    if !path.is_absolute() {
        push_names(&mut found, base.bytes.as_slice());
        from_root = base.is_absolute();
        assert(name_bytes(found@) =~= names(base@));
    }
    let ghost before = name_bytes(found@);
    push_names(&mut found, path.bytes.as_slice());
    proof {
        if absolute(path@) {
            assert(before + names(path@) =~= names(path@));
        }
    }
    let kept = collapse(found);
    render(from_root, &kept)
}

/// Last name of a path, unless it ends in a parent segment.
pub open spec fn last_name(path: Seq<u8>) -> Option<Seq<u8>> {
    if names(path).len() == 0 || names(path).last() == parent_directory() {
        None
    } else {
        Some(names(path).last())
    }
}

/// Last name of a path, or nothing when the path has none.
#[must_use]
pub fn file_name(path: &UnixPath) -> (name: Option<Vec<u8>>)
    ensures
        match name {
            Some(name) => last_name(path@) == Some(name@),
            None => last_name(path@) is None,
        },
{
    let mut found: Vec<Vec<u8>> = Vec::new();
    push_names(&mut found, path.bytes.as_slice());
    proof {
        assert(name_bytes(found@) =~= names(path@));
    }
    match found.pop() {
        Some(name) => {
            assert(names(path@).last() == name@);
            if is_parent(&name) {
                None
            } else {
                Some(name)
            }
        },
        None => None,
    }
}

/// Whether any segment of a path names a parent directory.
#[must_use]
pub fn has_parent_segment(path: &UnixPath) -> (found: bool)
    ensures
        found == names(path@).contains(parent_directory()),
{
    let mut found: Vec<Vec<u8>> = Vec::new();
    push_names(&mut found, path.bytes.as_slice());
    assert(name_bytes(found@) =~= names(path@));
    let mut index: usize = 0;
    while index < found.len()
        invariant
            index <= found@.len(),
            name_bytes(found@) == names(path@),
            forall|i: int| 0 <= i < index ==> names(path@)[i] != parent_directory(),
        decreases found@.len() - index,
    {
        assert(names(path@)[index as int] == found@[index as int]@);
        if is_parent(&found[index]) {
            return true;
        }
        index = index + 1;
    }
    false
}

/// Whether a relative path starts at the current directory by name.
pub open spec fn dotted(path: Seq<u8>) -> bool {
    path.len() > 0 && path[0] == 46 && (path.len() == 1 || path[1] == SEPARATOR)
}

/// Names of a path behind the leading current directory, if it is spelled out.
pub open spec fn components(path: Seq<u8>) -> Seq<Seq<u8>> {
    (if dotted(path) {
        seq![current_directory()]
    } else {
        Seq::empty()
    }) + names(path)
}

/// Whether two spellings name one location: they agree on where they start and on
/// every component.
pub open spec fn same_location(left: Seq<u8>, right: Seq<u8>) -> bool {
    absolute(left) == absolute(right) && components(left) == components(right)
}

fn split(path: &UnixPath) -> (found: Vec<Vec<u8>>)
    ensures
        name_bytes(found@) == components(path@),
{
    let mut found: Vec<Vec<u8>> = Vec::new();
    let length: usize = path.bytes.len();
    if length > 0 && path.bytes[0] == 46 && (length == 1 || path.bytes[1] == SEPARATOR) {
        let mut dot: Vec<u8> = Vec::new();
        dot.push(46);
        assert(dot@ =~= current_directory());
        found.push(dot);
    }
    let ghost start = name_bytes(found@);
    push_names(&mut found, path.bytes.as_slice());
    assert(start =~= (if dotted(path@) {
        seq![current_directory()]
    } else {
        Seq::empty()
    }));
    found
}

/// Whether two spellings name one location.
#[must_use]
pub fn is_same_location(left: &UnixPath, right: &UnixPath) -> (same: bool)
    ensures
        same == same_location(left@, right@),
{
    let first = split(left);
    let second = split(right);
    let ghost ours = name_bytes(first@);
    let ghost theirs = name_bytes(second@);
    assert(ours.len() == first@.len() && theirs.len() == second@.len());
    if left.is_absolute() != right.is_absolute() || first.len() != second.len() {
        return false;
    }
    let mut index: usize = 0;
    while index < first.len()
        invariant
            index <= first@.len() == second@.len(),
            ours == name_bytes(first@),
            theirs == name_bytes(second@),
            ours == components(left@),
            theirs == components(right@),
            forall|i: int| 0 <= i < index ==> ours[i] == theirs[i],
        decreases first@.len() - index,
    {
        if !bytes_equal(first[index].as_slice(), second[index].as_slice()) {
            assert(ours[index as int] != theirs[index as int]);
            return false;
        }
        assert(ours[index as int] == theirs[index as int]);
        index = index + 1;
    }
    assert(ours =~= theirs);
    true
}

/// The directory which holds the last component of a path, spelled from its
/// components, or nothing for the root and the empty path.
pub open spec fn containing(path: Seq<u8>) -> Option<Seq<u8>> {
    if components(path).len() == 0 {
        None
    } else {
        Some(rendered(absolute(path), components(path).drop_last()))
    }
}

/// The directory which holds the last component of a path.
#[must_use]
pub fn parent(path: &UnixPath) -> (directory: Option<UnixPath>)
    ensures
        match directory {
            Some(directory) => containing(path@) == Some(directory@),
            None => containing(path@) is None,
        },
{
    let mut found = split(path);
    let ghost all = found@;
    assert(components(path@).len() == all.len());
    match found.pop() {
        Some(_) => {
            assert(name_bytes(found@) =~= components(path@).drop_last());
            Some(render(path.is_absolute(), &found))
        },
        None => None,
    }
}

/// A path below a directory; an absolute path stands for itself.
pub open spec fn below(directory: Seq<u8>, path: Seq<u8>) -> Seq<u8> {
    if absolute(path) {
        path
    } else if directory.len() == 0 || directory.last() == SEPARATOR {
        directory + path
    } else {
        directory.push(SEPARATOR) + path
    }
}

/// Join a path to a directory without touching the filesystem.
#[must_use]
pub fn join(directory: &UnixPath, path: &UnixPath) -> (location: UnixPath)
    ensures
        location@ == below(directory@, path@),
{
    if path.is_absolute() {
        return path.duplicate();
    }
    let mut bytes = copy_bytes(&directory.bytes);
    if bytes.len() > 0 && bytes[bytes.len() - 1] != SEPARATOR {
        bytes.push(SEPARATOR);
    }
    extend(&mut bytes, &path.bytes);
    UnixPath { bytes }
}

// ---------------------------------------------------------------------------
// Laws
// ---------------------------------------------------------------------------

/// A name which survives rendering: meaningful and free of separators.
pub open spec fn clean_name(name: Seq<u8>) -> bool {
    meaningful(name) && forall|i: int| 0 <= i < name.len() ==> #[trigger] name[i] != SEPARATOR
}

/// Names which survive rendering and name no parent directory.
pub open spec fn clean_names(names: Seq<Seq<u8>>) -> bool {
    forall|i: int|
        0 <= i < names.len() ==> #[trigger] clean_name(names[i]) && names[i] != parent_directory()
}

/// Segments never hold a separator.
proof fn lemma_segments_hold_no_separator(path: Seq<u8>)
    ensures
        segments(path).len() > 0,
        forall|i: int, j: int|
            0 <= i < segments(path).len() && 0 <= j < segments(path)[i].len()
                ==> #[trigger] segments(path)[i][j] != SEPARATOR,
    decreases path.len(),
{
    if path.len() > 0 {
        lemma_segments_hold_no_separator(path.drop_last());
        let before = segments(path.drop_last());
        let after = segments(path);
        assert forall|i: int, j: int|
            0 <= i < after.len() && 0 <= j < after[i].len() implies #[trigger] after[i][j]
            != SEPARATOR by {
            if path.last() == SEPARATOR {
                if i < before.len() {
                    assert(after[i] == before[i]);
                }
            } else if i < before.len() - 1 {
                assert(after[i] == before[i]);
            } else if j < before.last().len() {
                assert(after[i][j] == before.last()[j]);
                assert(before[before.len() - 1][j] != SEPARATOR);
            }
        }
    }
}

/// Every name of a path is clean, apart from parent segments.
proof fn lemma_names_are_clean(path: Seq<u8>)
    ensures
        forall|i: int| 0 <= i < names(path).len() ==> clean_name(#[trigger] names(path)[i]),
{
    let all = segments(path);
    let keep = |segment: Seq<u8>| meaningful(segment);
    lemma_segments_hold_no_separator(path);
    assert forall|i: int| 0 <= i < names(path).len() implies clean_name(
        #[trigger] names(path)[i],
    ) by {
        all.lemma_filter_contains_rev(keep, names(path)[i]);
        all.lemma_filter_pred(keep, i);
        let at = choose|k: int| 0 <= k < all.len() && all[k] == names(path)[i];
        assert forall|j: int| 0 <= j < names(path)[i].len() implies #[trigger] names(path)[i][j]
            != SEPARATOR by {
            assert(all[at][j] != SEPARATOR);
        }
    }
}

/// Collapsing clean names leaves clean names without any parent segment.
proof fn lemma_collapsed_is_clean(all: Seq<Seq<u8>>)
    requires
        forall|i: int| 0 <= i < all.len() ==> clean_name(#[trigger] all[i]),
    ensures
        clean_names(collapsed(all)),
    decreases all.len(),
{
    if all.len() > 0 {
        let before = all.drop_last();
        assert forall|i: int| 0 <= i < before.len() implies clean_name(#[trigger] before[i]) by {
            assert(before[i] == all[i]);
        }
        lemma_collapsed_is_clean(before);
        assert(clean_name(all[all.len() - 1]));
    }
}

/// Collapsing names without parent segments changes nothing.
proof fn lemma_collapse_keeps_clean_names(all: Seq<Seq<u8>>)
    requires
        clean_names(all),
    ensures
        collapsed(all) == all,
    decreases all.len(),
{
    if all.len() > 0 {
        let before = all.drop_last();
        assert forall|i: int| 0 <= i < before.len() implies #[trigger] clean_name(before[i])
            && before[i] != parent_directory() by {
            assert(clean_name(all[i]));
        }
        lemma_collapse_keeps_clean_names(before);
        assert(clean_name(all[all.len() - 1]));
        assert(collapsed(all) =~= all);
    } else {
        assert(collapsed(all) =~= all);
    }
}

/// Appending a clean name extends the last segment.
proof fn lemma_segments_extend(path: Seq<u8>, name: Seq<u8>)
    requires
        forall|i: int| 0 <= i < name.len() ==> #[trigger] name[i] != SEPARATOR,
    ensures
        segments(path).len() > 0,
        segments(path + name) == segments(path).drop_last().push(segments(path).last() + name),
    decreases name.len(),
{
    lemma_segments_hold_no_separator(path);
    let all = segments(path);
    if name.len() == 0 {
        assert(path + name =~= path);
        assert(all.last() + name =~= all.last());
        assert(all.drop_last().push(all.last()) =~= all);
    } else {
        let shorter = name.drop_last();
        assert forall|i: int| 0 <= i < shorter.len() implies #[trigger] shorter[i] != SEPARATOR by {
            assert(shorter[i] == name[i]);
        }
        lemma_segments_extend(path, shorter);
        assert((path + name).drop_last() =~= path + shorter);
        assert((path + name).last() == name.last());
        assert(name[name.len() - 1] != SEPARATOR);
        let middle = all.drop_last().push(all.last() + shorter);
        assert(middle.drop_last() =~= all.drop_last());
        assert((all.last() + shorter).push(name.last()) =~= all.last() + name);
    }
}

/// Rendering clean names and splitting the result gives the names back.
proof fn lemma_rendered_names(from_root: bool, all: Seq<Seq<u8>>)
    requires
        clean_names(all),
    ensures
        names(rendered(from_root, all)) == all,
        all.len() > 0 ==> segments(rendered(from_root, all)).last() == all.last(),
        all.len() > 0 ==> segments(rendered(from_root, all)).drop_last().filter(
            |segment: Seq<u8>| meaningful(segment),
        ) == all.drop_last(),
    decreases all.len(),
{
    reveal(Seq::filter);
    let keep = |segment: Seq<u8>| meaningful(segment);
    let prefix = if from_root {
        seq![SEPARATOR]
    } else {
        Seq::<u8>::empty()
    };
    lemma_prefix_segments(from_root);
    if all.len() == 0 {
        assert(rendered(from_root, all) =~= prefix);
        assert(names(prefix) =~= all);
    } else {
        let name = all.last();
        let before = all.drop_last();
        assert(clean_name(all[all.len() - 1]));
        assert forall|i: int| 0 <= i < before.len() implies #[trigger] clean_name(before[i])
            && before[i] != parent_directory() by {
            assert(clean_name(all[i]));
        }
        lemma_rendered_names(from_root, before);
        if all.len() == 1 {
            assert(rendered(from_root, all) =~= prefix + name);
            lemma_segments_extend(prefix, name);
            assert(segments(prefix).last() + name =~= name);
            let split = segments(prefix + name);
            assert(split.drop_last() =~= segments(prefix).drop_last());
            assert(split.drop_last().filter(keep) =~= before);
            assert(split.filter(keep) =~= all);
        } else {
            let shorter = rendered(from_root, before);
            let opened = shorter.push(SEPARATOR);
            assert(rendered(from_root, all) =~= opened + name);
            assert(opened.drop_last() =~= shorter);
            assert(segments(opened) == segments(shorter).push(Seq::empty()));
            lemma_segments_extend(opened, name);
            assert(segments(opened).drop_last() =~= segments(shorter));
            assert(segments(opened).last() + name =~= name);
            let split = segments(opened + name);
            assert(split.drop_last() =~= segments(shorter));
            assert(split.drop_last().filter(keep) == before);
            assert(split.filter(keep) =~= all);
        }
    }
}

/// Segments of an empty path and of the root.
proof fn lemma_prefix_segments(from_root: bool)
    ensures
        ({
            let prefix = if from_root {
                seq![SEPARATOR]
            } else {
                Seq::<u8>::empty()
            };
            let keep = |segment: Seq<u8>| meaningful(segment);
            &&& segments(prefix).last() == Seq::<u8>::empty()
            &&& segments(prefix).drop_last().filter(keep) == Seq::<Seq<u8>>::empty()
            &&& segments(prefix).filter(keep) == Seq::<Seq<u8>>::empty()
        }),
{
    reveal_with_fuel(Seq::filter, 4);
    reveal_with_fuel(segments, 3);
    let keep = |segment: Seq<u8>| meaningful(segment);
    if from_root {
        let prefix = seq![SEPARATOR];
        assert(prefix.drop_last() =~= Seq::empty());
        assert(segments(prefix) =~= seq![Seq::<u8>::empty(), Seq::<u8>::empty()]);
        assert(segments(prefix).drop_last() =~= seq![Seq::<u8>::empty()]);
        assert(segments(prefix).drop_last().drop_last() =~= Seq::empty());
        assert(segments(prefix).drop_last().filter(keep) =~= Seq::empty());
    } else {
        assert(segments(Seq::<u8>::empty()).drop_last() =~= Seq::empty());
    }
}

/// Resolution against an absolute base is absolute and holds neither `.` nor
/// `..`.
pub proof fn resolution_is_absolute_and_clean(base: Seq<u8>, path: Seq<u8>)
    requires
        absolute(base) || absolute(path),
    ensures
        absolute(resolved(base, path)),
        clean_names(names(resolved(base, path))),
{
    lemma_names_are_clean(base);
    lemma_names_are_clean(path);
    let all = if absolute(path) {
        names(path)
    } else {
        names(base) + names(path)
    };
    assert forall|i: int| 0 <= i < all.len() implies clean_name(#[trigger] all[i]) by {
        if !absolute(path) {
            if i < names(base).len() {
                assert(all[i] == names(base)[i]);
            } else {
                assert(all[i] == names(path)[i - names(base).len()]);
            }
        }
    }
    lemma_collapsed_is_clean(all);
    lemma_rendered_names(true, collapsed(all));
}

/// A resolved path is not changed by being resolved again, whatever the base.
pub proof fn resolution_is_idempotent(base: Seq<u8>, path: Seq<u8>, other: Seq<u8>)
    requires
        absolute(base) || absolute(path),
    ensures
        resolved(other, resolved(base, path)) == resolved(base, path),
{
    resolution_is_absolute_and_clean(base, path);
    let done = resolved(base, path);
    let all = if absolute(path) {
        names(path)
    } else {
        names(base) + names(path)
    };
    lemma_names_are_clean(base);
    lemma_names_are_clean(path);
    assert forall|i: int| 0 <= i < all.len() implies clean_name(#[trigger] all[i]) by {
        if !absolute(path) {
            if i < names(base).len() {
                assert(all[i] == names(base)[i]);
            } else {
                assert(all[i] == names(path)[i - names(base).len()]);
            }
        }
    }
    lemma_collapsed_is_clean(all);
    lemma_rendered_names(true, collapsed(all));
    lemma_collapse_keeps_clean_names(names(done));
}

/// An absolute path does not depend on what it is resolved against, and a parent segment
/// takes back exactly the name in front of it, but never leaves the root.
pub proof fn parents_take_back_one_name(
    base: Seq<u8>,
    other: Seq<u8>,
    path: Seq<u8>,
    before: Seq<Seq<u8>>,
    name: Seq<u8>,
)
    ensures
        path.len() > 0 && path[0] == 47 ==> resolved(base, path) == resolved(other, path),
        name != parent_directory() ==> collapsed(before.push(name)) == collapsed(before).push(name),
        name != parent_directory() ==> collapsed(before.push(name).push(parent_directory()))
            == collapsed(before),
        collapsed(before).len() == 0 ==> collapsed(before.push(parent_directory())).len() == 0,
{
    assert(before.push(name).drop_last() =~= before);
    assert(before.push(name).push(parent_directory()).drop_last() =~= before.push(name));
    assert(before.push(parent_directory()).drop_last() =~= before);
    if name != parent_directory() {
        assert(collapsed(before.push(name)) == collapsed(before).push(name));
        assert(collapsed(before).push(name).drop_last() =~= collapsed(before));
        assert(before.push(name).push(parent_directory()).last() == parent_directory());
        reveal_with_fuel(collapsed, 2);
    }
}

} // verus!
