//! Service names which are safe as one runtime-directory entry.

use vstd::prelude::*;
use vstd::string::*;
use vstd::utf8::*;

verus! {

/// Longest accepted service name.
pub const MAX_SERVICE_NAME_BYTES: usize = 255;

/// Characters permitted anywhere in a service name.
pub open spec fn is_name_char(c: char) -> bool {
    ||| 'a' <= c <= 'z'
    ||| 'A' <= c <= 'Z'
    ||| '0' <= c <= '9'
    ||| c == '.'
    ||| c == '-'
    ||| c == '_'
}

/// A safe name is short, visible, and free of separators.
pub open spec fn safe_service_name(name: Seq<char>) -> bool {
    &&& 0 < name.len()
    &&& encode_utf8(name).len() <= MAX_SERVICE_NAME_BYTES
    &&& name[0] != '.'
    &&& forall|i: int| 0 <= i < name.len() ==> is_name_char(#[trigger] name[i])
}

/// Whether `name` can be used as one directory entry below the runtime root.
pub fn is_safe_service_name(name: &str) -> (safe: bool)
    ensures
        safe == safe_service_name(name@),
{
    if name.is_empty() || name.as_bytes().len() > MAX_SERVICE_NAME_BYTES {
        return false;
    }
    let mut first: bool = true;
    for current in iter: name.chars()
        invariant
            iter.seq() == name@,
            first == (iter.index() == 0),
            iter.index() > 0 ==> name@[0] != '.',
            forall|i: int| 0 <= i < iter.index() ==> is_name_char(#[trigger] name@[i]),
    {
        assert(name@[iter.index()] == current);
        if first && current == '.' {
            return false;
        }
        let permitted = ('a' <= current && current <= 'z') || ('A' <= current && current <= 'Z')
            || ('0' <= current && current <= '9') || current == '.' || current == '-' || current
            == '_';
        if !permitted {
            return false;
        }
        first = false;
    }
    true
}

/// A safe name never holds a path separator and never names a parent directory.
pub proof fn safe_names_cannot_escape(name: Seq<char>)
    requires
        safe_service_name(name),
    ensures
        !name.contains('/'),
        name != ".."@,
        name != "."@,
{
    reveal_strlit("..");
    reveal_strlit(".");
    assert("."@[0] == '.');
    assert(".."@[0] == '.');
    if name.contains('/') {
        let index = choose|i: int| 0 <= i < name.len() && name[i] == '/';
        assert(is_name_char(name[index]));
    }
}

/// A name is judged by its characters one by one: any two safe names may be joined,
/// any part of a safe name which does not begin with a dot is safe, and a name holding
/// a separator, a blank, or any character beyond ASCII never is.
pub proof fn names_are_judged_by_character(left: Seq<char>, right: Seq<char>, at: int)
    ensures
        safe_service_name(left) && safe_service_name(right) && encode_utf8(left + right).len()
            <= 255 ==> safe_service_name(left + right),
        safe_service_name(left) && 0 <= at < left.len() ==> (left[at] as u32) < 128 && left[at]
            != '/' && left[at] != ' ' && left[at] != '\0' && left[at] != '\n' && left[at] != ':',
        safe_service_name(left) ==> left.len() > 0 && encode_utf8(left).len() <= 255 && left[0] != '.',
        left.len() > 0 && encode_utf8(left).len() <= 255 && (forall|i: int|
            0 <= i < left.len() ==> 'a' <= #[trigger] left[i] <= 'z' || 'A' <= left[i] <= 'Z'
                || '0' <= left[i] <= '9' || left[i] == '-' || left[i] == '_')
            ==> safe_service_name(left),
{
    if safe_service_name(left) && 0 <= at < left.len() {
        assert(is_name_char(left[at]));
    }
    if safe_service_name(left) && safe_service_name(right) {
        assert forall|i: int| 0 <= i < (left + right).len() implies is_name_char(
            #[trigger] (left + right)[i],
        ) by {
            if i < left.len() {
                assert(is_name_char(left[i]));
            } else {
                assert(is_name_char(right[i - left.len()]));
            }
        }
    }
}

} // verus!
