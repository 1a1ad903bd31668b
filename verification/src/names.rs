//! File names: how a name divides into stem and extension, and the name
//! under which a crop is written.

use vstd::prelude::*;
use vstd::string::*;

verus! {

/// The position of the last `.` in `name`, or -1 where it holds none.
pub open spec fn last_dot(name: Seq<char>) -> int
    decreases name.len(),
{
    if name.len() == 0 {
        -1
    } else if name.last() == '.' {
        name.len() - 1
    } else {
        last_dot(name.drop_last())
    }
}

/// A name has an extension where its last `.` is not its first character:
/// a name without a `.`, and one whose only `.` leads it, has none.
pub open spec fn has_extension(name: Seq<char>) -> bool {
    last_dot(name) > 0
}

/// The stem of a file name: what stands before the last `.`, or the whole
/// name where it has no extension.
pub open spec fn stem_of(name: Seq<char>) -> Seq<char> {
    if has_extension(name) {
        name.subrange(0, last_dot(name))
    } else {
        name
    }
}

/// The extension of a file name: what stands after the last `.`, which may
/// be nothing at all, or `None` where the name has no extension.
pub open spec fn extension_of(name: Seq<char>) -> Option<Seq<char>> {
    if has_extension(name) {
        Some(name.subrange(last_dot(name) + 1, name.len() as int))
    } else {
        None
    }
}

/// What is put between the stem and the extension of a crop's file name.
pub open spec fn cropped_suffix() -> Seq<char> {
    "_cropped"@
}

/// The file name of the crop made from the file called `name`: the stem,
/// the suffix, and then the extension behind a `.` where `name` has one.
pub open spec fn cropped_name(name: Seq<char>) -> Seq<char> {
    match extension_of(name) {
        Some(ext) => stem_of(name) + cropped_suffix() + "."@ + ext,
        None => stem_of(name) + cropped_suffix(),
    }
}

/// The last `.` is where a `.` stands with none behind it; there is none
/// (-1) where no `.` stands anywhere.
pub proof fn last_dot_is_at(name: Seq<char>, at: int)
    requires
        -1 <= at < name.len(),
        at >= 0 ==> name[at] == '.',
        forall|j: int| at < j < name.len() ==> name[j] != '.',
    ensures
        last_dot(name) == at,
    decreases name.len(),
{
    if name.len() > 0 && name.last() != '.' {
        last_dot_is_at(name.drop_last(), at);
    }
}

/// Finds the last `.` of `name`.
fn find_last_dot(name: &str) -> (found: Option<usize>)
    ensures
        match found {
            Some(at) => at < name@.len() && last_dot(name@) == at,
            None => last_dot(name@) == -1,
        },
{
    let len: usize = name.unicode_len();
    let mut end: usize = len;
    while end > 0
        invariant
            end <= len,
            len == name@.len(),
            forall|j: int| end <= j < len ==> name@[j] != '.',
        decreases end,
    {
        if name.get_char(end - 1) == '.' {
            proof {
                last_dot_is_at(name@, end - 1);
            }
            return Some(end - 1);
        }
        end -= 1;
    }
    proof {
        last_dot_is_at(name@, -1);
    }
    None
}

/// Divides a file name into its stem and its extension.
pub fn split_file_name<'a>(name: &'a str) -> (parts: (&'a str, Option<&'a str>))
    ensures
        parts.0@ == stem_of(name@),
        parts.1 is Some == has_extension(name@),
        match parts.1 {
            Some(ext) => extension_of(name@) == Some(ext@),
            None => extension_of(name@) is None,
        },
{
    match find_last_dot(name) {
        Some(at) => {
            if at > 0 {
                let len: usize = name.unicode_len();
                (name.substring_char(0, at), Some(name.substring_char(at + 1, len)))
            } else {
                (name, None)
            }
        },
        None => (name, None),
    }
}

/// Builds the file name under which the crop of the file called `name` is
/// written: `_cropped` goes between the stem and the extension.
pub fn cropped_file_name(name: &str) -> (out: String)
    ensures
        out@ == cropped_name(name@),
{
    let (stem, extension) = split_file_name(name);
    let mut out = String::from_str(stem);
    out.append("_cropped");
    match extension {
        Some(ext) => {
            out.append(".");
            out.append(ext);
        },
        None => {},
    }
    out
}

} // verus!
