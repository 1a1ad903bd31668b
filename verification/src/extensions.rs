//! Which file extensions name an image that can be read.

use vstd::prelude::*;
use vstd::string::*;

verus! {

/// An ASCII capital letter as its small letter; every other character as
/// itself.
pub open spec fn ascii_lower(c: char) -> char {
    if 'A' <= c <= 'Z' {
        ((c as int) + 32) as char
    } else {
        c
    }
}

/// Two texts are the same but for the case of their ASCII letters.
pub open spec fn same_ignoring_case(text: Seq<char>, word: Seq<char>) -> bool {
    &&& text.len() == word.len()
    &&& forall|i: int| 0 <= i < text.len() ==> ascii_lower(#[trigger] text[i]) == ascii_lower(word[i])
}

/// An extension is supported where it is one of `jpg`, `jpeg`, `png`,
/// `bmp`, `tif`, `tiff` and `webp`, in capital or small letters.
pub open spec fn supported_extension(ext: Seq<char>) -> bool {
    ||| same_ignoring_case(ext, "jpg"@)
    ||| same_ignoring_case(ext, "jpeg"@)
    ||| same_ignoring_case(ext, "png"@)
    ||| same_ignoring_case(ext, "bmp"@)
    ||| same_ignoring_case(ext, "tif"@)
    ||| same_ignoring_case(ext, "tiff"@)
    ||| same_ignoring_case(ext, "webp"@)
}

/// Turns an ASCII capital letter into its small letter.
fn lower(c: char) -> (out: char)
    ensures
        out == ascii_lower(c),
{
    if 'A' <= c && c <= 'Z' {
        ((c as u8) + 32) as char
    } else {
        c
    }
}

/// Compares two texts without regard to the case of their ASCII letters.
pub fn matches_ignoring_case(text: &str, word: &str) -> (same: bool)
    ensures
        same == same_ignoring_case(text@, word@),
{
    let len: usize = text.unicode_len();
    if word.unicode_len() != len {
        return false;
    }
    let mut at: usize = 0;
    while at < len
        invariant
            at <= len,
            len == text@.len(),
            len == word@.len(),
            forall|i: int| 0 <= i < at ==> ascii_lower(#[trigger] text@[i]) == ascii_lower(word@[i]),
        decreases len - at,
    {
        if lower(text.get_char(at)) != lower(word.get_char(at)) {
            return false;
        }
        at += 1;
    }
    true
}

/// Says whether files with the extension `ext` are taken for images.
pub fn is_supported_extension(ext: &str) -> (supported: bool)
    ensures
        supported == supported_extension(ext@),
{
    matches_ignoring_case(ext, "jpg") || matches_ignoring_case(ext, "jpeg")
        || matches_ignoring_case(ext, "png") || matches_ignoring_case(ext, "bmp")
        || matches_ignoring_case(ext, "tif") || matches_ignoring_case(ext, "tiff")
        || matches_ignoring_case(ext, "webp")
}

} // verus!
