//! Rules on the strings a store record holds: byte lengths, blank names,
//! and the restricted alphabet of store names.

use vstd::prelude::*;
use vstd::utf8::encode_utf8;

verus! {

/// Longest name, in bytes, of a store or of a product; also the longest
/// channel id.
pub const MAX_NAME_BYTES: usize = 32;

/// Longest free-text description of a store, in bytes.
pub const MAX_DETAILS_BYTES: usize = 128;

/// The number of bytes that `text` takes in UTF-8.
pub open spec fn byte_len(text: Seq<char>) -> nat {
    encode_utf8(text).len()
}

/// Code points with the Unicode property `White_Space`.
pub open spec fn is_white_space(c: char) -> bool {
    let u = c as u32;
    ||| 0x09 <= u <= 0x0D
    ||| u == 0x20
    ||| u == 0x85
    ||| u == 0xA0
    ||| u == 0x1680
    ||| 0x2000 <= u <= 0x200A
    ||| u == 0x2028
    ||| u == 0x2029
    ||| u == 0x202F
    ||| u == 0x205F
    ||| u == 0x3000
}

/// A text is blank when nothing is left of it once white space is trimmed
/// from both ends: every one of its characters is white space.
pub open spec fn blank(text: Seq<char>) -> bool {
    forall|i: int| 0 <= i < text.len() ==> is_white_space(#[trigger] text[i])
}

/// The alphabet of store names: lowercase ASCII letters, ASCII digits and
/// the hyphen.
pub open spec fn is_slug_char(c: char) -> bool {
    ||| 'a' <= c <= 'z'
    ||| '0' <= c <= '9'
    ||| c == '-'
}

/// A slug is written in the alphabet of store names, neither begins nor
/// ends with a hyphen, and holds no two hyphens in a row.
pub open spec fn is_slug(name: Seq<char>) -> bool {
    &&& forall|i: int| 0 <= i < name.len() ==> is_slug_char(#[trigger] name[i])
    &&& name.len() > 0 ==> name[0] != '-' && name[name.len() - 1] != '-'
    &&& forall|i: int|
        0 <= i < name.len() - 1 ==> !(#[trigger] name[i] == '-' && name[i + 1] == '-')
}

/// The length of `text` in bytes.
pub fn byte_length(text: &str) -> (n: usize)
    ensures
        n == byte_len(text@),
{
    text.as_bytes().len()
}

/// Whether `c` is white space.
pub fn white_space(c: char) -> (yes: bool)
    ensures
        yes == is_white_space(c),
{
    let u: u32 = c as u32;
    (0x09 <= u && u <= 0x0D) || u == 0x20 || u == 0x85 || u == 0xA0 || u == 0x1680 || (0x2000 <= u
        && u <= 0x200A) || u == 0x2028 || u == 0x2029 || u == 0x202F || u == 0x205F || u == 0x3000
}

/// Whether `text` is empty or made of white space only.
pub fn is_blank(text: &str) -> (yes: bool)
    ensures
        yes == blank(text@),
{
    let mut yes = true;
    for c in it: text.chars()
        invariant
            it.seq() == text@,
            yes == (forall|i: int| 0 <= i < it.index() ==> is_white_space(#[trigger] text@[i])),
    {
        if !white_space(c) {
            yes = false;
        }
    }
    yes
}

/// Whether `c` belongs to the alphabet of store names.
pub fn slug_char(c: char) -> (yes: bool)
    ensures
        yes == is_slug_char(c),
{
    ('a' <= c && c <= 'z') || ('0' <= c && c <= '9') || c == '-'
}

/// What `is_slug` asks of the first `n` characters, but for the ban on a
/// final hyphen.
spec fn is_slug_prefix(name: Seq<char>, n: int) -> bool {
    &&& forall|i: int| 0 <= i < n ==> is_slug_char(#[trigger] name[i])
    &&& n > 0 ==> name[0] != '-'
    &&& forall|i: int| 0 <= i < n - 1 ==> !(#[trigger] name[i] == '-' && name[i + 1] == '-')
}

/// Whether `name` is a slug.
pub fn slug(name: &str) -> (yes: bool)
    ensures
        yes == is_slug(name@),
{
    let mut sound = true;
    let mut after_hyphen = false;
    let mut at_start = true;
    for c in it: name.chars()
        invariant
            it.seq() == name@,
            sound == is_slug_prefix(name@, it.index() as int),
            after_hyphen == (it.index() > 0 && name@[it.index() - 1] == '-'),
            at_start == (it.index() == 0),
    {
        let hyphen = c == '-';
        if !slug_char(c) || (hyphen && after_hyphen) || (hyphen && at_start) {
            sound = false;
        }
        after_hyphen = hyphen;
        at_start = false;
    }
    sound && !after_hyphen
}

} // verus!
