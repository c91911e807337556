//! Classification of single code points as emoji-like.
use vstd::prelude::*;

verus! {

/// The block ranges that are treated as emoji-related, all bounds inclusive.
pub open spec fn in_emoji_blocks(code: u32) -> bool {
    ||| 0x1F300 <= code <= 0x1F5FF
    ||| 0x1F900 <= code <= 0x1F9FF
    ||| 0x1F600 <= code <= 0x1F64F
    ||| 0x1F680 <= code <= 0x1F6FF
    ||| 0x2600 <= code <= 0x26FF
    ||| 0x2700 <= code <= 0x27BF
    ||| 0x1F100 <= code <= 0x1F1FF
    ||| 0x1F200 <= code <= 0x1F2FF
    ||| 0x1F780 <= code <= 0x1F7FF
    ||| 0x1FA00 <= code <= 0x1FA6F
    ||| 0x1FA70 <= code <= 0x1FAFF
    ||| 0x1F1E6 <= code <= 0x1F1FF
    ||| code == 0x20E3
    ||| code == 0x200D
    ||| 0xFE00 <= code <= 0xFE0F
    ||| 0x1F3FB <= code <= 0x1F3FF
}

/// Assorted pictographs outside the blocks above that are commonly shown as emoji.
pub open spec fn in_extra_pictographs(code: u32) -> bool {
    ||| 0x231A <= code <= 0x231B
    ||| 0x23E9 <= code <= 0x23EC
    ||| code == 0x23F0
    ||| code == 0x23F3
    ||| 0x25FD <= code <= 0x25FE
    ||| 0x2614 <= code <= 0x2615
    ||| 0x2648 <= code <= 0x2653
    ||| code == 0x267F
    ||| code == 0x2693
    ||| code == 0x26A1
    ||| 0x26AA <= code <= 0x26AB
    ||| 0x26BD <= code <= 0x26BE
    ||| 0x26C4 <= code <= 0x26C5
    ||| code == 0x26CE
    ||| code == 0x26D4
    ||| code == 0x26EA
    ||| 0x26F2 <= code <= 0x26F3
    ||| code == 0x26F5
    ||| code == 0x26FA
    ||| code == 0x26FD
    ||| code == 0x2705
    ||| code == 0x2728
    ||| code == 0x274C
    ||| code == 0x274E
    ||| 0x2753 <= code <= 0x2755
    ||| 0x2795 <= code <= 0x2797
    ||| code == 0x27B0
    ||| code == 0x27BF
    ||| code == 0x2B50
    ||| code == 0x2B55
    ||| code == 0x00A9
    ||| code == 0x00AE
    ||| code == 0x2122
    ||| code == 0x3030
    ||| code == 0x303D
}

/// A code point is emoji-like when it lies in one of the designated blocks or
/// is one of the listed pictographs.
pub open spec fn emoji_code(code: u32) -> bool {
    in_emoji_blocks(code) || in_extra_pictographs(code)
}

/// The classification of a character, by its scalar value.
pub open spec fn emoji_char(c: char) -> bool {
    emoji_code(c as u32)
}

fn in_range(code: u32, lo: u32, hi: u32) -> (r: bool)
    ensures
        r == (lo <= code <= hi),
{
    lo <= code && code <= hi
}

fn check_blocks(code: u32) -> (r: bool)
    ensures
        r == in_emoji_blocks(code),
{
    in_range(code, 0x1F300, 0x1F5FF)
        || in_range(code, 0x1F900, 0x1F9FF)
        || in_range(code, 0x1F600, 0x1F64F)
        || in_range(code, 0x1F680, 0x1F6FF)
        || in_range(code, 0x2600, 0x26FF)
        || in_range(code, 0x2700, 0x27BF)
        || in_range(code, 0x1F100, 0x1F1FF)
        || in_range(code, 0x1F200, 0x1F2FF)
        || in_range(code, 0x1F780, 0x1F7FF)
        || in_range(code, 0x1FA00, 0x1FA6F)
        || in_range(code, 0x1FA70, 0x1FAFF)
        || in_range(code, 0x1F1E6, 0x1F1FF)
        || code == 0x20E3
        || code == 0x200D
        || in_range(code, 0xFE00, 0xFE0F)
        || in_range(code, 0x1F3FB, 0x1F3FF)
}

fn check_extra(code: u32) -> (r: bool)
    ensures
        r == in_extra_pictographs(code),
{
    matches!(code, 0x231A..=0x231B | 0x23E9..=0x23EC | 0x23F0 | 0x23F3
        | 0x25FD..=0x25FE | 0x2614..=0x2615 | 0x2648..=0x2653 | 0x267F
        | 0x2693 | 0x26A1 | 0x26AA..=0x26AB | 0x26BD..=0x26BE | 0x26C4..=0x26C5
        | 0x26CE | 0x26D4 | 0x26EA | 0x26F2..=0x26F3 | 0x26F5 | 0x26FA
        | 0x26FD | 0x2705 | 0x2728 | 0x274C | 0x274E | 0x2753..=0x2755
        | 0x2795..=0x2797 | 0x27B0 | 0x27BF | 0x2B50 | 0x2B55 | 0x00A9 | 0x00AE
        | 0x2122 | 0x3030 | 0x303D)
}

/// Whether `c` is an emoji-like code point. Total over all characters.
pub fn is_emoji(c: char) -> (r: bool)
    ensures
        r == emoji_char(c),
{
    let code = c as u32;
    check_blocks(code) || check_extra(code)
}

} // verus!
