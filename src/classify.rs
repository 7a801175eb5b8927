//! Character classes that do not depend on emoji data: Unicode whitespace,
//! control codepoints and the codepoints that decomposition may not emit.
use vstd::prelude::*;

verus! {

/// The Unicode `White_Space` property.
pub open spec fn white_space(c: char) -> bool {
    let v = c as u32;
    ||| 0x09 <= v <= 0x0D
    ||| v == 0x20
    ||| v == 0x85
    ||| v == 0xA0
    ||| v == 0x1680
    ||| 0x2000 <= v <= 0x200A
    ||| v == 0x2028
    ||| v == 0x2029
    ||| v == 0x202F
    ||| v == 0x205F
    ||| v == 0x3000
}

/// General category `Cc`: the C0 and C1 control codepoints and DELETE.
pub open spec fn control(c: char) -> bool {
    let v = c as u32;
    v <= 0x1F || 0x7F <= v <= 0x9F
}

/// Outside the Basic Multilingual Plane.
pub open spec fn beyond_bmp(c: char) -> bool {
    c as u32 > 0xFFFF
}

/// A codepoint that decomposition output may not contribute to the result.
pub open spec fn avoided(c: char) -> bool {
    beyond_bmp(c) || control(c)
}

/// Whether `c` has the Unicode `White_Space` property.
pub fn is_whitespace_char(c: char) -> (r: bool)
    ensures
        r == white_space(c),
{
    let v = c as u32;
    (0x09 <= v && v <= 0x0D) || v == 0x20 || v == 0x85 || v == 0xA0 || v == 0x1680 || (0x2000
        <= v && v <= 0x200A) || v == 0x2028 || v == 0x2029 || v == 0x202F || v == 0x205F || v
        == 0x3000
}

/// Whether a codepoint produced by decomposition must be dropped: it lies
/// outside the Basic Multilingual Plane or is a control codepoint.
pub fn is_char_to_avoid(c: char) -> (r: bool)
    ensures
        r == avoided(c),
{
    let v = c as u32;
    v > 0xFFFF || v <= 0x1F || (0x7F <= v && v <= 0x9F)
}

} // verus!
