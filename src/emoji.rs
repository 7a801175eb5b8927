//! Emoji classification: the Unicode 16.0 `Emoji_Presentation`,
//! `Emoji_Modifier` and `Emoji_Modifier_Base` properties, plus the codepoints
//! that only occur inside emoji sequences (variation selectors and enclosing
//! keycap marks).
use vstd::prelude::*;

verus! {

/// Codepoints with the `Emoji_Presentation` property.
pub open spec fn emoji_presentation(v: u32) -> bool {
    ||| 0x231A <= v <= 0x231B
    ||| 0x23E9 <= v <= 0x23EC
    ||| v == 0x23F0
    ||| v == 0x23F3
    ||| 0x25FD <= v <= 0x25FE
    ||| 0x2614 <= v <= 0x2615
    ||| 0x2648 <= v <= 0x2653
    ||| v == 0x267F
    ||| v == 0x2693
    ||| v == 0x26A1
    ||| 0x26AA <= v <= 0x26AB
    ||| 0x26BD <= v <= 0x26BE
    ||| 0x26C4 <= v <= 0x26C5
    ||| v == 0x26CE
    ||| v == 0x26D4
    ||| v == 0x26EA
    ||| 0x26F2 <= v <= 0x26F3
    ||| v == 0x26F5
    ||| v == 0x26FA
    ||| v == 0x26FD
    ||| v == 0x2705
    ||| 0x270A <= v <= 0x270B
    ||| v == 0x2728
    ||| v == 0x274C
    ||| v == 0x274E
    ||| 0x2753 <= v <= 0x2755
    ||| v == 0x2757
    ||| 0x2795 <= v <= 0x2797
    ||| v == 0x27B0
    ||| v == 0x27BF
    ||| 0x2B1B <= v <= 0x2B1C
    ||| v == 0x2B50
    ||| v == 0x2B55
    ||| v == 0x1F004
    ||| v == 0x1F0CF
    ||| v == 0x1F18E
    ||| 0x1F191 <= v <= 0x1F19A
    ||| 0x1F1E6 <= v <= 0x1F1FF
    ||| v == 0x1F201
    ||| v == 0x1F21A
    ||| v == 0x1F22F
    ||| 0x1F232 <= v <= 0x1F236
    ||| 0x1F238 <= v <= 0x1F23A
    ||| 0x1F250 <= v <= 0x1F251
    ||| 0x1F300 <= v <= 0x1F320
    ||| 0x1F32D <= v <= 0x1F335
    ||| 0x1F337 <= v <= 0x1F37C
    ||| 0x1F37E <= v <= 0x1F393
    ||| 0x1F3A0 <= v <= 0x1F3CA
    ||| 0x1F3CF <= v <= 0x1F3D3
    ||| 0x1F3E0 <= v <= 0x1F3F0
    ||| v == 0x1F3F4
    ||| 0x1F3F8 <= v <= 0x1F43E
    ||| v == 0x1F440
    ||| 0x1F442 <= v <= 0x1F4FC
    ||| 0x1F4FF <= v <= 0x1F53D
    ||| 0x1F54B <= v <= 0x1F54E
    ||| 0x1F550 <= v <= 0x1F567
    ||| v == 0x1F57A
    ||| 0x1F595 <= v <= 0x1F596
    ||| v == 0x1F5A4
    ||| 0x1F5FB <= v <= 0x1F64F
    ||| 0x1F680 <= v <= 0x1F6C5
    ||| v == 0x1F6CC
    ||| 0x1F6D0 <= v <= 0x1F6D2
    ||| 0x1F6D5 <= v <= 0x1F6D7
    ||| 0x1F6DC <= v <= 0x1F6DF
    ||| 0x1F6EB <= v <= 0x1F6EC
    ||| 0x1F6F4 <= v <= 0x1F6FC
    ||| 0x1F7E0 <= v <= 0x1F7EB
    ||| v == 0x1F7F0
    ||| 0x1F90C <= v <= 0x1F93A
    ||| 0x1F93C <= v <= 0x1F945
    ||| 0x1F947 <= v <= 0x1F9FF
    ||| 0x1FA70 <= v <= 0x1FA7C
    ||| 0x1FA80 <= v <= 0x1FA89
    ||| 0x1FA8F <= v <= 0x1FAC6
    ||| 0x1FACE <= v <= 0x1FADC
    ||| 0x1FADF <= v <= 0x1FAE9
    ||| 0x1FAF0 <= v <= 0x1FAF8
}

/// Codepoints with the `Emoji_Modifier` property (the skin tones).
pub open spec fn emoji_modifier(v: u32) -> bool {
    ||| 0x1F3FB <= v <= 0x1F3FF
}

/// Codepoints with the `Emoji_Modifier_Base` property.
pub open spec fn emoji_modifier_base(v: u32) -> bool {
    ||| v == 0x261D
    ||| v == 0x26F9
    ||| 0x270A <= v <= 0x270D
    ||| v == 0x1F385
    ||| 0x1F3C2 <= v <= 0x1F3C4
    ||| v == 0x1F3C7
    ||| 0x1F3CA <= v <= 0x1F3CC
    ||| 0x1F442 <= v <= 0x1F443
    ||| 0x1F446 <= v <= 0x1F450
    ||| 0x1F466 <= v <= 0x1F478
    ||| v == 0x1F47C
    ||| 0x1F481 <= v <= 0x1F483
    ||| 0x1F485 <= v <= 0x1F487
    ||| v == 0x1F48F
    ||| v == 0x1F491
    ||| v == 0x1F4AA
    ||| 0x1F574 <= v <= 0x1F575
    ||| v == 0x1F57A
    ||| v == 0x1F590
    ||| 0x1F595 <= v <= 0x1F596
    ||| 0x1F645 <= v <= 0x1F647
    ||| 0x1F64B <= v <= 0x1F64F
    ||| v == 0x1F6A3
    ||| 0x1F6B4 <= v <= 0x1F6B6
    ||| v == 0x1F6C0
    ||| v == 0x1F6CC
    ||| v == 0x1F90C
    ||| v == 0x1F90F
    ||| 0x1F918 <= v <= 0x1F91F
    ||| v == 0x1F926
    ||| 0x1F930 <= v <= 0x1F939
    ||| 0x1F93C <= v <= 0x1F93E
    ||| v == 0x1F977
    ||| 0x1F9B5 <= v <= 0x1F9B6
    ||| 0x1F9B8 <= v <= 0x1F9B9
    ||| v == 0x1F9BB
    ||| 0x1F9CD <= v <= 0x1F9CF
    ||| 0x1F9D1 <= v <= 0x1F9DD
    ||| 0x1FAC3 <= v <= 0x1FAC5
    ||| 0x1FAF0 <= v <= 0x1FAF8
}

/// Codepoints that only serve inside emoji sequences: the combining enclosing
/// keycap and circle marks and the text/emoji variation selectors.
pub open spec fn emoji_adjacent(v: u32) -> bool {
    ||| 0x20E2 <= v <= 0x20E4
    ||| 0xFE0E <= v <= 0xFE0F
}

/// The emoji detector's predicate on one character.
pub open spec fn emoji(c: char) -> bool {
    let v = c as u32;
    emoji_presentation(v) || emoji_modifier(v) || emoji_modifier_base(v) || emoji_adjacent(v)
}

/// Range lookup for `emoji_presentation`.
fn in_presentation_table(v: u32) -> (r: bool)
    ensures
        r == emoji_presentation(v),
{
    (0x231A <= v && v <= 0x231B)
        || (0x23E9 <= v && v <= 0x23EC)
        || v == 0x23F0
        || v == 0x23F3
        || (0x25FD <= v && v <= 0x25FE)
        || (0x2614 <= v && v <= 0x2615)
        || (0x2648 <= v && v <= 0x2653)
        || v == 0x267F
        || v == 0x2693
        || v == 0x26A1
        || (0x26AA <= v && v <= 0x26AB)
        || (0x26BD <= v && v <= 0x26BE)
        || (0x26C4 <= v && v <= 0x26C5)
        || v == 0x26CE
        || v == 0x26D4
        || v == 0x26EA
        || (0x26F2 <= v && v <= 0x26F3)
        || v == 0x26F5
        || v == 0x26FA
        || v == 0x26FD
        || v == 0x2705
        || (0x270A <= v && v <= 0x270B)
        || v == 0x2728
        || v == 0x274C
        || v == 0x274E
        || (0x2753 <= v && v <= 0x2755)
        || v == 0x2757
        || (0x2795 <= v && v <= 0x2797)
        || v == 0x27B0
        || v == 0x27BF
        || (0x2B1B <= v && v <= 0x2B1C)
        || v == 0x2B50
        || v == 0x2B55
        || v == 0x1F004
        || v == 0x1F0CF
        || v == 0x1F18E
        || (0x1F191 <= v && v <= 0x1F19A)
        || (0x1F1E6 <= v && v <= 0x1F1FF)
        || v == 0x1F201
        || v == 0x1F21A
        || v == 0x1F22F
        || (0x1F232 <= v && v <= 0x1F236)
        || (0x1F238 <= v && v <= 0x1F23A)
        || (0x1F250 <= v && v <= 0x1F251)
        || (0x1F300 <= v && v <= 0x1F320)
        || (0x1F32D <= v && v <= 0x1F335)
        || (0x1F337 <= v && v <= 0x1F37C)
        || (0x1F37E <= v && v <= 0x1F393)
        || (0x1F3A0 <= v && v <= 0x1F3CA)
        || (0x1F3CF <= v && v <= 0x1F3D3)
        || (0x1F3E0 <= v && v <= 0x1F3F0)
        || v == 0x1F3F4
        || (0x1F3F8 <= v && v <= 0x1F43E)
        || v == 0x1F440
        || (0x1F442 <= v && v <= 0x1F4FC)
        || (0x1F4FF <= v && v <= 0x1F53D)
        || (0x1F54B <= v && v <= 0x1F54E)
        || (0x1F550 <= v && v <= 0x1F567)
        || v == 0x1F57A
        || (0x1F595 <= v && v <= 0x1F596)
        || v == 0x1F5A4
        || (0x1F5FB <= v && v <= 0x1F64F)
        || (0x1F680 <= v && v <= 0x1F6C5)
        || v == 0x1F6CC
        || (0x1F6D0 <= v && v <= 0x1F6D2)
        || (0x1F6D5 <= v && v <= 0x1F6D7)
        || (0x1F6DC <= v && v <= 0x1F6DF)
        || (0x1F6EB <= v && v <= 0x1F6EC)
        || (0x1F6F4 <= v && v <= 0x1F6FC)
        || (0x1F7E0 <= v && v <= 0x1F7EB)
        || v == 0x1F7F0
        || (0x1F90C <= v && v <= 0x1F93A)
        || (0x1F93C <= v && v <= 0x1F945)
        || (0x1F947 <= v && v <= 0x1F9FF)
        || (0x1FA70 <= v && v <= 0x1FA7C)
        || (0x1FA80 <= v && v <= 0x1FA89)
        || (0x1FA8F <= v && v <= 0x1FAC6)
        || (0x1FACE <= v && v <= 0x1FADC)
        || (0x1FADF <= v && v <= 0x1FAE9)
        || (0x1FAF0 <= v && v <= 0x1FAF8)
}

/// Range lookup for `emoji_modifier`.
fn in_modifier_table(v: u32) -> (r: bool)
    ensures
        r == emoji_modifier(v),
{
    (0x1F3FB <= v && v <= 0x1F3FF)
}

/// Range lookup for `emoji_modifier_base`.
fn in_modifier_base_table(v: u32) -> (r: bool)
    ensures
        r == emoji_modifier_base(v),
{
    v == 0x261D
        || v == 0x26F9
        || (0x270A <= v && v <= 0x270D)
        || v == 0x1F385
        || (0x1F3C2 <= v && v <= 0x1F3C4)
        || v == 0x1F3C7
        || (0x1F3CA <= v && v <= 0x1F3CC)
        || (0x1F442 <= v && v <= 0x1F443)
        || (0x1F446 <= v && v <= 0x1F450)
        || (0x1F466 <= v && v <= 0x1F478)
        || v == 0x1F47C
        || (0x1F481 <= v && v <= 0x1F483)
        || (0x1F485 <= v && v <= 0x1F487)
        || v == 0x1F48F
        || v == 0x1F491
        || v == 0x1F4AA
        || (0x1F574 <= v && v <= 0x1F575)
        || v == 0x1F57A
        || v == 0x1F590
        || (0x1F595 <= v && v <= 0x1F596)
        || (0x1F645 <= v && v <= 0x1F647)
        || (0x1F64B <= v && v <= 0x1F64F)
        || v == 0x1F6A3
        || (0x1F6B4 <= v && v <= 0x1F6B6)
        || v == 0x1F6C0
        || v == 0x1F6CC
        || v == 0x1F90C
        || v == 0x1F90F
        || (0x1F918 <= v && v <= 0x1F91F)
        || v == 0x1F926
        || (0x1F930 <= v && v <= 0x1F939)
        || (0x1F93C <= v && v <= 0x1F93E)
        || v == 0x1F977
        || (0x1F9B5 <= v && v <= 0x1F9B6)
        || (0x1F9B8 <= v && v <= 0x1F9B9)
        || v == 0x1F9BB
        || (0x1F9CD <= v && v <= 0x1F9CF)
        || (0x1F9D1 <= v && v <= 0x1F9DD)
        || (0x1FAC3 <= v && v <= 0x1FAC5)
        || (0x1FAF0 <= v && v <= 0x1FAF8)
}

/// Range lookup for `emoji_adjacent`.
fn in_adjacent_table(v: u32) -> (r: bool)
    ensures
        r == emoji_adjacent(v),
{
    (0x20E2 <= v && v <= 0x20E4)
        || (0xFE0E <= v && v <= 0xFE0F)
}

/// Whether `c` is an emoji presentation character, an emoji modifier or
/// modifier base, or an emoji-adjacent control codepoint.
pub fn is_emoji(c: char) -> (r: bool)
    ensures
        r == emoji(c),
{
    let v = c as u32;
    // Nothing below the enclosing marks is emoji: Latin, Greek, Cyrillic and
    // most other scripts are answered here.
    if v < 0x20E2 {
        return false;
    }
    in_presentation_table(v) || in_modifier_table(v) || in_modifier_base_table(v)
        || in_adjacent_table(v)
}

} // verus!
