use vstd::prelude::*;

verus! {

/// Relies on encoding8's `ascii::is_printable`: true exactly for bytes
/// that are not ASCII control characters (below 32) and not DEL (127).
pub assume_specification[ encoding8::ascii::is_printable ](b: u8) -> (r: bool)
    ensures
        r == !(b < 32 || b == 127),
;

/// Whether a raw key code fits in a byte.
pub fn within_u8_range(ch: i32) -> (r: bool)
    ensures
        r == (0 <= ch <= 255),
{
    ch >= 0 && ch <= 255
}

/// A raw key code clamped to the byte range.
pub open spec fn spec_clamp_u8(ch: int) -> int {
    if ch < 0 {
        0
    } else if ch > 255 {
        255
    } else {
        ch
    }
}

/// A raw key code as a byte, clamped to the byte range.
pub fn key_to_u8(ch: i32) -> (r: u8)
    ensures
        r as int == spec_clamp_u8(ch as int),
{
    if ch < 0 {
        0
    } else if ch > 255 {
        255
    } else {
        ch as u8
    }
}

/// A raw key code as a character, clamped to the byte range.
pub fn key_to_char(ch: i32) -> (r: char)
    ensures
        r as int == spec_clamp_u8(ch as int),
{
    key_to_u8(ch) as char
}

/// The printable character a raw key code denotes, if any: the code must
/// fit in a byte and be a printable ASCII byte.
pub fn decode_printable(ch: i32) -> (r: Option<char>)
    ensures
        (r is Some) == (32 <= ch <= 255 && ch != 127),
        r matches Some(c) ==> c as int == ch as int,
{
    if within_u8_range(ch) && encoding8::ascii::is_printable(key_to_u8(ch)) {
        Some(key_to_char(ch))
    } else {
        None
    }
}

} // verus!
