//! Character classes of the command grammar.
//!
//! A command argument is scanned character by character; these classes
//! decide which characters a place name, a postal code, or a nickname
//! token may contain.

use vstd::prelude::*;

verus! {

/// Whitespace as the command grammar understands it: the Unicode
/// `White_Space` characters.
pub open spec fn spec_space_char(c: char) -> bool {
    ||| (0x09 <= c as u32 && c as u32 <= 0x0D)
    ||| c == ' '
    ||| c as u32 == 0x85
    ||| c as u32 == 0xA0
    ||| c as u32 == 0x1680
    ||| (0x2000 <= c as u32 && c as u32 <= 0x200A)
    ||| c as u32 == 0x2028
    ||| c as u32 == 0x2029
    ||| c as u32 == 0x202F
    ||| c as u32 == 0x205F
    ||| c as u32 == 0x3000
}

/// A decimal digit of a postal code.
pub open spec fn spec_digit_char(c: char) -> bool {
    '0' <= c && c <= '9'
}

/// A character a place-name argument may contain: an ASCII letter, a
/// comma, or whitespace.
pub open spec fn spec_place_char(c: char) -> bool {
    ||| ('a' <= c && c <= 'z')
    ||| ('A' <= c && c <= 'Z')
    ||| c == ','
    ||| spec_space_char(c)
}

/// A character a nickname token may contain: anything that is neither a
/// digit nor whitespace.
pub open spec fn spec_token_char(c: char) -> bool {
    !spec_digit_char(c) && !spec_space_char(c)
}

pub fn is_space_char(c: char) -> (r: bool)
    ensures
        r == spec_space_char(c),
{
    let u = c as u32;
    (0x09 <= u && u <= 0x0D) || u == 0x20 || u == 0x85 || u == 0xA0 || u == 0x1680 || (0x2000 <= u
        && u <= 0x200A) || u == 0x2028 || u == 0x2029 || u == 0x202F || u == 0x205F || u == 0x3000
}

pub fn is_digit_char(c: char) -> (r: bool)
    ensures
        r == spec_digit_char(c),
{
    '0' <= c && c <= '9'
}

pub fn is_place_char(c: char) -> (r: bool)
    ensures
        r == spec_place_char(c),
{
    ('a' <= c && c <= 'z') || ('A' <= c && c <= 'Z') || c == ',' || is_space_char(c)
}

pub fn is_token_char(c: char) -> (r: bool)
    ensures
        r == spec_token_char(c),
{
    !is_digit_char(c) && !is_space_char(c)
}

} // verus!
