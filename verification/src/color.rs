//! Flat colors.
//!
//! The demos use two color forms: byte-valued RGB parsed from a 6-digit hex
//! string (the window clear color), and fractional channel intensities for
//! the flat fill materials, stored here exactly as thousandths.

use vstd::prelude::*;

verus! {

/// A byte-valued RGB color, as parsed from a hex string.
#[derive(Clone, Copy, Debug, PartialEq, Eq)]
pub struct Rgb {
    pub red: u8,
    pub green: u8,
    pub blue: u8,
}

/// A flat fill color with channel intensities in thousandths
/// (1000 = full intensity).
#[derive(Clone, Copy, Debug, PartialEq, Eq)]
pub struct Color {
    pub red_milli: u16,
    pub green_milli: u16,
    pub blue_milli: u16,
}

/// Every channel intensity is at most full.
pub open spec fn color_wf(c: Color) -> bool {
    c.red_milli <= 1000 && c.green_milli <= 1000 && c.blue_milli <= 1000
}

impl Color {
    /// A flat color from channel intensities in thousandths.
    pub fn rgb_milli(red_milli: u16, green_milli: u16, blue_milli: u16) -> (c: Color)
        requires
            red_milli <= 1000,
            green_milli <= 1000,
            blue_milli <= 1000,
        ensures
            c == (Color { red_milli, green_milli, blue_milli }),
            color_wf(c),
    {
        Color { red_milli, green_milli, blue_milli }
    }
}

/// The character is one of `0-9`, `a-f`, `A-F`.
pub open spec fn is_hex_digit(c: char) -> bool {
    ||| '0' as int <= c as int <= '9' as int
    ||| 'a' as int <= c as int <= 'f' as int
    ||| 'A' as int <= c as int <= 'F' as int
}

/// The numeric value of a hex digit character.
pub open spec fn hex_digit_value(c: char) -> int {
    if '0' as int <= c as int <= '9' as int {
        c as int - '0' as int
    } else if 'a' as int <= c as int <= 'f' as int {
        c as int - 'a' as int + 10
    } else {
        c as int - 'A' as int + 10
    }
}

/// The string is exactly six hex digits.
pub open spec fn valid_hex_rgb(s: Seq<char>) -> bool {
    s.len() == 6 && (forall|i: int| 0 <= i < 6 ==> is_hex_digit(#[trigger] s[i]))
}

/// The byte encoded by hex digits `2 * i` and `2 * i + 1`.
pub open spec fn hex_byte_at(s: Seq<char>, i: int) -> int {
    16 * hex_digit_value(s[2 * i]) + hex_digit_value(s[2 * i + 1])
}

/// The value of a single hex digit character, or `None` if it is not one.
fn hex_digit(c: char) -> (r: Option<u8>)
    ensures
        match r {
            Some(v) => is_hex_digit(c) && v == hex_digit_value(c) && v <= 15,
            None => !is_hex_digit(c),
        },
{
    let u = c as u32;
    if 48 <= u && u <= 57 {
        Some((u - 48) as u8)
    } else if 97 <= u && u <= 102 {
        Some((u - 97 + 10) as u8)
    } else if 65 <= u && u <= 70 {
        Some((u - 65 + 10) as u8)
    } else {
        None
    }
}

/// Parses a color from a string of exactly six hex digits, two per channel.
/// Returns `None` exactly on strings of any other shape.
pub fn hex(s: &str) -> (r: Option<Rgb>)
    ensures
        match r {
            Some(c) => {
                &&& valid_hex_rgb(s@)
                &&& c.red == hex_byte_at(s@, 0)
                &&& c.green == hex_byte_at(s@, 1)
                &&& c.blue == hex_byte_at(s@, 2)
            },
            None => !valid_hex_rgb(s@),
        },
{
    if s.unicode_len() != 6 {
        return None;
    }
    let v0 = match hex_digit(s.get_char(0)) {
        Some(v) => v,
        None => {
            return None;
        },
    };
    let v1 = match hex_digit(s.get_char(1)) {
        Some(v) => v,
        None => {
            return None;
        },
    };
    let v2 = match hex_digit(s.get_char(2)) {
        Some(v) => v,
        None => {
            return None;
        },
    };
    let v3 = match hex_digit(s.get_char(3)) {
        Some(v) => v,
        None => {
            return None;
        },
    };
    let v4 = match hex_digit(s.get_char(4)) {
        Some(v) => v,
        None => {
            return None;
        },
    };
    let v5 = match hex_digit(s.get_char(5)) {
        Some(v) => v,
        None => {
            return None;
        },
    };
    Some(Rgb { red: 16 * v0 + v1, green: 16 * v2 + v3, blue: 16 * v4 + v5 })
}

} // verus!
