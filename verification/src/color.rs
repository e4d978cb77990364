//! Colors, and the "no color" state that marks an attribute as unset.

use vstd::prelude::*;
use crate::text::to_chars;

verus! {

/// A color a terminal can show.
#[derive(Clone, Copy, Debug, PartialEq, Eq, Structural)]
pub enum TermColor {
    /// The terminal's own default color.
    Reset,
    /// One of the 256 indexed colors.
    Ansi(u8),
    /// A color given by its red, green and blue parts.
    Rgb { r: u8, g: u8, b: u8 },
}

/// Either a color, or the absence of one.
#[derive(Clone, Copy, Debug, PartialEq, Eq, Structural)]
pub enum ColorValue {
    Color(TermColor),
    NoColor(),
}

/// A color attribute of a style: set to a color, or unset.
#[derive(Clone, Copy, Debug, PartialEq, Eq, Structural)]
pub struct Colour {
    pub color: ColorValue,
}

/// The value of a hexadecimal digit, in either case; `None` for any other
/// character.
pub open spec fn hex_digit_value(c: char) -> Option<u8> {
    if '0' <= c <= '9' {
        Some((c as u32 - '0' as u32) as u8)
    } else if 'a' <= c <= 'f' {
        Some((c as u32 - 'a' as u32 + 10) as u8)
    } else if 'A' <= c <= 'F' {
        Some((c as u32 - 'A' as u32 + 10) as u8)
    } else {
        None
    }
}

/// Whether a text is a color literal: `#` and six hexadecimal digits.
pub open spec fn is_hex_literal(s: Seq<char>) -> bool {
    &&& s.len() == 7
    &&& s[0] == '#'
    &&& forall|i: int| 1 <= i < 7 ==> hex_digit_value(#[trigger] s[i]) is Some
}

/// The number that two hexadecimal digits write.
pub open spec fn hex_pair(hi: char, lo: char) -> u8 {
    (hex_digit_value(hi).unwrap() * 16 + hex_digit_value(lo).unwrap()) as u8
}

/// The color that a color literal names.
pub open spec fn hex_color(s: Seq<char>) -> Colour {
    Colour {
        color: ColorValue::Color(
            TermColor::Rgb {
                r: hex_pair(s[1], s[2]),
                g: hex_pair(s[3], s[4]),
                b: hex_pair(s[5], s[6]),
            },
        ),
    }
}

/// Whether a character is a hexadecimal digit, in either case.
pub fn is_hex_digit(c: char) -> (b: bool)
    ensures
        b == (hex_digit_value(c) is Some),
{
    (c >= '0' && c <= '9') || (c >= 'a' && c <= 'f') || (c >= 'A' && c <= 'F')
}

/// The value of a hexadecimal digit.
pub fn to_hex_digit(c: char) -> (v: u8)
    requires
        hex_digit_value(c) is Some,
    ensures
        Some(v) == hex_digit_value(c),
        v < 16,
{
    if c >= '0' && c <= '9' {
        (c as u32 - '0' as u32) as u8
    } else if c >= 'a' && c <= 'f' {
        (c as u32 - 'a' as u32 + 10) as u8
    } else {
        (c as u32 - 'A' as u32 + 10) as u8
    }
}

impl Colour {
    /// Whether the attribute is set to a color.
    pub open spec fn is_set(self) -> bool {
        self.color is Color
    }

    /// The color named by a literal such as `#874BFD`; `None` unless the text
    /// is `#` followed by exactly six hexadecimal digits.
    pub fn from_hex(hex: &str) -> (r: Option<Self>)
        ensures
            r is Some <==> is_hex_literal(hex@),
            r is Some ==> r.unwrap() == hex_color(hex@),
    {
        let chars = to_chars(hex);
        if chars.len() != 7 {
            return None;
        }
        if chars[0] != '#' {
            return None;
        }
        let mut i: usize = 1;
        while i < 7
            invariant
                1 <= i <= 7,
                chars.len() == 7,
                chars@ == hex@,
                forall|k: int| 1 <= k < i ==> hex_digit_value(#[trigger] chars[k]) is Some,
            decreases 7 - i,
        {
            if !is_hex_digit(chars[i]) {
                return None;
            }
            i += 1;
        }
        let r = to_hex_digit(chars[1]) * 16 + to_hex_digit(chars[2]);
        let g = to_hex_digit(chars[3]) * 16 + to_hex_digit(chars[4]);
        let b = to_hex_digit(chars[5]) * 16 + to_hex_digit(chars[6]);
        Some(Colour { color: ColorValue::Color(TermColor::Rgb { r, g, b }) })
    }

    /// The color named by a color literal.
    pub fn from(hex: &str) -> (r: Self)
        requires
            is_hex_literal(hex@),
        ensures
            r == hex_color(hex@),
    {
        match Colour::from_hex(hex) {
            Some(c) => c,
            None => Colour { color: ColorValue::NoColor() },
        }
    }

    /// The attribute set to the given color.
    pub fn of(color: TermColor) -> (r: Self)
        ensures
            r.color == ColorValue::Color(color),
    {
        Colour { color: ColorValue::Color(color) }
    }
}

impl Default for Colour {
    /// The unset attribute.
    fn default() -> (r: Self)
        ensures
            r.color == ColorValue::NoColor(),
    {
        Colour { color: ColorValue::NoColor() }
    }
}

} // verus!
