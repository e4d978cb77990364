//! Terminal escape sequences for emphasis and color.
//!
//! The sequences themselves come from `crossterm`. An emphasis sequence is
//! fixed, so its contract gives it in full. A color sequence is not: whether
//! `crossterm` writes the color at all is decided once per process, from the
//! `NO_COLOR` variable of the environment. Its contract therefore states
//! only the shape that every outcome has.

use vstd::prelude::*;
use crate::color::TermColor;
use crate::text::unbroken;

verus! {

/// A kind of emphasis that a terminal can switch on, and the reset that
/// switches every kind off at once.
#[derive(Clone, Copy, Debug, PartialEq, Eq, Structural)]
pub enum Emphasis {
    Reset,
    Bold,
    Faint,
    Italic,
    Underline,
    Blink,
    Reverse,
    Strikethrough,
}

/// The character that introduces an escape sequence.
pub open spec fn escape() -> char {
    '\u{1b}'
}

/// The character that ends a graphic-rendition sequence.
pub open spec fn terminator() -> char {
    'm'
}

/// The graphic-rendition sequence with the given parameters.
pub open spec fn sgr(params: Seq<char>) -> Seq<char> {
    seq![escape(), '['] + params + seq![terminator()]
}

/// The parameter digit of each kind of emphasis.
pub open spec fn emphasis_digit(e: Emphasis) -> char {
    match e {
        Emphasis::Reset => '0',
        Emphasis::Bold => '1',
        Emphasis::Faint => '2',
        Emphasis::Italic => '3',
        Emphasis::Underline => '4',
        Emphasis::Blink => '6',
        Emphasis::Reverse => '7',
        Emphasis::Strikethrough => '9',
    }
}

/// The sequence that switches a kind of emphasis on.
pub open spec fn emphasis_code(e: Emphasis) -> Seq<char> {
    sgr(seq![emphasis_digit(e)])
}

/// The sequence that undoes all emphasis and color at once.
pub open spec fn reset_code() -> Seq<char> {
    emphasis_code(Emphasis::Reset)
}

/// Whether a character may stand among the parameters of a color sequence.
pub open spec fn is_sgr_param(c: char) -> bool {
    ('0' <= c <= '9') || c == ';'
}

/// Whether a text has the shape of a color sequence: the introducer, `[`,
/// parameters made of digits and `;`, and the terminator.
pub open spec fn is_color_sequence(s: Seq<char>) -> bool {
    &&& s.len() >= 3
    &&& s[0] == escape()
    &&& s[1] == '['
    &&& s[s.len() - 1] == terminator()
    &&& forall|i: int| 2 <= i < s.len() - 1 ==> is_sgr_param(#[trigger] s[i])
}

/// The escape sequence of a kind of emphasis, as `crossterm` writes the
/// command `SetAttribute` in ANSI form (`Command::write_ansi`).
///
/// Trusted: `crossterm` writes the introducer and `[`, then the attribute's
/// parameter, then `m`; the parameters of the attributes used here are the
/// single digits of `emphasis_digit`.
#[verifier::external_body]
pub(crate) fn emphasis_sequence(e: Emphasis) -> (s: String)
    ensures
        s@ == emphasis_code(e),
{
    let attribute = match e {
        Emphasis::Reset => crossterm::style::Attribute::Reset,
        Emphasis::Bold => crossterm::style::Attribute::Bold,
        Emphasis::Faint => crossterm::style::Attribute::Dim,
        Emphasis::Italic => crossterm::style::Attribute::Italic,
        Emphasis::Underline => crossterm::style::Attribute::Underlined,
        Emphasis::Blink => crossterm::style::Attribute::RapidBlink,
        Emphasis::Reverse => crossterm::style::Attribute::Reverse,
        Emphasis::Strikethrough => crossterm::style::Attribute::CrossedOut,
    };
    let mut s = String::new();
    let _ = crossterm::Command::write_ansi(&crossterm::style::SetAttribute(attribute), &mut s);
    s
}

/// The escape sequence that sets the foreground color, as `crossterm` writes
/// the command `SetForegroundColor` in ANSI form.
///
/// Trusted: whatever the environment, `crossterm` writes the introducer and
/// `[`, then parameters made of digits and `;` (none where color is switched
/// off), then `m`.
#[verifier::external_body]
pub(crate) fn foreground_sequence(c: TermColor) -> (s: String)
    ensures
        is_color_sequence(s@),
{
    let color = match c {
        TermColor::Reset => crossterm::style::Color::Reset,
        TermColor::Ansi(n) => crossterm::style::Color::AnsiValue(n),
        TermColor::Rgb { r, g, b } => crossterm::style::Color::Rgb { r, g, b },
    };
    let mut s = String::new();
    let _ = crossterm::Command::write_ansi(&crossterm::style::SetForegroundColor(color), &mut s);
    s
}

/// The escape sequence that sets the background color, as `crossterm` writes
/// the command `SetBackgroundColor` in ANSI form.
///
/// Trusted: whatever the environment, `crossterm` writes the introducer and
/// `[`, then parameters made of digits and `;` (none where color is switched
/// off), then `m`.
#[verifier::external_body]
pub(crate) fn background_sequence(c: TermColor) -> (s: String)
    ensures
        is_color_sequence(s@),
{
    let color = match c {
        TermColor::Reset => crossterm::style::Color::Reset,
        TermColor::Ansi(n) => crossterm::style::Color::AnsiValue(n),
        TermColor::Rgb { r, g, b } => crossterm::style::Color::Rgb { r, g, b },
    };
    let mut s = String::new();
    let _ = crossterm::Command::write_ansi(&crossterm::style::SetBackgroundColor(color), &mut s);
    s
}

/// The sequence that undoes all emphasis and color.
pub fn reset_sequence() -> (s: String)
    ensures
        s@ == reset_code(),
{
    emphasis_sequence(Emphasis::Reset)
}

/// The reset sequence holds no line break.
pub proof fn lemma_reset_unbroken()
    ensures
        unbroken(reset_code()),
{
}

} // verus!
