//! Frames: the border drawn around a block, and the margin around that.

use vstd::prelude::*;
use crate::ansi::{
    background_sequence, foreground_sequence, is_color_sequence, reset_code, reset_sequence,
};
use crate::border::{
    first_glyph, get_first_char_as_string, horizontal_edge, render_horizontal_edge, Border,
    BorderGlyphs,
};
use crate::color::{ColorValue, Colour};
use crate::padding::{pad_left, pad_right, padded_left, padded_right};
use crate::style::{Props, Style};
use crate::text::{
    blanks, break_str, glyph, join_lines, line_break, lines_of, push_line, repeat_char,
    repeat_text, replicate, split_lines, texts, to_chars, unlines,
};
use crate::whitespace::fill_pattern;
use crate::width::{block_width, glyph_width, measure_glyphs, measure_lines, widest_of};

verus! {

/// The color sequences of one border edge.
pub struct EdgeInk {
    pub fg: String,
    pub bg: String,
}

/// The color sequences that a style's colors are written with.
pub struct Ink {
    pub foreground: String,
    pub background: String,
    pub text: String,
    pub margin: String,
    pub top: EdgeInk,
    pub right: EdgeInk,
    pub bottom: EdgeInk,
    pub left: EdgeInk,
}

/// The color sequences of one border edge, as texts.
pub struct EdgeInkView {
    pub fg: Seq<char>,
    pub bg: Seq<char>,
}

/// The color sequences of a style, as texts.
pub struct InkView {
    pub foreground: Seq<char>,
    pub background: Seq<char>,
    pub text: Seq<char>,
    pub margin: Seq<char>,
    pub top: EdgeInkView,
    pub right: EdgeInkView,
    pub bottom: EdgeInkView,
    pub left: EdgeInkView,
}

impl View for EdgeInk {
    type V = EdgeInkView;

    open spec fn view(&self) -> EdgeInkView {
        EdgeInkView { fg: self.fg@, bg: self.bg@ }
    }
}

impl View for Ink {
    type V = InkView;

    open spec fn view(&self) -> InkView {
        InkView {
            foreground: self.foreground@,
            background: self.background@,
            text: self.text@,
            margin: self.margin@,
            top: self.top@,
            right: self.right@,
            bottom: self.bottom@,
            left: self.left@,
        }
    }
}

/// Which sides of a border are drawn.
#[derive(Clone, Copy, Debug, PartialEq, Eq, Structural)]
pub struct Sides {
    pub top: bool,
    pub right: bool,
    pub bottom: bool,
    pub left: bool,
}

/// The colors of one border edge.
#[derive(Clone, Copy, Debug, PartialEq, Eq, Structural)]
pub struct EdgeColors {
    pub fg: Colour,
    pub bg: Colour,
}

/// The colors of the four border edges.
#[derive(Clone, Copy, Debug, PartialEq, Eq, Structural)]
pub struct FrameColors {
    pub top: EdgeColors,
    pub right: EdgeColors,
    pub bottom: EdgeColors,
    pub left: EdgeColors,
}

/// Whether a sequence is one that a color may be written with: nothing for
/// an unset color, a color sequence for a set one.
pub open spec fn writes(c: Colour, code: Seq<char>) -> bool {
    if c.is_set() {
        is_color_sequence(code)
    } else {
        code.len() == 0
    }
}

/// A text if a condition holds, nothing otherwise.
pub open spec fn opt(on: bool, s: Seq<char>) -> Seq<char> {
    if on {
        s
    } else {
        Seq::empty()
    }
}

/// A piece of border in its colors: unchanged where neither color is set,
/// else behind the sequences of the colors that are set and before the reset
/// sequence.
pub open spec fn styled_edge(piece: Seq<char>, colors: EdgeColors, ink: EdgeInkView) -> Seq<char> {
    if !colors.fg.is_set() && !colors.bg.is_set() {
        piece
    } else {
        opt(colors.fg.is_set(), ink.fg) + opt(colors.bg.is_set(), ink.bg) + piece + reset_code()
    }
}

/// The width of a vertical edge: that of its widest glyph.
pub open spec fn edge_width(pattern: Seq<char>) -> nat
    decreases pattern.len(),
{
    if pattern.len() == 0 {
        0
    } else {
        let rest = edge_width(pattern.drop_last());
        let w = glyph_width(pattern.last());
        if w > rest {
            w
        } else {
            rest
        }
    }
}

/// A count held to what a machine word can hold.
pub open spec fn capped(n: nat) -> nat {
    if n > usize::MAX {
        usize::MAX as nat
    } else {
        n
    }
}

/// The width of a framed block: that of its content and of the vertical
/// edges that are drawn.
pub open spec fn frame_width(content: nat, b: BorderGlyphs, sides: Sides) -> nat {
    capped(
        content + opt_width(sides.left, fill_pattern(b.left)) + opt_width(
            sides.right,
            fill_pattern(b.right),
        ),
    )
}

/// The width of a vertical edge if it is drawn, zero otherwise.
pub open spec fn opt_width(on: bool, pattern: Seq<char>) -> nat {
    if on {
        edge_width(pattern)
    } else {
        0
    }
}

/// A corner as it is drawn: the first glyph of the corner, a blank where the
/// corner is missing; nothing where the vertical edge beside it is not drawn.
pub open spec fn corner(glyphs: Seq<char>, beside: bool) -> Seq<char> {
    if beside {
        first_glyph(fill_pattern(glyphs))
    } else {
        Seq::empty()
    }
}

/// The glyph of a vertical edge beside line `i`: the glyphs of the edge are
/// used in turn, line after line.
pub open spec fn edge_glyph(pattern: Seq<char>, i: int) -> Seq<char> {
    seq![fill_pattern(pattern)[i % (fill_pattern(pattern).len() as int)]]
}

/// A content line between the vertical edges that are drawn.
pub open spec fn framed_line(
    line: Seq<char>,
    i: int,
    b: BorderGlyphs,
    sides: Sides,
    colors: FrameColors,
    ink: InkView,
) -> Seq<char> {
    opt(sides.left, styled_edge(edge_glyph(b.left, i), colors.left, ink.left)) + line + opt(
        sides.right,
        styled_edge(edge_glyph(b.right, i), colors.right, ink.right),
    )
}

/// The top edge of a frame.
pub open spec fn top_edge(
    width: nat,
    b: BorderGlyphs,
    sides: Sides,
    colors: FrameColors,
    ink: InkView,
) -> Seq<char> {
    styled_edge(
        horizontal_edge(
            corner(b.top_left, sides.left),
            b.top,
            corner(b.top_right, sides.right),
            width,
        ),
        colors.top,
        ink.top,
    )
}

/// The bottom edge of a frame.
pub open spec fn bottom_edge(
    width: nat,
    b: BorderGlyphs,
    sides: Sides,
    colors: FrameColors,
    ink: InkView,
) -> Seq<char> {
    styled_edge(
        horizontal_edge(
            corner(b.bottom_left, sides.left),
            b.bottom,
            corner(b.bottom_right, sides.right),
            width,
        ),
        colors.bottom,
        ink.bottom,
    )
}

/// The lines of a framed block: the top edge if it is drawn, the content
/// lines between the vertical edges, the bottom edge if it is drawn.
pub open spec fn framed_lines(
    ls: Seq<Seq<char>>,
    b: BorderGlyphs,
    sides: Sides,
    colors: FrameColors,
    ink: InkView,
) -> Seq<Seq<char>> {
    let width = frame_width(widest_of(ls), b, sides);
    let body = Seq::new(ls.len(), |i: int| framed_line(ls[i], i, b, sides, colors, ink));
    let head = if sides.top {
        seq![top_edge(width, b, sides, colors, ink)]
    } else {
        Seq::empty()
    };
    let foot = if sides.bottom {
        seq![bottom_edge(width, b, sides, colors, ink)]
    } else {
        Seq::empty()
    };
    head + body + foot
}

/// A block in its frame. A border that draws nothing, or of which no side
/// is drawn, leaves the block as it is.
pub open spec fn framed(
    text: Seq<char>,
    b: BorderGlyphs,
    sides: Sides,
    colors: FrameColors,
    ink: InkView,
) -> Seq<char> {
    if b.is_blank() || !(sides.top || sides.right || sides.bottom || sides.left) {
        text
    } else {
        unlines(framed_lines(lines_of(text), b, sides, colors, ink))
    }
}

/// A block in its margins: blank columns before and after every line, then,
/// unless the block is inline, lines of blanks as wide as the block above
/// and below it. The blank columns follow the margin's color sequence where
/// the margin has a color.
pub open spec fn margined(
    text: Seq<char>,
    top: nat,
    right: nat,
    bottom: nat,
    left: nat,
    background: Colour,
    code: Seq<char>,
    inline: bool,
) -> Seq<char> {
    let style = if background.is_set() {
        Some(code)
    } else {
        None
    };
    let beside = padded_right(padded_left(text, left, style), right, style);
    if inline {
        beside
    } else {
        let blank = blanks(block_width(beside));
        replicate(blank + seq![line_break()], top) + beside + replicate(
            seq![line_break()] + blank,
            bottom,
        )
    }
}

/// The sequence that sets a color as foreground; the empty string for an
/// unset color.
pub fn foreground_ink(c: Colour) -> (s: String)
    ensures
        writes(c, s@),
{
    match c.color {
        ColorValue::Color(val) => foreground_sequence(val),
        ColorValue::NoColor() => String::new(),
    }
}

/// The sequence that sets a color as background; the empty string for an
/// unset color.
pub fn background_ink(c: Colour) -> (s: String)
    ensures
        writes(c, s@),
{
    match c.color {
        ColorValue::Color(val) => background_sequence(val),
        ColorValue::NoColor() => String::new(),
    }
}

/// Puts a piece of border in its colors, written with the given sequences.
pub fn style_border_with(border: &str, colors: EdgeColors, ink: &EdgeInk) -> (r: String)
    ensures
        r@ == styled_edge(border@, colors, ink@),
{
    let fg_set = matches!(colors.fg.color, ColorValue::Color(_));
    let bg_set = matches!(colors.bg.color, ColorValue::Color(_));
    if !fg_set && !bg_set {
        return border.to_owned();
    }
    let mut r = String::new();
    if fg_set {
        r.append(ink.fg.as_str());
    }
    if bg_set {
        r.append(ink.bg.as_str());
    }
    r.append(border);
    let reset = reset_sequence();
    r.append(reset.as_str());
    r
}

/// Puts a piece of border in its colors. Where neither color is set the
/// piece comes back unchanged; otherwise it stands behind the sequences of
/// the colors that are set and before the reset sequence.
pub fn style_border(border: &str, fg: Colour, bg: Colour) -> (r: String)
    ensures
        !fg.is_set() && !bg.is_set() ==> r@ == border@,
        exists|ink: EdgeInkView|
            writes(fg, ink.fg) && writes(bg, ink.bg) && r@ == styled_edge(
                border@,
                (EdgeColors { fg, bg }),
                ink,
            ),
{
    let ink = EdgeInk { fg: foreground_ink(fg), bg: background_ink(bg) };
    let r = style_border_with(border, EdgeColors { fg, bg }, &ink);
    r
}

/// The glyphs of a vertical edge, a blank where there is none, and the width
/// of the widest of them.
fn vertical_edge(edge: &str) -> (r: (Vec<char>, usize))
    ensures
        r.0@ == fill_pattern(edge@),
        r.1 == edge_width(fill_pattern(edge@)),
{
    let mut pattern = to_chars(edge);
    if pattern.len() == 0 {
        pattern.push(' ');
    }
    let widths = measure_glyphs(&pattern);
    let mut widest: usize = 0;
    let mut i: usize = 0;
    while i < pattern.len()
        invariant
            i <= pattern.len(),
            widths.len() == pattern.len(),
            forall|k: int| 0 <= k < pattern.len() ==> widths[k] == glyph_width(#[trigger] pattern[k]),
            widest == edge_width(pattern@.take(i as int)),
        decreases pattern.len() - i,
    {
        assert(pattern@.take(i + 1).drop_last() =~= pattern@.take(i as int));
        if widths[i] > widest {
            widest = widths[i];
        }
        i += 1;
    }
    assert(pattern@.take(pattern.len() as int) =~= pattern@);
    (pattern, widest)
}

/// A corner as it is drawn.
fn make_corner(glyphs: &str, beside: bool) -> (r: String)
    ensures
        r@ == corner(glyphs@, beside),
{
    if !beside {
        String::new()
    } else if glyphs.is_empty() {
        let r = glyph(' ');
        r
    } else {
        get_first_char_as_string(glyphs)
    }
}

/// The sum of two counts, held to what a machine word can hold.
fn capped_sum(a: usize, b: usize) -> (r: usize)
    ensures
        r == capped((a + b) as nat),
{
    if a > usize::MAX - b {
        usize::MAX
    } else {
        a + b
    }
}

/// Draws a border around a block. The top and bottom edges span the content
/// and the vertical edges that are drawn; corners are drawn only where both
/// sides that meet are drawn. A border that draws nothing, or of which no
/// side is drawn, leaves the block as it is.
pub fn frame(strs: &str, border: &Border, sides: Sides, colors: FrameColors, ink: &Ink) -> (r:
    String)
    ensures
        r@ == framed(strs@, border@, sides, colors, ink@),
{
    if border.is_blank() || !(sides.top || sides.right || sides.bottom || sides.left) {
        return strs.to_owned();
    }
    let lines = split_lines(strs);
    let (_, content) = measure_lines(&lines);
    let (left_glyphs, left_width) = vertical_edge(border.left.as_str());
    let (right_glyphs, right_width) = vertical_edge(border.right.as_str());
    let with_left = capped_sum(
        content,
        if sides.left {
            left_width
        } else {
            0
        },
    );
    let width = capped_sum(
        with_left,
        if sides.right {
            right_width
        } else {
            0
        },
    );
    let ghost ls = lines_of(strs@);
    let ghost b = border@;
    let mut out: Vec<String> = Vec::new();
    if sides.top {
        let left_corner = make_corner(border.top_left.as_str(), sides.left);
        let right_corner = make_corner(border.top_right.as_str(), sides.right);
        let edge = render_horizontal_edge(
            left_corner.as_str(),
            border.top.as_str(),
            right_corner.as_str(),
            width,
        );
        push_line(&mut out, style_border_with(edge.as_str(), colors.top, &ink.top));
    }
    let ghost head = texts(out@);
    let mut i: usize = 0;
    while i < lines.len()
        invariant
            i <= lines.len(),
            texts(lines@) == ls,
            b == border@,
            left_glyphs@ == fill_pattern(b.left),
            right_glyphs@ == fill_pattern(b.right),
            texts(out@) == head + Seq::new(
                i as nat,
                |k: int| framed_line(ls[k], k, b, sides, colors, ink@),
            ),
        decreases lines.len() - i,
    {
        let mut line = String::new();
        if sides.left {
            let piece = glyph(left_glyphs[i % left_glyphs.len()]);
            let styled = style_border_with(piece.as_str(), colors.left, &ink.left);
            line.append(styled.as_str());
        }
        line.append(lines[i].as_str());
        if sides.right {
            let piece = glyph(right_glyphs[i % right_glyphs.len()]);
            let styled = style_border_with(piece.as_str(), colors.right, &ink.right);
            line.append(styled.as_str());
        }
        push_line(&mut out, line);
        i += 1;
    }
    if sides.bottom {
        let left_corner = make_corner(border.bottom_left.as_str(), sides.left);
        let right_corner = make_corner(border.bottom_right.as_str(), sides.right);
        let edge = render_horizontal_edge(
            left_corner.as_str(),
            border.bottom.as_str(),
            right_corner.as_str(),
            width,
        );
        push_line(&mut out, style_border_with(edge.as_str(), colors.bottom, &ink.bottom));
    }
    assert(texts(out@) =~= framed_lines(ls, b, sides, colors, ink@));
    join_lines(&out)
}

/// Puts margins around a block: blank columns before and after every line,
/// then, unless the block is inline, lines of blanks above and below it.
pub fn surround(
    strs: &str,
    top: usize,
    right: usize,
    bottom: usize,
    left: usize,
    background: Colour,
    code: &String,
    inline: bool,
) -> (r: String)
    ensures
        r@ == margined(
            strs@,
            top as nat,
            right as nat,
            bottom as nat,
            left as nat,
            background,
            code@,
            inline,
        ),
{
    let style = match background.color {
        ColorValue::Color(_) => Some(code),
        ColorValue::NoColor() => None,
    };
    let with_left = pad_left(strs, left, style);
    let beside = pad_right(with_left.as_str(), right, style);
    if inline {
        return beside;
    }
    let lines = split_lines(beside.as_str());
    let (_, width) = measure_lines(&lines);
    let blank = repeat_char(' ', width);
    let mut upper = blank.clone();
    upper.append(break_str());
    let mut lower = String::new();
    lower.append(break_str());
    lower.append(blank.as_str());
    let mut r = repeat_text(upper.as_str(), top);
    r.append(beside.as_str());
    let tail = repeat_text(lower.as_str(), bottom);
    r.append(tail.as_str());
    r
}

impl Style {
    /// Which sides of the border are drawn: all four where none of them has
    /// been said to be drawn or not, else those that are set to be drawn.
    pub open spec fn sides(&self) -> Sides {
        if !self.has(Props::BorderTopKey) && !self.has(Props::BorderRightKey) && !self.has(
            Props::BorderBottomKey,
        ) && !self.has(Props::BorderLeftKey) {
            Sides { top: true, right: true, bottom: true, left: true }
        } else {
            Sides {
                top: self.flag(Props::BorderTopKey, false),
                right: self.flag(Props::BorderRightKey, false),
                bottom: self.flag(Props::BorderBottomKey, false),
                left: self.flag(Props::BorderLeftKey, false),
            }
        }
    }

    /// The colors of the four border edges.
    pub open spec fn frame_colors(&self) -> FrameColors {
        FrameColors {
            top: EdgeColors {
                fg: self.colour(Props::BorderTopForegroundKey),
                bg: self.colour(Props::BorderTopBackgroundKey),
            },
            right: EdgeColors {
                fg: self.colour(Props::BorderRightForegroundKey),
                bg: self.colour(Props::BorderRightBackgroundKey),
            },
            bottom: EdgeColors {
                fg: self.colour(Props::BorderBottomForegroundKey),
                bg: self.colour(Props::BorderBottomBackgroundKey),
            },
            left: EdgeColors {
                fg: self.colour(Props::BorderLeftForegroundKey),
                bg: self.colour(Props::BorderLeftBackgroundKey),
            },
        }
    }

    /// Whether color sequences are ones that the colors of the style may be
    /// written with.
    pub open spec fn inked(&self, ink: InkView) -> bool {
        &&& writes(self.colour(Props::ForegroundKey), ink.foreground)
        &&& writes(self.colour(Props::BackgroundKey), ink.background)
        &&& writes(self.colour(Props::TextColorKey), ink.text)
        &&& writes(self.colour(Props::MarginBackgroundKey), ink.margin)
        &&& writes(self.frame_colors().top.fg, ink.top.fg)
        &&& writes(self.frame_colors().top.bg, ink.top.bg)
        &&& writes(self.frame_colors().right.fg, ink.right.fg)
        &&& writes(self.frame_colors().right.bg, ink.right.bg)
        &&& writes(self.frame_colors().bottom.fg, ink.bottom.fg)
        &&& writes(self.frame_colors().bottom.bg, ink.bottom.bg)
        &&& writes(self.frame_colors().left.fg, ink.left.fg)
        &&& writes(self.frame_colors().left.bg, ink.left.bg)
    }

    /// A block with the border of the style around it.
    pub open spec fn bordered(&self, text: Seq<char>, ink: InkView) -> Seq<char> {
        framed(text, self.border_glyphs(), self.sides(), self.frame_colors(), ink)
    }

    /// A block with the margins of the style around it.
    pub open spec fn with_margins(&self, text: Seq<char>, ink: InkView, inline: bool) -> Seq<char> {
        margined(
            text,
            self.count(Props::MarginTopKey) as nat,
            self.count(Props::MarginRightKey) as nat,
            self.count(Props::MarginBottomKey) as nat,
            self.count(Props::MarginLeftKey) as nat,
            self.colour(Props::MarginBackgroundKey),
            ink.margin,
            inline,
        )
    }

    /// Which sides of the border are drawn.
    pub fn border_sides(&self) -> (r: Sides)
        ensures
            r == self.sides(),
    {
        if !self.is_set(Props::BorderTopKey) && !self.is_set(Props::BorderRightKey)
            && !self.is_set(Props::BorderBottomKey) && !self.is_set(Props::BorderLeftKey) {
            Sides { top: true, right: true, bottom: true, left: true }
        } else {
            Sides {
                top: self.get_as_bool(Props::BorderTopKey, false),
                right: self.get_as_bool(Props::BorderRightKey, false),
                bottom: self.get_as_bool(Props::BorderBottomKey, false),
                left: self.get_as_bool(Props::BorderLeftKey, false),
            }
        }
    }

    /// The colors of the four border edges.
    pub fn border_colors(&self) -> (r: FrameColors)
        ensures
            r == self.frame_colors(),
    {
        FrameColors {
            top: EdgeColors {
                fg: self.get_as_color(Props::BorderTopForegroundKey),
                bg: self.get_as_color(Props::BorderTopBackgroundKey),
            },
            right: EdgeColors {
                fg: self.get_as_color(Props::BorderRightForegroundKey),
                bg: self.get_as_color(Props::BorderRightBackgroundKey),
            },
            bottom: EdgeColors {
                fg: self.get_as_color(Props::BorderBottomForegroundKey),
                bg: self.get_as_color(Props::BorderBottomBackgroundKey),
            },
            left: EdgeColors {
                fg: self.get_as_color(Props::BorderLeftForegroundKey),
                bg: self.get_as_color(Props::BorderLeftBackgroundKey),
            },
        }
    }

    /// The sequences that the colors of the style are written with.
    pub fn ink(&self) -> (ink: Ink)
        ensures
            self.inked(ink@),
    {
        let colors = self.border_colors();
        Ink {
            foreground: foreground_ink(self.get_as_color(Props::ForegroundKey)),
            background: background_ink(self.get_as_color(Props::BackgroundKey)),
            text: foreground_ink(self.get_as_color(Props::TextColorKey)),
            margin: background_ink(self.get_as_color(Props::MarginBackgroundKey)),
            top: EdgeInk { fg: foreground_ink(colors.top.fg), bg: background_ink(colors.top.bg) },
            right: EdgeInk {
                fg: foreground_ink(colors.right.fg),
                bg: background_ink(colors.right.bg),
            },
            bottom: EdgeInk {
                fg: foreground_ink(colors.bottom.fg),
                bg: background_ink(colors.bottom.bg),
            },
            left: EdgeInk {
                fg: foreground_ink(colors.left.fg),
                bg: background_ink(colors.left.bg),
            },
        }
    }

    /// Draws the border of the style around a block, its colors written with
    /// the given sequences.
    pub fn apply_border_with(&self, strs: &str, ink: &Ink) -> (r: String)
        ensures
            r@ == self.bordered(strs@, ink@),
    {
        let border = self.get_border_style();
        frame(strs, &border, self.border_sides(), self.border_colors(), ink)
    }

    /// Draws the border of the style around a block. With no edge color set
    /// the result does not depend on how colors are written.
    pub fn apply_border(&self, strs: &str) -> (r: String)
        ensures
            exists|ink: InkView| self.inked(ink) && r@ == self.bordered(strs@, ink),
    {
        let ink = self.ink();
        let r = self.apply_border_with(strs, &ink);
        r
    }

    /// Puts the margins of the style around a block, the margin's color
    /// written with the given sequences.
    pub fn apply_margins_with(&self, strs: &str, inline: bool, ink: &Ink) -> (r: String)
        ensures
            r@ == self.with_margins(strs@, ink@, inline),
    {
        surround(
            strs,
            self.get_as_int(Props::MarginTopKey),
            self.get_as_int(Props::MarginRightKey),
            self.get_as_int(Props::MarginBottomKey),
            self.get_as_int(Props::MarginLeftKey),
            self.get_as_color(Props::MarginBackgroundKey),
            &ink.margin,
            inline,
        )
    }

    /// Puts the margins of the style around a block.
    pub fn apply_margins(&self, strs: &str, inline: bool) -> (r: String)
        ensures
            exists|ink: InkView| self.inked(ink) && r@ == self.with_margins(strs@, ink, inline),
    {
        let ink = self.ink();
        let r = self.apply_margins_with(strs, inline, &ink);
        r
    }
}

} // verus!
