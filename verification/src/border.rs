//! Borders: the glyphs that draw a box, and the edges made of them.

use vstd::prelude::*;
use crate::text::{glyph, to_chars};
use crate::whitespace::{fill_pattern, next_in_cycle};
use crate::width::{
    columns, display_width, display_width_of, glyph_width, lemma_columns_concat,
    lemma_columns_single, measure_glyphs,
};

verus! {

/// The glyphs of a border: four edges and four corners. An edge may hold
/// several glyphs, which are then repeated in turn.
#[derive(Debug, PartialEq, Eq)]
pub struct Border {
    pub top: String,
    pub bottom: String,
    pub left: String,
    pub right: String,
    pub top_left: String,
    pub top_right: String,
    pub bottom_right: String,
    pub bottom_left: String,
}

/// The glyphs of a border, as texts.
pub struct BorderGlyphs {
    pub top: Seq<char>,
    pub bottom: Seq<char>,
    pub left: Seq<char>,
    pub right: Seq<char>,
    pub top_left: Seq<char>,
    pub top_right: Seq<char>,
    pub bottom_right: Seq<char>,
    pub bottom_left: Seq<char>,
}

impl View for Border {
    type V = BorderGlyphs;

    open spec fn view(&self) -> BorderGlyphs {
        BorderGlyphs {
            top: self.top@,
            bottom: self.bottom@,
            left: self.left@,
            right: self.right@,
            top_left: self.top_left@,
            top_right: self.top_right@,
            bottom_right: self.bottom_right@,
            bottom_left: self.bottom_left@,
        }
    }
}

impl BorderGlyphs {
    /// Whether every glyph is missing: the border that draws nothing.
    pub open spec fn is_blank(self) -> bool {
        &&& self.top.len() == 0
        &&& self.bottom.len() == 0
        &&& self.left.len() == 0
        &&& self.right.len() == 0
        &&& self.top_left.len() == 0
        &&& self.top_right.len() == 0
        &&& self.bottom_right.len() == 0
        &&& self.bottom_left.len() == 0
    }
}

/// The glyphs of the border that draws nothing: all of them missing.
pub open spec fn blank_glyphs() -> BorderGlyphs {
    BorderGlyphs {
        top: Seq::empty(),
        bottom: Seq::empty(),
        left: Seq::empty(),
        right: Seq::empty(),
        top_left: Seq::empty(),
        top_right: Seq::empty(),
        bottom_right: Seq::empty(),
        bottom_left: Seq::empty(),
    }
}

/// A border whose edges and corners are single glyphs, given in the order
/// top, bottom, left, right, top left, top right, bottom left, bottom right.
pub open spec fn simple_glyphs(
    top: char,
    bottom: char,
    left: char,
    right: char,
    top_left: char,
    top_right: char,
    bottom_left: char,
    bottom_right: char,
) -> BorderGlyphs {
    BorderGlyphs {
        top: seq![top],
        bottom: seq![bottom],
        left: seq![left],
        right: seq![right],
        top_left: seq![top_left],
        top_right: seq![top_right],
        bottom_right: seq![bottom_right],
        bottom_left: seq![bottom_left],
    }
}

/// Builds a border of single glyphs.
fn simple_border(
    top: char,
    bottom: char,
    left: char,
    right: char,
    top_left: char,
    top_right: char,
    bottom_left: char,
    bottom_right: char,
) -> (b: Border)
    ensures
        b@ == simple_glyphs(
            top,
            bottom,
            left,
            right,
            top_left,
            top_right,
            bottom_left,
            bottom_right,
        ),
{
    Border {
        top: glyph(top),
        bottom: glyph(bottom),
        left: glyph(left),
        right: glyph(right),
        top_left: glyph(top_left),
        top_right: glyph(top_right),
        bottom_right: glyph(bottom_right),
        bottom_left: glyph(bottom_left),
    }
}

impl Border {
    /// Whether the border draws nothing: every glyph is missing.
    pub fn is_blank(&self) -> (b: bool)
        ensures
            b == self@.is_blank(),
    {
        self.top.as_str().is_empty() && self.bottom.as_str().is_empty()
            && self.left.as_str().is_empty() && self.right.as_str().is_empty()
            && self.top_left.as_str().is_empty() && self.top_right.as_str().is_empty()
            && self.bottom_right.as_str().is_empty() && self.bottom_left.as_str().is_empty()
    }
}

impl Clone for Border {
    fn clone(&self) -> (b: Self)
        ensures
            b == *self,
    {
        Border {
            top: self.top.clone(),
            bottom: self.bottom.clone(),
            left: self.left.clone(),
            right: self.right.clone(),
            top_left: self.top_left.clone(),
            top_right: self.top_right.clone(),
            bottom_right: self.bottom_right.clone(),
            bottom_left: self.bottom_left.clone(),
        }
    }
}

impl Default for Border {
    /// The border that draws nothing.
    fn default() -> (b: Self)
        ensures
            b@ == blank_glyphs(),
    {
        Border {
            top: String::new(),
            bottom: String::new(),
            left: String::new(),
            right: String::new(),
            top_left: String::new(),
            top_right: String::new(),
            bottom_right: String::new(),
            bottom_left: String::new(),
        }
    }
}

/// The border of thin lines with square corners.
pub fn normal_border() -> (b: Border)
    ensures
        b@ == simple_glyphs('─', '─', '│', '│', '┌', '┐', '└', '┘'),
{
    simple_border('─', '─', '│', '│', '┌', '┐', '└', '┘')
}

/// The border of thin lines with rounded corners.
pub fn rounded_border() -> (b: Border)
    ensures
        b@ == simple_glyphs('─', '─', '│', '│', '╭', '╮', '╰', '╯'),
{
    simple_border('─', '─', '│', '│', '╭', '╮', '╰', '╯')
}

/// The border of full blocks.
pub fn block_border() -> (b: Border)
    ensures
        b@ == simple_glyphs('█', '█', '█', '█', '█', '█', '█', '█'),
{
    simple_border('█', '█', '█', '█', '█', '█', '█', '█')
}

/// The border of half blocks that hug the outside of the box.
pub fn outer_half_block_border() -> (b: Border)
    ensures
        b@ == simple_glyphs('▀', '▄', '▌', '▐', '▛', '▜', '▙', '▟'),
{
    simple_border('▀', '▄', '▌', '▐', '▛', '▜', '▙', '▟')
}

/// The border of half blocks that hug the inside of the box.
pub fn inner_half_block_border() -> (b: Border)
    ensures
        b@ == simple_glyphs('▄', '▀', '▐', '▌', '▗', '▖', '▝', '▘'),
{
    simple_border('▄', '▀', '▐', '▌', '▗', '▖', '▝', '▘')
}

/// The border of thick lines.
pub fn thick_border() -> (b: Border)
    ensures
        b@ == simple_glyphs('━', '━', '┃', '┃', '┏', '┓', '┗', '┛'),
{
    simple_border('━', '━', '┃', '┃', '┏', '┓', '┗', '┛')
}

/// The border of double lines.
pub fn double_border() -> (b: Border)
    ensures
        b@ == simple_glyphs('═', '═', '║', '║', '╔', '╗', '╚', '╝'),
{
    simple_border('═', '═', '║', '║', '╔', '╗', '╚', '╝')
}

/// The border made of blanks: it takes the room of a border and draws
/// nothing.
pub fn hidden_border() -> (b: Border)
    ensures
        b@ == simple_glyphs(' ', ' ', ' ', ' ', ' ', ' ', ' ', ' '),
{
    simple_border(' ', ' ', ' ', ' ', ' ', ' ', ' ', ' ')
}

/// The first glyph of a text, or nothing where the text is empty.
pub open spec fn first_glyph(s: Seq<char>) -> Seq<char> {
    if s.len() == 0 {
        Seq::empty()
    } else {
        seq![s[0]]
    }
}

/// The first glyph of a text as a string; the empty string for an empty
/// text.
pub fn get_first_char_as_string(strs: &str) -> (r: String)
    ensures
        r@ == first_glyph(strs@),
{
    let chars = to_chars(strs);
    if chars.len() == 0 {
        String::new()
    } else {
        glyph(chars[0])
    }
}

/// The glyphs laid down between the corners of an edge: the pattern is
/// walked round and round from position `j`, one whole glyph at a time, until
/// the columns had so far reach `width`. `stall` counts the glyphs without
/// width laid down in a row; after a whole round of them the walk ends, as it
/// would never get further.
pub open spec fn edge_walk(pattern: Seq<char>, have: nat, width: nat, j: int, stall: nat) -> Seq<
    char,
>
    decreases width - have, pattern.len() - stall,
{
    if have >= width || !(0 <= j < pattern.len()) || stall >= pattern.len() {
        Seq::empty()
    } else {
        let w = glyph_width(pattern[j]);
        let next = next_in_cycle(j, pattern.len());
        if w == 0 {
            seq![pattern[j]] + edge_walk(pattern, have, width, next, stall + 1)
        } else if have + w >= width {
            seq![pattern[j]]
        } else {
            seq![pattern[j]] + edge_walk(pattern, have + w, width, next, 0)
        }
    }
}

/// The middle of a horizontal edge: what is walked between two corners that
/// together measure `corners` columns.
pub open spec fn edge_middle(middle: Seq<char>, corners: nat, width: nat) -> Seq<char> {
    edge_walk(fill_pattern(middle), corners, width, 0, 0)
}

/// A horizontal edge: left corner, middle, right corner; nothing at all for
/// a width of zero.
pub open spec fn horizontal_edge(
    left: Seq<char>,
    middle: Seq<char>,
    right: Seq<char>,
    width: nat,
) -> Seq<char> {
    if width < 1 {
        Seq::empty()
    } else {
        left + edge_middle(middle, display_width_of(left) + display_width_of(right), width)
            + right
    }
}

/// Whether every glyph of a pattern is exactly one column wide.
pub open spec fn unit_glyphs(pattern: Seq<char>) -> bool {
    forall|i: int| 0 <= i < pattern.len() ==> glyph_width(#[trigger] pattern[i]) == 1
}

/// A walk of glyphs that are each one column wide ends exactly at the width
/// asked for.
pub proof fn lemma_edge_walk_exact(pattern: Seq<char>, have: nat, width: nat, j: int)
    requires
        unit_glyphs(pattern),
        0 <= j < pattern.len(),
        have <= width,
    ensures
        have + columns(edge_walk(pattern, have, width, j, 0)) == width,
    decreases width - have,
{
    if have < width {
        let next = next_in_cycle(j, pattern.len());
        lemma_columns_single(pattern[j]);
        if have + 1 < width {
            let rest = edge_walk(pattern, have + 1, width, next, 0);
            lemma_edge_walk_exact(pattern, have + 1, width, next);
            lemma_columns_concat(seq![pattern[j]], rest);
        }
    }
}

/// An edge whose middle glyphs are each one column wide is exactly as wide
/// as asked for: the widths of its two corners and the columns of its middle
/// add up to the width, whenever the width leaves room for the corners. An
/// empty middle counts as a blank, which is one column wide.
pub proof fn lemma_horizontal_edge_exact(
    left: Seq<char>,
    middle: Seq<char>,
    right: Seq<char>,
    width: nat,
)
    requires
        unit_glyphs(fill_pattern(middle)),
        width >= display_width_of(left) + display_width_of(right),
    ensures
        display_width_of(left) + columns(
            edge_middle(middle, display_width_of(left) + display_width_of(right), width),
        ) + display_width_of(right) == width,
{
    lemma_edge_walk_exact(
        fill_pattern(middle),
        display_width_of(left) + display_width_of(right),
        width,
        0,
    );
}

/// Lays the middle of an edge: walks the pattern from its start until the
/// columns reach `width`, beginning at `corners` columns.
pub fn walk_edge(middle: &str, corners: usize, width: usize) -> (r: String)
    ensures
        r@ == edge_middle(middle@, corners as nat, width as nat),
{
    let mut pattern = to_chars(middle);
    if pattern.len() == 0 {
        pattern.push(' ');
    }
    let widths = measure_glyphs(&pattern);
    let ghost whole = edge_walk(pattern@, corners as nat, width as nat, 0, 0);
    let mut body = String::new();
    let mut used: usize = corners;
    let mut j: usize = 0;
    let mut stall: usize = 0;
    let mut full = false;
    while !full && used < width && stall < pattern.len()
        invariant
            0 < pattern.len(),
            pattern@ == fill_pattern(middle@),
            widths.len() == pattern.len(),
            forall|k: int| 0 <= k < pattern.len() ==> widths[k] == glyph_width(#[trigger] pattern[k]),
            j < pattern.len(),
            stall <= pattern.len(),
            whole == edge_walk(pattern@, corners as nat, width as nat, 0, 0),
            !full ==> body@ + edge_walk(pattern@, used as nat, width as nat, j as int, stall as nat)
                == whole,
            full ==> body@ == whole,
        decreases (if full { 0int } else { 1int }), width - used, pattern.len() - stall,
    {
        let w = widths[j];
        let next = if j + 1 >= pattern.len() {
            0
        } else {
            j + 1
        };
        body.push(pattern[j]);
        if w == 0 {
            stall += 1;
        } else if w >= width - used {
            full = true;
        } else {
            used += w;
            stall = 0;
        }
        j = next;
    }
    body
}

/// Renders a top or bottom edge: the left corner, then the middle pattern
/// repeated glyph by glyph until the edge is `width` columns wide, then the
/// right corner. An empty middle pattern counts as a blank. A width of zero
/// gives the empty string.
pub fn render_horizontal_edge(left: &str, middle: &str, right: &str, width: usize) -> (r: String)
    ensures
        r@ == horizontal_edge(left@, middle@, right@, width as nat),
        unit_glyphs(fill_pattern(middle@)) && width >= 1 && width >= display_width_of(left@)
            + display_width_of(right@) ==> display_width_of(left@) + columns(
            edge_middle(middle@, display_width_of(left@) + display_width_of(right@), width as nat),
        ) + display_width_of(right@) == width,
{
    if width < 1 {
        return String::new();
    }
    let left_width = display_width(left);
    let right_width = display_width(right);
    let mut r = String::new();
    r.append(left);
    if left_width <= width && right_width <= width - left_width {
        let body = walk_edge(middle, left_width + right_width, width);
        r.append(body.as_str());
    }
    r.append(right);
    proof {
        if unit_glyphs(fill_pattern(middle@)) && width >= display_width_of(left@)
            + display_width_of(right@) {
            lemma_horizontal_edge_exact(left@, middle@, right@, width as nat);
        }
    }
    r
}

} // verus!
