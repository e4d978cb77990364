//! Anchors: where content sits inside spare room.

use vstd::prelude::*;
use crate::text::{
    break_str, join_lines, line_break, line_count, lines_of, repeat_text, replicate,
    split_lines, texts, unlines,
};
use crate::whitespace::{
    fill_pattern, merged_chars, merged_style, rendered_fill, WhiteSpace, WhiteSpaceType,
};
use crate::width::{block_width, display_width_of, lemma_widest_bounds, measure_lines, widest_of};

verus! {

/// Where content is anchored along an axis.
///
/// `Top` and `Left` both name the start of an axis, `Bottom` and `Right` its
/// end, so every position can be used on either axis.
#[derive(Clone, Copy, Debug, PartialEq, Eq, Structural)]
pub enum Position {
    Top,
    Bottom,
    Center,
    Left,
    Right,
}

impl Position {
    /// Whether the position anchors content at the start of an axis.
    pub open spec fn at_start(self) -> bool {
        self is Top || self is Left
    }

    /// Whether the position anchors content at the end of an axis.
    pub open spec fn at_end(self) -> bool {
        self is Bottom || self is Right
    }

    /// Whether the position centers content.
    pub open spec fn centered(self) -> bool {
        self is Center
    }
}

/// How spare room is shared out around anchored content: the part that goes
/// before the content and the part that goes after it.
///
/// Content anchored at the start is followed by all of the room, content
/// anchored at the end is preceded by all of it. Centered content gets the
/// lower half before it and the rest after it, so an odd unit goes after.
pub open spec fn shared_gap(pos: Position, gap: nat) -> (nat, nat) {
    if pos.at_start() {
        (0, gap)
    } else if pos.at_end() {
        (gap, 0)
    } else {
        (gap / 2, (gap - gap / 2) as nat)
    }
}

/// Shares spare room out around anchored content.
pub fn share_gap(pos: Position, gap: usize) -> (r: (usize, usize))
    ensures
        (r.0 as nat, r.1 as nat) == shared_gap(pos, gap as nat),
        r.0 + r.1 == gap,
{
    match pos {
        Position::Top | Position::Left => (0, gap),
        Position::Bottom | Position::Right => (gap, 0),
        Position::Center => (gap / 2, gap - gap / 2),
    }
}

/// A width or height given as a signed number, as a count: negative numbers
/// count as zero.
pub open spec fn extent(n: i32) -> nat {
    if n < 0 {
        0
    } else {
        n as nat
    }
}

/// A signed width or height as a count.
pub fn to_extent(n: i32) -> (r: usize)
    ensures
        r == extent(n),
{
    if n < 0 {
        0
    } else {
        n as usize
    }
}

/// A line placed in `short` more columns than it has: filling before it,
/// after it, or on both sides, as the anchor shares the columns out.
pub open spec fn placed_line(
    line: Seq<char>,
    pos: Position,
    short: nat,
    style: Seq<char>,
    chars: Seq<char>,
) -> Seq<char> {
    if pos.at_start() {
        line + rendered_fill(style, chars, short)
    } else if pos.at_end() {
        rendered_fill(style, chars, short) + line
    } else {
        rendered_fill(style, chars, short / 2) + line + rendered_fill(
            style,
            chars,
            (short - short / 2) as nat,
        )
    }
}

/// The lines of a block, each placed in the columns it is short of `width`.
pub open spec fn placed_lines(
    ls: Seq<Seq<char>>,
    pos: Position,
    width: nat,
    style: Seq<char>,
    chars: Seq<char>,
) -> Seq<Seq<char>> {
    Seq::new(
        ls.len(),
        |i: int| placed_line(ls[i], pos, (width - display_width_of(ls[i])) as nat, style, chars),
    )
}

/// A block placed in a width: unchanged if it is at least that wide, else
/// with every line filled up to the width.
pub open spec fn placed_horizontal(
    text: Seq<char>,
    pos: Position,
    width: nat,
    style: Seq<char>,
    chars: Seq<char>,
) -> Seq<char> {
    if width <= block_width(text) {
        text
    } else {
        unlines(placed_lines(lines_of(text), pos, width, style, chars))
    }
}

/// A block placed in a height: unchanged if it is at least that high, else
/// with lines of filling, each as wide as the block, above and below it as
/// the anchor shares them out.
pub open spec fn placed_vertical(
    text: Seq<char>,
    pos: Position,
    height: nat,
    style: Seq<char>,
    chars: Seq<char>,
) -> Seq<char> {
    if height <= line_count(text) {
        text
    } else {
        let gap = shared_gap(pos, (height - line_count(text)) as nat);
        let filler = rendered_fill(style, chars, block_width(text));
        replicate(filler + seq![line_break()], gap.0) + text + replicate(
            seq![line_break()] + filler,
            gap.1,
        )
    }
}

/// A block placed in a canvas: first in its width, then in its height.
pub open spec fn placed(
    text: Seq<char>,
    h_pos: Position,
    v_pos: Position,
    width: nat,
    height: nat,
    style: Seq<char>,
    chars: Seq<char>,
) -> Seq<char> {
    placed_vertical(placed_horizontal(text, h_pos, width, style, chars), v_pos, height, style, chars)
}

/// Places a block in a canvas of `width` columns and `height` lines: first
/// in its width, then in its height, the room around it taken by filling.
pub fn place(
    width: i32,
    height: i32,
    h_pos: Position,
    v_pos: Position,
    strs: String,
    opts: &[WhiteSpaceType],
) -> (r: String)
    ensures
        r@ == placed(
            strs@,
            h_pos,
            v_pos,
            extent(width),
            extent(height),
            merged_style(opts@),
            merged_chars(opts@),
        ),
{
    place_vertical(height, v_pos, place_horizontal(width, h_pos, strs, opts), opts)
}

/// Places a block in `width` columns. A block that is already that wide
/// comes back unchanged. Otherwise every line gets the filling it is short
/// of the width: after it when anchored at the start, before it when
/// anchored at the end, on both sides when centered.
pub fn place_horizontal(width: i32, pos: Position, strs: String, opts: &[WhiteSpaceType]) -> (r:
    String)
    ensures
        r@ == placed_horizontal(
            strs@,
            pos,
            extent(width),
            merged_style(opts@),
            merged_chars(opts@),
        ),
{
    let lines = split_lines(strs.as_str());
    let (widths, content_width) = measure_lines(&lines);
    let target = to_extent(width);
    if target <= content_width {
        return strs;
    }
    let mut ws = WhiteSpace::new(opts);
    let ghost style = merged_style(opts@);
    let ghost chars = merged_chars(opts@);
    let ghost ls = lines_of(strs@);
    let mut out: Vec<String> = Vec::new();
    let mut i: usize = 0;
    while i < lines.len()
        invariant
            i <= lines.len(),
            out.len() == i,
            widths.len() == lines.len(),
            texts(lines@) == ls,
            target > widest_of(ls),
            target == extent(width),
            ws.style@ == style,
            fill_pattern(ws.chars@) == fill_pattern(chars),
            forall|k: int| 0 <= k < lines.len() ==> widths[k] == display_width_of(ls[k]),
            forall|k: int|
                0 <= k < i ==> (#[trigger] out[k])@ == placed_line(
                    ls[k],
                    pos,
                    (target - display_width_of(ls[k])) as nat,
                    style,
                    chars,
                ),
        decreases lines.len() - i,
    {
        proof {
            lemma_widest_bounds(ls, i as int);
        }
        let short = target - widths[i];
        let mut line = String::new();
        match pos {
            Position::Top | Position::Left => {
                let fill = ws.render(short);
                line.append(lines[i].as_str());
                line.append(fill.as_str());
            },
            Position::Bottom | Position::Right => {
                let fill = ws.render(short);
                line.append(fill.as_str());
                line.append(lines[i].as_str());
            },
            Position::Center => {
                let (before, after) = share_gap(pos, short);
                let lead = ws.render(before);
                let trail = ws.render(after);
                line.append(lead.as_str());
                line.append(lines[i].as_str());
                line.append(trail.as_str());
            },
        }
        out.push(line);
        i += 1;
    }
    assert(texts(out@) =~= placed_lines(ls, pos, target as nat, style, chars));
    join_lines(&out)
}

/// Places a block in `height` lines. A block that is already that high
/// comes back unchanged. Otherwise lines of filling, each as wide as the
/// block, are added: below it when anchored at the start, above it when
/// anchored at the end, on both sides when centered.
pub fn place_vertical(height: i32, pos: Position, strs: String, opts: &[WhiteSpaceType]) -> (r:
    String)
    ensures
        r@ == placed_vertical(
            strs@,
            pos,
            extent(height),
            merged_style(opts@),
            merged_chars(opts@),
        ),
{
    let lines = split_lines(strs.as_str());
    let target = to_extent(height);
    if target <= lines.len() {
        return strs;
    }
    let (_, width) = measure_lines(&lines);
    let mut ws = WhiteSpace::new(opts);
    let filler = ws.render(width);
    let (above, below) = share_gap(pos, target - lines.len());
    let mut upper = filler.clone();
    upper.append(break_str());
    let mut lower = String::new();
    lower.append(break_str());
    lower.append(filler.as_str());
    let head = repeat_text(upper.as_str(), above);
    let tail = repeat_text(lower.as_str(), below);
    let mut r = head;
    r.append(strs.as_str());
    r.append(tail.as_str());
    r
}

} // verus!
