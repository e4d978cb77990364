//! Alignment: sharing out the room between a block and a target height or
//! width, according to an anchor.

use vstd::prelude::*;
use crate::ansi::{lemma_reset_unbroken, reset_code, reset_sequence};
use crate::padding::{fill_run, make_fill, style_text};
use crate::position::{share_gap, shared_gap, Position};
use crate::text::{
    breaks, join_lines, lemma_break_count_concat, lemma_break_count_repeated,
    lemma_line_count, lemma_lines_of_unlines, lemma_lines_unbroken, line_count, lines_of,
    repeat_char, split_lines, texts, unbroken, unlines,
};
use crate::width::{display_width_of, lemma_widest_bounds, measure_lines, widest_of};

verus! {

/// The larger of a target width and the width of the widest line: the width
/// that every line of an aligned block is brought to.
pub open spec fn settled_width(width: nat, widest: nat) -> nat {
    if width > widest {
        width
    } else {
        widest
    }
}

/// The width of a line that has been laid out: what its content measures,
/// plus the blank columns put beside it.
pub open spec fn laid_out_width(content: Seq<char>, fill: nat) -> nat {
    display_width_of(content) + fill
}

/// A block brought to a height: unchanged where it is at least that high,
/// else with the missing lines added as empty lines above and below it, as
/// the anchor shares them out.
pub open spec fn aligned_vertical(text: Seq<char>, pos: Position, height: nat) -> Seq<char> {
    let have = line_count(text);
    if height < have {
        text
    } else {
        let gap = shared_gap(pos, (height - have) as nat);
        breaks(gap.0) + text + breaks(gap.1)
    }
}

/// A line with `short` blank columns put beside it as the anchor shares them
/// out, and the reset sequence after it.
pub open spec fn aligned_line(
    line: Seq<char>,
    pos: Position,
    short: nat,
    style: Option<Seq<char>>,
) -> Seq<char> {
    let body = if short == 0 {
        line
    } else if pos.at_start() {
        line + fill_run(short, style)
    } else if pos.at_end() {
        fill_run(short, style) + line
    } else {
        fill_run(short / 2, style) + line + fill_run((short - short / 2) as nat, style)
    };
    body + reset_code()
}

/// The blank columns that a line of a block is short of the settled width.
pub open spec fn shortfall(ls: Seq<Seq<char>>, width: nat, i: int) -> nat {
    (settled_width(width, widest_of(ls)) - display_width_of(ls[i])) as nat
}

/// The lines of a block, each brought to the settled width.
pub open spec fn aligned_lines(
    ls: Seq<Seq<char>>,
    pos: Position,
    width: nat,
    style: Option<Seq<char>>,
) -> Seq<Seq<char>> {
    Seq::new(ls.len(), |i: int| aligned_line(ls[i], pos, shortfall(ls, width, i), style))
}

/// A block with every line brought to the settled width.
pub open spec fn aligned_horizontal(
    text: Seq<char>,
    pos: Position,
    width: nat,
    style: Option<Seq<char>>,
) -> Seq<char> {
    unlines(aligned_lines(lines_of(text), pos, width, style))
}

/// The lines of a block and the printable width of the widest of them.
pub fn get_lines(s: &str) -> (r: (Vec<String>, usize))
    ensures
        texts(r.0@) == lines_of(s@),
        r.1 == widest_of(lines_of(s@)),
{
    let lines = split_lines(s);
    let (_, widest) = measure_lines(&lines);
    (lines, widest)
}

/// The number of lines of a block.
pub fn get_strs_height(s: &str) -> (h: usize)
    ensures
        h == line_count(s@),
{
    let lines = split_lines(s);
    lines.len()
}

/// Brings a block to a height. A block that is already at least that high
/// comes back unchanged; otherwise the result has exactly `height` lines.
/// The block handed in is left as it was.
pub fn align_text_vertical(strs: &mut String, pos: Position, height: usize) -> (r: String)
    ensures
        r@ == aligned_vertical(old(strs)@, pos, height as nat),
        height < line_count(old(strs)@) ==> r@ == old(strs)@,
        height >= line_count(old(strs)@) ==> line_count(r@) == height,
        *final(strs) == *old(strs),
{
    let have = get_strs_height(strs.as_str());
    if height < have {
        return strs.clone();
    }
    let (above, below) = share_gap(pos, height - have);
    let mut r = repeat_char('\n', above);
    r.append(strs.as_str());
    let tail = repeat_char('\n', below);
    r.append(tail.as_str());
    proof {
        lemma_aligned_vertical_height(strs@, pos, height as nat);
    }
    r
}

/// Brings every line of a block to one width: the target, or the width of
/// the widest line where that is larger. Each line gets the blank columns it
/// is short of, shared out as the anchor says, and ends with the reset
/// sequence.
pub fn align_text_horizontal(
    strs: &String,
    pos: Position,
    width: usize,
    style: Option<&String>,
) -> (r: String)
    ensures
        r@ == aligned_horizontal(strs@, pos, width as nat, style_text(style)),
{
    let lines = split_lines(strs.as_str());
    let (widths, widest) = measure_lines(&lines);
    let target = if width > widest {
        width
    } else {
        widest
    };
    let reset = reset_sequence();
    let ghost ls = lines_of(strs@);
    let ghost st = style_text(style);
    let mut out: Vec<String> = Vec::new();
    let mut i: usize = 0;
    while i < lines.len()
        invariant
            i <= lines.len(),
            out.len() == i,
            widths.len() == lines.len(),
            texts(lines@) == ls,
            st == style_text(style),
            reset@ == reset_code(),
            target == settled_width(width as nat, widest_of(ls)),
            forall|k: int| 0 <= k < lines.len() ==> widths[k] == display_width_of(ls[k]),
            forall|k: int|
                0 <= k < i ==> (#[trigger] out[k])@ == aligned_line(
                    ls[k],
                    pos,
                    shortfall(ls, width as nat, k),
                    st,
                ),
        decreases lines.len() - i,
    {
        proof {
            lemma_widest_bounds(ls, i as int);
        }
        let short = target - widths[i];
        let mut line = String::new();
        if short == 0 {
            line.append(lines[i].as_str());
        } else {
            let (before, after) = share_gap(pos, short);
            match pos {
                Position::Top | Position::Left => {
                    let fill = make_fill(short, style);
                    line.append(lines[i].as_str());
                    line.append(fill.as_str());
                },
                Position::Bottom | Position::Right => {
                    let fill = make_fill(short, style);
                    line.append(fill.as_str());
                    line.append(lines[i].as_str());
                },
                Position::Center => {
                    let lead = make_fill(before, style);
                    let trail = make_fill(after, style);
                    line.append(lead.as_str());
                    line.append(lines[i].as_str());
                    line.append(trail.as_str());
                },
            }
        }
        line.append(reset.as_str());
        out.push(line);
        i += 1;
    }
    assert(texts(out@) =~= aligned_lines(ls, pos, width as nat, st));
    join_lines(&out)
}

/// A block brought to a height that it does not exceed has exactly that many
/// lines, whatever the anchor; a block that exceeds the height is unchanged.
pub proof fn lemma_aligned_vertical_height(text: Seq<char>, pos: Position, height: nat)
    ensures
        height >= line_count(text) ==> line_count(aligned_vertical(text, pos, height)) == height,
        height < line_count(text) ==> aligned_vertical(text, pos, height) == text,
{
    if height >= line_count(text) {
        let gap = shared_gap(pos, (height - line_count(text)) as nat);
        let out = aligned_vertical(text, pos, height);
        lemma_line_count(text);
        lemma_line_count(out);
        lemma_break_count_concat(breaks(gap.0) + text, breaks(gap.1));
        lemma_break_count_concat(breaks(gap.0), text);
        lemma_break_count_repeated('\n', gap.0);
        lemma_break_count_repeated('\n', gap.1);
    }
}

/// After horizontal alignment every line is laid out to the same width: the
/// target, or the width of the widest line of the block where that is
/// larger. The lines of the result are the lines of the block, each with its
/// blank columns and the reset sequence, so long as the style prefix holds no
/// line break.
pub proof fn lemma_aligned_horizontal_width(
    text: Seq<char>,
    pos: Position,
    width: nat,
    style: Option<Seq<char>>,
    i: int,
)
    requires
        style matches Some(prefix) ==> unbroken(prefix),
        0 <= i < line_count(text),
    ensures
        line_count(aligned_horizontal(text, pos, width, style)) == line_count(text),
        lines_of(aligned_horizontal(text, pos, width, style))[i] == aligned_line(
            lines_of(text)[i],
            pos,
            shortfall(lines_of(text), width, i),
            style,
        ),
        laid_out_width(lines_of(text)[i], shortfall(lines_of(text), width, i)) == settled_width(
            width,
            widest_of(lines_of(text)),
        ),
{
    let ls = lines_of(text);
    let out = aligned_lines(ls, pos, width, style);
    lemma_lines_unbroken(text);
    lemma_reset_unbroken();
    assert(forall|k: int| 0 <= k < out.len() ==> unbroken(#[trigger] out[k]));
    lemma_lines_of_unlines(out);
    lemma_widest_bounds(ls, i);
}

} // verus!
