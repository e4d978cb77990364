//! Joining blocks: side by side, or one above the other.

use vstd::prelude::*;
use crate::position::{share_gap, shared_gap, Position};
use crate::text::{
    blanks, empty_lines, join_lines, lemma_line_count, lemma_lines_of_unlines,
    lemma_lines_unbroken, line_count, lines_of, push_line, repeat_char, split_lines, texts, unbroken,
    unlines,
};
use crate::width::{display_width_of, lemma_widest_bounds, measure_lines, widest_of};

verus! {

/// The lines of each block.
pub open spec fn block_lines(blocks: Seq<Seq<char>>) -> Seq<Seq<Seq<char>>> {
    Seq::new(blocks.len(), |k: int| lines_of(blocks[k]))
}

/// The largest number of lines among blocks; 0 where there is no block.
pub open spec fn tallest(grid: Seq<Seq<Seq<char>>>) -> nat
    decreases grid.len(),
{
    if grid.len() == 0 {
        0
    } else {
        let rest = tallest(grid.drop_last());
        if grid.last().len() > rest {
            grid.last().len()
        } else {
            rest
        }
    }
}

/// The lines of a block brought to a height with empty lines, shared out
/// around the block as the anchor says.
pub open spec fn raised(lines: Seq<Seq<char>>, pos: Position, height: nat) -> Seq<Seq<char>> {
    let gap = shared_gap(pos, (height - lines.len()) as nat);
    empty_lines(gap.0) + lines + empty_lines(gap.1)
}

/// Every block brought to the height of the tallest.
pub open spec fn raised_grid(grid: Seq<Seq<Seq<char>>>, pos: Position) -> Seq<Seq<Seq<char>>> {
    Seq::new(grid.len(), |k: int| raised(grid[k], pos, tallest(grid)))
}

/// Row `i` of blocks standing side by side: line `i` of each of the first
/// `upto` blocks, one after the other.
pub open spec fn row_of(grid: Seq<Seq<Seq<char>>>, i: int, upto: nat) -> Seq<char>
    decreases upto,
{
    if upto == 0 {
        Seq::empty()
    } else {
        row_of(grid, i, (upto - 1) as nat) + grid[upto - 1][i]
    }
}

/// The rows of blocks standing side by side.
pub open spec fn joined_rows(blocks: Seq<Seq<char>>, pos: Position) -> Seq<Seq<char>> {
    let grid = raised_grid(block_lines(blocks), pos);
    Seq::new(tallest(block_lines(blocks)), |i: int| row_of(grid, i, grid.len()))
}

/// Blocks joined side by side: nothing for no block, the block itself for
/// one, else the rows joined into a block.
pub open spec fn joined_horizontal(blocks: Seq<Seq<char>>, pos: Position) -> Seq<char> {
    if blocks.len() == 0 {
        Seq::empty()
    } else if blocks.len() == 1 {
        blocks[0]
    } else {
        unlines(joined_rows(blocks, pos))
    }
}

/// The lines of all blocks, block after block.
pub open spec fn stacked_lines(blocks: Seq<Seq<char>>) -> Seq<Seq<char>>
    decreases blocks.len(),
{
    if blocks.len() == 0 {
        Seq::empty()
    } else {
        stacked_lines(blocks.drop_last()) + lines_of(blocks.last())
    }
}

/// A line of stacked blocks with the blanks it is short of. Anchored at the
/// start the blanks follow the line, anchored at the end they precede it;
/// centered, half of them (rounded down) goes on either side, so an odd
/// blank is dropped.
pub open spec fn stacked_line(line: Seq<char>, pos: Position, short: nat) -> Seq<char> {
    if pos.at_start() {
        line + blanks(short)
    } else if pos.at_end() {
        blanks(short) + line
    } else {
        blanks(short / 2) + line + blanks(short / 2)
    }
}

/// The lines of stacked blocks, each with the blanks it is short of the
/// widest.
pub open spec fn stacked_rows(blocks: Seq<Seq<char>>, pos: Position) -> Seq<Seq<char>> {
    let all = stacked_lines(blocks);
    Seq::new(
        all.len(),
        |i: int| stacked_line(all[i], pos, (widest_of(all) - display_width_of(all[i])) as nat),
    )
}

/// Blocks joined one above the other: nothing for no block, the block
/// itself for one, else the padded lines joined into a block.
pub open spec fn joined_vertical(blocks: Seq<Seq<char>>, pos: Position) -> Seq<char> {
    if blocks.len() == 0 {
        Seq::empty()
    } else if blocks.len() == 1 {
        blocks[0]
    } else {
        unlines(stacked_rows(blocks, pos))
    }
}

/// No block is taller than the tallest.
pub proof fn lemma_tallest_bounds(grid: Seq<Seq<Seq<char>>>, k: int)
    requires
        0 <= k < grid.len(),
    ensures
        grid[k].len() <= tallest(grid),
    decreases grid.len(),
{
    if k < grid.len() - 1 {
        lemma_tallest_bounds(grid.drop_last(), k);
    }
}

/// Whether block `k` has a line `i`, and that line holds no line break.
pub open spec fn sound_cell(grid: Seq<Seq<Seq<char>>>, k: int, i: int) -> bool {
    0 <= i < grid[k].len() && unbroken(grid[k][i])
}

/// A row made of lines without line breaks holds none.
pub proof fn lemma_row_unbroken(grid: Seq<Seq<Seq<char>>>, i: int, upto: nat)
    requires
        upto <= grid.len(),
        forall|k: int| 0 <= k < upto ==> #[trigger] sound_cell(grid, k, i),
    ensures
        unbroken(row_of(grid, i, upto)),
    decreases upto,
{
    if upto > 0 {
        lemma_row_unbroken(grid, i, (upto - 1) as nat);
        assert(sound_cell(grid, upto - 1, i));
    }
}

/// Blocks joined side by side make a rectangle of rows: the result has as
/// many lines as the tallest block, and line `i` of it is made of line `i`
/// of every raised block, one segment for each block, in the order of the
/// blocks.
pub proof fn lemma_joined_horizontal_rows(blocks: Seq<Seq<char>>, pos: Position)
    requires
        blocks.len() >= 1,
    ensures
        line_count(joined_horizontal(blocks, pos)) == tallest(block_lines(blocks)),
        blocks.len() >= 2 ==> lines_of(joined_horizontal(blocks, pos)) == joined_rows(blocks, pos),
        forall|k: int|
            0 <= k < blocks.len() ==> (#[trigger] raised_grid(block_lines(blocks), pos)[k]).len()
                == tallest(block_lines(blocks)),
{
    let grid0 = block_lines(blocks);
    let grid = raised_grid(grid0, pos);
    let h = tallest(grid0);
    assert forall|k: int| 0 <= k < blocks.len() implies (#[trigger] grid[k]).len() == h by {
        lemma_tallest_bounds(grid0, k);
    }
    lemma_tallest_bounds(grid0, 0);
    lemma_line_count(blocks[0]);
    if blocks.len() == 1 {
        assert(tallest(grid0.drop_last()) == 0);
    } else {
        let rows = joined_rows(blocks, pos);
        assert forall|i: int| 0 <= i < rows.len() implies unbroken(#[trigger] rows[i]) by {
            assert forall|k: int| 0 <= k < grid.len() implies #[trigger] sound_cell(grid, k, i) by {
                lemma_tallest_bounds(grid0, k);
                lemma_lines_unbroken(blocks[k]);
            }
            lemma_row_unbroken(grid, i, grid.len());
        }
        lemma_lines_of_unlines(rows);
    }
}

/// Splits every block into its lines.
fn split_blocks(strs: &[String]) -> (grid: Vec<Vec<String>>)
    ensures
        grid.len() == strs.len(),
        forall|k: int| 0 <= k < strs.len() ==> texts((#[trigger] grid[k])@) == lines_of(strs[k]@),
{
    let mut grid: Vec<Vec<String>> = Vec::new();
    let mut k: usize = 0;
    while k < strs.len()
        invariant
            k <= strs.len(),
            grid.len() == k,
            forall|m: int| 0 <= m < k ==> texts((#[trigger] grid[m])@) == lines_of(strs[m]@),
        decreases strs.len() - k,
    {
        let lines = split_lines(strs[k].as_str());
        grid.push(lines);
        k += 1;
    }
    grid
}

/// Brings the lines of a block to a height with empty lines.
fn raise(lines: &Vec<String>, pos: Position, height: usize) -> (out: Vec<String>)
    requires
        lines.len() <= height,
    ensures
        texts(out@) == raised(texts(lines@), pos, height as nat),
        out.len() == height,
{
    let (above, below) = share_gap(pos, height - lines.len());
    let mut out: Vec<String> = Vec::new();
    let mut i: usize = 0;
    while i < above
        invariant
            i <= above,
            texts(out@) == empty_lines(i as nat),
        decreases above - i,
    {
        push_line(&mut out, String::new());
        i += 1;
    }
    let mut j: usize = 0;
    while j < lines.len()
        invariant
            j <= lines.len(),
            texts(out@) == empty_lines(above as nat) + texts(lines@).take(j as int),
        decreases lines.len() - j,
    {
        push_line(&mut out, lines[j].clone());
        j += 1;
    }
    let mut m: usize = 0;
    while m < below
        invariant
            m <= below,
            texts(out@) == empty_lines(above as nat) + texts(lines@) + empty_lines(m as nat),
        decreases below - m,
    {
        push_line(&mut out, String::new());
        m += 1;
    }
    out
}

/// Joins blocks side by side. Every block is brought to the height of the
/// tallest with empty lines, placed away from the anchor; then each row of
/// the result holds that row of every block, in order. No block and a single
/// block are not touched: the results are the empty string and the block
/// itself. Blocks are not widened.
pub fn join_horizontally(pos: Position, strs: &[String]) -> (r: String)
    ensures
        r@ == joined_horizontal(texts(strs@), pos),
        strs.len() >= 1 ==> line_count(r@) == tallest(block_lines(texts(strs@))),
{
    if strs.len() == 0 {
        return String::new();
    }
    let ghost blocks = texts(strs@);
    proof {
        lemma_joined_horizontal_rows(blocks, pos);
    }
    if strs.len() == 1 {
        return strs[0].clone();
    }
    let split = split_blocks(strs);
    let ghost grid0 = block_lines(blocks);
    let mut height: usize = 0;
    let mut k: usize = 0;
    while k < split.len()
        invariant
            k <= split.len(),
            split.len() == strs.len(),
            grid0 == block_lines(texts(strs@)),
            forall|m: int| 0 <= m < strs.len() ==> texts((#[trigger] split[m])@) == grid0[m],
            height == tallest(grid0.take(k as int)),
        decreases split.len() - k,
    {
        assert(grid0.take(k + 1).drop_last() =~= grid0.take(k as int));
        if split[k].len() > height {
            height = split[k].len();
        }
        k += 1;
    }
    assert(grid0.take(split.len() as int) =~= grid0);
    let ghost grid = raised_grid(grid0, pos);
    let mut levelled: Vec<Vec<String>> = Vec::new();
    let mut k: usize = 0;
    while k < split.len()
        invariant
            k <= split.len(),
            split.len() == strs.len(),
            levelled.len() == k,
            grid == raised_grid(grid0, pos),
            grid0.len() == strs.len(),
            height == tallest(grid0),
            forall|m: int| 0 <= m < strs.len() ==> texts((#[trigger] split[m])@) == grid0[m],
            forall|m: int|
                0 <= m < k ==> texts((#[trigger] levelled[m])@) == grid[m] && levelled[m].len()
                    == height,
        decreases split.len() - k,
    {
        proof {
            lemma_tallest_bounds(grid0, k as int);
        }
        let block = raise(&split[k], pos, height);
        levelled.push(block);
        k += 1;
    }
    let n = levelled.len();
    let mut rows: Vec<String> = Vec::new();
    let mut i: usize = 0;
    while i < height
        invariant
            i <= height,
            rows.len() == i,
            n == levelled.len(),
            n == grid.len(),
            forall|m: int|
                0 <= m < n ==> texts((#[trigger] levelled[m])@) == grid[m] && levelled[m].len()
                    == height,
            forall|p: int| 0 <= p < i ==> (#[trigger] rows[p])@ == row_of(grid, p, n as nat),
        decreases height - i,
    {
        let mut row = String::new();
        let mut k: usize = 0;
        while k < n
            invariant
                k <= n,
                i < height,
                n == levelled.len(),
                forall|m: int|
                    0 <= m < n ==> texts((#[trigger] levelled[m])@) == grid[m] && levelled[m].len()
                        == height,
                row@ == row_of(grid, i as int, k as nat),
            decreases n - k,
        {
            row.append(levelled[k][i].as_str());
            k += 1;
        }
        rows.push(row);
        i += 1;
    }
    assert(texts(rows@) =~= joined_rows(blocks, pos));
    join_lines(&rows)
}

/// Joins blocks one above the other. Every line is brought to the width of
/// the widest line with blanks, placed away from the anchor. No block and a
/// single block are not touched: the results are the empty string and the
/// block itself.
pub fn join_vertically(pos: Position, strs: &[String]) -> (r: String)
    ensures
        r@ == joined_vertical(texts(strs@), pos),
{
    if strs.len() == 0 {
        return String::new();
    }
    if strs.len() == 1 {
        return strs[0].clone();
    }
    let ghost blocks = texts(strs@);
    let mut all: Vec<String> = Vec::new();
    let mut k: usize = 0;
    while k < strs.len()
        invariant
            k <= strs.len(),
            blocks == texts(strs@),
            texts(all@) == stacked_lines(blocks.take(k as int)),
        decreases strs.len() - k,
    {
        assert(blocks.take(k + 1).drop_last() =~= blocks.take(k as int));
        let lines = split_lines(strs[k].as_str());
        let ghost before = texts(all@);
        let mut j: usize = 0;
        while j < lines.len()
            invariant
                j <= lines.len(),
                texts(all@) == before + texts(lines@).take(j as int),
            decreases lines.len() - j,
        {
            push_line(&mut all, lines[j].clone());
            j += 1;
        }
        k += 1;
    }
    assert(blocks.take(strs.len() as int) =~= blocks);
    let (widths, widest) = measure_lines(&all);
    let ghost lines = stacked_lines(blocks);
    let mut rows: Vec<String> = Vec::new();
    let mut i: usize = 0;
    while i < all.len()
        invariant
            i <= all.len(),
            rows.len() == i,
            widths.len() == all.len(),
            texts(all@) == lines,
            widest == widest_of(lines),
            forall|m: int| 0 <= m < all.len() ==> widths[m] == display_width_of(#[trigger] all[m]@),
            forall|p: int|
                0 <= p < i ==> (#[trigger] rows[p])@ == stacked_line(
                    lines[p],
                    pos,
                    (widest_of(lines) - display_width_of(lines[p])) as nat,
                ),
        decreases all.len() - i,
    {
        proof {
            lemma_widest_bounds(lines, i as int);
        }
        let short = widest - widths[i];
        let mut row = String::new();
        match pos {
            Position::Top | Position::Left => {
                let pad = repeat_char(' ', short);
                row.append(all[i].as_str());
                row.append(pad.as_str());
            },
            Position::Bottom | Position::Right => {
                let pad = repeat_char(' ', short);
                row.append(pad.as_str());
                row.append(all[i].as_str());
            },
            Position::Center => {
                let pad = repeat_char(' ', short / 2);
                row.append(pad.as_str());
                row.append(all[i].as_str());
                row.append(pad.as_str());
            },
        }
        rows.push(row);
        i += 1;
    }
    assert(texts(rows@) =~= stacked_rows(blocks, pos));
    join_lines(&rows)
}

} // verus!
