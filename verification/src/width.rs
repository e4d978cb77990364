//! Printable width: how many terminal columns a piece of text takes.
//!
//! The measuring itself is done by `textwrap`, which knows about wide glyphs,
//! zero-width marks and terminal escape sequences. This module gives the
//! measure a name that contracts can speak of, and builds on it the widths
//! that layout needs: of one glyph, of a run of glyphs, and of the widest
//! line of a block.

use vstd::prelude::*;
use crate::text::{blanks, glyph, lines_of, texts};

verus! {

/// The number of terminal columns that `textwrap` measures for a text.
pub uninterp spec fn display_width_of(text: Seq<char>) -> nat;

/// Measures a text with `textwrap::core::display_width`.
///
/// Nothing is proved of the measure; the contract only gives it its name, so
/// that two measurements of the same text are known to agree.
#[verifier::external_body]
pub(crate) fn display_width(text: &str) -> (w: usize)
    ensures
        w == display_width_of(text@),
{
    textwrap::core::display_width(text)
}

/// The columns of one glyph when it is laid out as filling: a blank is one
/// column, any other glyph is as wide as it measures on its own.
pub open spec fn glyph_width(c: char) -> nat {
    if c == ' ' {
        1
    } else {
        display_width_of(seq![c])
    }
}

/// The columns of a run of glyphs: the sum of their widths.
pub open spec fn columns(s: Seq<char>) -> nat
    decreases s.len(),
{
    if s.len() == 0 {
        0
    } else {
        columns(s.drop_last()) + glyph_width(s.last())
    }
}

/// The largest measured width among lines; 0 where there is none.
pub open spec fn widest_of(ls: Seq<Seq<char>>) -> nat
    decreases ls.len(),
{
    if ls.len() == 0 {
        0
    } else {
        let rest = widest_of(ls.drop_last());
        let w = display_width_of(ls.last());
        if w > rest {
            w
        } else {
            rest
        }
    }
}

/// The printable width of a block: that of its widest line.
pub open spec fn block_width(s: Seq<char>) -> nat {
    widest_of(lines_of(s))
}

/// No line is wider than the widest.
pub proof fn lemma_widest_bounds(ls: Seq<Seq<char>>, i: int)
    requires
        0 <= i < ls.len(),
    ensures
        display_width_of(ls[i]) <= widest_of(ls),
    decreases ls.len(),
{
    if i < ls.len() - 1 {
        lemma_widest_bounds(ls.drop_last(), i);
    }
}

/// A single glyph takes its own width in columns.
pub proof fn lemma_columns_single(c: char)
    ensures
        columns(seq![c]) == glyph_width(c),
{
    let s = seq![c];
    assert(columns(s.drop_last()) == 0);
}

/// Columns add up over concatenation.
pub proof fn lemma_columns_concat(a: Seq<char>, b: Seq<char>)
    ensures
        columns(a + b) == columns(a) + columns(b),
    decreases b.len(),
{
    if b.len() > 0 {
        lemma_columns_concat(a, b.drop_last());
        assert((a + b).drop_last() =~= a + b.drop_last());
    }
}

/// A run of `n` blanks takes `n` columns.
pub proof fn lemma_columns_blanks(n: nat)
    ensures
        columns(blanks(n)) == n,
    decreases n,
{
    if n > 0 {
        lemma_columns_blanks((n - 1) as nat);
        assert(blanks(n).drop_last() =~= blanks((n - 1) as nat));
    }
}

/// Measures one glyph as filling.
pub fn measure_glyph(c: char) -> (w: usize)
    ensures
        w == glyph_width(c),
{
    if c == ' ' {
        1
    } else {
        let s = glyph(c);
        display_width(s.as_str())
    }
}

/// Measures each glyph of a run.
pub fn measure_glyphs(run: &Vec<char>) -> (widths: Vec<usize>)
    ensures
        widths.len() == run.len(),
        forall|i: int| 0 <= i < run.len() ==> widths[i] == glyph_width(#[trigger] run[i]),
{
    let mut widths: Vec<usize> = Vec::new();
    let mut i: usize = 0;
    while i < run.len()
        invariant
            i <= run.len(),
            widths.len() == i,
            forall|k: int| 0 <= k < i ==> widths[k] == glyph_width(#[trigger] run[k]),
        decreases run.len() - i,
    {
        let w = measure_glyph(run[i]);
        widths.push(w);
        i += 1;
    }
    widths
}

/// Measures each line, and the widest of them.
pub fn measure_lines(lines: &Vec<String>) -> (r: (Vec<usize>, usize))
    ensures
        r.0.len() == lines.len(),
        forall|i: int| 0 <= i < lines.len() ==> r.0[i] == display_width_of(#[trigger] lines[i]@),
        r.1 == widest_of(texts(lines@)),
{
    let mut widths: Vec<usize> = Vec::new();
    let mut widest: usize = 0;
    let mut i: usize = 0;
    while i < lines.len()
        invariant
            i <= lines.len(),
            widths.len() == i,
            forall|k: int| 0 <= k < i ==> widths[k] == display_width_of(#[trigger] lines[k]@),
            widest == widest_of(texts(lines@).take(i as int)),
        decreases lines.len() - i,
    {
        assert(texts(lines@).take(i + 1).drop_last() =~= texts(lines@).take(i as int));
        let w = display_width(lines[i].as_str());
        if w > widest {
            widest = w;
        }
        widths.push(w);
        i += 1;
    }
    assert(texts(lines@).take(lines.len() as int) =~= texts(lines@));
    (widths, widest)
}

} // verus!
