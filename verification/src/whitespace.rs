//! Filling: runs of a repeating glyph pattern that take up an exact number
//! of columns.

use vstd::prelude::*;
use crate::ansi::{background_sequence, foreground_sequence, is_color_sequence, reset_code, reset_sequence};
use crate::color::{ColorValue, Colour};
use crate::text::{blanks, repeat_char, to_chars};
use crate::width::{
    columns, glyph_width, lemma_columns_blanks, lemma_columns_concat, lemma_columns_single,
    measure_glyphs,
};

verus! {

/// How room around a block is filled: a style prefix and the glyphs that are
/// repeated to fill it.
pub struct WhiteSpace {
    pub style: String,
    pub chars: String,
}

/// One directive for filling: a piece of style prefix, or glyphs to fill
/// with.
pub enum WhiteSpaceType {
    Style(String),
    Chars(String),
}

/// The style prefixes among the directives, joined in order.
pub open spec fn merged_style(rules: Seq<WhiteSpaceType>) -> Seq<char>
    decreases rules.len(),
{
    if rules.len() == 0 {
        Seq::empty()
    } else {
        let rest = merged_style(rules.drop_last());
        match rules.last() {
            WhiteSpaceType::Style(s) => rest + s@,
            WhiteSpaceType::Chars(_) => rest,
        }
    }
}

/// The fill glyphs among the directives, joined in order.
pub open spec fn merged_chars(rules: Seq<WhiteSpaceType>) -> Seq<char>
    decreases rules.len(),
{
    if rules.len() == 0 {
        Seq::empty()
    } else {
        let rest = merged_chars(rules.drop_last());
        match rules.last() {
            WhiteSpaceType::Style(_) => rest,
            WhiteSpaceType::Chars(s) => rest + s@,
        }
    }
}

/// The glyphs that are repeated: the given ones, or a single blank where
/// none is given.
pub open spec fn fill_pattern(chars: Seq<char>) -> Seq<char> {
    if chars.len() == 0 {
        seq![' ']
    } else {
        chars
    }
}

/// The position after `j` in a pattern of `len` glyphs that is walked round
/// and round.
pub open spec fn next_in_cycle(j: int, len: nat) -> int {
    if j + 1 >= len {
        0
    } else {
        j + 1
    }
}

/// The glyphs laid down by walking the pattern from position `j` with
/// `budget` columns to fill. A glyph is laid down only if it fits in what is
/// left, so the walk never goes over; it ends at the first glyph that does
/// not fit. `stall` counts the glyphs without width laid down in a row: after
/// a whole round of them the walk ends too, as it would never fill a column.
pub open spec fn fill_walk(pattern: Seq<char>, budget: nat, j: int, stall: nat) -> Seq<char>
    decreases budget, pattern.len() - stall,
{
    if budget == 0 || !(0 <= j < pattern.len()) || stall >= pattern.len() {
        Seq::empty()
    } else {
        let w = glyph_width(pattern[j]);
        let next = next_in_cycle(j, pattern.len());
        if w == 0 {
            seq![pattern[j]] + fill_walk(pattern, budget, next, stall + 1)
        } else if w > budget {
            Seq::empty()
        } else {
            seq![pattern[j]] + fill_walk(pattern, (budget - w) as nat, next, 0)
        }
    }
}

/// The glyphs that fill `width` columns with a pattern: the walk of the
/// pattern, then blanks for the columns the walk left over.
pub open spec fn filling(chars: Seq<char>, width: nat) -> Seq<char> {
    let walked = fill_walk(fill_pattern(chars), width, 0, 0);
    walked + blanks((width - columns(walked)) as nat)
}

/// A rendered fill: style prefix, filling, reset sequence.
pub open spec fn rendered_fill(style: Seq<char>, chars: Seq<char>, width: nat) -> Seq<char> {
    style + filling(chars, width) + reset_code()
}

/// The walk of a pattern never takes more columns than its budget.
pub proof fn lemma_fill_walk_fits(pattern: Seq<char>, budget: nat, j: int, stall: nat)
    ensures
        columns(fill_walk(pattern, budget, j, stall)) <= budget,
    decreases budget, pattern.len() - stall,
{
    if budget > 0 && 0 <= j < pattern.len() && stall < pattern.len() {
        let w = glyph_width(pattern[j]);
        let next = next_in_cycle(j, pattern.len());
        let head = seq![pattern[j]];
        lemma_columns_single(pattern[j]);
        if w == 0 {
            lemma_fill_walk_fits(pattern, budget, next, stall + 1);
            lemma_columns_concat(head, fill_walk(pattern, budget, next, stall + 1));
        } else if w <= budget {
            lemma_fill_walk_fits(pattern, (budget - w) as nat, next, 0);
            lemma_columns_concat(head, fill_walk(pattern, (budget - w) as nat, next, 0));
        }
    }
}

/// A filling takes exactly as many columns as asked for, whatever the
/// pattern.
pub proof fn lemma_filling_exact(chars: Seq<char>, width: nat)
    ensures
        columns(filling(chars, width)) == width,
{
    let walked = fill_walk(fill_pattern(chars), width, 0, 0);
    lemma_fill_walk_fits(fill_pattern(chars), width, 0, 0);
    lemma_columns_blanks((width - columns(walked)) as nat);
    lemma_columns_concat(walked, blanks((width - columns(walked)) as nat));
}

impl WhiteSpace {
    /// Merges directives into one style prefix and one run of fill glyphs,
    /// each in the order given.
    pub fn new(rules: &[WhiteSpaceType]) -> (r: Self)
        ensures
            r.style@ == merged_style(rules@),
            r.chars@ == merged_chars(rules@),
    {
        let mut style = String::new();
        let mut chars = String::new();
        let mut i: usize = 0;
        while i < rules.len()
            invariant
                i <= rules.len(),
                style@ == merged_style(rules@.take(i as int)),
                chars@ == merged_chars(rules@.take(i as int)),
            decreases rules.len() - i,
        {
            assert(rules@.take(i + 1).drop_last() =~= rules@.take(i as int));
            match &rules[i] {
                WhiteSpaceType::Style(val) => {
                    style.append(val.as_str());
                },
                WhiteSpaceType::Chars(val) => {
                    chars.append(val.as_str());
                },
            }
            i += 1;
        }
        assert(rules@.take(rules.len() as int) =~= rules@);
        WhiteSpace { style, chars }
    }

    /// Renders `width` columns of filling: the style prefix, the pattern
    /// repeated as far as whole glyphs fit, blanks for the rest, and the
    /// reset sequence. The glyphs between prefix and reset take exactly
    /// `width` columns. Where no fill glyphs are set, a blank becomes the
    /// pattern.
    pub fn render(&mut self, width: usize) -> (r: String)
        ensures
            r@ == rendered_fill(old(self).style@, old(self).chars@, width as nat),
            columns(filling(old(self).chars@, width as nat)) == width,
            final(self).style == old(self).style,
            final(self).chars@ == fill_pattern(old(self).chars@),
    {
        if self.chars.as_str().is_empty() {
            self.chars = repeat_char(' ', 1);
        }
        let pattern = to_chars(self.chars.as_str());
        let widths = measure_glyphs(&pattern);
        let ghost whole = fill_walk(pattern@, width as nat, 0, 0);
        let mut body = String::new();
        let mut used: usize = 0;
        let mut j: usize = 0;
        let mut stall: usize = 0;
        let mut fits = true;
        while fits && used < width && stall < pattern.len()
            invariant
                0 < pattern.len(),
                pattern@ == fill_pattern(old(self).chars@),
                widths.len() == pattern.len(),
                forall|k: int| 0 <= k < pattern.len() ==> widths[k] == glyph_width(#[trigger] pattern[k]),
                used <= width,
                j < pattern.len(),
                stall <= pattern.len(),
                whole == fill_walk(pattern@, width as nat, 0, 0),
                fits ==> body@ + fill_walk(pattern@, (width - used) as nat, j as int, stall as nat)
                    == whole,
                !fits ==> body@ == whole,
                columns(body@) == used,
            decreases (if fits { 1int } else { 0int }), width - used, pattern.len() - stall,
        {
            let w = widths[j];
            let ghost before = body@;
            if w != 0 && w > width - used {
                fits = false;
            } else {
                let next = if j + 1 >= pattern.len() {
                    0
                } else {
                    j + 1
                };
                body.push(pattern[j]);
                assert(body@.drop_last() =~= before);
                if w == 0 {
                    stall += 1;
                } else {
                    used += w;
                    stall = 0;
                }
                j = next;
            }
        }
        let pad = repeat_char(' ', width - used);
        let reset = reset_sequence();
        let mut r = String::new();
        r.append(self.style.as_str());
        r.append(body.as_str());
        r.append(pad.as_str());
        r.append(reset.as_str());
        proof {
            lemma_filling_exact(old(self).chars@, width as nat);
        }
        r
    }
}

/// A directive that sets the glyphs to fill with.
pub fn with_whitespace_chars(strs: String) -> (r: WhiteSpaceType)
    ensures
        r == WhiteSpaceType::Chars(strs),
{
    WhiteSpaceType::Chars(strs)
}

/// A directive that colors the background of filling: the color's
/// background sequence as style prefix, or an empty prefix for an unset
/// color.
pub fn with_whitespace_bg(c: Colour) -> (r: WhiteSpaceType)
    ensures
        r is Style,
        !c.is_set() ==> r->Style_0@ == Seq::<char>::empty(),
        c.is_set() ==> is_color_sequence(r->Style_0@),
{
    match c.color {
        ColorValue::Color(val) => WhiteSpaceType::Style(background_sequence(val)),
        ColorValue::NoColor() => WhiteSpaceType::Style(String::new()),
    }
}

/// A directive that colors the glyphs of filling: the color's foreground
/// sequence as style prefix, or an empty prefix for an unset color.
pub fn with_whitespace_fg(c: Colour) -> (r: WhiteSpaceType)
    ensures
        r is Style,
        !c.is_set() ==> r->Style_0@ == Seq::<char>::empty(),
        c.is_set() ==> is_color_sequence(r->Style_0@),
{
    match c.color {
        ColorValue::Color(val) => WhiteSpaceType::Style(foreground_sequence(val)),
        ColorValue::NoColor() => WhiteSpaceType::Style(String::new()),
    }
}

} // verus!
