//! Padding: blank columns beside the lines of a block, blank lines above and
//! below it.

use vstd::prelude::*;
use crate::ansi::{reset_code, reset_sequence};
use crate::text::{
    blanks, breaks, empty_lines, join_lines, lemma_lines_after_breaks, lemma_lines_before_breaks,
    lemma_wrapped_lines, line_count, lines_of, repeat_char, split_lines, unbroken, unlines,
    wrap_lines, wrapped_each,
};

verus! {

/// The text of an optional style prefix.
pub open spec fn style_text(style: Option<&String>) -> Option<Seq<char>> {
    match style {
        Some(s) => Some(s@),
        None => None,
    }
}

/// A run of `n` blank columns, behind the style prefix where there is one.
pub open spec fn fill_run(n: nat, style: Option<Seq<char>>) -> Seq<char> {
    match style {
        Some(prefix) => prefix + blanks(n),
        None => blanks(n),
    }
}

/// What closes a padded line: the reset sequence where the padding is
/// styled, so that the style does not run on; nothing where it is plain.
pub open spec fn fill_end(style: Option<Seq<char>>) -> Seq<char> {
    match style {
        Some(_) => reset_code(),
        None => Seq::empty(),
    }
}

/// A block with `n` blank columns before each line.
pub open spec fn padded_left(text: Seq<char>, n: nat, style: Option<Seq<char>>) -> Seq<char> {
    if n == 0 {
        text
    } else {
        unlines(wrapped_each(lines_of(text), fill_run(n, style), fill_end(style)))
    }
}

/// A block with `n` blank columns after each line.
pub open spec fn padded_right(text: Seq<char>, n: nat, style: Option<Seq<char>>) -> Seq<char> {
    if n == 0 {
        text
    } else {
        unlines(
            wrapped_each(lines_of(text), Seq::empty(), fill_run(n, style) + fill_end(style)),
        )
    }
}

/// A block with `n` empty lines above it.
pub open spec fn padded_top(text: Seq<char>, n: nat) -> Seq<char> {
    breaks(n) + text
}

/// A block with `n` empty lines below it.
pub open spec fn padded_bottom(text: Seq<char>, n: nat) -> Seq<char> {
    text + breaks(n)
}

/// A run of blank columns behind an optional style prefix.
pub fn make_fill(n: usize, style: Option<&String>) -> (r: String)
    ensures
        r@ == fill_run(n as nat, style_text(style)),
{
    let run = repeat_char(' ', n);
    match style {
        Some(prefix) => {
            let mut r = String::new();
            r.append(prefix.as_str());
            r.append(run.as_str());
            r
        },
        None => run,
    }
}

/// What closes a padded line.
pub fn make_fill_end(style: Option<&String>) -> (r: String)
    ensures
        r@ == fill_end(style_text(style)),
{
    match style {
        Some(_) => reset_sequence(),
        None => String::new(),
    }
}

/// Puts `n` blank columns before every line of a block. With a style, each
/// run of blanks follows the style prefix and each line ends with the reset
/// sequence. Padding by nothing leaves the block as it is.
pub fn pad_left(strs: &str, n: usize, style: Option<&String>) -> (r: String)
    ensures
        r@ == padded_left(strs@, n as nat, style_text(style)),
        n == 0 ==> r@ == strs@,
{
    if n == 0 {
        return strs.to_owned();
    }
    let lines = split_lines(strs);
    let fill = make_fill(n, style);
    let end = make_fill_end(style);
    let padded = wrap_lines(&lines, fill.as_str(), end.as_str());
    join_lines(&padded)
}

/// Puts `n` blank columns after every line of a block. With a style, each
/// run of blanks follows the style prefix and each line ends with the reset
/// sequence. Padding by nothing leaves the block as it is.
pub fn pad_right(strs: &str, n: usize, style: Option<&String>) -> (r: String)
    ensures
        r@ == padded_right(strs@, n as nat, style_text(style)),
        n == 0 ==> r@ == strs@,
{
    if n == 0 {
        return strs.to_owned();
    }
    let lines = split_lines(strs);
    let mut tail = make_fill(n, style);
    let end = make_fill_end(style);
    tail.append(end.as_str());
    let padded = wrap_lines(&lines, "", tail.as_str());
    proof {
        reveal_strlit("");
        assert(""@ =~= Seq::<char>::empty());
    }
    join_lines(&padded)
}

/// Puts `n` empty lines above a block.
pub fn pad_top(strs: &str, n: usize) -> (r: String)
    ensures
        r@ == padded_top(strs@, n as nat),
{
    let mut r = repeat_char('\n', n);
    r.append(strs);
    r
}

/// Puts `n` empty lines below a block.
pub fn pad_bottom(strs: &str, n: usize) -> (r: String)
    ensures
        r@ == padded_bottom(strs@, n as nat),
{
    let mut r = strs.to_owned();
    let run = repeat_char('\n', n);
    r.append(run.as_str());
    r
}

/// Padding at the left keeps the number of lines, so long as the style
/// prefix holds no line break.
pub proof fn lemma_pad_left_line_count(text: Seq<char>, n: nat, style: Option<Seq<char>>)
    requires
        style matches Some(prefix) ==> unbroken(prefix),
    ensures
        line_count(padded_left(text, n, style)) == line_count(text),
{
    if n > 0 {
        lemma_wrapped_lines(text, fill_run(n, style), fill_end(style));
    }
}

/// Padding at the right keeps the number of lines, so long as the style
/// prefix holds no line break.
pub proof fn lemma_pad_right_line_count(text: Seq<char>, n: nat, style: Option<Seq<char>>)
    requires
        style matches Some(prefix) ==> unbroken(prefix),
    ensures
        line_count(padded_right(text, n, style)) == line_count(text),
{
    if n > 0 {
        lemma_wrapped_lines(text, Seq::empty(), fill_run(n, style) + fill_end(style));
    }
}

/// Padding above adds only empty lines, so it leaves every line of the block,
/// and with them its width, as they were.
pub proof fn lemma_pad_top_lines(text: Seq<char>, n: nat)
    ensures
        lines_of(padded_top(text, n)) == empty_lines(n) + lines_of(text),
{
    lemma_lines_after_breaks(n, text);
}

/// Padding below adds only empty lines, so it leaves every line of the block,
/// and with them its width, as they were.
pub proof fn lemma_pad_bottom_lines(text: Seq<char>, n: nat)
    ensures
        lines_of(padded_bottom(text, n)) == lines_of(text) + empty_lines(n),
{
    lemma_lines_before_breaks(text, n);
}

} // verus!
