//! Blocks of text as sequences of characters, and the line structure that
//! every layout step works on.
//!
//! A block is a plain string. Its lines are what lies between line breaks, so
//! every block has at least one line, and a block that ends in a line break
//! has an empty last line.

use vstd::prelude::*;

verus! {

/// Appending a character extends the string's contents by that character.
pub assume_specification[ String::push ](s: &mut String, c: char)
    ensures
        final(s)@ == old(s)@.push(c),
;

/// The character that separates lines.
pub open spec fn line_break() -> char {
    '\n'
}

/// The contents of each string of a sequence of strings.
pub open spec fn texts(v: Seq<String>) -> Seq<Seq<char>> {
    Seq::new(v.len(), |i: int| v[i]@)
}

/// `n` copies of the character `c`.
pub open spec fn repeated(c: char, n: nat) -> Seq<char> {
    Seq::new(n, |i: int| c)
}

/// `n` blank columns.
pub open spec fn blanks(n: nat) -> Seq<char> {
    repeated(' ', n)
}

/// `n` line breaks.
pub open spec fn breaks(n: nat) -> Seq<char> {
    repeated(line_break(), n)
}

/// `n` copies of the text `t`, one after the other.
pub open spec fn replicate(t: Seq<char>, n: nat) -> Seq<char>
    decreases n,
{
    if n == 0 {
        Seq::empty()
    } else {
        replicate(t, (n - 1) as nat) + t
    }
}

/// The lines of a block: the pieces between its line breaks, in order.
pub open spec fn lines_of(s: Seq<char>) -> Seq<Seq<char>>
    decreases s.len(),
{
    if s.len() == 0 {
        seq![Seq::empty()]
    } else {
        let init = lines_of(s.drop_last());
        if s.last() == line_break() {
            init.push(Seq::empty())
        } else {
            init.update(init.len() - 1, init.last().push(s.last()))
        }
    }
}

/// The block whose lines are `ls`: the lines with one line break between
/// each two neighbours.
pub open spec fn unlines(ls: Seq<Seq<char>>) -> Seq<char>
    decreases ls.len(),
{
    if ls.len() == 0 {
        Seq::empty()
    } else if ls.len() == 1 {
        ls[0]
    } else {
        unlines(ls.drop_last()) + seq![line_break()] + ls.last()
    }
}

/// The number of lines of a block.
pub open spec fn line_count(s: Seq<char>) -> nat {
    lines_of(s).len()
}

/// The number of line breaks in a text.
pub open spec fn break_count(s: Seq<char>) -> nat
    decreases s.len(),
{
    if s.len() == 0 {
        0
    } else {
        break_count(s.drop_last()) + if s.last() == line_break() {
            1nat
        } else {
            0nat
        }
    }
}

/// Whether a text is free of line breaks.
pub open spec fn unbroken(s: Seq<char>) -> bool {
    forall|i: int| 0 <= i < s.len() ==> s[i] != line_break()
}

/// A text with its line breaks taken out.
pub open spec fn without_breaks(s: Seq<char>) -> Seq<char> {
    s.filter(|c: char| c != line_break())
}

/// Each line with `prefix` put before it and `suffix` after it.
pub open spec fn wrapped_each(ls: Seq<Seq<char>>, prefix: Seq<char>, suffix: Seq<char>) -> Seq<
    Seq<char>,
> {
    Seq::new(ls.len(), |i: int| prefix + ls[i] + suffix)
}

/// `n` empty lines.
pub open spec fn empty_lines(n: nat) -> Seq<Seq<char>> {
    Seq::new(n, |i: int| Seq::<char>::empty())
}

/// A block has at least one line, and one more line than line breaks.
pub proof fn lemma_line_count(s: Seq<char>)
    ensures
        lines_of(s).len() == break_count(s) + 1,
    decreases s.len(),
{
    if s.len() > 0 {
        lemma_line_count(s.drop_last());
    }
}

/// No line of a block holds a line break.
pub proof fn lemma_lines_unbroken(s: Seq<char>)
    ensures
        forall|i: int| 0 <= i < lines_of(s).len() ==> unbroken(#[trigger] lines_of(s)[i]),
    decreases s.len(),
{
    if s.len() > 0 {
        lemma_lines_unbroken(s.drop_last());
        lemma_line_count(s.drop_last());
    }
}

/// Line breaks add up over concatenation.
pub proof fn lemma_break_count_concat(a: Seq<char>, b: Seq<char>)
    ensures
        break_count(a + b) == break_count(a) + break_count(b),
    decreases b.len(),
{
    if b.len() > 0 {
        lemma_break_count_concat(a, b.drop_last());
        assert((a + b).drop_last() =~= a + b.drop_last());
    }
}

/// A run of one repeated character holds as many line breaks as it is long
/// if the character is the line break, and none otherwise.
pub proof fn lemma_break_count_repeated(c: char, n: nat)
    ensures
        break_count(repeated(c, n)) == if c == line_break() {
            n
        } else {
            0
        },
    decreases n,
{
    if n > 0 {
        lemma_break_count_repeated(c, (n - 1) as nat);
        assert(repeated(c, n).drop_last() =~= repeated(c, (n - 1) as nat));
    }
}

/// The lines of a text that holds no line break: the text itself.
pub proof fn lemma_lines_of_unbroken(s: Seq<char>)
    requires
        unbroken(s),
    ensures
        lines_of(s) =~= seq![s],
    decreases s.len(),
{
    if s.len() == 0 {
        assert(s =~= Seq::<char>::empty());
    } else {
        let p = s.drop_last();
        lemma_lines_of_unbroken(p);
        assert(p.push(s.last()) =~= s);
    }
}

/// Appending a text without line breaks extends the last line.
pub proof fn lemma_lines_append_unbroken(s: Seq<char>, t: Seq<char>)
    requires
        unbroken(t),
    ensures
        lines_of(s + t) =~= lines_of(s).update(
            lines_of(s).len() - 1,
            lines_of(s).last() + t,
        ),
    decreases t.len(),
{
    lemma_line_count(s);
    if t.len() > 0 {
        lemma_lines_append_unbroken(s, t.drop_last());
        assert((s + t).drop_last() =~= s + t.drop_last());
        assert((lines_of(s).last() + t.drop_last()).push(t.last()) =~= lines_of(s).last() + t);
    }
}

/// Appending a line break and a text without line breaks adds that text as a
/// new last line.
pub proof fn lemma_lines_append_line(s: Seq<char>, t: Seq<char>)
    requires
        unbroken(t),
    ensures
        lines_of(s + seq![line_break()] + t) =~= lines_of(s).push(t),
{
    let sb = s + seq![line_break()];
    assert(sb.drop_last() =~= s);
    lemma_lines_append_unbroken(sb, t);
}

/// Splitting what `unlines` built gives the lines back, when there is at
/// least one line and no line holds a line break.
pub proof fn lemma_lines_of_unlines(ls: Seq<Seq<char>>)
    requires
        ls.len() >= 1,
        forall|i: int| 0 <= i < ls.len() ==> unbroken(#[trigger] ls[i]),
    ensures
        lines_of(unlines(ls)) =~= ls,
    decreases ls.len(),
{
    if ls.len() == 1 {
        lemma_lines_of_unbroken(ls[0]);
    } else {
        lemma_lines_of_unlines(ls.drop_last());
        lemma_lines_append_line(unlines(ls.drop_last()), ls.last());
    }
}

/// Joining the lines of a block gives the block back.
pub proof fn lemma_unlines_lines_of(s: Seq<char>)
    ensures
        unlines(lines_of(s)) =~= s,
    decreases s.len(),
{
    if s.len() > 0 {
        let p = s.drop_last();
        let init = lines_of(p);
        lemma_unlines_lines_of(p);
        lemma_line_count(p);
        assert(p.push(s.last()) =~= s);
        if s.last() == line_break() {
            assert(init.push(Seq::empty()).drop_last() =~= init);
        } else {
            let next = init.update(init.len() - 1, init.last().push(s.last()));
            if init.len() > 1 {
                assert(next.drop_last() =~= init.drop_last());
            }
        }
    }
}

/// Putting a text without line breaks around each line of a block, and
/// joining the lines again, keeps the number of lines.
pub proof fn lemma_wrapped_lines(s: Seq<char>, prefix: Seq<char>, suffix: Seq<char>)
    requires
        unbroken(prefix),
        unbroken(suffix),
    ensures
        lines_of(unlines(wrapped_each(lines_of(s), prefix, suffix))) =~= wrapped_each(
            lines_of(s),
            prefix,
            suffix,
        ),
{
    let ls = wrapped_each(lines_of(s), prefix, suffix);
    lemma_line_count(s);
    lemma_lines_unbroken(s);
    assert(forall|i: int| 0 <= i < ls.len() ==> unbroken(#[trigger] ls[i]));
    lemma_lines_of_unlines(ls);
}

/// Line breaks put before a block add empty lines before its lines.
pub proof fn lemma_lines_after_breaks(n: nat, s: Seq<char>)
    ensures
        lines_of(breaks(n) + s) =~= empty_lines(n) + lines_of(s),
    decreases s.len(),
{
    if s.len() == 0 {
        lemma_lines_of_breaks(n);
    } else {
        lemma_lines_after_breaks(n, s.drop_last());
        lemma_line_count(s.drop_last());
        assert((breaks(n) + s).drop_last() =~= breaks(n) + s.drop_last());
    }
}

/// A run of `n` line breaks has `n + 1` empty lines.
pub proof fn lemma_lines_of_breaks(n: nat)
    ensures
        lines_of(breaks(n)) =~= empty_lines(n + 1),
    decreases n,
{
    if n > 0 {
        lemma_lines_of_breaks((n - 1) as nat);
        assert(breaks(n).drop_last() =~= breaks((n - 1) as nat));
    }
}

/// Line breaks put after a block add empty lines after its lines.
pub proof fn lemma_lines_before_breaks(s: Seq<char>, n: nat)
    ensures
        lines_of(s + breaks(n)) =~= lines_of(s) + empty_lines(n),
    decreases n,
{
    if n > 0 {
        lemma_lines_before_breaks(s, (n - 1) as nat);
        assert((s + breaks(n)).drop_last() =~= s + breaks((n - 1) as nat));
    }
}

/// The line break, as a string.
pub fn break_str() -> (s: &'static str)
    ensures
        s@ == seq![line_break()],
{
    proof {
        reveal_strlit("\n");
    }
    "\n"
}

/// The characters of a string, in order.
pub fn to_chars(s: &str) -> (v: Vec<char>)
    ensures
        v@ == s@,
{
    let mut v: Vec<char> = Vec::new();
    let chars = s.chars();
    for c in it: chars
        invariant
            it.seq() == s@,
            v@ == s@.take(it.index()),
    {
        v.push(c);
    }
    v
}

/// The string that holds the single character `c`.
pub fn glyph(c: char) -> (s: String)
    ensures
        s@ == seq![c],
{
    let mut s = String::new();
    s.push(c);
    s
}

/// A string of `n` copies of `c`.
pub fn repeat_char(c: char, n: usize) -> (s: String)
    ensures
        s@ == repeated(c, n as nat),
{
    let mut s = String::new();
    let mut i: usize = 0;
    while i < n
        invariant
            i <= n,
            s@ == repeated(c, i as nat),
        decreases n - i,
    {
        s.push(c);
        i += 1;
    }
    s
}

/// A string of `n` copies of `t`.
pub fn repeat_text(t: &str, n: usize) -> (s: String)
    ensures
        s@ == replicate(t@, n as nat),
{
    let mut s = String::new();
    let mut i: usize = 0;
    while i < n
        invariant
            i <= n,
            s@ == replicate(t@, i as nat),
        decreases n - i,
    {
        s.append(t);
        i += 1;
    }
    s
}

/// Splits a block into its lines.
pub fn split_lines(s: &str) -> (lines: Vec<String>)
    ensures
        texts(lines@) == lines_of(s@),
        lines.len() >= 1,
{
    let mut lines: Vec<String> = Vec::new();
    let mut current = String::new();
    let chars = s.chars();
    for c in it: chars
        invariant
            it.seq() == s@,
            texts(lines@).push(current@) == lines_of(s@.take(it.index())),
    {
        let ghost done = s@.take(it.index());
        let ghost next = s@.take(it.index() + 1);
        assert(next.drop_last() =~= done);
        if c == '\n' {
            lines.push(current);
            current = String::new();
        } else {
            current.push(c);
        }
    }
    assert(s@.take(s@.len() as int) =~= s@);
    lines.push(current);
    lines
}

/// Joins lines into a block, with a line break between each two.
pub fn join_lines(lines: &Vec<String>) -> (s: String)
    ensures
        s@ == unlines(texts(lines@)),
{
    let mut s = String::new();
    let mut i: usize = 0;
    while i < lines.len()
        invariant
            i <= lines.len(),
            s@ == unlines(texts(lines@).take(i as int)),
        decreases lines.len() - i,
    {
        let ghost before = texts(lines@).take(i as int);
        let ghost after = texts(lines@).take(i + 1);
        assert(after.drop_last() =~= before);
        if i > 0 {
            s.append(break_str());
        }
        s.append(lines[i].as_str());
        i += 1;
    }
    assert(texts(lines@).take(lines.len() as int) =~= texts(lines@));
    s
}

/// Adds a line at the end of a list of lines.
pub fn push_line(lines: &mut Vec<String>, line: String)
    ensures
        final(lines)@ == old(lines)@.push(line),
        texts(final(lines)@) == texts(old(lines)@).push(line@),
{
    let ghost before = lines@;
    lines.push(line);
}

/// Puts `prefix` before and `suffix` after each line.
pub fn wrap_lines(lines: &Vec<String>, prefix: &str, suffix: &str) -> (out: Vec<String>)
    ensures
        texts(out@) == wrapped_each(texts(lines@), prefix@, suffix@),
{
    let mut out: Vec<String> = Vec::new();
    let mut i: usize = 0;
    while i < lines.len()
        invariant
            i <= lines.len(),
            out.len() == i,
            forall|k: int| 0 <= k < i ==> (#[trigger] out[k])@ == prefix@ + lines[k]@ + suffix@,
        decreases lines.len() - i,
    {
        let mut line = String::new();
        line.append(prefix);
        line.append(lines[i].as_str());
        line.append(suffix);
        out.push(line);
        i += 1;
    }
    out
}

/// A copy of the text with its line breaks removed.
pub fn strip_breaks(s: &str) -> (r: String)
    ensures
        r@ == without_breaks(s@),
{
    let mut r = String::new();
    let chars = s.chars();
    for c in it: chars
        invariant
            it.seq() == s@,
            r@ == without_breaks(s@.take(it.index())),
    {
        let ghost done = s@.take(it.index());
        let ghost next = s@.take(it.index() + 1);
        assert(next.drop_last() =~= done);
        proof {
            reveal(Seq::filter);
        }
        if c != '\n' {
            r.push(c);
        }
    }
    assert(s@.take(s@.len() as int) =~= s@);
    r
}

} // verus!
