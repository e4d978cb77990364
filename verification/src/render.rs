//! Rendering: the steps that turn a style and a text into a block, in the
//! order in which they are taken.
//!
//! The text is put behind the style's own text and, for an inline style,
//! freed of line breaks; it is wrapped to the width less the padding beside
//! it; it is emphasized; it is padded; it is aligned, in height and then in
//! width; it gets its border and its margins; and it is cut to the largest
//! width and height allowed.

use vstd::prelude::*;
use crate::align::{align_text_horizontal, align_text_vertical, aligned_horizontal, aligned_vertical};
use crate::ansi::{emphasis_code, emphasis_sequence, escape, reset_code, reset_sequence, terminator, Emphasis};
use crate::color::ColorValue;
use crate::frame::{opt, Ink, InkView};
use crate::padding::{
    pad_bottom, pad_left, pad_right, pad_top, padded_bottom, padded_left, padded_right,
    padded_top,
};
use crate::style::{Props, Style};
use crate::text::{
    join_lines, lemma_unlines_lines_of, line_break, line_count, lines_of, split_lines,
    strip_breaks, texts, unlines, without_breaks,
};

verus! {

/// What `textwrap` makes of a text when it fills it to a width: the text
/// with its words rearranged into lines of at most that many columns.
pub uninterp spec fn fill_result(text: Seq<char>, width: usize) -> Seq<char>;

/// Wraps a text to a width with `textwrap::fill`.
///
/// Nothing is proved of the wrapped text; the contract only gives it its
/// name, so that the same text and width are known to give the same result.
#[verifier::external_body]
pub(crate) fn wrap_text(text: &str, width: usize) -> (r: String)
    ensures
        r@ == fill_result(text@, width),
{
    textwrap::fill(text, width)
}

/// Whether a character is white space: one of the characters to which
/// Unicode gives the property `White_Space`.
pub open spec fn is_white_space(c: char) -> bool {
    let n = c as u32;
    ||| 0x09 <= n <= 0x0D
    ||| n == 0x20
    ||| n == 0x85
    ||| n == 0xA0
    ||| n == 0x1680
    ||| 0x2000 <= n <= 0x200A
    ||| n == 0x2028
    ||| n == 0x2029
    ||| n == 0x202F
    ||| n == 0x205F
    ||| n == 0x3000
}

/// `char::is_whitespace` tells whether a character has the Unicode property
/// `White_Space`.
pub assume_specification[ char::is_whitespace ](c: char) -> (b: bool)
    ensures
        b == is_white_space(c),
;

/// A line emphasized glyph by glyph: every glyph stands behind a style
/// prefix, that for white space or that for all else, and before the reset
/// sequence.
pub open spec fn emphasized_glyphs(line: Seq<char>, main: Seq<char>, space: Seq<char>) -> Seq<char>
    decreases line.len(),
{
    if line.len() == 0 {
        Seq::empty()
    } else {
        let prefix = if is_white_space(line.last()) {
            space
        } else {
            main
        };
        emphasized_glyphs(line.drop_last(), main, space) + prefix + seq![line.last()]
            + reset_code()
    }
}

/// A line emphasized: as a whole behind the main style prefix and before the
/// reset sequence, or glyph by glyph.
pub open spec fn emphasized_line(
    line: Seq<char>,
    main: Seq<char>,
    space: Seq<char>,
    by_glyph: bool,
) -> Seq<char> {
    if by_glyph {
        emphasized_glyphs(line, main, space)
    } else {
        main + line + reset_code()
    }
}

/// A block with every line emphasized.
pub open spec fn emphasized(text: Seq<char>, main: Seq<char>, space: Seq<char>, by_glyph: bool) -> Seq<
    char,
> {
    let ls = lines_of(text);
    unlines(Seq::new(ls.len(), |i: int| emphasized_line(ls[i], main, space, by_glyph)))
}

/// Where the cutting of a text to a width stands: what is kept so far, how
/// many columns of the current line are taken, and whether an escape
/// sequence is being passed through.
pub struct Cut {
    pub kept: Seq<char>,
    pub taken: nat,
    pub escaped: bool,
}

/// The cutting of a text to `max` columns a line. A line break is kept and
/// starts a new line. An escape sequence, from its introducer to its
/// terminator, is kept whole and takes no column. Any other character takes
/// one column, and is kept while the line has fewer than `max`.
pub open spec fn cut(s: Seq<char>, max: nat) -> Cut
    decreases s.len(),
{
    if s.len() == 0 {
        Cut { kept: Seq::empty(), taken: 0, escaped: false }
    } else {
        let before = cut(s.drop_last(), max);
        let c = s.last();
        if c == line_break() {
            Cut { kept: before.kept.push(c), taken: 0, escaped: false }
        } else if before.escaped {
            Cut { kept: before.kept.push(c), taken: before.taken, escaped: c != terminator() }
        } else if c == escape() {
            Cut { kept: before.kept.push(c), taken: before.taken, escaped: true }
        } else if before.taken < max {
            Cut { kept: before.kept.push(c), taken: before.taken + 1, escaped: false }
        } else {
            before
        }
    }
}

/// A block with every line cut to `max` columns.
pub open spec fn truncated(s: Seq<char>, max: nat) -> Seq<char> {
    cut(s, max).kept
}

/// The first `n` lines of a block; the whole block where it has no more.
pub open spec fn kept_lines(s: Seq<char>, n: nat) -> Seq<char> {
    let ls = lines_of(s);
    if n >= ls.len() {
        unlines(ls)
    } else {
        unlines(ls.take(n as int))
    }
}

/// Emphasizes one line glyph by glyph.
fn emphasize_glyphs(line: &str, main: &str, space: &str, reset: &str) -> (r: String)
    requires
        reset@ == reset_code(),
    ensures
        r@ == emphasized_glyphs(line@, main@, space@),
{
    let mut r = String::new();
    let chars = line.chars();
    for c in it: chars
        invariant
            it.seq() == line@,
            reset@ == reset_code(),
            r@ == emphasized_glyphs(line@.take(it.index()), main@, space@),
    {
        let ghost done = line@.take(it.index());
        let ghost next = line@.take(it.index() + 1);
        assert(next.drop_last() =~= done);
        if c.is_whitespace() {
            r.append(space);
        } else {
            r.append(main);
        }
        r.push(c);
        r.append(reset);
    }
    assert(line@.take(line@.len() as int) =~= line@);
    r
}

/// Emphasizes every line of a block: as a whole, or glyph by glyph with a
/// style of its own for white space.
pub fn emphasize(text: &str, main: &str, space: &str, by_glyph: bool) -> (r: String)
    ensures
        r@ == emphasized(text@, main@, space@, by_glyph),
{
    let lines = split_lines(text);
    let reset = reset_sequence();
    let ghost ls = lines_of(text@);
    let mut out: Vec<String> = Vec::new();
    let mut i: usize = 0;
    while i < lines.len()
        invariant
            i <= lines.len(),
            out.len() == i,
            texts(lines@) == ls,
            reset@ == reset_code(),
            forall|k: int|
                0 <= k < i ==> (#[trigger] out[k])@ == emphasized_line(
                    ls[k],
                    main@,
                    space@,
                    by_glyph,
                ),
        decreases lines.len() - i,
    {
        let line = if by_glyph {
            emphasize_glyphs(lines[i].as_str(), main, space, reset.as_str())
        } else {
            let mut line = String::new();
            line.append(main);
            line.append(lines[i].as_str());
            line.append(reset.as_str());
            line
        };
        out.push(line);
        i += 1;
    }
    assert(texts(out@) =~= Seq::new(
        ls.len(),
        |k: int| emphasized_line(ls[k], main@, space@, by_glyph),
    ));
    join_lines(&out)
}

/// Cuts every line of a block to `max_width` columns. Escape sequences are
/// passed through whole and take no column; every other character takes one.
pub fn truncated_string(strs: &str, max_width: usize) -> (r: String)
    ensures
        r@ == truncated(strs@, max_width as nat),
{
    let mut r = String::new();
    let mut taken: usize = 0;
    let mut escaped = false;
    let chars = strs.chars();
    for c in it: chars
        invariant
            it.seq() == strs@,
            taken <= max_width,
            (Cut { kept: r@, taken: taken as nat, escaped }) == cut(
                strs@.take(it.index()),
                max_width as nat,
            ),
    {
        let ghost done = strs@.take(it.index());
        let ghost next = strs@.take(it.index() + 1);
        assert(next.drop_last() =~= done);
        if c == '\n' {
            r.push(c);
            taken = 0;
            escaped = false;
        } else if escaped {
            r.push(c);
            escaped = c != 'm';
        } else if c == '\u{1b}' {
            r.push(c);
            escaped = true;
        } else if taken < max_width {
            r.push(c);
            taken += 1;
        }
    }
    assert(strs@.take(strs@.len() as int) =~= strs@);
    r
}

/// Keeps the first `max_height` lines of a block.
pub fn keep_lines(strs: &str, max_height: usize) -> (r: String)
    ensures
        r@ == kept_lines(strs@, max_height as nat),
        max_height >= line_count(strs@) ==> r@ == strs@,
{
    let lines = split_lines(strs);
    let mut kept: Vec<String> = Vec::new();
    let mut i: usize = 0;
    while i < lines.len() && i < max_height
        invariant
            i <= lines.len(),
            i <= max_height,
            kept.len() == i,
            forall|k: int| 0 <= k < i ==> (#[trigger] kept[k])@ == lines[k]@,
        decreases lines.len() - i,
    {
        kept.push(lines[i].clone());
        i += 1;
    }
    proof {
        if max_height >= lines.len() {
            assert(texts(kept@) =~= lines_of(strs@));
            lemma_unlines_lines_of(strs@);
        } else {
            assert(texts(kept@) =~= lines_of(strs@).take(max_height as int));
        }
    }
    join_lines(&kept)
}

/// Adds a text to a string if a condition holds.
fn append_if(s: &mut String, on: bool, t: &str)
    ensures
        final(s)@ == old(s)@ + opt(on, t@),
{
    if on {
        s.append(t);
    }
}

impl Style {
    /// Whether white space gets a style of its own: it does where text is
    /// underlined or struck through and that holds for the blanks between
    /// words too.
    pub open spec fn styles_spaces(&self) -> bool {
        self.underlines_spaces() || self.strikes_spaces()
    }

    /// Whether white space is underlined.
    pub open spec fn underlines_spaces(&self) -> bool {
        self.flag(Props::UnderlineKey, false) && self.flag(Props::UnderlineSpacesKey, true)
    }

    /// Whether white space is struck through.
    pub open spec fn strikes_spaces(&self) -> bool {
        self.flag(Props::StrikethroughKey, false) && self.flag(
            Props::StrikethroughSpacesKey,
            true,
        )
    }

    /// The style prefix of text: the sequences of the kinds of emphasis that
    /// are on, then those of background, foreground and text color as far as
    /// they are set.
    pub open spec fn main_style(&self, ink: InkView) -> Seq<char> {
        opt(self.flag(Props::BoldKey, false), emphasis_code(Emphasis::Bold)) + opt(
            self.flag(Props::ItalicKey, false),
            emphasis_code(Emphasis::Italic),
        ) + opt(self.flag(Props::UnderlineKey, false), emphasis_code(Emphasis::Underline)) + opt(
            self.flag(Props::StrikethroughKey, false),
            emphasis_code(Emphasis::Strikethrough),
        ) + opt(self.flag(Props::ReverseKey, false), emphasis_code(Emphasis::Reverse)) + opt(
            self.flag(Props::BlinkKey, false),
            emphasis_code(Emphasis::Blink),
        ) + opt(self.flag(Props::FaintKey, false), emphasis_code(Emphasis::Faint)) + opt(
            self.colour(Props::BackgroundKey).is_set(),
            ink.background,
        ) + opt(self.colour(Props::ForegroundKey).is_set(), ink.foreground) + opt(
            self.colour(Props::TextColorKey).is_set(),
            ink.text,
        )
    }

    /// The style prefix of blank columns: the sequences of foreground and
    /// background as far as they are set, where white space is colored.
    pub open spec fn blank_style(&self, ink: InkView) -> Seq<char> {
        let on = self.flag(Props::ColorWhitespaceKey, true);
        opt(on && self.colour(Props::ForegroundKey).is_set(), ink.foreground) + opt(
            on && self.colour(Props::BackgroundKey).is_set(),
            ink.background,
        )
    }

    /// The style prefix of white space within text, where it has a style of
    /// its own: the sequences of foreground and background as far as they
    /// are set, then underline and strike-through as far as they hold for
    /// white space.
    pub open spec fn space_style(&self, ink: InkView) -> Seq<char> {
        let on = self.styles_spaces();
        opt(on && self.colour(Props::ForegroundKey).is_set(), ink.foreground) + opt(
            on && self.colour(Props::BackgroundKey).is_set(),
            ink.background,
        ) + opt(self.underlines_spaces(), emphasis_code(Emphasis::Underline)) + opt(
            self.strikes_spaces(),
            emphasis_code(Emphasis::Strikethrough),
        )
    }

    /// The style of the blank columns that padding and alignment add, if
    /// they are styled at all.
    pub open spec fn fill_style(&self, ink: InkView) -> Option<Seq<char>> {
        if self.flag(Props::ColorWhitespaceKey, true) || self.flag(Props::ReverseKey, false) {
            Some(self.blank_style(ink))
        } else {
            None
        }
    }

    /// The text that is rendered: the style's own text, then the text given;
    /// without line breaks for an inline style.
    pub open spec fn prepared(&self, text: Seq<char>) -> Seq<char> {
        let whole = self.value@ + text;
        if self.flag(Props::InlineKey, false) {
            without_breaks(whole)
        } else {
            whole
        }
    }

    /// The columns that text is wrapped to: the width less the padding
    /// beside the text, and zero where the padding takes all of it.
    pub open spec fn wrap_budget(&self) -> usize {
        let width = self.count(Props::WidthKey);
        let left = self.count(Props::PaddingLeftKey);
        let right = self.count(Props::PaddingRightKey);
        if width <= left {
            0
        } else if width - left <= right {
            0
        } else {
            (width - left - right) as usize
        }
    }

    /// The prepared text, wrapped where the style has a width and is not
    /// inline.
    pub open spec fn wrapped(&self, text: Seq<char>) -> Seq<char> {
        if !self.flag(Props::InlineKey, false) && self.count(Props::WidthKey) > 0 {
            fill_result(self.prepared(text), self.wrap_budget())
        } else {
            self.prepared(text)
        }
    }

    /// What a wrapped text is rendered to: emphasized, padded, aligned,
    /// framed and cut, each step as the style's attributes say and working
    /// on what the step before it made.
    pub open spec fn composed(&self, ink: InkView, text: Seq<char>) -> Seq<char> {
        let inline = self.flag(Props::InlineKey, false);
        let fill = self.fill_style(ink);
        let emphasis = emphasized(
            text,
            self.main_style(ink),
            self.space_style(ink),
            self.styles_spaces(),
        );
        let padding = if inline {
            emphasis
        } else {
            padded_bottom(
                padded_top(
                    padded_right(
                        padded_left(emphasis, self.count(Props::PaddingLeftKey) as nat, fill),
                        self.count(Props::PaddingRightKey) as nat,
                        fill,
                    ),
                    self.count(Props::PaddingTopKey) as nat,
                ),
                self.count(Props::PaddingBottomKey) as nat,
            )
        };
        let raised = if self.count(Props::HeightKey) > 0 {
            aligned_vertical(
                padding,
                self.anchor(Props::AlignVerticalKey),
                self.count(Props::HeightKey) as nat,
            )
        } else {
            padding
        };
        let aligned = aligned_horizontal(
            raised,
            self.anchor(Props::AlignHorizontalKey),
            self.count(Props::WidthKey) as nat,
            fill,
        );
        let boxed = if inline {
            aligned
        } else {
            self.with_margins(self.bordered(aligned, ink), ink, false)
        };
        let narrowed = if self.count(Props::MaxWidthKey) > 0 {
            truncated(boxed, self.count(Props::MaxWidthKey) as nat)
        } else {
            boxed
        };
        if self.count(Props::MaxHeightKey) > 0 {
            kept_lines(narrowed, self.count(Props::MaxHeightKey) as nat)
        } else {
            narrowed
        }
    }

    /// The style prefix of text.
    fn make_main_style(&self, ink: &Ink) -> (r: String)
        ensures
            r@ == self.main_style(ink@),
    {
        let mut r = String::new();
        let bold = emphasis_sequence(Emphasis::Bold);
        let italic = emphasis_sequence(Emphasis::Italic);
        let underline = emphasis_sequence(Emphasis::Underline);
        let strikethrough = emphasis_sequence(Emphasis::Strikethrough);
        let reverse = emphasis_sequence(Emphasis::Reverse);
        let blink = emphasis_sequence(Emphasis::Blink);
        let faint = emphasis_sequence(Emphasis::Faint);
        append_if(&mut r, self.get_as_bool(Props::BoldKey, false), bold.as_str());
        append_if(&mut r, self.get_as_bool(Props::ItalicKey, false), italic.as_str());
        append_if(&mut r, self.get_as_bool(Props::UnderlineKey, false), underline.as_str());
        append_if(&mut r, self.get_as_bool(Props::StrikethroughKey, false), strikethrough.as_str());
        append_if(&mut r, self.get_as_bool(Props::ReverseKey, false), reverse.as_str());
        append_if(&mut r, self.get_as_bool(Props::BlinkKey, false), blink.as_str());
        append_if(&mut r, self.get_as_bool(Props::FaintKey, false), faint.as_str());
        append_if(&mut r, self.has_color(Props::BackgroundKey), ink.background.as_str());
        append_if(&mut r, self.has_color(Props::ForegroundKey), ink.foreground.as_str());
        append_if(&mut r, self.has_color(Props::TextColorKey), ink.text.as_str());
        r
    }

    /// Whether a color attribute is set to a color.
    pub fn has_color(&self, prop: Props) -> (b: bool)
        ensures
            b == self.colour(prop).is_set(),
    {
        match self.get_as_color(prop).color {
            ColorValue::Color(_) => true,
            ColorValue::NoColor() => false,
        }
    }

    /// The style prefix of blank columns.
    fn make_blank_style(&self, ink: &Ink) -> (r: String)
        ensures
            r@ == self.blank_style(ink@),
    {
        let on = self.get_as_bool(Props::ColorWhitespaceKey, true);
        let mut r = String::new();
        append_if(&mut r, on && self.has_color(Props::ForegroundKey), ink.foreground.as_str());
        append_if(&mut r, on && self.has_color(Props::BackgroundKey), ink.background.as_str());
        r
    }

    /// Whether white space is underlined, and whether it is struck through.
    fn space_emphasis(&self) -> (r: (bool, bool))
        ensures
            r.0 == self.underlines_spaces(),
            r.1 == self.strikes_spaces(),
    {
        (
            self.get_as_bool(Props::UnderlineKey, false) && self.get_as_bool(
                Props::UnderlineSpacesKey,
                true,
            ),
            self.get_as_bool(Props::StrikethroughKey, false) && self.get_as_bool(
                Props::StrikethroughSpacesKey,
                true,
            ),
        )
    }

    /// The style prefix of white space within text.
    fn make_space_style(&self, ink: &Ink) -> (r: String)
        ensures
            r@ == self.space_style(ink@),
    {
        let (underlined, struck) = self.space_emphasis();
        let on = underlined || struck;
        let underline = emphasis_sequence(Emphasis::Underline);
        let strikethrough = emphasis_sequence(Emphasis::Strikethrough);
        let mut r = String::new();
        append_if(&mut r, on && self.has_color(Props::ForegroundKey), ink.foreground.as_str());
        append_if(&mut r, on && self.has_color(Props::BackgroundKey), ink.background.as_str());
        append_if(&mut r, underlined, underline.as_str());
        append_if(&mut r, struck, strikethrough.as_str());
        r
    }

    /// Puts a text behind the style's own text, and frees it of line breaks
    /// for an inline style.
    pub fn prepare(&self, strs: &str) -> (r: String)
        ensures
            r@ == self.prepared(strs@),
    {
        let mut whole = self.value.clone();
        whole.append(strs);
        if self.get_as_bool(Props::InlineKey, false) {
            strip_breaks(whole.as_str())
        } else {
            whole
        }
    }

    /// The columns that text is wrapped to.
    pub fn budget(&self) -> (n: usize)
        ensures
            n == self.wrap_budget(),
    {
        let width = self.get_as_int(Props::WidthKey);
        let left = self.get_as_int(Props::PaddingLeftKey);
        let right = self.get_as_int(Props::PaddingRightKey);
        if width <= left {
            0
        } else if width - left <= right {
            0
        } else {
            width - left - right
        }
    }

    /// Renders a text that has been prepared and wrapped: emphasizes, pads,
    /// aligns, frames and cuts it as the attributes of the style say, its
    /// colors written with the given sequences.
    pub fn compose(&self, ink: &Ink, text: String) -> (r: String)
        ensures
            r@ == self.composed(ink@, text@),
    {
        let inline = self.get_as_bool(Props::InlineKey, false);
        let main = self.make_main_style(ink);
        let space = self.make_space_style(ink);
        let blank = self.make_blank_style(ink);
        let (underlined, struck) = self.space_emphasis();
        let styled = self.get_as_bool(Props::ColorWhitespaceKey, true) || self.get_as_bool(
            Props::ReverseKey,
            false,
        );
        let fill: Option<&String> = if styled {
            Some(&blank)
        } else {
            None
        };
        let mut block = emphasize(text.as_str(), main.as_str(), space.as_str(), underlined || struck);
        if !inline {
            block = pad_left(block.as_str(), self.get_as_int(Props::PaddingLeftKey), fill);
            block = pad_right(block.as_str(), self.get_as_int(Props::PaddingRightKey), fill);
            block = pad_top(block.as_str(), self.get_as_int(Props::PaddingTopKey));
            block = pad_bottom(block.as_str(), self.get_as_int(Props::PaddingBottomKey));
        }
        let height = self.get_as_int(Props::HeightKey);
        if height > 0 {
            block = align_text_vertical(
                &mut block,
                self.get_as_position(Props::AlignVerticalKey),
                height,
            );
        }
        block = align_text_horizontal(
            &block,
            self.get_as_position(Props::AlignHorizontalKey),
            self.get_as_int(Props::WidthKey),
            fill,
        );
        if !inline {
            block = self.apply_border_with(block.as_str(), ink);
            block = self.apply_margins_with(block.as_str(), false, ink);
        }
        let max_width = self.get_as_int(Props::MaxWidthKey);
        if max_width > 0 {
            block = truncated_string(block.as_str(), max_width);
        }
        let max_height = self.get_as_int(Props::MaxHeightKey);
        if max_height > 0 {
            block = keep_lines(block.as_str(), max_height);
        }
        block
    }

    /// Renders a text in the style. A style with no attribute set gives the
    /// text back behind the style's own text, and nothing else. Otherwise the
    /// text is prepared, wrapped where the style has a width, and composed;
    /// how colors are written is up to the terminal library, within the
    /// shape of a color sequence.
    pub fn render(&self, strs: String) -> (r: String)
        ensures
            self.rules@.len() == 0 ==> r@ == self.value@ + strs@,
            self.rules@.len() > 0 ==> exists|ink: InkView|
                self.inked(ink) && r@ == self.composed(ink, self.wrapped(strs@)),
    {
        if self.rules.len() == 0 {
            let mut whole = self.value.clone();
            whole.append(strs.as_str());
            return whole;
        }
        let prepared = self.prepare(strs.as_str());
        let wrapped = if !self.get_as_bool(Props::InlineKey, false) && self.get_as_int(
            Props::WidthKey,
        ) > 0 {
            wrap_text(prepared.as_str(), self.budget())
        } else {
            prepared
        };
        let ink = self.ink();
        let r = self.compose(&ink, wrapped);
        r
    }

    /// Renders the style's own text.
    pub fn to_string(self) -> (r: String)
        ensures
            self.rules@.len() == 0 ==> r@ == self.value@,
            self.rules@.len() > 0 ==> exists|ink: InkView|
                self.inked(ink) && r@ == self.composed(ink, self.wrapped(Seq::empty())),
    {
        let r = self.render(String::new());
        r
    }
}

} // verus!
