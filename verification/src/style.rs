//! Styles: named attributes with values, from which text is rendered.

use std::collections::HashMap;
use vstd::prelude::*;
use crate::border::{blank_glyphs, Border, BorderGlyphs};
use crate::color::{ColorValue, Colour};
use crate::position::Position;

verus! {

/// The attributes a style can hold.
#[derive(Eq, Hash, PartialEq, Clone, Copy, Debug, Structural)]
pub enum Props {
    BoldKey,
    ItalicKey,
    UnderlineKey,
    StrikethroughKey,
    ReverseKey,
    BlinkKey,
    FaintKey,
    ForegroundKey,
    BackgroundKey,
    TextColorKey,
    WidthKey,
    HeightKey,
    AlignHorizontalKey,
    AlignVerticalKey,
    PaddingTopKey,
    PaddingRightKey,
    PaddingBottomKey,
    PaddingLeftKey,
    ColorWhitespaceKey,
    MarginTopKey,
    MarginRightKey,
    MarginBottomKey,
    MarginLeftKey,
    MarginBackgroundKey,
    BorderStyleKey,
    BorderTopKey,
    BorderRightKey,
    BorderBottomKey,
    BorderLeftKey,
    BorderTopForegroundKey,
    BorderRightForegroundKey,
    BorderBottomForegroundKey,
    BorderLeftForegroundKey,
    BorderTopBackgroundKey,
    BorderRightBackgroundKey,
    BorderBottomBackgroundKey,
    BorderLeftBackgroundKey,
    InlineKey,
    MaxWidthKey,
    MaxHeightKey,
    UnderlineSpacesKey,
    StrikethroughSpacesKey,
}

impl Props {
    /// The number under which the attribute is kept in a style's rules. No
    /// two attributes share a number.
    pub open spec fn slot(self) -> u64 {
        match self {
            Props::BoldKey => 0,
            Props::ItalicKey => 1,
            Props::UnderlineKey => 2,
            Props::StrikethroughKey => 3,
            Props::ReverseKey => 4,
            Props::BlinkKey => 5,
            Props::FaintKey => 6,
            Props::ForegroundKey => 7,
            Props::BackgroundKey => 8,
            Props::TextColorKey => 9,
            Props::WidthKey => 10,
            Props::HeightKey => 11,
            Props::AlignHorizontalKey => 12,
            Props::AlignVerticalKey => 13,
            Props::PaddingTopKey => 14,
            Props::PaddingRightKey => 15,
            Props::PaddingBottomKey => 16,
            Props::PaddingLeftKey => 17,
            Props::ColorWhitespaceKey => 18,
            Props::MarginTopKey => 19,
            Props::MarginRightKey => 20,
            Props::MarginBottomKey => 21,
            Props::MarginLeftKey => 22,
            Props::MarginBackgroundKey => 23,
            Props::BorderStyleKey => 24,
            Props::BorderTopKey => 25,
            Props::BorderRightKey => 26,
            Props::BorderBottomKey => 27,
            Props::BorderLeftKey => 28,
            Props::BorderTopForegroundKey => 29,
            Props::BorderRightForegroundKey => 30,
            Props::BorderBottomForegroundKey => 31,
            Props::BorderLeftForegroundKey => 32,
            Props::BorderTopBackgroundKey => 33,
            Props::BorderRightBackgroundKey => 34,
            Props::BorderBottomBackgroundKey => 35,
            Props::BorderLeftBackgroundKey => 36,
            Props::InlineKey => 37,
            Props::MaxWidthKey => 38,
            Props::MaxHeightKey => 39,
            Props::UnderlineSpacesKey => 40,
            Props::StrikethroughSpacesKey => 41,
        }
    }

    /// The number under which the attribute is kept in a style's rules.
    pub fn slot_of(self) -> (n: u64)
        ensures
            n == self.slot(),
    {
        match self {
            Props::BoldKey => 0,
            Props::ItalicKey => 1,
            Props::UnderlineKey => 2,
            Props::StrikethroughKey => 3,
            Props::ReverseKey => 4,
            Props::BlinkKey => 5,
            Props::FaintKey => 6,
            Props::ForegroundKey => 7,
            Props::BackgroundKey => 8,
            Props::TextColorKey => 9,
            Props::WidthKey => 10,
            Props::HeightKey => 11,
            Props::AlignHorizontalKey => 12,
            Props::AlignVerticalKey => 13,
            Props::PaddingTopKey => 14,
            Props::PaddingRightKey => 15,
            Props::PaddingBottomKey => 16,
            Props::PaddingLeftKey => 17,
            Props::ColorWhitespaceKey => 18,
            Props::MarginTopKey => 19,
            Props::MarginRightKey => 20,
            Props::MarginBottomKey => 21,
            Props::MarginLeftKey => 22,
            Props::MarginBackgroundKey => 23,
            Props::BorderStyleKey => 24,
            Props::BorderTopKey => 25,
            Props::BorderRightKey => 26,
            Props::BorderBottomKey => 27,
            Props::BorderLeftKey => 28,
            Props::BorderTopForegroundKey => 29,
            Props::BorderRightForegroundKey => 30,
            Props::BorderBottomForegroundKey => 31,
            Props::BorderLeftForegroundKey => 32,
            Props::BorderTopBackgroundKey => 33,
            Props::BorderRightBackgroundKey => 34,
            Props::BorderBottomBackgroundKey => 35,
            Props::BorderLeftBackgroundKey => 36,
            Props::InlineKey => 37,
            Props::MaxWidthKey => 38,
            Props::MaxHeightKey => 39,
            Props::UnderlineSpacesKey => 40,
            Props::StrikethroughSpacesKey => 41,
        }
    }
}

/// No two attributes are kept under the same number.
pub proof fn lemma_slots_differ(a: Props, b: Props)
    ensures
        a.slot() == b.slot() <==> a == b,
{
}

/// The value of an attribute.
#[derive(Debug, PartialEq, Eq)]
pub enum Value {
    Str(String),
    Bool(bool),
    Int(usize),
    Color(Colour),
    Pos(Position),
    Border(Border),
}

impl Clone for Value {
    fn clone(&self) -> (r: Self)
        ensures
            r == *self,
    {
        match self {
            Value::Str(s) => Value::Str(s.clone()),
            Value::Bool(b) => Value::Bool(*b),
            Value::Int(n) => Value::Int(*n),
            Value::Color(c) => Value::Color(*c),
            Value::Pos(p) => Value::Pos(*p),
            Value::Border(b) => Value::Border(b.clone()),
        }
    }
}

/// A style: a text that is put before whatever is rendered, and the
/// attributes that are set, each kept under the number of its key.
pub struct Style {
    pub value: String,
    pub rules: HashMap<u64, Value>,
}

impl Clone for Style {
    fn clone(&self) -> (r: Self)
        ensures
            r.value == self.value,
            r.rules@ == self.rules@,
    {
        Style { value: self.value.clone(), rules: self.rules.clone() }
    }
}

/// A signed number as a count: negative numbers count as zero.
pub open spec fn clamped(n: i32) -> usize {
    if n < 0 {
        0
    } else {
        n as usize
    }
}

/// A signed number as a count.
pub fn clamp(n: i32) -> (r: usize)
    ensures
        r == clamped(n),
{
    if n < 0 {
        0
    } else {
        n as usize
    }
}

/// The four sides, in the order top, right, bottom, left, that a short list
/// of values stands for: one value is for all sides; two are for top and
/// bottom, then left and right; three are for top, then left and right,
/// then bottom; four are for top, right, bottom, left.
pub open spec fn sides_of<T>(values: Seq<T>) -> (T, T, T, T) {
    if values.len() == 1 {
        (values[0], values[0], values[0], values[0])
    } else if values.len() == 2 {
        (values[0], values[1], values[0], values[1])
    } else if values.len() == 3 {
        (values[0], values[1], values[2], values[1])
    } else {
        (values[0], values[1], values[2], values[3])
    }
}

/// The four sides that one to four numbers stand for.
pub fn which_sides_int(values: &[i32]) -> (r: (i32, i32, i32, i32))
    requires
        1 <= values.len() <= 4,
    ensures
        r == sides_of(values@),
{
    if values.len() == 1 {
        (values[0], values[0], values[0], values[0])
    } else if values.len() == 2 {
        (values[0], values[1], values[0], values[1])
    } else if values.len() == 3 {
        (values[0], values[1], values[2], values[1])
    } else {
        (values[0], values[1], values[2], values[3])
    }
}

/// The four sides that one to four flags stand for.
pub fn which_sides_bool(values: &[bool]) -> (r: (bool, bool, bool, bool))
    requires
        1 <= values.len() <= 4,
    ensures
        r == sides_of(values@),
{
    if values.len() == 1 {
        (values[0], values[0], values[0], values[0])
    } else if values.len() == 2 {
        (values[0], values[1], values[0], values[1])
    } else if values.len() == 3 {
        (values[0], values[1], values[2], values[1])
    } else {
        (values[0], values[1], values[2], values[3])
    }
}

/// The four sides that one to four colors stand for.
pub fn which_sides_color(values: &[Colour]) -> (r: (Colour, Colour, Colour, Colour))
    requires
        1 <= values.len() <= 4,
    ensures
        r == sides_of(values@),
{
    if values.len() == 1 {
        (values[0], values[0], values[0], values[0])
    } else if values.len() == 2 {
        (values[0], values[1], values[0], values[1])
    } else if values.len() == 3 {
        (values[0], values[1], values[2], values[1])
    } else {
        (values[0], values[1], values[2], values[3])
    }
}

impl Style {
    /// The value set for an attribute, if any.
    pub open spec fn rule(&self, p: Props) -> Option<Value> {
        if self.rules@.contains_key(p.slot()) {
            Some(self.rules@[p.slot()])
        } else {
            None
        }
    }

    /// Whether an attribute is set.
    pub open spec fn has(&self, p: Props) -> bool {
        self.rules@.contains_key(p.slot())
    }

    /// The flag set for an attribute, or `default_val` where none is set.
    pub open spec fn flag(&self, p: Props, default_val: bool) -> bool {
        match self.rule(p) {
            Some(Value::Bool(b)) => b,
            _ => default_val,
        }
    }

    /// The count set for an attribute, or zero where none is set.
    pub open spec fn count(&self, p: Props) -> usize {
        match self.rule(p) {
            Some(Value::Int(n)) => n,
            _ => 0,
        }
    }

    /// The anchor set for an attribute, or `Top` where none is set.
    pub open spec fn anchor(&self, p: Props) -> Position {
        match self.rule(p) {
            Some(Value::Pos(pos)) => pos,
            _ => Position::Top,
        }
    }

    /// The color set for an attribute, or the unset color where none is set.
    pub open spec fn colour(&self, p: Props) -> Colour {
        match self.rule(p) {
            Some(Value::Color(c)) => c,
            _ => Colour { color: ColorValue::NoColor() },
        }
    }

    /// The glyphs of the border that is set, or those of the border that
    /// draws nothing where none is set.
    pub open spec fn border_glyphs(&self) -> BorderGlyphs {
        match self.rule(Props::BorderStyleKey) {
            Some(Value::Border(b)) => b@,
            _ => blank_glyphs(),
        }
    }

    /// The style with no text and no attribute set.
    pub fn new_style() -> (r: Self)
        ensures
            r.value@ == Seq::<char>::empty(),
            r.rules@ == Map::<u64, Value>::empty(),
    {
        Style { value: String::new(), rules: HashMap::new() }
    }

    /// A style of its own with the same text and the same attributes, from
    /// which a variant can be made while this one stays as it is.
    pub fn copy(&self) -> (r: Self)
        ensures
            r.value == self.value,
            r.rules@ == self.rules@,
    {
        Style { value: self.value.clone(), rules: self.rules.clone() }
    }

    /// Adds to the text that is put before whatever is rendered.
    pub fn set_string(self, strs: &str) -> (r: Self)
        ensures
            r.value@ == self.value@ + strs@,
            r.rules@ == self.rules@,
    {
        let mut s = self;
        s.value.append(strs);
        s
    }

    /// Whether an attribute is set.
    pub fn is_set(&self, key: Props) -> (b: bool)
        ensures
            b == self.has(key),
    {
        self.rules.contains_key(&key.slot_of())
    }

    /// Sets an attribute to a value.
    pub fn set(&mut self, key: Props, value: Value)
        ensures
            final(self).value == old(self).value,
            final(self).rules@ == old(self).rules@.insert(key.slot(), value),
    {
        self.rules.insert(key.slot_of(), value);
    }

    /// The flag set for an attribute, or `default_val` where the attribute
    /// is unset or holds another kind of value.
    pub fn get_as_bool(&self, prop: Props, default_val: bool) -> (b: bool)
        ensures
            b == self.flag(prop, default_val),
    {
        match self.rules.get(&prop.slot_of()) {
            Some(Value::Bool(val)) => *val,
            _ => default_val,
        }
    }

    /// The count set for an attribute, or zero where the attribute is unset
    /// or holds another kind of value.
    pub fn get_as_int(&self, prop: Props) -> (n: usize)
        ensures
            n == self.count(prop),
    {
        match self.rules.get(&prop.slot_of()) {
            Some(Value::Int(val)) => *val,
            _ => 0,
        }
    }

    /// The anchor set for an attribute, or `Top` where the attribute is
    /// unset or holds another kind of value.
    pub fn get_as_position(&self, prop: Props) -> (pos: Position)
        ensures
            pos == self.anchor(prop),
    {
        match self.rules.get(&prop.slot_of()) {
            Some(Value::Pos(val)) => *val,
            _ => Position::Top,
        }
    }

    /// The color set for an attribute, or the unset color where the
    /// attribute is unset or holds another kind of value.
    pub fn get_as_color(&self, prop: Props) -> (c: Colour)
        ensures
            c == self.colour(prop),
    {
        match self.rules.get(&prop.slot_of()) {
            Some(Value::Color(val)) => *val,
            _ => Colour { color: ColorValue::NoColor() },
        }
    }

    /// The border that is set, or the border that draws nothing where none
    /// is set.
    pub fn get_border_style(&self) -> (b: Border)
        ensures
            b@ == self.border_glyphs(),
    {
        match self.rules.get(&Props::BorderStyleKey.slot_of()) {
            Some(Value::Border(val)) => val.clone(),
            _ => Border::default(),
        }
    }

    /// Sets whether text is bold.
    pub fn bold(self, value: bool) -> (r: Self)
        ensures
            r.value == self.value,
            r.rules@ == self.rules@.insert(Props::BoldKey.slot(), Value::Bool(value)),
    {
        let mut s = self;
        s.set(Props::BoldKey, Value::Bool(value));
        s
    }

    /// Sets whether text is italic.
    pub fn italic(self, value: bool) -> (r: Self)
        ensures
            r.value == self.value,
            r.rules@ == self.rules@.insert(Props::ItalicKey.slot(), Value::Bool(value)),
    {
        let mut s = self;
        s.set(Props::ItalicKey, Value::Bool(value));
        s
    }

    /// Sets whether text is underlined.
    pub fn underline(self, value: bool) -> (r: Self)
        ensures
            r.value == self.value,
            r.rules@ == self.rules@.insert(Props::UnderlineKey.slot(), Value::Bool(value)),
    {
        let mut s = self;
        s.set(Props::UnderlineKey, Value::Bool(value));
        s
    }

    /// Sets whether text is struck through.
    pub fn strikethrough(self, value: bool) -> (r: Self)
        ensures
            r.value == self.value,
            r.rules@ == self.rules@.insert(Props::StrikethroughKey.slot(), Value::Bool(value)),
    {
        let mut s = self;
        s.set(Props::StrikethroughKey, Value::Bool(value));
        s
    }

    /// Sets whether foreground and background are swapped.
    pub fn reverse(self, value: bool) -> (r: Self)
        ensures
            r.value == self.value,
            r.rules@ == self.rules@.insert(Props::ReverseKey.slot(), Value::Bool(value)),
    {
        let mut s = self;
        s.set(Props::ReverseKey, Value::Bool(value));
        s
    }

    /// Sets whether text blinks.
    pub fn blink(self, value: bool) -> (r: Self)
        ensures
            r.value == self.value,
            r.rules@ == self.rules@.insert(Props::BlinkKey.slot(), Value::Bool(value)),
    {
        let mut s = self;
        s.set(Props::BlinkKey, Value::Bool(value));
        s
    }

    /// Sets whether text is faint.
    pub fn faint(self, value: bool) -> (r: Self)
        ensures
            r.value == self.value,
            r.rules@ == self.rules@.insert(Props::FaintKey.slot(), Value::Bool(value)),
    {
        let mut s = self;
        s.set(Props::FaintKey, Value::Bool(value));
        s
    }

    /// Sets whether the blanks between words are underlined along with the words.
    pub fn underline_spaces(self, value: bool) -> (r: Self)
        ensures
            r.value == self.value,
            r.rules@ == self.rules@.insert(Props::UnderlineSpacesKey.slot(), Value::Bool(value)),
    {
        let mut s = self;
        s.set(Props::UnderlineSpacesKey, Value::Bool(value));
        s
    }

    /// Sets the anchor of lines within the width.
    pub fn align_horizontal(self, pos: Position) -> (r: Self)
        ensures
            r.value == self.value,
            r.rules@ == self.rules@.insert(Props::AlignHorizontalKey.slot(), Value::Pos(pos)),
    {
        let mut s = self;
        s.set(Props::AlignHorizontalKey, Value::Pos(pos));
        s
    }

    /// Sets the anchor of the block within the height.
    pub fn align_vertical(self, pos: Position) -> (r: Self)
        ensures
            r.value == self.value,
            r.rules@ == self.rules@.insert(Props::AlignVerticalKey.slot(), Value::Pos(pos)),
    {
        let mut s = self;
        s.set(Props::AlignVerticalKey, Value::Pos(pos));
        s
    }

    /// Sets the number of columns beyond which lines are cut; zero for no limit. A negative number counts as zero.
    pub fn max_width(self, value: i32) -> (r: Self)
        ensures
            r.value == self.value,
            r.rules@ == self.rules@.insert(Props::MaxWidthKey.slot(), Value::Int(clamped(value))),
    {
        let mut s = self;
        s.set(Props::MaxWidthKey, Value::Int(clamp(value)));
        s
    }

    /// Sets the number of lines beyond which the block is cut; zero for no limit. A negative number counts as zero.
    pub fn max_height(self, value: i32) -> (r: Self)
        ensures
            r.value == self.value,
            r.rules@ == self.rules@.insert(Props::MaxHeightKey.slot(), Value::Int(clamped(value))),
    {
        let mut s = self;
        s.set(Props::MaxHeightKey, Value::Int(clamp(value)));
        s
    }

    /// Sets the width that text is wrapped and aligned to; zero for none. A negative number counts as zero.
    pub fn width(self, value: i32) -> (r: Self)
        ensures
            r.value == self.value,
            r.rules@ == self.rules@.insert(Props::WidthKey.slot(), Value::Int(clamped(value))),
    {
        let mut s = self;
        s.set(Props::WidthKey, Value::Int(clamp(value)));
        s
    }

    /// Sets the height that the block is brought to; zero for none. A negative number counts as zero.
    pub fn height(self, value: i32) -> (r: Self)
        ensures
            r.value == self.value,
            r.rules@ == self.rules@.insert(Props::HeightKey.slot(), Value::Int(clamped(value))),
    {
        let mut s = self;
        s.set(Props::HeightKey, Value::Int(clamp(value)));
        s
    }

    /// Sets the empty lines above the text. A negative number counts as zero.
    pub fn padding_top(self, value: i32) -> (r: Self)
        ensures
            r.value == self.value,
            r.rules@ == self.rules@.insert(Props::PaddingTopKey.slot(), Value::Int(clamped(value))),
    {
        let mut s = self;
        s.set(Props::PaddingTopKey, Value::Int(clamp(value)));
        s
    }

    /// Sets the empty lines below the text. A negative number counts as zero.
    pub fn padding_bottom(self, value: i32) -> (r: Self)
        ensures
            r.value == self.value,
            r.rules@ == self.rules@.insert(Props::PaddingBottomKey.slot(), Value::Int(clamped(value))),
    {
        let mut s = self;
        s.set(Props::PaddingBottomKey, Value::Int(clamp(value)));
        s
    }

    /// Sets the blank columns after each line. A negative number counts as zero.
    pub fn padding_right(self, value: i32) -> (r: Self)
        ensures
            r.value == self.value,
            r.rules@ == self.rules@.insert(Props::PaddingRightKey.slot(), Value::Int(clamped(value))),
    {
        let mut s = self;
        s.set(Props::PaddingRightKey, Value::Int(clamp(value)));
        s
    }

    /// Sets the blank columns before each line. A negative number counts as zero.
    pub fn padding_left(self, value: i32) -> (r: Self)
        ensures
            r.value == self.value,
            r.rules@ == self.rules@.insert(Props::PaddingLeftKey.slot(), Value::Int(clamped(value))),
    {
        let mut s = self;
        s.set(Props::PaddingLeftKey, Value::Int(clamp(value)));
        s
    }

    /// Sets whether the top edge of the border is drawn.
    pub fn border_top(self, value: bool) -> (r: Self)
        ensures
            r.value == self.value,
            r.rules@ == self.rules@.insert(Props::BorderTopKey.slot(), Value::Bool(value)),
    {
        let mut s = self;
        s.set(Props::BorderTopKey, Value::Bool(value));
        s
    }

    /// Sets whether the bottom edge of the border is drawn.
    pub fn border_bottom(self, value: bool) -> (r: Self)
        ensures
            r.value == self.value,
            r.rules@ == self.rules@.insert(Props::BorderBottomKey.slot(), Value::Bool(value)),
    {
        let mut s = self;
        s.set(Props::BorderBottomKey, Value::Bool(value));
        s
    }

    /// Sets whether the left edge of the border is drawn.
    pub fn border_left(self, value: bool) -> (r: Self)
        ensures
            r.value == self.value,
            r.rules@ == self.rules@.insert(Props::BorderLeftKey.slot(), Value::Bool(value)),
    {
        let mut s = self;
        s.set(Props::BorderLeftKey, Value::Bool(value));
        s
    }

    /// Sets whether the right edge of the border is drawn.
    pub fn border_right(self, value: bool) -> (r: Self)
        ensures
            r.value == self.value,
            r.rules@ == self.rules@.insert(Props::BorderRightKey.slot(), Value::Bool(value)),
    {
        let mut s = self;
        s.set(Props::BorderRightKey, Value::Bool(value));
        s
    }

    /// Sets the foreground color.
    pub fn foreground(self, c: Colour) -> (r: Self)
        ensures
            r.value == self.value,
            r.rules@ == self.rules@.insert(Props::ForegroundKey.slot(), Value::Color(c)),
    {
        let mut s = self;
        s.set(Props::ForegroundKey, Value::Color(c));
        s
    }

    /// Sets the background color.
    pub fn background(self, c: Colour) -> (r: Self)
        ensures
            r.value == self.value,
            r.rules@ == self.rules@.insert(Props::BackgroundKey.slot(), Value::Color(c)),
    {
        let mut s = self;
        s.set(Props::BackgroundKey, Value::Color(c));
        s
    }

    /// Sets the color of the text itself, which is applied after foreground and background.
    pub fn text_color(self, c: Colour) -> (r: Self)
        ensures
            r.value == self.value,
            r.rules@ == self.rules@.insert(Props::TextColorKey.slot(), Value::Color(c)),
    {
        let mut s = self;
        s.set(Props::TextColorKey, Value::Color(c));
        s
    }

    /// Sets the blank lines above the border. A negative number counts as zero.
    pub fn margin_top(self, value: i32) -> (r: Self)
        ensures
            r.value == self.value,
            r.rules@ == self.rules@.insert(Props::MarginTopKey.slot(), Value::Int(clamped(value))),
    {
        let mut s = self;
        s.set(Props::MarginTopKey, Value::Int(clamp(value)));
        s
    }

    /// Sets the blank lines below the border. A negative number counts as zero.
    pub fn margin_bottom(self, value: i32) -> (r: Self)
        ensures
            r.value == self.value,
            r.rules@ == self.rules@.insert(Props::MarginBottomKey.slot(), Value::Int(clamped(value))),
    {
        let mut s = self;
        s.set(Props::MarginBottomKey, Value::Int(clamp(value)));
        s
    }

    /// Sets the blank columns before the border. A negative number counts as zero.
    pub fn margin_left(self, value: i32) -> (r: Self)
        ensures
            r.value == self.value,
            r.rules@ == self.rules@.insert(Props::MarginLeftKey.slot(), Value::Int(clamped(value))),
    {
        let mut s = self;
        s.set(Props::MarginLeftKey, Value::Int(clamp(value)));
        s
    }

    /// Sets the blank columns after the border. A negative number counts as zero.
    pub fn margin_right(self, value: i32) -> (r: Self)
        ensures
            r.value == self.value,
            r.rules@ == self.rules@.insert(Props::MarginRightKey.slot(), Value::Int(clamped(value))),
    {
        let mut s = self;
        s.set(Props::MarginRightKey, Value::Int(clamp(value)));
        s
    }

    /// Sets the anchors from a short list: the first position is for lines
    /// within the width, the second for the block within the height.
    pub fn align(self, pos: &[Position]) -> (r: Self)
        requires
            pos.len() <= 2,
        ensures
            r.value == self.value,
            r.rules@ == if pos.len() == 0 {
                self.rules@
            } else if pos.len() == 1 {
                self.rules@.insert(Props::AlignHorizontalKey.slot(), Value::Pos(pos[0]))
            } else {
                self.rules@.insert(Props::AlignHorizontalKey.slot(), Value::Pos(pos[0])).insert(
                    Props::AlignVerticalKey.slot(),
                    Value::Pos(pos[1]),
                )
            },
    {
        let mut s = self;
        if pos.len() > 0 {
            s.set(Props::AlignHorizontalKey, Value::Pos(pos[0]));
        }
        if pos.len() > 1 {
            s.set(Props::AlignVerticalKey, Value::Pos(pos[1]));
        }
        s
    }

    /// Sets the padding of all four sides from a short list of one to four
    /// numbers; no number at all sets every side to zero. Negative numbers
    /// count as zero.
    pub fn padding(self, values: &[i32]) -> (r: Self)
        requires
            values.len() <= 4,
        ensures
            r.value == self.value,
            r.rules@ == self.rules@.insert(
                Props::PaddingTopKey.slot(),
                Value::Int(clamped(spread(values@).0)),
            ).insert(Props::PaddingBottomKey.slot(), Value::Int(clamped(spread(values@).2))).insert(
                Props::PaddingLeftKey.slot(),
                Value::Int(clamped(spread(values@).3)),
            ).insert(Props::PaddingRightKey.slot(), Value::Int(clamped(spread(values@).1))),
    {
        let (top, right, bottom, left) = if values.len() == 0 {
            (0, 0, 0, 0)
        } else {
            which_sides_int(values)
        };
        let mut s = self;
        s.set(Props::PaddingTopKey, Value::Int(clamp(top)));
        s.set(Props::PaddingBottomKey, Value::Int(clamp(bottom)));
        s.set(Props::PaddingLeftKey, Value::Int(clamp(left)));
        s.set(Props::PaddingRightKey, Value::Int(clamp(right)));
        s
    }

    /// Sets the margins of all four sides from a short list of one to four
    /// numbers; no number at all leaves the style as it is. Negative numbers
    /// count as zero.
    pub fn margin(self, values: &[i32]) -> (r: Self)
        requires
            values.len() <= 4,
        ensures
            r.value == self.value,
            r.rules@ == if values.len() == 0 {
                self.rules@
            } else {
                self.rules@.insert(
                    Props::MarginTopKey.slot(),
                    Value::Int(clamped(sides_of(values@).0)),
                ).insert(
                    Props::MarginBottomKey.slot(),
                    Value::Int(clamped(sides_of(values@).2)),
                ).insert(Props::MarginRightKey.slot(), Value::Int(clamped(sides_of(values@).1))).insert(
                    Props::MarginLeftKey.slot(),
                    Value::Int(clamped(sides_of(values@).3)),
                )
            },
    {
        if values.len() == 0 {
            return self;
        }
        let (top, right, bottom, left) = which_sides_int(values);
        let mut s = self;
        s.set(Props::MarginTopKey, Value::Int(clamp(top)));
        s.set(Props::MarginBottomKey, Value::Int(clamp(bottom)));
        s.set(Props::MarginRightKey, Value::Int(clamp(right)));
        s.set(Props::MarginLeftKey, Value::Int(clamp(left)));
        s
    }

    /// Sets the border, and which of its sides are drawn from a short list
    /// of one to four flags. With no flag at all only the border is set, and
    /// the sides stay as they are.
    pub fn border(self, b: Border, sides: &[bool]) -> (r: Self)
        requires
            sides.len() <= 4,
        ensures
            r.value == self.value,
            r.rules@ == if sides.len() == 0 {
                self.rules@.insert(Props::BorderStyleKey.slot(), Value::Border(b))
            } else {
                self.rules@.insert(Props::BorderStyleKey.slot(), Value::Border(b)).insert(
                    Props::BorderTopKey.slot(),
                    Value::Bool(sides_of(sides@).0),
                ).insert(Props::BorderBottomKey.slot(), Value::Bool(sides_of(sides@).2)).insert(
                    Props::BorderLeftKey.slot(),
                    Value::Bool(sides_of(sides@).3),
                ).insert(Props::BorderRightKey.slot(), Value::Bool(sides_of(sides@).1))
            },
    {
        let mut s = self;
        s.set(Props::BorderStyleKey, Value::Border(b));
        if sides.len() == 0 {
            return s;
        }
        let (top, right, bottom, left) = which_sides_bool(sides);
        s.set(Props::BorderTopKey, Value::Bool(top));
        s.set(Props::BorderBottomKey, Value::Bool(bottom));
        s.set(Props::BorderLeftKey, Value::Bool(left));
        s.set(Props::BorderRightKey, Value::Bool(right));
        s
    }

    /// Sets the foreground colors of the four border edges from a short list
    /// of one to four colors; no color at all leaves the style as it is.
    pub fn border_foreground(self, cols: &[Colour]) -> (r: Self)
        requires
            cols.len() <= 4,
        ensures
            r.value == self.value,
            r.rules@ == if cols.len() == 0 {
                self.rules@
            } else {
                self.rules@.insert(
                    Props::BorderTopForegroundKey.slot(),
                    Value::Color(sides_of(cols@).0),
                ).insert(
                    Props::BorderBottomForegroundKey.slot(),
                    Value::Color(sides_of(cols@).2),
                ).insert(
                    Props::BorderRightForegroundKey.slot(),
                    Value::Color(sides_of(cols@).1),
                ).insert(Props::BorderLeftForegroundKey.slot(), Value::Color(sides_of(cols@).3))
            },
    {
        if cols.len() == 0 {
            return self;
        }
        let (top, right, bottom, left) = which_sides_color(cols);
        let mut s = self;
        s.set(Props::BorderTopForegroundKey, Value::Color(top));
        s.set(Props::BorderBottomForegroundKey, Value::Color(bottom));
        s.set(Props::BorderRightForegroundKey, Value::Color(right));
        s.set(Props::BorderLeftForegroundKey, Value::Color(left));
        s
    }

    /// Sets the background colors of the four border edges from a short list
    /// of one to four colors; no color at all sets every edge to the unset
    /// color.
    pub fn border_background(self, cols: &[Colour]) -> (r: Self)
        requires
            cols.len() <= 4,
        ensures
            r.value == self.value,
            r.rules@ == self.rules@.insert(
                Props::BorderTopBackgroundKey.slot(),
                Value::Color(spread_color(cols@).0),
            ).insert(
                Props::BorderBottomBackgroundKey.slot(),
                Value::Color(spread_color(cols@).2),
            ).insert(
                Props::BorderRightBackgroundKey.slot(),
                Value::Color(spread_color(cols@).1),
            ).insert(Props::BorderLeftBackgroundKey.slot(), Value::Color(spread_color(cols@).3)),
    {
        let unset = Colour { color: ColorValue::NoColor() };
        let (top, right, bottom, left) = if cols.len() == 0 {
            (unset, unset, unset, unset)
        } else {
            which_sides_color(cols)
        };
        let mut s = self;
        s.set(Props::BorderTopBackgroundKey, Value::Color(top));
        s.set(Props::BorderBottomBackgroundKey, Value::Color(bottom));
        s.set(Props::BorderRightBackgroundKey, Value::Color(right));
        s.set(Props::BorderLeftBackgroundKey, Value::Color(left));
        s
    }
}

/// The four sides that up to four numbers stand for; zero on every side for
/// no number.
pub open spec fn spread(values: Seq<i32>) -> (i32, i32, i32, i32) {
    if values.len() == 0 {
        (0i32, 0i32, 0i32, 0i32)
    } else {
        sides_of(values)
    }
}

/// The four sides that up to four colors stand for; the unset color on
/// every side for no color.
pub open spec fn spread_color(values: Seq<Colour>) -> (Colour, Colour, Colour, Colour) {
    if values.len() == 0 {
        let unset = Colour { color: ColorValue::NoColor() };
        (unset, unset, unset, unset)
    } else {
        sides_of(values)
    }
}

} // verus!
