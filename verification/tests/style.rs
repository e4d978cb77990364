use neon_style::border::Border;
use neon_style::color::{ColorValue, Colour, TermColor};
use neon_style::frame::{style_border, style_border_with, EdgeColors, EdgeInk};
use neon_style::render::{emphasize, keep_lines, truncated_string};
use neon_style::style::{
    clamp, which_sides_bool, which_sides_color, which_sides_int, Props, Style, Value,
};
use neon_style::{hidden_border, normal_border, rounded_border, Position};

fn display_width(text: &str) -> usize {
    textwrap::core::display_width(text)
}

const RESET: &str = "\x1b[0m";

fn red() -> Colour {
    Colour::from("#FF0000")
}

fn unset() -> Colour {
    Colour::default()
}

#[test]
fn render_without_attributes_is_identity() {
    assert_eq!(Style::new_style().render("hello".into()), "hello");
    assert_eq!(Style::new_style().render("a\nb  \n".into()), "a\nb  \n");
    assert_eq!(Style::new_style().render(String::new()), "");
}

#[test]
fn render_without_attributes_puts_own_text_first() {
    let style = Style::new_style().set_string("> ").set_string("! ");
    assert_eq!(style.render("hello".into()), "> ! hello");
    assert_eq!(style.to_string(), "> ! ");
}

#[test]
fn shorthand_of_two_values() {
    assert_eq!(which_sides_int(&[1, 2]), (1, 2, 1, 2));
}

#[test]
fn shorthand_of_one_three_and_four_values() {
    assert_eq!(which_sides_int(&[7]), (7, 7, 7, 7));
    assert_eq!(which_sides_int(&[1, 2, 3]), (1, 2, 3, 2));
    assert_eq!(which_sides_int(&[1, 2, 3, 4]), (1, 2, 3, 4));
}

#[test]
fn shorthand_of_flags() {
    assert_eq!(which_sides_bool(&[true]), (true, true, true, true));
    assert_eq!(which_sides_bool(&[true, false]), (true, false, true, false));
    assert_eq!(which_sides_bool(&[true, false, false]), (true, false, false, false));
    assert_eq!(which_sides_bool(&[false, true, true, false]), (false, true, true, false));
}

#[test]
fn shorthand_of_colors() {
    let a = Colour::of(TermColor::Ansi(1));
    let b = Colour::of(TermColor::Ansi(2));
    let c = Colour::of(TermColor::Ansi(3));
    let d = Colour::of(TermColor::Ansi(4));
    assert_eq!(which_sides_color(&[a]), (a, a, a, a));
    assert_eq!(which_sides_color(&[a, b]), (a, b, a, b));
    assert_eq!(which_sides_color(&[a, b, c]), (a, b, c, b));
    assert_eq!(which_sides_color(&[a, b, c, d]), (a, b, c, d));
}

#[test]
fn negative_numbers_count_as_zero() {
    assert_eq!(clamp(-1), 0);
    assert_eq!(clamp(i32::MIN), 0);
    assert_eq!(clamp(0), 0);
    assert_eq!(clamp(17), 17);
    let style = Style::new_style().width(-5).padding(&[-1, 2]).margin_top(-3).max_height(-9);
    assert_eq!(style.get_as_int(Props::WidthKey), 0);
    assert_eq!(style.get_as_int(Props::PaddingTopKey), 0);
    assert_eq!(style.get_as_int(Props::PaddingRightKey), 2);
    assert_eq!(style.get_as_int(Props::MarginTopKey), 0);
    assert_eq!(style.get_as_int(Props::MaxHeightKey), 0);
}

#[test]
fn unset_attributes_have_defaults() {
    let style = Style::new_style();
    assert!(!style.get_as_bool(Props::BoldKey, false));
    assert!(style.get_as_bool(Props::ColorWhitespaceKey, true));
    assert_eq!(style.get_as_int(Props::WidthKey), 0);
    assert_eq!(style.get_as_position(Props::AlignHorizontalKey), Position::Top);
    assert_eq!(style.get_as_color(Props::ForegroundKey), unset());
    assert!(style.get_border_style().is_blank());
    assert!(!style.is_set(Props::BoldKey));
}

#[test]
fn getters_ignore_values_of_another_kind() {
    let mut style = Style::new_style();
    style.set(Props::WidthKey, Value::Bool(true));
    style.set(Props::BoldKey, Value::Int(3));
    style.set(Props::ForegroundKey, Value::Pos(Position::Left));
    style.set(Props::AlignVerticalKey, Value::Str("x".into()));
    assert_eq!(style.get_as_int(Props::WidthKey), 0);
    assert!(style.get_as_bool(Props::BoldKey, true));
    assert!(!style.get_as_bool(Props::BoldKey, false));
    assert_eq!(style.get_as_color(Props::ForegroundKey), unset());
    assert_eq!(style.get_as_position(Props::AlignVerticalKey), Position::Top);
    assert!(style.is_set(Props::WidthKey));
}

#[test]
fn flag_setters_set_their_attribute() {
    let style = Style::new_style()
        .bold(true)
        .italic(true)
        .underline(true)
        .strikethrough(true)
        .reverse(true)
        .blink(true)
        .faint(true)
        .underline_spaces(false)
        .border_top(true)
        .border_bottom(false)
        .border_left(true)
        .border_right(false);
    for key in [
        Props::BoldKey,
        Props::ItalicKey,
        Props::UnderlineKey,
        Props::StrikethroughKey,
        Props::ReverseKey,
        Props::BlinkKey,
        Props::FaintKey,
        Props::BorderTopKey,
        Props::BorderLeftKey,
    ] {
        assert!(style.get_as_bool(key, false));
    }
    for key in [Props::UnderlineSpacesKey, Props::BorderBottomKey, Props::BorderRightKey] {
        assert!(!style.get_as_bool(key, true));
    }
    assert_eq!(style.rules.len(), 12);
}

#[test]
fn number_setters_set_their_attribute() {
    let style = Style::new_style()
        .width(1)
        .height(2)
        .max_width(3)
        .max_height(4)
        .padding_top(5)
        .padding_right(6)
        .padding_bottom(7)
        .padding_left(8)
        .margin_top(9)
        .margin_right(10)
        .margin_bottom(11)
        .margin_left(12);
    let keys = [
        Props::WidthKey,
        Props::HeightKey,
        Props::MaxWidthKey,
        Props::MaxHeightKey,
        Props::PaddingTopKey,
        Props::PaddingRightKey,
        Props::PaddingBottomKey,
        Props::PaddingLeftKey,
        Props::MarginTopKey,
        Props::MarginRightKey,
        Props::MarginBottomKey,
        Props::MarginLeftKey,
    ];
    for (i, key) in keys.into_iter().enumerate() {
        assert_eq!(style.get_as_int(key), i + 1);
    }
}

#[test]
fn color_and_anchor_setters_set_their_attribute() {
    let style = Style::new_style()
        .foreground(Colour::of(TermColor::Ansi(1)))
        .background(Colour::of(TermColor::Ansi(2)))
        .text_color(Colour::of(TermColor::Ansi(3)))
        .align_horizontal(Position::Right)
        .align_vertical(Position::Bottom);
    assert_eq!(style.get_as_color(Props::ForegroundKey).color, ColorValue::Color(TermColor::Ansi(1)));
    assert_eq!(style.get_as_color(Props::BackgroundKey).color, ColorValue::Color(TermColor::Ansi(2)));
    assert_eq!(style.get_as_color(Props::TextColorKey).color, ColorValue::Color(TermColor::Ansi(3)));
    assert_eq!(style.get_as_position(Props::AlignHorizontalKey), Position::Right);
    assert_eq!(style.get_as_position(Props::AlignVerticalKey), Position::Bottom);
}

#[test]
fn align_sets_up_to_two_anchors() {
    let none = Style::new_style().align(&[]);
    assert_eq!(none.rules.len(), 0);
    let one = Style::new_style().align(&[Position::Center]);
    assert_eq!(one.get_as_position(Props::AlignHorizontalKey), Position::Center);
    assert!(!one.is_set(Props::AlignVerticalKey));
    let two = Style::new_style().align(&[Position::Right, Position::Bottom]);
    assert_eq!(two.get_as_position(Props::AlignHorizontalKey), Position::Right);
    assert_eq!(two.get_as_position(Props::AlignVerticalKey), Position::Bottom);
}

#[test]
fn padding_shorthand_sets_four_sides() {
    let style = Style::new_style().padding(&[1, 2, 3, 4]);
    assert_eq!(style.get_as_int(Props::PaddingTopKey), 1);
    assert_eq!(style.get_as_int(Props::PaddingRightKey), 2);
    assert_eq!(style.get_as_int(Props::PaddingBottomKey), 3);
    assert_eq!(style.get_as_int(Props::PaddingLeftKey), 4);
    let zero = Style::new_style().padding(&[5]).padding(&[]);
    assert_eq!(zero.get_as_int(Props::PaddingTopKey), 0);
    assert_eq!(zero.get_as_int(Props::PaddingLeftKey), 0);
}

#[test]
fn margin_shorthand_sets_four_sides() {
    let style = Style::new_style().margin(&[1, 2, 3]);
    assert_eq!(style.get_as_int(Props::MarginTopKey), 1);
    assert_eq!(style.get_as_int(Props::MarginRightKey), 2);
    assert_eq!(style.get_as_int(Props::MarginBottomKey), 3);
    assert_eq!(style.get_as_int(Props::MarginLeftKey), 2);
    let kept = Style::new_style().margin(&[5]).margin(&[]);
    assert_eq!(kept.get_as_int(Props::MarginTopKey), 5);
}

#[test]
fn border_shorthand_sets_border_and_sides() {
    let style = Style::new_style().border(rounded_border(), &[true, false]);
    assert_eq!(style.get_border_style(), rounded_border());
    assert!(style.get_as_bool(Props::BorderTopKey, false));
    assert!(style.get_as_bool(Props::BorderBottomKey, false));
    assert!(!style.get_as_bool(Props::BorderLeftKey, true));
    assert!(!style.get_as_bool(Props::BorderRightKey, true));
    let bare = Style::new_style().border(rounded_border(), &[]);
    assert_eq!(bare.rules.len(), 1);
}

#[test]
fn border_color_shorthand_sets_four_edges() {
    let a = Colour::of(TermColor::Ansi(1));
    let b = Colour::of(TermColor::Ansi(2));
    let style = Style::new_style().border_foreground(&[a, b]).border_background(&[b]);
    assert_eq!(style.get_as_color(Props::BorderTopForegroundKey), a);
    assert_eq!(style.get_as_color(Props::BorderRightForegroundKey), b);
    assert_eq!(style.get_as_color(Props::BorderBottomForegroundKey), a);
    assert_eq!(style.get_as_color(Props::BorderLeftForegroundKey), b);
    assert_eq!(style.get_as_color(Props::BorderTopBackgroundKey), b);
    assert_eq!(style.get_as_color(Props::BorderLeftBackgroundKey), b);
    let kept = Style::new_style().border_foreground(&[]);
    assert_eq!(kept.rules.len(), 0);
    let cleared = Style::new_style().border_background(&[a]).border_background(&[]);
    assert_eq!(cleared.get_as_color(Props::BorderTopBackgroundKey), unset());
    assert_eq!(cleared.rules.len(), 4);
}

#[test]
fn copy_is_independent() {
    let base = Style::new_style().set_string("x").bold(true);
    let variant = base.copy().bold(false).italic(true);
    assert!(base.get_as_bool(Props::BoldKey, false));
    assert!(!base.is_set(Props::ItalicKey));
    assert!(!variant.get_as_bool(Props::BoldKey, true));
    assert!(variant.get_as_bool(Props::ItalicKey, false));
    assert_eq!(variant.value, "x");
    assert_eq!(base.copy().rules, base.rules);
}

#[test]
fn keys_are_kept_under_different_numbers() {
    let keys = [
        Props::BoldKey,
        Props::ItalicKey,
        Props::UnderlineKey,
        Props::StrikethroughKey,
        Props::ReverseKey,
        Props::BlinkKey,
        Props::FaintKey,
        Props::ForegroundKey,
        Props::BackgroundKey,
        Props::TextColorKey,
        Props::WidthKey,
        Props::HeightKey,
        Props::AlignHorizontalKey,
        Props::AlignVerticalKey,
        Props::PaddingTopKey,
        Props::PaddingRightKey,
        Props::PaddingBottomKey,
        Props::PaddingLeftKey,
        Props::ColorWhitespaceKey,
        Props::MarginTopKey,
        Props::MarginRightKey,
        Props::MarginBottomKey,
        Props::MarginLeftKey,
        Props::MarginBackgroundKey,
        Props::BorderStyleKey,
        Props::BorderTopKey,
        Props::BorderRightKey,
        Props::BorderBottomKey,
        Props::BorderLeftKey,
        Props::BorderTopForegroundKey,
        Props::BorderRightForegroundKey,
        Props::BorderBottomForegroundKey,
        Props::BorderLeftForegroundKey,
        Props::BorderTopBackgroundKey,
        Props::BorderRightBackgroundKey,
        Props::BorderBottomBackgroundKey,
        Props::BorderLeftBackgroundKey,
        Props::InlineKey,
        Props::MaxWidthKey,
        Props::MaxHeightKey,
        Props::UnderlineSpacesKey,
        Props::StrikethroughSpacesKey,
    ];
    let mut style = Style::new_style();
    for key in keys {
        style.set(key, Value::Int(key.slot_of() as usize));
    }
    assert_eq!(style.rules.len(), keys.len());
    for key in keys {
        assert_eq!(style.get_as_int(key), key.slot_of() as usize);
    }
}

#[test]
fn normal_border_around_single_line() {
    let style = Style::new_style().border(normal_border(), &[true]);
    assert_eq!(style.apply_border("hi"), "┌──┐\n│hi│\n└──┘");
}

#[test]
fn border_without_side_flags_draws_all_sides() {
    let style = Style::new_style().border(normal_border(), &[]);
    assert_eq!(style.apply_border("hi"), "┌──┐\n│hi│\n└──┘");
}

#[test]
fn border_around_ragged_lines_spans_the_widest() {
    let style = Style::new_style().border(rounded_border(), &[true]);
    assert_eq!(style.apply_border("a\nbcd"), "╭───╮\n│a│\n│bcd│\n╰───╯");
}

#[test]
fn border_with_no_side_enabled_is_skipped() {
    let style = Style::new_style().border(normal_border(), &[false]);
    assert_eq!(style.apply_border("hi"), "hi");
}

#[test]
fn blank_border_is_skipped() {
    let style = Style::new_style().border(Border::default(), &[true]);
    assert_eq!(style.apply_border("hi"), "hi");
    assert_eq!(Style::new_style().border_top(true).apply_border("hi"), "hi");
}

#[test]
fn border_top_and_bottom_only_has_no_corners() {
    let style = Style::new_style().border(normal_border(), &[true, false]);
    assert_eq!(style.apply_border("hi"), "──\nhi\n──");
}

#[test]
fn border_left_and_right_only_has_no_edges() {
    let style = Style::new_style().border(normal_border(), &[false, true]);
    assert_eq!(style.apply_border("a\nb"), "│a│\n│b│");
}

#[test]
fn border_top_and_left_only_keeps_one_corner() {
    let style = Style::new_style().border(normal_border(), &[true, false, false, true]);
    assert_eq!(style.apply_border("hi"), "┌──\n│hi");
}

#[test]
fn border_with_missing_glyphs_uses_blanks() {
    let border = Border {
        top: "-".into(),
        bottom: String::new(),
        left: String::new(),
        right: "|".into(),
        top_left: String::new(),
        top_right: "+".into(),
        bottom_right: String::new(),
        bottom_left: "L".into(),
    };
    let style = Style::new_style().border(border, &[true]);
    assert_eq!(style.apply_border("hi"), " --+\n hi|\nL   ");
}

#[test]
fn border_corners_are_cut_to_their_first_glyph() {
    let border = Border {
        top: "-".into(),
        bottom: "-".into(),
        left: "|".into(),
        right: "|".into(),
        top_left: "ab".into(),
        top_right: "cd".into(),
        bottom_right: "ef".into(),
        bottom_left: "gh".into(),
    };
    let style = Style::new_style().border(border, &[true]);
    assert_eq!(style.apply_border("hi"), "a--c\n|hi|\ng--e");
}

#[test]
fn border_edges_cycle_through_their_glyphs() {
    let border = Border {
        top: "-=".into(),
        bottom: "_".into(),
        left: "12".into(),
        right: "abc".into(),
        top_left: "+".into(),
        top_right: "+".into(),
        bottom_right: "+".into(),
        bottom_left: "+".into(),
    };
    let style = Style::new_style().border(border, &[true]);
    assert_eq!(style.apply_border("w\nx\ny\nz"), "+-+\n1wa\n2xb\n1yc\n2za\n+_+");
}

#[test]
fn hidden_border_takes_room_and_draws_nothing() {
    let style = Style::new_style().border(hidden_border(), &[true]);
    assert_eq!(style.apply_border("hi"), "    \n hi \n    ");
}

#[test]
fn border_edges_are_as_wide_as_the_box() {
    let style = Style::new_style().border(normal_border(), &[true]);
    let out = style.apply_border("a\n猫咪猫\nbb");
    let lines: Vec<&str> = out.split('\n').collect();
    assert_eq!(lines.len(), 5);
    assert_eq!(display_width(lines[0]), 8);
    assert_eq!(display_width(lines[2]), 8);
    assert_eq!(display_width(lines[4]), 8);
}

#[test]
fn uncolored_border_piece_is_unchanged() {
    assert_eq!(style_border("──", unset(), unset()), "──");
}

#[test]
fn colored_border_piece_is_wrapped() {
    let ink = EdgeInk { fg: "<f>".into(), bg: "<b>".into() };
    let both = EdgeColors { fg: red(), bg: red() };
    let fg_only = EdgeColors { fg: red(), bg: unset() };
    let bg_only = EdgeColors { fg: unset(), bg: red() };
    let neither = EdgeColors { fg: unset(), bg: unset() };
    assert_eq!(style_border_with("|", both, &ink), format!("<f><b>|{RESET}"));
    assert_eq!(style_border_with("|", fg_only, &ink), format!("<f>|{RESET}"));
    assert_eq!(style_border_with("|", bg_only, &ink), format!("<b>|{RESET}"));
    assert_eq!(style_border_with("|", neither, &ink), "|");
}

#[test]
fn colored_border_piece_uses_color_sequences() {
    let out = style_border("|", red(), unset());
    assert!(out == format!("\x1b[38;2;255;0;0m|{RESET}") || out == format!("\x1b[m|{RESET}"));
    let out = style_border("|", unset(), Colour::of(TermColor::Ansi(4)));
    assert!(out == format!("\x1b[48;5;4m|{RESET}") || out == format!("\x1b[m|{RESET}"));
}

#[test]
fn margins_surround_the_block() {
    let style = Style::new_style().margin(&[1, 2, 1, 3]);
    assert_eq!(style.apply_margins("ab\nc", false), "       \n   ab  \n   c  \n       ");
}

#[test]
fn inline_margins_are_only_beside_the_block() {
    let style = Style::new_style().margin(&[1, 2, 1, 3]);
    assert_eq!(style.apply_margins("ab", true), "   ab  ");
}

#[test]
fn no_margins_leave_the_block_unchanged() {
    assert_eq!(Style::new_style().apply_margins("ab\nc", false), "ab\nc");
}

#[test]
fn emphasize_wraps_each_line() {
    assert_eq!(emphasize("a\nb", "<m>", "<s>", false), format!("<m>a{RESET}\n<m>b{RESET}"));
    assert_eq!(emphasize("", "<m>", "<s>", false), format!("<m>{RESET}"));
}

#[test]
fn emphasize_by_glyph_styles_white_space_apart() {
    assert_eq!(
        emphasize("a b\n\tc", "<m>", "<s>", true),
        format!("<m>a{RESET}<s> {RESET}<m>b{RESET}\n<s>\t{RESET}<m>c{RESET}")
    );
    assert_eq!(emphasize("\u{3000}\u{a0}", "<m>", "<s>", true), format!("<s>\u{3000}{RESET}<s>\u{a0}{RESET}"));
    assert_eq!(emphasize("", "<m>", "<s>", true), "");
}

#[test]
fn truncation_cuts_every_line() {
    assert_eq!(truncated_string("hello\nhi\nworld", 3), "hel\nhi\nwor");
    assert_eq!(truncated_string("hello", 0), "");
    assert_eq!(truncated_string("a\nb", 0), "\n");
    assert_eq!(truncated_string("hello", 9), "hello");
}

#[test]
fn truncation_passes_escape_sequences_through() {
    assert_eq!(
        truncated_string("\x1b[1mhello\x1b[0m world\x1b[0m", 3),
        "\x1b[1mhel\x1b[0m\x1b[0m"
    );
    assert_eq!(truncated_string("ab\x1b[31mcd", 2), "ab\x1b[31m");
    assert_eq!(truncated_string("m\x1bmm", 1), "m\x1bm");
}

#[test]
fn keep_lines_keeps_the_first() {
    assert_eq!(keep_lines("a\nb\nc", 2), "a\nb");
    assert_eq!(keep_lines("a\nb\nc", 3), "a\nb\nc");
    assert_eq!(keep_lines("a\nb\nc", 7), "a\nb\nc");
    assert_eq!(keep_lines("a\nb\nc", 0), "");
    assert_eq!(keep_lines("a\n", 1), "a");
}

#[test]
fn render_bold() {
    let style = Style::new_style().bold(true);
    assert_eq!(style.render("hi".into()), format!("\x1b[1mhi{RESET}{RESET}"));
}

#[test]
fn render_all_emphasis_in_order() {
    let style = Style::new_style()
        .faint(true)
        .blink(true)
        .reverse(true)
        .strikethrough(true)
        .underline(true)
        .italic(true)
        .bold(true)
        .underline_spaces(false);
    let mut style = style;
    style.set(Props::StrikethroughSpacesKey, Value::Bool(false));
    assert_eq!(
        style.render("x".into()),
        format!("\x1b[1m\x1b[3m\x1b[4m\x1b[9m\x1b[7m\x1b[6m\x1b[2mx{RESET}{RESET}")
    );
}

#[test]
fn render_underline_styles_spaces_apart() {
    let style = Style::new_style().underline(true);
    assert_eq!(
        style.render("a b".into()),
        format!("\x1b[4ma{RESET}\x1b[4m {RESET}\x1b[4mb{RESET}{RESET}")
    );
    let style = Style::new_style().underline(true).underline_spaces(false);
    assert_eq!(style.render("a b".into()), format!("\x1b[4ma b{RESET}{RESET}"));
}

#[test]
fn render_with_border() {
    let style = Style::new_style().border(normal_border(), &[true]);
    assert_eq!(style.render("hi".into()), format!("┌──┐\n│hi{RESET}{RESET}│\n└──┘"));
}

#[test]
fn render_with_padding() {
    let style = Style::new_style().padding(&[1, 2]);
    assert_eq!(
        style.render("x".into()),
        format!("     {RESET}\n  x{RESET}{RESET}  {RESET}{RESET}\n     {RESET}")
    );
}

#[test]
fn render_wraps_to_width() {
    let style = Style::new_style().width(15);
    assert_eq!(
        style.render("Memory safety without garbage collection.".into()),
        format!(
            "Memory safety{RESET}  {RESET}\nwithout garbage{RESET}{RESET}\ncollection.{RESET}    {RESET}"
        )
    );
}

#[test]
fn render_wraps_to_width_less_padding() {
    let style = Style::new_style().width(8).padding_left(2).padding_right(2);
    let out = style.render("ab cd ef".into());
    let lines: Vec<&str> = out.split('\n').collect();
    assert_eq!(lines.len(), 3);
    for line in lines {
        assert_eq!(display_width(line), 8);
    }
}

#[test]
fn render_aligns_to_width_and_height() {
    let style = Style::new_style().width(4).height(3).align(&[Position::Right, Position::Bottom]);
    assert_eq!(
        style.render("ab".into()),
        format!("    {RESET}\n    {RESET}\n  ab{RESET}{RESET}")
    );
}

#[test]
fn render_cuts_to_largest_width_and_height() {
    let style = Style::new_style().max_width(3);
    assert_eq!(
        style.render("hello\nworld".into()),
        format!("hel{RESET}{RESET}\nwor{RESET}{RESET}")
    );
    let style = Style::new_style().max_height(1);
    assert_eq!(style.render("hello\nworld".into()), format!("hello{RESET}{RESET}"));
}

#[test]
fn render_inline_drops_line_breaks_and_frame() {
    let mut style = Style::new_style()
        .border(normal_border(), &[true])
        .padding(&[1])
        .margin(&[1])
        .width(20);
    style.set(Props::InlineKey, Value::Bool(true));
    assert_eq!(
        style.render("a\nb".into()),
        format!("ab{RESET}                  {RESET}")
    );
}

#[test]
fn render_with_margin_and_border() {
    let style = Style::new_style().border(normal_border(), &[true]).margin(&[1, 1]);
    assert_eq!(
        style.render("hi".into()),
        format!("      \n ┌──┐ \n │hi{RESET}{RESET}│ \n └──┘ \n      ")
    );
}

#[test]
fn render_with_foreground_color() {
    let style = Style::new_style().foreground(red());
    let out = style.render("x".into());
    assert!(
        out == format!("\x1b[38;2;255;0;0mx{RESET}{RESET}") || out == format!("\x1b[mx{RESET}{RESET}")
    );
}

#[test]
fn render_puts_text_color_after_background_and_foreground() {
    let style = Style::new_style()
        .text_color(Colour::of(TermColor::Ansi(3)))
        .foreground(Colour::of(TermColor::Ansi(1)))
        .background(Colour::of(TermColor::Ansi(2)));
    let mut style = style;
    style.set(Props::ColorWhitespaceKey, Value::Bool(false));
    let out = style.render("x".into());
    assert!(
        out == format!("\x1b[48;5;2m\x1b[38;5;1m\x1b[38;5;3mx{RESET}{RESET}")
            || out == format!("\x1b[m\x1b[m\x1b[mx{RESET}{RESET}")
    );
}

#[test]
fn render_puts_own_text_first() {
    let style = Style::new_style().set_string("> ").bold(true);
    assert_eq!(style.render("hi".into()), format!("\x1b[1m> hi{RESET}{RESET}"));
    assert_eq!(style.to_string(), format!("\x1b[1m> {RESET}{RESET}"));
}

#[test]
fn white_space_is_what_the_standard_library_says() {
    let listed = |c: char| {
        let n = c as u32;
        (0x09..=0x0D).contains(&n)
            || n == 0x20
            || n == 0x85
            || n == 0xA0
            || n == 0x1680
            || (0x2000..=0x200A).contains(&n)
            || n == 0x2028
            || n == 0x2029
            || n == 0x202F
            || n == 0x205F
            || n == 0x3000
    };
    for n in 0..=0x10FFFFu32 {
        if let Some(c) = char::from_u32(n) {
            let styled = emphasize(&c.to_string(), "<m>", "<s>", true);
            if c == '\n' {
                continue;
            }
            assert_eq!(styled.starts_with("<s>"), listed(c));
            assert_eq!(c.is_whitespace(), listed(c));
        }
    }
}
