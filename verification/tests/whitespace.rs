use neon_style::whitespace::{WhiteSpace, WhiteSpaceType};
use neon_style::{with_whitespace_bg, with_whitespace_chars, with_whitespace_fg, Color};

fn display_width(text: &str) -> usize {
    textwrap::core::display_width(text)
}

const RESET: &str = "\x1b[0m";

fn style_of(rule: WhiteSpaceType) -> String {
    match rule {
        WhiteSpaceType::Style(s) => s,
        WhiteSpaceType::Chars(_) => panic!("a style directive was expected"),
    }
}

#[test]
fn new_merges_directives_in_order() {
    let ws = WhiteSpace::new(&[
        WhiteSpaceType::Chars("ab".into()),
        WhiteSpaceType::Style("<1>".into()),
        WhiteSpaceType::Chars("c".into()),
        WhiteSpaceType::Style("<2>".into()),
    ]);
    assert_eq!(ws.style, "<1><2>");
    assert_eq!(ws.chars, "abc");
}

#[test]
fn new_without_directives_is_empty() {
    let ws = WhiteSpace::new(&[]);
    assert_eq!(ws.style, "");
    assert_eq!(ws.chars, "");
}

#[test]
fn render_defaults_to_blanks() {
    let mut ws = WhiteSpace::new(&[]);
    assert_eq!(ws.render(3), format!("   {RESET}"));
    assert_eq!(ws.chars, " ");
    assert_eq!(ws.render(0), RESET);
}

#[test]
fn render_repeats_pattern() {
    let mut ws = WhiteSpace::new(&[with_whitespace_chars("ab".into())]);
    assert_eq!(ws.render(5), format!("ababa{RESET}"));
    assert_eq!(ws.chars, "ab");
}

#[test]
fn render_pads_what_wide_glyphs_leave() {
    let mut ws = WhiteSpace::new(&[with_whitespace_chars("猫".into())]);
    assert_eq!(ws.render(5), format!("猫猫 {RESET}"));
    assert_eq!(ws.render(1), format!(" {RESET}"));
}

#[test]
fn render_stops_at_first_glyph_that_does_not_fit() {
    let mut ws = WhiteSpace::new(&[with_whitespace_chars("a猫".into())]);
    assert_eq!(ws.render(5), format!("a猫a {RESET}"));
}

#[test]
fn render_of_marks_without_width_falls_back_to_blanks() {
    let mut ws = WhiteSpace::new(&[with_whitespace_chars("\u{301}".into())]);
    assert_eq!(ws.render(2), format!("\u{301}  {RESET}"));
}

#[test]
fn render_puts_style_first() {
    let mut ws = WhiteSpace::new(&[WhiteSpaceType::Style("\x1b[7m".into())]);
    assert_eq!(ws.render(2), format!("\x1b[7m  {RESET}"));
}

#[test]
fn render_has_exact_width() {
    for chars in ["", " ", "ab", "猫咪", "a猫", ".猫\u{301}"] {
        for width in 0..24usize {
            let mut ws = WhiteSpace::new(&[
                with_whitespace_chars(chars.into()),
                WhiteSpaceType::Style("\x1b[38;5;9m".into()),
            ]);
            assert_eq!(display_width(&ws.render(width)), width);
        }
    }
}

#[test]
fn chars_directive_holds_the_glyphs() {
    match with_whitespace_chars("猫咪".into()) {
        WhiteSpaceType::Chars(s) => assert_eq!(s, "猫咪"),
        WhiteSpaceType::Style(_) => panic!("a glyph directive was expected"),
    }
}

#[test]
fn unset_color_gives_empty_style() {
    assert_eq!(style_of(with_whitespace_fg(Color::default())), "");
    assert_eq!(style_of(with_whitespace_bg(Color::default())), "");
}

#[test]
fn foreground_directive_is_a_color_sequence() {
    let code = style_of(with_whitespace_fg(Color::from("#383838")));
    assert!(code == "\x1b[38;2;56;56;56m" || code == "\x1b[m");
}

#[test]
fn background_directive_is_a_color_sequence() {
    let code = style_of(with_whitespace_bg(Color::from("#FF0000")));
    assert!(code == "\x1b[48;2;255;0;0m" || code == "\x1b[m");
}
