use neon_style::{place, place_horizontal, place_vertical, with_whitespace_chars, Position};

fn display_width(text: &str) -> usize {
    textwrap::core::display_width(text)
}

const RESET: &str = "\x1b[0m";

#[test]
fn place_horizontal_start_fills_after() {
    assert_eq!(place_horizontal(5, Position::Left, "ab".into(), &[]), format!("ab   {RESET}"));
}

#[test]
fn place_horizontal_end_fills_before() {
    assert_eq!(place_horizontal(5, Position::Right, "ab".into(), &[]), format!("   {RESET}ab"));
}

#[test]
fn place_horizontal_center_puts_odd_column_after() {
    assert_eq!(
        place_horizontal(5, Position::Center, "ab".into(), &[]),
        format!(" {RESET}ab  {RESET}")
    );
}

#[test]
fn place_horizontal_fills_every_line_to_the_width() {
    assert_eq!(
        place_horizontal(4, Position::Left, "a\nbbb".into(), &[]),
        format!("a   {RESET}\nbbb {RESET}")
    );
}

#[test]
fn place_horizontal_leaves_wide_block_unchanged() {
    assert_eq!(place_horizontal(2, Position::Left, "abc".into(), &[]), "abc");
    assert_eq!(place_horizontal(3, Position::Center, "abc".into(), &[]), "abc");
    assert_eq!(place_horizontal(0, Position::Right, "".into(), &[]), "");
    assert_eq!(place_horizontal(-4, Position::Right, "abc".into(), &[]), "abc");
}

#[test]
fn place_horizontal_uses_fill_glyphs() {
    let opts = [with_whitespace_chars(".".into())];
    assert_eq!(place_horizontal(4, Position::Left, "ab".into(), &opts), format!("ab..{RESET}"));
}

#[test]
fn place_horizontal_reaches_exact_width() {
    let opts = [with_whitespace_chars("猫咪".into())];
    for pos in [Position::Left, Position::Right, Position::Center] {
        for width in 4..20 {
            let out = place_horizontal(width, pos, "a\nbcd".into(), &opts);
            for line in out.split('\n') {
                assert_eq!(display_width(line), width as usize);
            }
        }
    }
}

#[test]
fn place_vertical_start_fills_below() {
    assert_eq!(
        place_vertical(3, Position::Top, "ab".into(), &[]),
        format!("ab\n  {RESET}\n  {RESET}")
    );
}

#[test]
fn place_vertical_end_fills_above() {
    assert_eq!(
        place_vertical(3, Position::Bottom, "ab".into(), &[]),
        format!("  {RESET}\n  {RESET}\nab")
    );
}

#[test]
fn place_vertical_center_puts_odd_line_below() {
    assert_eq!(
        place_vertical(4, Position::Center, "a".into(), &[]),
        format!(" {RESET}\na\n {RESET}\n {RESET}")
    );
}

#[test]
fn place_vertical_leaves_tall_block_unchanged() {
    assert_eq!(place_vertical(2, Position::Top, "a\nb".into(), &[]), "a\nb");
    assert_eq!(place_vertical(1, Position::Center, "a\nb".into(), &[]), "a\nb");
    assert_eq!(place_vertical(-1, Position::Bottom, "a".into(), &[]), "a");
}

#[test]
fn place_vertical_reaches_exact_height() {
    for pos in [Position::Top, Position::Bottom, Position::Center] {
        for height in 2..9 {
            let out = place_vertical(height, pos, "a\nbb".into(), &[]);
            assert_eq!(out.split('\n').count(), height as usize);
        }
    }
}

#[test]
fn place_fills_width_then_height() {
    assert_eq!(
        place(4, 2, Position::Left, Position::Top, "ab".into(), &[]),
        format!("ab  {RESET}\n    {RESET}")
    );
}

#[test]
fn place_makes_a_canvas_of_the_size_asked_for() {
    let opts = [with_whitespace_chars("猫咪".into())];
    let out = place(9, 4, Position::Center, Position::Center, "ab\nc".into(), &opts);
    let lines: Vec<&str> = out.split('\n').collect();
    assert_eq!(lines.len(), 4);
    for line in lines {
        assert_eq!(display_width(line), 9);
    }
}
