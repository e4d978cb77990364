use neon_style::align::{align_text_horizontal, align_text_vertical, get_lines, get_strs_height};
use neon_style::Position;

fn display_width(text: &str) -> usize {
    textwrap::core::display_width(text)
}

const RESET: &str = "\x1b[0m";

#[test]
fn get_lines_splits_and_measures() {
    let (lines, widest) = get_lines("ab\ncdef\n");
    assert_eq!(lines, vec!["ab".to_string(), "cdef".to_string(), String::new()]);
    assert_eq!(widest, 4);
}

#[test]
fn get_lines_of_empty_text_is_one_empty_line() {
    let (lines, widest) = get_lines("");
    assert_eq!(lines, vec![String::new()]);
    assert_eq!(widest, 0);
}

#[test]
fn get_lines_measures_columns_not_characters() {
    let (lines, widest) = get_lines("猫咪\nabc");
    assert_eq!(lines.len(), 2);
    assert_eq!(widest, 4);
}

#[test]
fn get_lines_does_not_count_escape_sequences() {
    let (_, widest) = get_lines("\x1b[31mred\x1b[0m");
    assert_eq!(widest, 3);
}

#[test]
fn height_counts_lines() {
    assert_eq!(get_strs_height(""), 1);
    assert_eq!(get_strs_height("a"), 1);
    assert_eq!(get_strs_height("a\nb\n"), 3);
}

#[test]
fn vertical_center_puts_odd_line_below() {
    let mut text = String::from("x");
    assert_eq!(align_text_vertical(&mut text, Position::Center, 4), "\nx\n\n");
    assert_eq!(text, "x");
}

#[test]
fn vertical_top_appends_empty_lines() {
    let mut text = String::from("x");
    assert_eq!(align_text_vertical(&mut text, Position::Top, 4), "x\n\n\n");
    assert_eq!(text, "x");
}

#[test]
fn vertical_bottom_prepends_empty_lines() {
    let mut text = String::from("x\ny");
    assert_eq!(align_text_vertical(&mut text, Position::Bottom, 4), "\n\nx\ny");
}

#[test]
fn vertical_left_and_right_are_start_and_end() {
    let mut text = String::from("x");
    assert_eq!(align_text_vertical(&mut text, Position::Left, 3), "x\n\n");
    assert_eq!(align_text_vertical(&mut text, Position::Right, 3), "\n\nx");
}

#[test]
fn vertical_alignment_leaves_taller_block_unchanged() {
    let mut text = String::from("a\nb\nc");
    for pos in [Position::Top, Position::Bottom, Position::Center, Position::Left, Position::Right] {
        assert_eq!(align_text_vertical(&mut text, pos, 2), "a\nb\nc");
        assert_eq!(align_text_vertical(&mut text, pos, 0), "a\nb\nc");
    }
}

#[test]
fn vertical_alignment_reaches_exact_height() {
    for pos in [Position::Top, Position::Bottom, Position::Center, Position::Left, Position::Right] {
        for height in 2..9usize {
            let mut text = String::from("a\nb");
            let out = align_text_vertical(&mut text, pos, height);
            assert_eq!(out.split('\n').count(), height);
        }
    }
}

#[test]
fn horizontal_start_puts_blanks_after() {
    let text = String::from("a\nbbb");
    let expected = format!("a    {RESET}\nbbb  {RESET}");
    assert_eq!(align_text_horizontal(&text, Position::Left, 5, None), expected);
    assert_eq!(align_text_horizontal(&text, Position::Top, 5, None), expected);
}

#[test]
fn horizontal_end_puts_blanks_before() {
    let text = String::from("a\nbbb");
    let expected = format!("    a{RESET}\n  bbb{RESET}");
    assert_eq!(align_text_horizontal(&text, Position::Right, 5, None), expected);
    assert_eq!(align_text_horizontal(&text, Position::Bottom, 5, None), expected);
}

#[test]
fn horizontal_center_splits_blanks() {
    let text = String::from("a\nbbb");
    let expected = format!("  a  {RESET}\n bbb {RESET}");
    assert_eq!(align_text_horizontal(&text, Position::Center, 5, None), expected);
    let odd = String::from("ab");
    assert_eq!(align_text_horizontal(&odd, Position::Center, 5, None), format!(" ab  {RESET}"));
}

#[test]
fn horizontal_narrow_target_settles_on_widest_line() {
    let text = String::from("a\nbbb");
    let expected = format!("a  {RESET}\nbbb{RESET}");
    assert_eq!(align_text_horizontal(&text, Position::Left, 0, None), expected);
    assert_eq!(align_text_horizontal(&text, Position::Left, 2, None), expected);
}

#[test]
fn horizontal_styled_fill_follows_prefix() {
    let text = String::from("a");
    let style = String::from("\x1b[7m");
    assert_eq!(
        align_text_horizontal(&text, Position::Left, 3, Some(&style)),
        format!("a\x1b[7m  {RESET}")
    );
    assert_eq!(
        align_text_horizontal(&text, Position::Center, 4, Some(&style)),
        format!("\x1b[7m a\x1b[7m  {RESET}")
    );
}

#[test]
fn horizontal_alignment_gives_every_line_the_settled_width() {
    let text = String::from("a\n猫咪猫\nbb\n");
    for pos in [Position::Left, Position::Right, Position::Center] {
        for width in [0usize, 3, 6, 7, 12] {
            let out = align_text_horizontal(&text, pos, width, None);
            let target = width.max(6);
            for line in out.split('\n') {
                assert_eq!(display_width(line), target);
            }
            assert_eq!(out.split('\n').count(), 4);
        }
    }
}
