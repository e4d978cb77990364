use neon_style::padding::{pad_bottom, pad_left, pad_right, pad_top};

const RESET: &str = "\x1b[0m";

#[test]
fn pad_left_plain_pads_every_line() {
    assert_eq!(pad_left("ab\ncd", 2, None), "  ab\n  cd");
}

#[test]
fn pad_left_by_zero_is_identity() {
    assert_eq!(pad_left("ab\ncd", 0, None), "ab\ncd");
    let style = String::from("\x1b[1m");
    assert_eq!(pad_left("ab\ncd", 0, Some(&style)), "ab\ncd");
    assert_eq!(pad_left("", 0, None), "");
}

#[test]
fn pad_right_by_zero_is_identity() {
    assert_eq!(pad_right("ab\ncd", 0, None), "ab\ncd");
    let style = String::from("\x1b[1m");
    assert_eq!(pad_right("ab\ncd", 0, Some(&style)), "ab\ncd");
    assert_eq!(pad_right("", 0, None), "");
}

#[test]
fn pad_left_styled_wraps_blanks_and_resets() {
    let style = String::from("\x1b[1m");
    let expected = format!("\x1b[1m  ab{RESET}\n\x1b[1m  cd{RESET}");
    assert_eq!(pad_left("ab\ncd", 2, Some(&style)), expected);
}

#[test]
fn pad_right_plain_pads_every_line() {
    assert_eq!(pad_right("ab\nc", 3, None), "ab   \nc   ");
}

#[test]
fn pad_right_styled_wraps_blanks_and_resets() {
    let style = String::from("\x1b[7m");
    let expected = format!("ab\x1b[7m {RESET}\ncd\x1b[7m {RESET}");
    assert_eq!(pad_right("ab\ncd", 1, Some(&style)), expected);
}

#[test]
fn pad_left_keeps_empty_last_line() {
    assert_eq!(pad_left("a\n", 1, None), " a\n ");
}

#[test]
fn horizontal_padding_keeps_line_count() {
    let text = "one\ntwo\n\nfour";
    assert_eq!(pad_left(text, 3, None).split('\n').count(), 4);
    assert_eq!(pad_right(text, 3, None).split('\n').count(), 4);
}

#[test]
fn pad_top_adds_empty_lines_above() {
    assert_eq!(pad_top("x", 2), "\n\nx");
    assert_eq!(pad_top("x", 0), "x");
}

#[test]
fn pad_bottom_adds_empty_lines_below() {
    assert_eq!(pad_bottom("x", 1), "x\n");
    assert_eq!(pad_bottom("x\ny", 2), "x\ny\n\n");
    assert_eq!(pad_bottom("x", 0), "x");
}
