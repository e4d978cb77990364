use neon_style::ansi::Emphasis;
use neon_style::color::{is_hex_digit, to_hex_digit, ColorValue, Colour, TermColor};
use neon_style::renderer::Renderer;

#[test]
fn hex_literal_gives_rgb() {
    assert_eq!(
        Colour::from_hex("#874BFD"),
        Some(Colour { color: ColorValue::Color(TermColor::Rgb { r: 0x87, g: 0x4B, b: 0xFD }) })
    );
    assert_eq!(
        Colour::from_hex("#00ff7f"),
        Some(Colour { color: ColorValue::Color(TermColor::Rgb { r: 0, g: 255, b: 127 }) })
    );
}

#[test]
fn hex_literal_of_wrong_length_is_rejected() {
    assert_eq!(Colour::from_hex(""), None);
    assert_eq!(Colour::from_hex("#FFF"), None);
    assert_eq!(Colour::from_hex("#FFFFFFF"), None);
    assert_eq!(Colour::from_hex("#FFFFF猫"), None);
}

#[test]
fn hex_literal_without_hash_is_rejected() {
    assert_eq!(Colour::from_hex("FFFFFFF"), None);
    assert_eq!(Colour::from_hex("0FFFFFF"), None);
}

#[test]
fn hex_literal_with_other_characters_is_rejected() {
    assert_eq!(Colour::from_hex("#FFFFFG"), None);
    assert_eq!(Colour::from_hex("#FF FFF"), None);
    assert_eq!(Colour::from_hex("#FFFF-1"), None);
}

#[test]
fn colour_from_literal() {
    assert_eq!(
        Colour::from("#FF0000"),
        Colour { color: ColorValue::Color(TermColor::Rgb { r: 255, g: 0, b: 0 }) }
    );
}

#[test]
fn default_colour_is_unset() {
    assert_eq!(Colour::default(), Colour { color: ColorValue::NoColor() });
    assert_ne!(Colour::default(), Colour::of(TermColor::Reset));
}

#[test]
fn colour_of_terminal_color() {
    assert_eq!(Colour::of(TermColor::Ansi(9)).color, ColorValue::Color(TermColor::Ansi(9)));
}

#[test]
fn hex_digits() {
    for (c, v) in [('0', 0u8), ('9', 9), ('a', 10), ('f', 15), ('A', 10), ('F', 15)] {
        assert!(is_hex_digit(c));
        assert_eq!(to_hex_digit(c), v);
    }
    for c in ['g', 'G', ' ', '/', ':', '@', '`', '#'] {
        assert!(!is_hex_digit(c));
    }
}

#[test]
fn new_renderer_has_dark_background() {
    let r = Renderer::new();
    assert!(r.has_dark_background);
    assert_eq!(r.color, None);
    assert_eq!(r.attribute, None::<Emphasis>);
}
