//! Styling and layout of text for terminals: colors and emphasis, padding,
//! alignment, borders and margins, and the joining and placing of blocks.

pub mod align;
pub mod ansi;
pub mod border;
pub mod color;
pub mod frame;
pub mod join;
pub mod padding;
pub mod position;
pub mod render;
pub mod renderer;
pub mod style;
pub mod text;
pub mod whitespace;
pub mod width;

pub use border::Border;
pub use border::{
    block_border, double_border, hidden_border, inner_half_block_border, normal_border,
    outer_half_block_border, rounded_border, thick_border,
};
pub use color::Colour as Color;
pub use join::{join_horizontally, join_vertically};
pub use position::{place, place_horizontal, place_vertical, Position};
pub use whitespace::{with_whitespace_bg, with_whitespace_chars, with_whitespace_fg};
