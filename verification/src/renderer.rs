//! The terminal that is rendered for.

use vstd::prelude::*;
use crate::ansi::Emphasis;
use crate::color::TermColor;

verus! {

/// What is known of the terminal: its default color and emphasis, if any,
/// and whether its background is dark.
pub struct Renderer {
    pub color: Option<TermColor>,
    pub attribute: Option<Emphasis>,
    pub has_dark_background: bool,
}

impl Renderer {
    /// A terminal with a dark background and no default color or emphasis.
    pub fn new() -> (r: Self)
        ensures
            r.has_dark_background,
            r.color is None,
            r.attribute is None,
    {
        Renderer { has_dark_background: true, color: None, attribute: None }
    }
}

} // verus!
