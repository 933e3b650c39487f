//! The colour theme consumed by the renderer.

use vstd::prelude::*;

use crate::config::color::Color;

verus! {

#[derive(Clone, Copy, PartialEq, Eq, Structural, Debug)]
pub struct Theme {
    pub bg: Color,
    pub fg: Color,
    pub statusline_bg: Color,
    pub statusline_fg: Color,
    pub color_column: Color,
}

impl Theme {
    /// The default theme: terminal-reset background, white foreground,
    /// inverted status line, dark colour column.
    pub open spec fn default_spec() -> Theme {
        Theme {
            bg: Color { r: 0, g: 0, b: 0, a: 255, reset: true },
            fg: Color { r: 255, g: 255, b: 255, a: 255, reset: false },
            statusline_bg: Color { r: 255, g: 255, b: 255, a: 255, reset: false },
            statusline_fg: Color { r: 0, g: 0, b: 0, a: 255, reset: false },
            color_column: Color { r: 30, g: 30, b: 30, a: 255, reset: false },
        }
    }
}

impl Default for Theme {
    fn default() -> (t: Theme)
        ensures
            t == Theme::default_spec(),
    {
        Theme {
            bg: Color::black().reset(),
            fg: Color::white(),
            statusline_bg: Color::white(),
            statusline_fg: Color::black(),
            color_column: Color::from_rgb(30, 30, 30),
        }
    }
}

} // verus!
