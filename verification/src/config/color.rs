//! An RGBA colour value, with a flag that marks it as the terminal's
//! reset colour.

use vstd::prelude::*;

verus! {

#[derive(Clone, Copy, PartialEq, Eq, Structural, Debug)]
pub struct Color {
    pub r: u8,
    pub g: u8,
    pub b: u8,
    pub a: u8,
    pub reset: bool,
}

impl Color {
    /// The colour a plain `Default` gives: fully transparent black,
    /// not a reset colour.
    pub open spec fn default_spec() -> Color {
        Color { r: 0, g: 0, b: 0, a: 0, reset: false }
    }

    pub fn from_rgba(r: u8, g: u8, b: u8, a: u8) -> (c: Color)
        ensures
            c == (Color { r, g, b, a, reset: false }),
    {
        Color { r, g, b, a, reset: false }
    }

    /// a is 255
    pub fn from_rgb(r: u8, g: u8, b: u8) -> (c: Color)
        ensures
            c == (Color { r, g, b, a: 255, reset: false }),
    {
        Color { r, g, b, a: 255, reset: false }
    }

    pub fn black() -> (c: Color)
        ensures
            c == (Color { r: 0, g: 0, b: 0, a: 255, reset: false }),
    {
        Color::from_rgb(0, 0, 0)
    }

    pub fn white() -> (c: Color)
        ensures
            c == (Color { r: 255, g: 255, b: 255, a: 255, reset: false }),
    {
        Color::from_rgb(255, 255, 255)
    }

    /// sets as a terminal reset color
    pub fn reset(self) -> (c: Color)
        ensures
            c == (Color { reset: true, ..self }),
    {
        Color { reset: true, ..self }
    }
}

impl Default for Color {
    fn default() -> (c: Color)
        ensures
            c == Color::default_spec(),
    {
        Color { r: 0, g: 0, b: 0, a: 0, reset: false }
    }
}

} // verus!
