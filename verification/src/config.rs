//! Configuration values consumed by the core.

use vstd::prelude::*;

pub mod color;
pub mod settings;
pub mod theme;

verus! {

/// The smallest configuration surface: whether line numbers are shown.
#[derive(Clone, Copy, Debug)]
pub struct Config {
    pub line_numbers: bool,
}

impl Default for Config {
    fn default() -> (c: Config)
        ensures
            c.line_numbers,
    {
        Config { line_numbers: true }
    }
}

} // verus!
