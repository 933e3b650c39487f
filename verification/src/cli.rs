//! The values the command line hands the editor: an optional file to
//! edit and an optional configuration path.  Argument parsing itself
//! happens outside the crate.

use vstd::prelude::*;

verus! {

/// What the command-line front end supplies at startup.
#[derive(Debug)]
pub struct Cli {
    /// File to edit.
    pub file: Option<String>,
    /// Path of the configuration to use in place of the default one.
    pub config: Option<String>,
}

} // verus!
