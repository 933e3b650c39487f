//! The editor's settings, as the core consumes them.

use vstd::prelude::*;

use crate::config::theme::Theme;

verus! {

/// How the tab key inserts text: a run of spaces or of tab characters,
/// each with its width.
#[derive(Clone, Copy, PartialEq, Eq, Structural, Debug)]
pub enum TabType {
    Spaces(usize),
    Tabs(usize),
}

impl TabType {
    pub open spec fn default_spec() -> TabType {
        TabType::Spaces(4)
    }

    /// How many characters one press of the tab key inserts.
    pub open spec fn width(self) -> usize {
        match self {
            TabType::Spaces(n) => n,
            TabType::Tabs(n) => n,
        }
    }

    /// The character one press of the tab key inserts.
    pub open spec fn fill_char(self) -> char {
        match self {
            TabType::Spaces(_) => ' ',
            TabType::Tabs(_) => '\t',
        }
    }
}

impl Default for TabType {
    fn default() -> (t: TabType)
        ensures
            t == TabType::default_spec(),
    {
        TabType::Spaces(4)
    }
}

#[derive(Clone, Copy, Debug)]
pub struct Settings {
    pub line_numbers: bool,
    pub theme: Theme,
    pub tab_type: TabType,
    pub color_column: Option<usize>,
    pub syntax: bool,
}

impl Settings {
    pub open spec fn default_spec() -> Settings {
        Settings {
            line_numbers: true,
            theme: Theme::default_spec(),
            tab_type: TabType::default_spec(),
            color_column: None,
            syntax: true,
        }
    }
}

impl Default for Settings {
    fn default() -> (s: Settings)
        ensures
            s == Settings::default_spec(),
    {
        Settings {
            line_numbers: true,
            theme: Theme::default(),
            tab_type: TabType::default(),
            color_column: None,
            syntax: true,
        }
    }
}

} // verus!
