//! A modal, terminal-resident text editor engine.
//!
//! The crate holds the editing core: the in-memory line buffer, the
//! cursor and motion model, the modal input state machine, the ex-style
//! command interpreter, the incremental search engine and the
//! persistence gate.  Terminal rendering, configuration loading and all
//! file input/output live outside the crate and talk to the core
//! through plain values.

pub mod cli;
pub mod command;
pub mod config;
pub mod cursor;
pub mod editor;
pub mod search;
pub mod text;
pub mod util;
pub mod word;
