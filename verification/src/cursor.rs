//! The cursor: a column/row position over the buffer.

use vstd::prelude::*;

verus! {

/// A position in the buffer; `x` is the column, `y` the row.
#[derive(Clone, Copy, PartialEq, Eq, Structural, Debug)]
pub struct Cursor {
    pub x: usize,
    pub y: usize,
}

impl From<(usize, usize)> for Cursor {
    /// Reads a `(column, row)` pair as a cursor.
    fn from(value: (usize, usize)) -> (c: Cursor) {
        Cursor { x: value.0, y: value.1 }
    }
}

impl vstd::std_specs::convert::FromSpecImpl<(usize, usize)> for Cursor {
    open spec fn obeys_from_spec() -> bool {
        true
    }

    open spec fn from_spec(value: (usize, usize)) -> Cursor {
        Cursor { x: value.0, y: value.1 }
    }
}

} // verus!
