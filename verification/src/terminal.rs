//! Plain geometry of the terminal: sizes and cell positions.

use vstd::prelude::*;

verus! {

/// The extent of a rectangular area of the terminal, in cells.
#[derive(Default, Clone, Copy, PartialEq, Eq, Structural, Debug)]
pub struct Size {
    pub height: usize,
    pub width: usize,
}

/// A cell of the terminal, or a display coordinate of the document.
#[derive(Clone, Copy, Default, PartialEq, Eq, Structural, Debug)]
pub struct Position {
    pub col: usize,
    pub row: usize,
}

impl Position {
    /// The componentwise difference of two positions, each component
    /// stopping at zero.
    pub open spec fn spec_saturating_sub(self, other: Position) -> Position {
        Position {
            col: if self.col >= other.col { (self.col - other.col) as usize } else { 0 },
            row: if self.row >= other.row { (self.row - other.row) as usize } else { 0 },
        }
    }

    /// Subtracts `other` from `self` on both axes, saturating at zero.
    pub fn saturating_sub(self, other: Position) -> (r: Position)
        ensures
            r == self.spec_saturating_sub(other),
    {
        Position {
            row: self.row.saturating_sub(other.row),
            col: self.col.saturating_sub(other.col),
        }
    }
}

} // verus!
