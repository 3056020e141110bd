//! A point of the display grid.

use crate::terminal::Position;
use vstd::prelude::*;
use vstd::std_specs::convert::FromSpecImpl;

verus! {

/// A point given by its column `x` and its row `y`.
#[derive(Copy, Clone, Default, PartialEq, Eq, Structural, Debug)]
pub struct Location {
    pub x: usize,
    pub y: usize,
}

impl From<Location> for Position {
    /// The cell at column `x` and row `y`.
    fn from(loc: Location) -> (position: Position) {
        Position { col: loc.x, row: loc.y }
    }
}

impl FromSpecImpl<Location> for Position {
    open spec fn obeys_from_spec() -> bool {
        true
    }

    open spec fn from_spec(loc: Location) -> Position {
        Position { col: loc.x, row: loc.y }
    }
}

impl Location {
    /// The componentwise difference of two points, each component stopping
    /// at zero.
    pub open spec fn spec_subtract(self, other: Location) -> Location {
        Location {
            x: if self.x >= other.x {
                (self.x - other.x) as usize
            } else {
                0
            },
            y: if self.y >= other.y {
                (self.y - other.y) as usize
            } else {
                0
            },
        }
    }

    /// Subtracts `other` from `self` on both axes, saturating at zero.
    pub fn subtract(&self, other: &Location) -> (difference: Location)
        ensures
            difference == self.spec_subtract(*other),
    {
        Location { x: self.x.saturating_sub(other.x), y: self.y.saturating_sub(other.y) }
    }
}

} // verus!
