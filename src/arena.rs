//! The arena: a fixed grid of cells addressed by integer coordinates.

use vstd::prelude::*;

verus! {

/// Number of cells along the x axis.
pub const WIDTH: i32 = 10;

/// Number of cells along the y axis.
pub const HEIGHT: i32 = 10;

/// A grid cell. Coordinates may leave the arena for a moment while a move is
/// checked, but a settled snake always lies inside it.
#[derive(Clone, Copy, Debug, PartialEq, Eq, Structural)]
pub struct Position {
    pub x: i32,
    pub y: i32,
}

/// The cell lies inside the arena.
pub open spec fn in_arena(p: Position) -> bool {
    0 <= p.x < WIDTH && 0 <= p.y < HEIGHT
}

impl Position {
    /// Whether the cell lies inside the arena.
    pub fn in_arena(&self) -> (r: bool)
        ensures
            r == in_arena(*self),
    {
        0 <= self.x && 0 <= self.y && self.x < WIDTH && self.y < HEIGHT
    }
}

} // verus!
