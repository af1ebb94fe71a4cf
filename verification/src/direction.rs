//! The way a character faces.

use vstd::prelude::*;
use vstd::std_specs::ops::NotSpecImpl;

verus! {

/// Which way the player currently faces.
#[derive(PartialEq, Eq, Structural, Clone, Copy, Debug)]
pub enum Direction {
    Left,
    Right,
}

impl Direction {
    /// The opposite direction.
    pub open spec fn flipped(self) -> Direction {
        match self {
            Direction::Left => Direction::Right,
            Direction::Right => Direction::Left,
        }
    }

    /// The opposite direction.
    pub fn opposite(self) -> (r: Direction)
        ensures
            r == self.flipped(),
    {
        match self {
            Direction::Left => Direction::Right,
            Direction::Right => Direction::Left,
        }
    }
}

impl Default for Direction {
    /// Platformers traditionally play to the right.
    fn default() -> (r: Self)
        ensures
            r == Direction::Right,
    {
        Direction::Right
    }
}

/// `!direction` is the opposite direction. Verified code calls `not` or
/// [`Direction::opposite`] by name; the operator is for compiled code.
impl std::ops::Not for Direction {
    type Output = Direction;

    fn not(self) -> (r: Direction) {
        self.opposite()
    }
}

impl NotSpecImpl for Direction {
    open spec fn obeys_not_spec() -> bool {
        true
    }

    open spec fn not_req(self) -> bool {
        true
    }

    open spec fn not_spec(self) -> Direction {
        self.flipped()
    }
}

/// Flipping twice gives the direction back, and flipping never leaves it as it is.
pub proof fn flip_is_an_involution(d: Direction)
    ensures
        d.flipped().flipped() == d,
        d.flipped() != d,
{
}

} // verus!
