use vstd::prelude::*;

use crate::random::draw_up_to;

verus! {

/// A cardinal direction, in the cyclic order North, East, South, West.
#[derive(Debug, Clone, Copy, PartialEq, Eq, Structural)]
pub enum Direction {
    North,
    East,
    South,
    West,
}

impl Direction {
    /// Position of the direction in the cyclic order N, E, S, W.
    pub open spec fn index(self) -> int {
        match self {
            Direction::North => 0,
            Direction::East => 1,
            Direction::South => 2,
            Direction::West => 3,
        }
    }

    /// The direction at position `i` (taken modulo 4) of the cyclic order.
    pub open spec fn at_index(i: int) -> Direction {
        let k = i % 4;
        if k == 0 {
            Direction::North
        } else if k == 1 {
            Direction::East
        } else if k == 2 {
            Direction::South
        } else {
            Direction::West
        }
    }

    /// The direction `n` quarter turns clockwise from this one.
    pub open spec fn rotated(self, n: int) -> Direction {
        Direction::at_index(self.index() + n)
    }

    /// The direction at position `i` of the cyclic order.
    pub fn from_index(i: usize) -> (r: Direction)
        requires
            i < 4,
        ensures
            r == Direction::at_index(i as int),
            r.index() == i,
    {
        match i {
            0 => Direction::North,
            1 => Direction::East,
            2 => Direction::South,
            _ => Direction::West,
        }
    }

    /// Draws a direction uniformly at random.
    pub fn random() -> (r: Direction) {
        Direction::from_index(draw_up_to(3))
    }

    /// Rotates a quarter turn clockwise.
    pub fn turn_right(&self) -> (r: Direction)
        ensures
            r == self.rotated(1),
    {
        match self {
            Direction::North => Direction::East,
            Direction::East => Direction::South,
            Direction::South => Direction::West,
            Direction::West => Direction::North,
        }
    }

    /// Rotates a quarter turn counterclockwise.
    pub fn turn_left(&self) -> (r: Direction)
        ensures
            r == self.rotated(3),
    {
        match self {
            Direction::North => Direction::West,
            Direction::East => Direction::North,
            Direction::South => Direction::East,
            Direction::West => Direction::South,
        }
    }

    /// Rotates a half turn.
    pub fn turn_around(&self) -> (r: Direction)
        ensures
            r == self.rotated(2),
    {
        match self {
            Direction::North => Direction::South,
            Direction::East => Direction::West,
            Direction::South => Direction::North,
            Direction::West => Direction::East,
        }
    }
}

/// Turning right then left, or turning around twice, gives back the
/// direction one started from.
pub proof fn lemma_direction_turns_undo(d: Direction)
    ensures
        d.rotated(1).rotated(3) == d,
        d.rotated(3).rotated(1) == d,
        d.rotated(2).rotated(2) == d,
{
}

} // verus!
