use vstd::prelude::*;

use crate::random::draw_up_to;

verus! {

/// The capability of a compass used by agents on the grid: it can be drawn
/// at random and rotated.
pub trait Orient: Sized + Copy {
    /// Draws an orientation uniformly at random.
    fn random() -> Self;

    /// Rotates a quarter turn clockwise.
    fn turn_right(&self) -> Self;

    /// Rotates a quarter turn counterclockwise.
    fn turn_left(&self) -> Self;

    /// Rotates a half turn.
    fn turn_around(&self) -> Self;
}

/// The four cardinal directions, in the cyclic order North, East, South, West.
#[derive(Debug, Clone, Copy, PartialEq, Eq, Structural)]
pub enum Direction4 {
    North,
    East,
    South,
    West,
}

impl Direction4 {
    /// Position of the direction in the cyclic order N, E, S, W.
    pub open spec fn index(self) -> int {
        match self {
            Direction4::North => 0,
            Direction4::East => 1,
            Direction4::South => 2,
            Direction4::West => 3,
        }
    }

    /// The direction at position `i` (taken modulo 4) of the cyclic order.
    pub open spec fn at_index(i: int) -> Direction4 {
        let k = i % 4;
        if k == 0 {
            Direction4::North
        } else if k == 1 {
            Direction4::East
        } else if k == 2 {
            Direction4::South
        } else {
            Direction4::West
        }
    }

    /// The direction `n` quarter turns clockwise from this one.
    pub open spec fn rotated(self, n: int) -> Direction4 {
        Direction4::at_index(self.index() + n)
    }

    /// The direction at position `i` of the cyclic order.
    pub fn from_index(i: usize) -> (r: Direction4)
        requires
            i < 4,
        ensures
            r == Direction4::at_index(i as int),
            r.index() == i,
    {
        match i {
            0 => Direction4::North,
            1 => Direction4::East,
            2 => Direction4::South,
            _ => Direction4::West,
        }
    }
}

impl Orient for Direction4 {
    fn random() -> (r: Direction4) {
        Direction4::from_index(draw_up_to(3))
    }

    fn turn_right(&self) -> (r: Direction4)
        ensures
            r == self.rotated(1),
    {
        match self {
            Direction4::North => Direction4::East,
            Direction4::East => Direction4::South,
            Direction4::South => Direction4::West,
            Direction4::West => Direction4::North,
        }
    }

    fn turn_left(&self) -> (r: Direction4)
        ensures
            r == self.rotated(3),
    {
        match self {
            Direction4::North => Direction4::West,
            Direction4::East => Direction4::North,
            Direction4::South => Direction4::East,
            Direction4::West => Direction4::South,
        }
    }

    fn turn_around(&self) -> (r: Direction4)
        ensures
            r == self.rotated(2),
    {
        match self {
            Direction4::North => Direction4::South,
            Direction4::East => Direction4::West,
            Direction4::South => Direction4::North,
            Direction4::West => Direction4::East,
        }
    }
}

/// Turning right then left, or turning around twice, gives back the
/// orientation one started from.
pub proof fn lemma_turns_undo(o: Direction4)
    ensures
        o.rotated(1).rotated(3) == o,
        o.rotated(3).rotated(1) == o,
        o.rotated(2).rotated(2) == o,
{
}

} // verus!
