use vstd::prelude::*;

use crate::random::draw_up_to;

verus! {

/// The state of a cell in the plain Game of Life grid.
#[derive(Debug, Clone, Copy, PartialEq, Eq, Structural)]
pub enum Cell {
    Dead,
    Alive,
}

/// The cell that an integer stands for: a multiple of 3 is alive.
pub open spec fn cell_of(i: int) -> Cell {
    if i % 3 == 0 {
        Cell::Alive
    } else {
        Cell::Dead
    }
}

impl Cell {
    /// Draws a cell from a uniform draw in `0..10`: alive when the draw is a
    /// multiple of 3 (four chances in ten).
    pub fn new() -> (r: Cell)
        ensures
            exists|d: int| 0 <= d < 10 && r == #[trigger] cell_of(d),
    {
        let draw = draw_up_to(9);
        Cell::from(draw as i32)
    }
}

impl From<i32> for Cell {
    fn from(i: i32) -> (r: Cell) {
        if i % 3 == 0 {
            Cell::Alive
        } else {
            Cell::Dead
        }
    }
}

impl vstd::std_specs::convert::FromSpecImpl<i32> for Cell {
    open spec fn obeys_from_spec() -> bool {
        true
    }

    open spec fn from_spec(i: i32) -> Cell {
        cell_of(i as int)
    }
}

} // verus!
