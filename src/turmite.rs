use vstd::prelude::*;

use crate::binarycell::BinaryCell;
use crate::direction4::{Direction4, Orient};
use crate::error::AutomatonError;
use crate::grid::{grid_view, height_of, is_rect, width_of, CellGrid, GridCell};

verus! {

/// Where one step forward from `(x, y)` facing `o` lands in a grid of `w`
/// columns and `h` rows, or `None` when it would leave the grid. North and
/// East step up the row and column index, South and West step down.
pub open spec fn forward_target(o: Direction4, x: int, y: int, w: int, h: int) -> Option<(int, int)> {
    match o {
        Direction4::North => if y + 1 < h {
            Some((x, y + 1))
        } else {
            None
        },
        Direction4::East => if x + 1 < w {
            Some((x + 1, y))
        } else {
            None
        },
        Direction4::South => if y > 0 {
            Some((x, y - 1))
        } else {
            None
        },
        Direction4::West => if x > 0 {
            Some((x - 1, y))
        } else {
            None
        },
    }
}

/// An agent that walks the grid: where it faces, where it stands (with the
/// last value it read of the cell there), whether it still moves, and how
/// many turns it has made.
#[derive(Debug, Clone, Copy)]
pub struct Turmite {
    pub orientation: Direction4,
    pub position: GridCell<BinaryCell>,
    pub active: bool,
    pub step: u32,
}

impl Turmite {
    /// The agent stands inside `s`, and the value it holds for its cell is
    /// the one in `s`.
    pub open spec fn on_grid(self, s: Seq<Seq<BinaryCell>>) -> bool {
        let (x, y, c) = self.position;
        &&& x < width_of(s)
        &&& y < height_of(s)
        &&& c == s[x as int][y as int]
    }

    /// The agent once the cell under it has been toggled.
    pub open spec fn flipped(self) -> Turmite {
        let (x, y, c) = self.position;
        Turmite { position: (x, y, c.toggled()), ..self }
    }

    /// The agent once it has tried to step forward on `s`: moved, reading
    /// the cell it reaches, or stopped where it stands at the edge.
    pub open spec fn moved(self, s: Seq<Seq<BinaryCell>>) -> Turmite {
        let (x, y, _) = self.position;
        match forward_target(self.orientation, x as int, y as int, width_of(s) as int, height_of(s) as int) {
            Some((nx, ny)) => Turmite { position: (nx as usize, ny as usize, s[nx][ny]), ..self },
            None => Turmite { active: false, ..self },
        }
    }

    /// An agent at a cell drawn uniformly from the grid, facing a random
    /// direction, active, with no step taken. Fails when the grid has no
    /// cell.
    pub fn new(grid: &CellGrid<BinaryCell>) -> (r: Result<Turmite, AutomatonError>)
        requires
            grid.well_formed(),
        ensures
            r is Err <==> match grid.cells() {
                Some(s) => width_of(s) == 0 || height_of(s) == 0,
                None => true,
            },
            r is Err ==> r == Err::<Turmite, AutomatonError>(AutomatonError::EmptyGrid),
            r matches Ok(t) ==> {
                &&& t.on_grid(grid.cells().unwrap())
                &&& t.active
                &&& t.step == 0
            },
    {
        let position = grid.randomcell()?;
        Ok(Turmite { orientation: Direction4::random(), position, active: true, step: 0 })
    }

    /// Toggles the cell the agent holds for its position and returns the
    /// new value. The grid itself is not touched.
    pub fn flipcell(&mut self) -> (r: BinaryCell)
        ensures
            *final(self) == old(self).flipped(),
            r == old(self).position.2.toggled(),
    {
        let (x, y, cell) = self.position;
        let newcell = match cell {
            BinaryCell::Active => BinaryCell::Passive,
            BinaryCell::Passive => BinaryCell::Active,
        };
        self.position = (x, y, newcell);
        newcell
    }

    /// Steps one cell forward on `grid`, reading the cell reached; at the
    /// edge the agent stays where it is and stops for good.
    pub fn move_forward(&mut self, grid: &Vec<Vec<BinaryCell>>)
        requires
            is_rect(grid_view(*grid)),
            old(self).position.0 < width_of(grid_view(*grid)),
            old(self).position.1 < height_of(grid_view(*grid)),
        ensures
            *final(self) == old(self).moved(grid_view(*grid)),
            final(self).active ==> old(self).active,
    {
        let ghost s = grid_view(*grid);
        let (x, y, _) = self.position;
        let w = grid.len();
        let h = grid[0].len();
        assert(forall|i: int| 0 <= i < w ==> #[trigger] grid@[i]@.len() == s[i].len());
        match self.orientation {
            Direction4::North => {
                if y + 1 < h {
                    self.position = (x, y + 1, grid[x][y + 1]);
                } else {
                    self.active = false;
                }
            },
            Direction4::East => {
                if x + 1 < w {
                    self.position = (x + 1, y, grid[x + 1][y]);
                } else {
                    self.active = false;
                }
            },
            Direction4::South => {
                if y == 0 {
                    self.active = false;
                } else {
                    self.position = (x, y - 1, grid[x][y - 1]);
                }
            },
            Direction4::West => {
                if x == 0 {
                    self.active = false;
                } else {
                    self.position = (x - 1, y, grid[x - 1][y]);
                }
            },
        }
    }
}

/// An agent in the first column facing West stops at the edge: a step
/// forward leaves it inactive where it stood.
pub proof fn lemma_west_edge_stops(t: Turmite, s: Seq<Seq<BinaryCell>>)
    requires
        t.position.0 == 0,
        t.orientation == Direction4::West,
    ensures
        !t.moved(s).active,
        t.moved(s).position == t.position,
{
}

/// A stopped agent never moves again, and a step forward keeps the agent on
/// the grid with the value of the cell it stands on.
pub proof fn lemma_moved_stays_on_grid(t: Turmite, s: Seq<Seq<BinaryCell>>)
    requires
        is_rect(s),
        width_of(s) <= usize::MAX,
        height_of(s) <= usize::MAX,
        t.on_grid(s),
    ensures
        t.moved(s).on_grid(s),
        t.moved(s).active ==> t.active,
{
}

} // verus!
