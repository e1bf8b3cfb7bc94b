use vstd::prelude::*;
use vstd::string::StringExecFns;

use crate::automaton::{grid_area, grid_area_of, Automaton};
use crate::binarycell::BinaryCell;
use crate::direction4::{Direction4, Orient};
use crate::error::AutomatonError;
use crate::grid::{
    all_cells_are, cells_across, copy_columns, grid_view, has_shape, height_of, is_rect, width_of,
    CellGrid, Dimensions,
};
use crate::text::{decimal, push_decimal, same_text};
use crate::turmite::Turmite;

verus! {

/// The agent after its turn phase: right on an active cell, left on a
/// passive one, with one more step counted.
pub open spec fn turned(ant: Turmite) -> Turmite {
    Turmite {
        orientation: if ant.position.2 == BinaryCell::Active {
            ant.orientation.rotated(1)
        } else {
            ant.orientation.rotated(3)
        },
        step: (ant.step + 1) as u32,
        ..ant
    }
}

/// `s` with the cell at `(x, y)` set to `c`.
pub open spec fn with_cell(s: Seq<Seq<BinaryCell>>, x: int, y: int, c: BinaryCell) -> Seq<
    Seq<BinaryCell>,
> {
    s.update(x, s[x].update(y, c))
}

/// One call of `advance` on the grid `s`, the agent and the generation
/// counter. A stopped agent changes nothing. When the counters agree the
/// agent turns; otherwise it toggles its cell, writes it to the grid, steps
/// forward on the new grid, and the generation counter moves on.
pub open spec fn ant_step(s: Seq<Seq<BinaryCell>>, ant: Turmite, generation: int) -> (
    Seq<Seq<BinaryCell>>,
    Turmite,
    int,
) {
    if !ant.active {
        (s, ant, generation)
    } else if generation == ant.step {
        (s, turned(ant), generation)
    } else {
        let f = ant.flipped();
        let s2 = with_cell(s, f.position.0 as int, f.position.1 as int, f.position.2);
        (s2, f.moved(s2), generation + 1)
    }
}

/// Langton's Ant: one agent on a grid of binary cells.
pub struct LangtonsAnt {
    grid: CellGrid<BinaryCell>,
    initialstate: String,
    generation: u32,
    ant: Option<Turmite>,
}

impl LangtonsAnt {
    /// The contents of the grid, `None` before it is set up.
    pub closed spec fn cells(&self) -> Option<Seq<Seq<BinaryCell>>> {
        self.grid.cells()
    }

    /// The area the grid occupies, `None` before it is set up.
    pub closed spec fn area(&self) -> Option<Dimensions> {
        self.grid.dimensions
    }

    pub closed spec fn cell_size(&self) -> u32 {
        self.grid.cellsize
    }

    /// The initial-state keyword before `initialize`, its description after.
    pub closed spec fn initial_state(&self) -> Seq<char> {
        self.initialstate@
    }

    /// The agent, `None` before it is placed.
    pub closed spec fn agent(&self) -> Option<Turmite> {
        self.ant
    }

    /// The grid, for reading.
    pub fn grid(&self) -> (r: &CellGrid<BinaryCell>)
        ensures
            r.cells() == self.cells(),
            r.dimensions == self.area(),
            r.cellsize == self.cell_size(),
            r.well_formed() <== self.well_formed(),
    {
        &self.grid
    }

    /// What the invariant says: the grid is rectangular, and a placed agent
    /// stands on it, holding the value of its cell, with its step counter
    /// equal to the generation counter or one ahead.
    pub proof fn lemma_well_formed(&self)
        requires
            self.well_formed(),
        ensures
            self.cells() matches Some(s) ==> is_rect(s),
            self.agent() matches Some(a) ==> {
                &&& self.cells() matches Some(s) && a.on_grid(s)
                &&& (a.step == self.generation_count() || a.step == self.generation_count() + 1)
            },
    {
    }

    /// The agent, `None` before it is placed.
    pub fn ant(&self) -> (r: Option<Turmite>)
        ensures
            r == self.agent(),
    {
        self.ant
    }
}

impl Automaton for LangtonsAnt {
    closed spec fn well_formed(&self) -> bool {
        &&& self.grid.well_formed()
        &&& self.ant matches Some(a) ==> {
            &&& self.grid.cells() matches Some(s)
            &&& a.on_grid(s)
            &&& (a.step == self.generation || a.step == self.generation + 1)
        }
    }

    closed spec fn generation_count(&self) -> nat {
        self.generation as nat
    }

    open spec fn is_set_up(&self) -> bool {
        self.agent() is Some
    }

    /// Only the "default" initial state is known, and the window must leave
    /// room for at least one cell.
    open spec fn init_ok(&self, d: Dimensions) -> bool {
        let (w, h) = cells_across(grid_area(d), self.cell_size());
        &&& self.initial_state() == "default"@
        &&& w > 0
        &&& h > 0
    }

    /// A passive grid that fills the window less the banner, with a fresh
    /// agent standing on it, described as "Empty", at generation 0.
    open spec fn initialized_to(&self, d: Dimensions, next: LangtonsAnt) -> bool {
        let (w, h) = cells_across(grid_area(d), self.cell_size());
        &&& next.cells() matches Some(s) && has_shape(s, w, h) && all_cells_are(
            s,
            BinaryCell::Passive,
        )
        &&& next.agent() matches Some(a) && a.on_grid(next.cells().unwrap()) && a.active && a.step
            == 0
        &&& next.area() == Some(grid_area(d))
        &&& next.initial_state() == "Empty"@
        &&& next.cell_size() == self.cell_size()
        &&& next.generation_count() == 0
    }

    /// One step of `ant_step` on the grid, the agent and the counter.
    open spec fn advanced_to(&self, next: LangtonsAnt) -> bool {
        &&& self.cells() is Some
        &&& self.agent() matches Some(a)
        &&& ({
            let (s, b, g) = ant_step(self.cells().unwrap(), a, self.generation_count() as int);
            &&& next.cells() == Some(s)
            &&& next.agent() == Some(b)
            &&& next.generation_count() == g
        })
        &&& next.area() == self.area()
        &&& next.cell_size() == self.cell_size()
        &&& next.initial_state() == self.initial_state()
    }

    fn new(initialstate: &str, cellsize: u32) -> (r: LangtonsAnt)
        ensures
            r.cells() is None,
            r.area() is None,
            r.agent() is None,
            r.cell_size() == cellsize,
            r.initial_state() == initialstate@,
    {
        LangtonsAnt {
            grid: CellGrid::new(cellsize),
            initialstate: String::from_str(initialstate),
            generation: 0,
            ant: None,
        }
    }

    fn initialize(&mut self, dimensions: Dimensions) -> (r: Result<(), AutomatonError>)
        ensures
            old(self).initial_state() != "default"@ ==> r == Err::<(), AutomatonError>(
                AutomatonError::UnsupportedInitialState,
            ),
            old(self).initial_state() == "default"@ && !old(self).init_ok(dimensions) ==> r
                == Err::<(), AutomatonError>(AutomatonError::EmptyGrid),
    {
        if !same_text(self.initialstate.as_str(), "default") {
            return Err(AutomatonError::UnsupportedInitialState);
        }
        let area = grid_area_of(dimensions);
        let cells = CellGrid::<BinaryCell>::generate_empty_grid(self.grid.cellsize, area);
        let mut grid = CellGrid::new(self.grid.cellsize);
        grid.setdimensions(area);
        grid.setgrid(cells);
        let ant = Turmite::new(&grid)?;
        self.grid = grid;
        self.ant = Some(ant);
        self.initialstate = String::from_str("Empty");
        // A new run starts at generation 0, in step with the new agent.
        self.generation = 0;
        Ok(())
    }

    fn generation(&self) -> (r: u32) {
        self.generation
    }

    fn advance(&mut self) {
        let ant = match self.ant {
            Some(a) => a,
            None => {
                return;
            },
        };
        if !ant.active {
            return;
        }
        let ghost s = self.cells().unwrap();
        if self.generation == ant.step {
            let mut newant = ant;
            newant.orientation =
                match ant.position.2 {
                    BinaryCell::Active => ant.orientation.turn_right(),
                    BinaryCell::Passive => ant.orientation.turn_left(),
                };
            newant.step = ant.step + 1;
            self.ant = Some(newant);
        } else {
            let mut newgrid = match &self.grid.vector {
                Some(v) => copy_columns(v),
                None => {
                    return;
                },
            };
            let mut newant = ant;
            newant.flipcell();
            let (x, y, cell) = newant.position;
            assert(newgrid@[x as int]@.len() == s[x as int].len());
            newgrid[x].set(y, cell);
            assert(grid_view(newgrid) =~= with_cell(s, x as int, y as int, cell));
            let w = newgrid.len();
            let h = newgrid[0].len();
            proof {
                let s2 = grid_view(newgrid);
                assert(width_of(s2) == w && height_of(s2) == h);
                assert(is_rect(s2));
                assert(newant.on_grid(s2));
                crate::turmite::lemma_moved_stays_on_grid(newant, s2);
            }
            newant.move_forward(&newgrid);
            self.ant = Some(newant);
            self.generation = self.generation + 1;
            self.grid.setgrid(newgrid);
        }
    }

    fn state(&self) -> (r: String)
        ensures
            r@ == "Generation: "@ + decimal(self.generation_count()),
    {
        let mut s = String::from_str("Generation: ");
        push_decimal(&mut s, self.generation as u64);
        s
    }

    fn name(&self) -> (r: String)
        ensures
            r@ == "Langton's Ant"@,
    {
        String::from_str("Langton's Ant")
    }

    fn fullname(&self) -> (r: String)
        ensures
            r@ == "Langton's Ant | Grid | "@ + self.initial_state(),
    {
        let mut s = String::from_str("Langton's Ant | Grid | ");
        s.append(self.initialstate.as_str());
        s
    }
}

/// On a grid with no active cell, two calls of `advance` from a fresh agent
/// make one turn (left, the cell being passive) and one move: the agent's
/// cell becomes active, the agent steps forward from there on the new grid,
/// and both counters stand at 1.
pub proof fn lemma_first_turn_and_move(s: Seq<Seq<BinaryCell>>, ant: Turmite)
    requires
        is_rect(s),
        all_cells_are(s, BinaryCell::Passive),
        ant.on_grid(s),
        ant.active,
        ant.step == 0,
    ensures
        ({
            let (s1, a1, g1) = ant_step(s, ant, 0);
            let (s2, a2, g2) = ant_step(s1, a1, g1);
            let (x, y, _) = ant.position;
            let ready = Turmite {
                orientation: ant.orientation.rotated(3),
                position: (x, y, BinaryCell::Active),
                active: true,
                step: 1,
            };
            &&& s1 == s
            &&& g1 == 0
            &&& a1 == turned(ant)
            &&& a1.orientation == ant.orientation.rotated(3)
            &&& s2 == with_cell(s, x as int, y as int, BinaryCell::Active)
            &&& a2 == ready.moved(s2)
            &&& a2.step == 1
            &&& g2 == 1
        }),
{
}

/// In its move phase, an agent in the first column facing West toggles its
/// cell, which is written to the grid, then stops for good where it stands;
/// the generation counter moves on.
pub proof fn lemma_advance_west_edge(l: LangtonsAnt, next: LangtonsAnt)
    requires
        l.advanced_to(next),
        l.agent() matches Some(a) && a.active && a.step != l.generation_count() && a.position.0
            == 0 && a.orientation == Direction4::West,
    ensures
        ({
            let a = l.agent().unwrap();
            let b = next.agent().unwrap();
            &&& next.agent() is Some
            &&& !b.active
            &&& b.position == (a.position.0, a.position.1, a.position.2.toggled())
            &&& b.orientation == Direction4::West
            &&& b.step == a.step
            &&& next.cells() == Some(
                with_cell(l.cells().unwrap(), 0, a.position.1 as int, a.position.2.toggled()),
            )
            &&& next.generation_count() == l.generation_count() + 1
        }),
{
}

} // verus!
