use vstd::prelude::*;
use vstd::string::StringExecFns;

use crate::automaton::{grid_area, grid_area_of, Automaton};
use crate::binarycell::BinaryCell;
use crate::error::AutomatonError;
use crate::grid::{all_cells_are, cells_across, grid_view, has_shape, height_of, is_rect, width_of, CellGrid, Dimensions};
use crate::text::{decimal, push_decimal, same_text};

verus! {

/// 1 when `(x, y)` lies inside `s` and holds an active cell, else 0.
pub open spec fn alive_at(s: Seq<Seq<BinaryCell>>, x: int, y: int) -> int {
    if 0 <= x < s.len() && 0 <= y < s[x].len() && s[x][y] == BinaryCell::Active {
        1
    } else {
        0
    }
}

/// The number of active cells among the eight around `(x, y)`; positions
/// outside the grid count for nothing.
pub open spec fn neighbor_count(s: Seq<Seq<BinaryCell>>, x: int, y: int) -> int {
    alive_at(s, x - 1, y - 1) + alive_at(s, x - 1, y) + alive_at(s, x - 1, y + 1) + alive_at(
        s,
        x,
        y - 1,
    ) + alive_at(s, x, y + 1) + alive_at(s, x + 1, y - 1) + alive_at(s, x + 1, y) + alive_at(
        s,
        x + 1,
        y + 1,
    )
}

/// Conway's rule: an active cell stays active with 2 or 3 active neighbours,
/// a passive one becomes active with exactly 3; otherwise the cell is passive.
pub open spec fn next_state(c: BinaryCell, n: int) -> BinaryCell {
    match c {
        BinaryCell::Active => if n < 2 || n > 3 {
            BinaryCell::Passive
        } else {
            BinaryCell::Active
        },
        BinaryCell::Passive => if n == 3 {
            BinaryCell::Active
        } else {
            BinaryCell::Passive
        },
    }
}

/// The next generation: every cell moves on by the rule at once, each
/// reading its neighbours in `s`.
pub open spec fn life_step(s: Seq<Seq<BinaryCell>>) -> Seq<Seq<BinaryCell>> {
    Seq::new(
        s.len(),
        |x: int| Seq::new(s[x].len(), |y: int| next_state(s[x][y], neighbor_count(s, x, y))),
    )
}

/// The number of cells equal to `v` in a column.
pub open spec fn count_in_column(c: Seq<BinaryCell>, v: BinaryCell) -> nat
    decreases c.len(),
{
    if c.len() == 0 {
        0
    } else {
        count_in_column(c.drop_last(), v) + if c.last() == v {
            1nat
        } else {
            0nat
        }
    }
}

/// The number of cells equal to `v` in a grid.
pub open spec fn count_cells(s: Seq<Seq<BinaryCell>>, v: BinaryCell) -> nat
    decreases s.len(),
{
    if s.len() == 0 {
        0
    } else {
        count_cells(s.drop_last(), v) + count_in_column(s.last(), v)
    }
}

/// The rule applied to one cell.
pub fn next_cell(c: BinaryCell, n: u32) -> (r: BinaryCell)
    ensures
        r == next_state(c, n as int),
{
    match c {
        BinaryCell::Active => {
            if n < 2 || n > 3 {
                BinaryCell::Passive
            } else {
                BinaryCell::Active
            }
        },
        BinaryCell::Passive => {
            if n == 3 {
                BinaryCell::Active
            } else {
                BinaryCell::Passive
            }
        },
    }
}

fn active_at(cells: &Vec<Vec<BinaryCell>>, x: usize, y: usize) -> (r: u32)
    requires
        x < cells@.len(),
        y < cells@[x as int]@.len(),
    ensures
        r == alive_at(grid_view(*cells), x as int, y as int),
{
    if cells[x][y] == BinaryCell::Active {
        1
    } else {
        0
    }
}

/// The number of active cells around `(x, y)` in `cells`.
fn scan_vicinity(cells: &Vec<Vec<BinaryCell>>, x: usize, y: usize) -> (r: u32)
    requires
        is_rect(grid_view(*cells)),
        x < width_of(grid_view(*cells)),
        y < height_of(grid_view(*cells)),
    ensures
        r == neighbor_count(grid_view(*cells), x as int, y as int),
{
    let ghost s = grid_view(*cells);
    let w = cells.len();
    let h = cells[0].len();
    assert(forall|i: int| 0 <= i < w ==> #[trigger] cells@[i]@.len() == s[i].len());
    let mut count: u32 = 0;
    if x > 0 {
        if y > 0 {
            count = count + active_at(cells, x - 1, y - 1);
        }
        count = count + active_at(cells, x - 1, y);
        if y + 1 < h {
            count = count + active_at(cells, x - 1, y + 1);
        }
    }
    if y > 0 {
        count = count + active_at(cells, x, y - 1);
    }
    if y + 1 < h {
        count = count + active_at(cells, x, y + 1);
    }
    if x + 1 < w {
        if y > 0 {
            count = count + active_at(cells, x + 1, y - 1);
        }
        count = count + active_at(cells, x + 1, y);
        if y + 1 < h {
            count = count + active_at(cells, x + 1, y + 1);
        }
    }
    count
}

proof fn lemma_count_push_column(s: Seq<Seq<BinaryCell>>, c: Seq<BinaryCell>, v: BinaryCell)
    ensures
        count_cells(s.push(c), v) == count_cells(s, v) + count_in_column(c, v),
{
    assert(s.push(c).drop_last() =~= s);
}

proof fn lemma_count_push_cell(c: Seq<BinaryCell>, x: BinaryCell, v: BinaryCell)
    ensures
        count_in_column(c.push(x), v) == count_in_column(c, v) + if x == v {
            1nat
        } else {
            0nat
        },
{
    assert(c.push(x).drop_last() =~= c);
}

/// The next generation of `cells`, with its numbers of active and passive
/// cells.
fn next_generation(cells: &Vec<Vec<BinaryCell>>) -> (r: (Vec<Vec<BinaryCell>>, u64, u64))
    requires
        is_rect(grid_view(*cells)),
        width_of(grid_view(*cells)) * height_of(grid_view(*cells)) <= u64::MAX,
    ensures
        grid_view(r.0) == life_step(grid_view(*cells)),
        r.1 == count_cells(life_step(grid_view(*cells)), BinaryCell::Active),
        r.2 == count_cells(life_step(grid_view(*cells)), BinaryCell::Passive),
{
    let ghost s = grid_view(*cells);
    let w = cells.len();
    let h: usize = if w == 0 {
        0
    } else {
        cells[0].len()
    };
    let mut out: Vec<Vec<BinaryCell>> = Vec::new();
    let mut alive: u64 = 0;
    let mut dead: u64 = 0;
    for x in 0..w
        invariant
            s == grid_view(*cells),
            w == s.len(),
            h == height_of(s),
            is_rect(s),
            w * h <= u64::MAX,
            grid_view(out) == life_step(s).subrange(0, x as int),
            alive == count_cells(grid_view(out), BinaryCell::Active),
            dead == count_cells(grid_view(out), BinaryCell::Passive),
            alive + dead == x * h,
    {
        assert(cells@[x as int]@.len() == h);
        let mut column: Vec<BinaryCell> = Vec::new();
        let mut col_alive: u64 = 0;
        let mut col_dead: u64 = 0;
        for y in 0..h
            invariant
                s == grid_view(*cells),
                w == s.len(),
                h == height_of(s),
                is_rect(s),
                x < w,
                cells@[x as int]@.len() == h,
                column@ == life_step(s)[x as int].subrange(0, y as int),
                col_alive == count_in_column(column@, BinaryCell::Active),
                col_dead == count_in_column(column@, BinaryCell::Passive),
                col_alive + col_dead == y,
        {
            let n = scan_vicinity(cells, x, y);
            let c = next_cell(cells[x][y], n);
            proof {
                lemma_count_push_cell(column@, c, BinaryCell::Active);
                lemma_count_push_cell(column@, c, BinaryCell::Passive);
            }
            column.push(c);
            if c == BinaryCell::Active {
                col_alive = col_alive + 1;
            } else {
                col_dead = col_dead + 1;
            }
            assert(column@ =~= life_step(s)[x as int].subrange(0, y + 1));
        }
        assert(column@ =~= life_step(s)[x as int]);
        assert(alive + dead + h <= w * h) by (nonlinear_arith)
            requires
                alive + dead == x * h,
                x < w,
        ;
        assert((x + 1) * h == x * h + h) by (nonlinear_arith);
        alive = alive + col_alive;
        dead = dead + col_dead;
        proof {
            lemma_count_push_column(grid_view(out), column@, BinaryCell::Active);
            lemma_count_push_column(grid_view(out), column@, BinaryCell::Passive);
        }
        let ghost before = out;
        out.push(column);
        assert(grid_view(out) =~= grid_view(before).push(column@));
        assert(grid_view(out) =~= life_step(s).subrange(0, x + 1));
    }
    assert(grid_view(out) =~= life_step(s));
    (out, alive, dead)
}

/// Conway's Game of Life on a grid of binary cells.
pub struct GameOfLife {
    grid: CellGrid<BinaryCell>,
    initialstate: String,
    generation: u32,
    alive: u64,
    dead: u64,
}

impl GameOfLife {
    /// The contents of the grid, `None` before it is set up.
    pub closed spec fn cells(&self) -> Option<Seq<Seq<BinaryCell>>> {
        self.grid.cells()
    }

    /// The area the grid occupies, `None` before it is set up.
    pub closed spec fn area(&self) -> Option<Dimensions> {
        self.grid.dimensions
    }

    pub closed spec fn cell_size(&self) -> u32 {
        self.grid.cellsize
    }

    /// The initial-state keyword before `initialize`, its description after.
    pub closed spec fn initial_state(&self) -> Seq<char> {
        self.initialstate@
    }

    /// The number of active cells after the last generation.
    pub closed spec fn alive_count(&self) -> nat {
        self.alive as nat
    }

    /// The number of passive cells after the last generation.
    pub closed spec fn dead_count(&self) -> nat {
        self.dead as nat
    }

    /// The grid, for reading.
    pub fn grid(&self) -> (r: &CellGrid<BinaryCell>)
        ensures
            r.cells() == self.cells(),
            r.dimensions == self.area(),
            r.cellsize == self.cell_size(),
            r.well_formed() <== self.well_formed(),
    {
        &self.grid
    }

    /// Replaces the contents of the grid.
    pub fn set_cells(&mut self, cells: Vec<Vec<BinaryCell>>)
        requires
            old(self).well_formed(),
            is_rect(grid_view(cells)),
            width_of(grid_view(cells)) * height_of(grid_view(cells)) <= u64::MAX,
        ensures
            final(self).well_formed(),
            final(self).cells() == Some(grid_view(cells)),
            final(self).area() == old(self).area(),
            final(self).cell_size() == old(self).cell_size(),
            final(self).initial_state() == old(self).initial_state(),
            final(self).generation_count() == old(self).generation_count(),
            final(self).alive_count() == old(self).alive_count(),
            final(self).dead_count() == old(self).dead_count(),
    {
        self.grid.setgrid(cells);
    }

    /// What the invariant says of the grid: it is rectangular, and its
    /// cells can be counted in 64 bits.
    pub proof fn lemma_well_formed(&self)
        requires
            self.well_formed(),
        ensures
            self.cells() matches Some(s) ==> is_rect(s) && width_of(s) * height_of(s) <= u64::MAX,
    {
    }

    /// The number of active cells around `(x, y)` in the current grid.
    pub fn scan_vicinity(&self, x: usize, y: usize) -> (r: u32)
        requires
            self.well_formed(),
            self.cells() matches Some(s) && x < width_of(s) && y < height_of(s),
        ensures
            r == neighbor_count(self.cells().unwrap(), x as int, y as int),
    {
        match &self.grid.vector {
            Some(cells) => scan_vicinity(cells, x, y),
            None => 0,
        }
    }

    /// The number of active cells after the last generation.
    pub fn alive(&self) -> (r: u64)
        ensures
            r == self.alive_count(),
    {
        self.alive
    }

    /// The number of passive cells after the last generation.
    pub fn dead(&self) -> (r: u64)
        ensures
            r == self.dead_count(),
    {
        self.dead
    }
}

impl Automaton for GameOfLife {
    closed spec fn well_formed(&self) -> bool {
        &&& self.grid.well_formed()
        &&& self.grid.cells() matches Some(s) ==> width_of(s) * height_of(s) <= u64::MAX
    }

    closed spec fn generation_count(&self) -> nat {
        self.generation as nat
    }

    open spec fn is_set_up(&self) -> bool {
        self.cells() is Some
    }

    open spec fn init_ok(&self, d: Dimensions) -> bool {
        self.initial_state() == "default"@ || self.initial_state() == "random-balanced"@
    }

    /// A random grid that fills the window less the banner, described as
    /// "Random [1:1]"; the counters are kept.
    open spec fn initialized_to(&self, d: Dimensions, next: GameOfLife) -> bool {
        let (w, h) = cells_across(grid_area(d), self.cell_size());
        &&& next.cells() matches Some(s) && has_shape(s, w, h)
        &&& next.area() == Some(grid_area(d))
        &&& next.initial_state() == "Random [1:1]"@
        &&& next.cell_size() == self.cell_size()
        &&& next.generation_count() == self.generation_count()
        &&& next.alive_count() == self.alive_count()
        &&& next.dead_count() == self.dead_count()
    }

    /// The next generation by Conway's rule, with its counts of active and
    /// passive cells, one generation later.
    open spec fn advanced_to(&self, next: GameOfLife) -> bool {
        &&& self.cells() matches Some(s)
        &&& next.cells() == Some(life_step(s))
        &&& next.alive_count() == count_cells(life_step(s), BinaryCell::Active)
        &&& next.dead_count() == count_cells(life_step(s), BinaryCell::Passive)
        &&& next.generation_count() == self.generation_count() + 1
        &&& next.area() == self.area()
        &&& next.cell_size() == self.cell_size()
        &&& next.initial_state() == self.initial_state()
    }

    fn new(initialstate: &str, cellsize: u32) -> (r: GameOfLife)
        ensures
            r.cells() is None,
            r.area() is None,
            r.cell_size() == cellsize,
            r.initial_state() == initialstate@,
            r.alive_count() == 0,
            r.dead_count() == 0,
    {
        GameOfLife {
            grid: CellGrid::new(cellsize),
            initialstate: String::from_str(initialstate),
            generation: 0,
            alive: 0,
            dead: 0,
        }
    }

    fn initialize(&mut self, dimensions: Dimensions) -> (r: Result<(), AutomatonError>)
        ensures
            r is Err ==> r == Err::<(), AutomatonError>(AutomatonError::UnsupportedInitialState),
    {
        if same_text(self.initialstate.as_str(), "default") || same_text(
            self.initialstate.as_str(),
            "random-balanced",
        ) {
            let area = grid_area_of(dimensions);
            let cells = CellGrid::<BinaryCell>::generate_randomgrid_balanced(
                self.grid.cellsize,
                area,
            );
            proof {
                let (w, h) = cells_across(area, self.grid.cellsize);
                assert(width_of(grid_view(cells)) == w);
                assert(height_of(grid_view(cells)) == if w == 0 {
                    0
                } else {
                    h
                });
                assert(w * h <= u64::MAX) by (nonlinear_arith)
                    requires
                        0 <= w <= u32::MAX,
                        0 <= h <= u32::MAX,
                ;
                assert(width_of(grid_view(cells)) * height_of(grid_view(cells)) <= w * h) by (nonlinear_arith)
                    requires
                        width_of(grid_view(cells)) == w,
                        0 <= height_of(grid_view(cells)) <= h,
                        w >= 0,
                ;
            }
            self.grid.setdimensions(area);
            self.grid.setgrid(cells);
            self.initialstate = String::from_str("Random [1:1]");
            Ok(())
        } else {
            Err(AutomatonError::UnsupportedInitialState)
        }
    }

    fn generation(&self) -> (r: u32) {
        self.generation
    }

    fn advance(&mut self) {
        let (next, alive, dead) = match &self.grid.vector {
            Some(cells) => next_generation(cells),
            None => {
                return;
            },
        };
        proof {
            lemma_life_step_shape(self.cells().unwrap());
        }
        self.grid.setgrid(next);
        self.alive = alive;
        self.dead = dead;
        self.generation = self.generation + 1;
    }

    fn state(&self) -> (r: String)
        ensures
            r@ == "Generation: "@ + decimal(self.generation_count()) + " | Alive: "@ + decimal(
                self.alive_count(),
            ) + " | Dead: "@ + decimal(self.dead_count()),
    {
        let mut s = String::from_str("Generation: ");
        push_decimal(&mut s, self.generation as u64);
        s.append(" | Alive: ");
        push_decimal(&mut s, self.alive);
        s.append(" | Dead: ");
        push_decimal(&mut s, self.dead);
        s
    }

    fn name(&self) -> (r: String)
        ensures
            r@ == "Conway's Game of Life | Grid | "@ + self.initial_state(),
    {
        let mut s = String::from_str("Conway's Game of Life | Grid | ");
        s.append(self.initialstate.as_str());
        s
    }

    fn fullname(&self) -> (r: String)
        ensures
            r@ == "Conway's Game of Life | Grid | "@ + self.initial_state(),
    {
        self.name()
    }
}

/// The next generation has the shape of the current one.
pub proof fn lemma_life_step_shape(s: Seq<Seq<BinaryCell>>)
    requires
        is_rect(s),
    ensures
        is_rect(life_step(s)),
        width_of(life_step(s)) == width_of(s),
        height_of(life_step(s)) == height_of(s),
{
}

/// An active cell with fewer than two active neighbours is passive in the
/// next generation.
pub proof fn lemma_lonely_cell_dies(s: Seq<Seq<BinaryCell>>, x: int, y: int)
    requires
        0 <= x < s.len(),
        0 <= y < s[x].len(),
        s[x][y] == BinaryCell::Active,
        neighbor_count(s, x, y) < 2,
    ensures
        life_step(s)[x][y] == BinaryCell::Passive,
{
}

/// A grid with no active cell stays without one: nothing comes to life.
pub proof fn lemma_all_passive_stays(s: Seq<Seq<BinaryCell>>)
    requires
        all_cells_are(s, BinaryCell::Passive),
    ensures
        life_step(s) == s,
{
    assert forall|x: int| 0 <= x < s.len() implies #[trigger] life_step(s)[x] == s[x] by {
        assert forall|y: int| 0 <= y < s[x].len() implies #[trigger] life_step(s)[x][y]
            == s[x][y] by {
            assert(neighbor_count(s, x, y) == 0);
        }
        assert(life_step(s)[x] =~= s[x]);
    }
    assert(life_step(s) =~= s);
}

/// Whether `(x, y)` lies in the 2 by 2 square whose first corner is
/// `(bx, by)`.
pub open spec fn in_block(bx: int, by: int, x: int, y: int) -> bool {
    bx <= x <= bx + 1 && by <= y <= by + 1
}

/// The cells of `s` are active exactly on the 2 by 2 square whose first
/// corner is `(bx, by)`.
pub open spec fn is_block(s: Seq<Seq<BinaryCell>>, bx: int, by: int) -> bool {
    &&& is_rect(s)
    &&& 0 <= bx
    &&& bx + 1 < width_of(s)
    &&& 0 <= by
    &&& by + 1 < height_of(s)
    &&& forall|x: int, y: int|
        0 <= x < width_of(s) && 0 <= y < height_of(s) ==> #[trigger] s[x][y] == if in_block(
            bx,
            by,
            x,
            y,
        ) {
            BinaryCell::Active
        } else {
            BinaryCell::Passive
        }
}

/// In a lone 2 by 2 square of active cells, each cell of the square has
/// three active neighbours and every other cell at most two.
pub proof fn lemma_block_neighbor_counts(s: Seq<Seq<BinaryCell>>, bx: int, by: int, x: int, y: int)
    requires
        is_block(s, bx, by),
        0 <= x < width_of(s),
        0 <= y < height_of(s),
    ensures
        in_block(bx, by, x, y) ==> neighbor_count(s, x, y) == 3,
        !in_block(bx, by, x, y) ==> neighbor_count(s, x, y) <= 2,
{
    let w = width_of(s) as int;
    let h = height_of(s) as int;
    assert forall|i: int, j: int| 0 <= i < w && 0 <= j < h implies #[trigger] alive_at(s, i, j)
        == if in_block(bx, by, i, j) {
        1int
    } else {
        0int
    } by {}
    assert forall|i: int, j: int| !(0 <= i < w && 0 <= j < h) implies #[trigger] alive_at(
        s,
        i,
        j,
    ) == 0 by {}
}

/// A 2 by 2 square of active cells, all other cells passive, does not change:
/// each of its cells has three active neighbours, and no passive cell has
/// three.
pub proof fn lemma_block_still_life(s: Seq<Seq<BinaryCell>>, bx: int, by: int)
    requires
        is_block(s, bx, by),
    ensures
        life_step(s) == s,
{
    assert forall|x: int| 0 <= x < s.len() implies #[trigger] life_step(s)[x] == s[x] by {
        assert forall|y: int| 0 <= y < s[x].len() implies #[trigger] life_step(s)[x][y]
            == s[x][y] by {
            lemma_block_neighbor_counts(s, bx, by, x, y);
        }
        assert(life_step(s)[x] =~= s[x]);
    }
    assert(life_step(s) =~= s);
}

/// The active and passive cells of a column make up the whole column.
proof fn lemma_column_counts_sum(c: Seq<BinaryCell>)
    ensures
        count_in_column(c, BinaryCell::Active) + count_in_column(c, BinaryCell::Passive) == c.len(),
    decreases c.len(),
{
    if c.len() > 0 {
        lemma_column_counts_sum(c.drop_last());
    }
}

/// The active and passive cells of a rectangular grid make up all
/// `width * height` cells.
pub proof fn lemma_counts_sum(s: Seq<Seq<BinaryCell>>)
    requires
        is_rect(s),
    ensures
        count_cells(s, BinaryCell::Active) + count_cells(s, BinaryCell::Passive) == width_of(s)
            * height_of(s),
    decreases s.len(),
{
    if s.len() > 0 {
        let t = s.drop_last();
        assert(is_rect(t)) by {
            assert forall|i: int| 0 <= i < t.len() implies #[trigger] t[i].len() == t[0].len() by {
                assert(t[i] == s[i] && t[0] == s[0]);
            }
        }
        lemma_counts_sum(t);
        lemma_column_counts_sum(s.last());
        let n = s.len() as int;
        let h = height_of(s) as int;
        assert(s.last().len() == h);
        let ht = height_of(t) as int;
        if n > 1 {
            assert(ht == h);
        }
        assert(width_of(t) * height_of(t) == (n - 1) * h) by (nonlinear_arith)
            requires
                width_of(t) == n - 1,
                height_of(t) == ht,
                n > 1 ==> ht == h,
                n >= 1,
        ;
        assert((n - 1) * h + h == n * h) by (nonlinear_arith);
    }
}

/// A column whose active cells are exactly those at rows `lo..hi` counts
/// as many of them as lie inside the column.
proof fn lemma_column_count_window(c: Seq<BinaryCell>, lo: int, hi: int)
    requires
        0 <= lo <= hi,
        forall|j: int| 0 <= j < c.len() ==> (#[trigger] c[j] == BinaryCell::Active <==> lo <= j < hi),
    ensures
        count_in_column(c, BinaryCell::Active) == if c.len() <= lo {
            0
        } else if c.len() <= hi {
            c.len() - lo
        } else {
            hi - lo
        },
    decreases c.len(),
{
    if c.len() > 0 {
        let d = c.drop_last();
        assert forall|j: int| 0 <= j < d.len() implies (#[trigger] d[j] == BinaryCell::Active
            <==> lo <= j < hi) by {
            assert(d[j] == c[j]);
        }
        lemma_column_count_window(d, lo, hi);
    }
}

/// A grid whose columns `lo..hi` hold `k` active cells each, and the others
/// none, counts `k` for each of those columns inside the grid.
proof fn lemma_grid_count_window(s: Seq<Seq<BinaryCell>>, lo: int, hi: int, k: int)
    requires
        0 <= lo <= hi,
        0 <= k,
        forall|x: int|
            0 <= x < s.len() ==> #[trigger] count_in_column(s[x], BinaryCell::Active) == if lo
                <= x < hi {
                k
            } else {
                0
            },
    ensures
        count_cells(s, BinaryCell::Active) == k * (if s.len() <= lo {
            0
        } else if s.len() <= hi {
            s.len() - lo
        } else {
            hi - lo
        }),
    decreases s.len(),
{
    if s.len() > 0 {
        let t = s.drop_last();
        assert forall|x: int| 0 <= x < t.len() implies #[trigger] count_in_column(
            t[x],
            BinaryCell::Active,
        ) == if lo <= x < hi {
            k
        } else {
            0
        } by {
            assert(t[x] == s[x]);
        }
        lemma_grid_count_window(t, lo, hi, k);
        let n = s.len() as int;
        assert(count_in_column(s[n - 1], BinaryCell::Active) == if lo <= n - 1 < hi {
            k
        } else {
            0
        });
        let before = if n - 1 <= lo {
            0
        } else if n - 1 <= hi {
            n - 1 - lo
        } else {
            hi - lo
        };
        let after = if n <= lo {
            0
        } else if n <= hi {
            n - lo
        } else {
            hi - lo
        };
        assert(k * after == k * before + if lo <= n - 1 < hi {
            k
        } else {
            0
        }) by (nonlinear_arith)
            requires
                before == (if n - 1 <= lo {
                    0
                } else if n - 1 <= hi {
                    n - 1 - lo
                } else {
                    hi - lo
                }),
                after == (if n <= lo {
                    0
                } else if n <= hi {
                    n - lo
                } else {
                    hi - lo
                }),
                lo <= hi,
        ;
    }
}

/// A grid with no active cell counts none.
proof fn lemma_all_passive_count(s: Seq<Seq<BinaryCell>>)
    requires
        all_cells_are(s, BinaryCell::Passive),
    ensures
        count_cells(s, BinaryCell::Active) == 0,
{
    assert forall|x: int| 0 <= x < s.len() implies #[trigger] count_in_column(
        s[x],
        BinaryCell::Active,
    ) == if 0 <= x < 0 {
        0int
    } else {
        0int
    } by {
        lemma_column_count_window(s[x], 0, 0);
    }
    lemma_grid_count_window(s, 0, 0, 0);
}

/// A lone 2 by 2 square counts four active cells.
proof fn lemma_block_count(s: Seq<Seq<BinaryCell>>, bx: int, by: int)
    requires
        is_block(s, bx, by),
    ensures
        count_cells(s, BinaryCell::Active) == 4,
{
    assert forall|x: int| 0 <= x < s.len() implies #[trigger] count_in_column(
        s[x],
        BinaryCell::Active,
    ) == if bx <= x < bx + 2 {
        2int
    } else {
        0int
    } by {
        assert(s[x].len() == height_of(s));
        if bx <= x < bx + 2 {
            assert forall|j: int| 0 <= j < s[x].len() implies (#[trigger] s[x][j]
                == BinaryCell::Active <==> by <= j < by + 2) by {}
            lemma_column_count_window(s[x], by, by + 2);
        } else {
            assert forall|j: int| 0 <= j < s[x].len() implies (#[trigger] s[x][j]
                == BinaryCell::Active <==> 0 <= j < 0) by {}
            lemma_column_count_window(s[x], 0, 0);
        }
    }
    lemma_grid_count_window(s, bx, bx + 2, 2);
}

/// Advancing a Game of Life whose only active cells form a 2 by 2 square
/// leaves the grid as it is, with 4 active and `width * height - 4` passive
/// cells.
pub proof fn lemma_advance_keeps_block(g: GameOfLife, next: GameOfLife, bx: int, by: int)
    requires
        g.advanced_to(next),
        g.cells() matches Some(s) && is_block(s, bx, by),
    ensures
        next.cells() == g.cells(),
        next.alive_count() == 4,
        next.dead_count() == width_of(g.cells().unwrap()) * height_of(g.cells().unwrap()) - 4,
{
    let s = g.cells().unwrap();
    lemma_block_still_life(s, bx, by);
    lemma_block_count(s, bx, by);
    lemma_counts_sum(s);
}

/// Advancing a Game of Life with no active cell leaves the grid as it is,
/// with no active and `width * height` passive cells.
pub proof fn lemma_advance_all_passive(g: GameOfLife, next: GameOfLife)
    requires
        g.advanced_to(next),
        g.cells() matches Some(s) && is_rect(s) && all_cells_are(s, BinaryCell::Passive),
    ensures
        next.cells() == g.cells(),
        next.alive_count() == 0,
        next.dead_count() == width_of(g.cells().unwrap()) * height_of(g.cells().unwrap()),
{
    let s = g.cells().unwrap();
    lemma_all_passive_stays(s);
    lemma_all_passive_count(s);
    lemma_counts_sum(s);
}

/// Advancing a Game of Life turns an active cell with fewer than two active
/// neighbours passive.
pub proof fn lemma_advance_lonely_cell(g: GameOfLife, next: GameOfLife, x: int, y: int)
    requires
        g.advanced_to(next),
        g.cells() matches Some(s) && 0 <= x < s.len() && 0 <= y < s[x].len() && s[x][y]
            == BinaryCell::Active && neighbor_count(s, x, y) < 2,
    ensures
        next.cells().unwrap()[x][y] == BinaryCell::Passive,
{
    lemma_lonely_cell_dies(g.cells().unwrap(), x, y);
}

} // verus!
