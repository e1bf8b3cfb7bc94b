use vstd::prelude::*;

use crate::binarycell::{BinaryCell, SimCell};
use crate::error::AutomatonError;
use crate::random::draw_up_to;

verus! {

/// A cell of a grid together with its column and row: `(x, y, cell)`.
pub type GridCell<C> = (usize, usize, C);

/// The size of a rectangular area, in pixels.
#[derive(Debug, Clone, Copy, PartialEq, Eq, Structural)]
pub struct Dimensions {
    pub width: u32,
    pub height: u32,
}

/// The contents of a grid as a sequence of columns, each a sequence of cells.
pub open spec fn grid_view<T>(v: Vec<Vec<T>>) -> Seq<Seq<T>> {
    v@.map_values(|c: Vec<T>| c@)
}

/// Every column has the length of the first one.
pub open spec fn is_rect<T>(s: Seq<Seq<T>>) -> bool {
    forall|i: int| 0 <= i < s.len() ==> #[trigger] s[i].len() == s[0].len()
}

/// The number of columns.
pub open spec fn width_of<T>(s: Seq<Seq<T>>) -> nat {
    s.len()
}

/// The number of rows: the length of the first column, 0 when there is none.
pub open spec fn height_of<T>(s: Seq<Seq<T>>) -> nat {
    if s.len() == 0 {
        0
    } else {
        s[0].len()
    }
}

/// `s` has `w` columns of `h` cells each.
pub open spec fn has_shape<T>(s: Seq<Seq<T>>, w: int, h: int) -> bool {
    &&& s.len() == w
    &&& forall|i: int| 0 <= i < w ==> #[trigger] s[i].len() == h
}

/// Every cell of `s` is `c`.
pub open spec fn all_cells_are<T>(s: Seq<Seq<T>>, c: T) -> bool {
    forall|i: int, j: int| 0 <= i < s.len() && 0 <= j < s[i].len() ==> #[trigger] s[i][j] == c
}

/// The number of columns and rows that fit in `d` for square cells of side
/// `cellsize`.
pub open spec fn cells_across(d: Dimensions, cellsize: u32) -> (int, int) {
    ((d.width / cellsize) as int, (d.height / cellsize) as int)
}

/// Copies the contents of a grid, column by column.
pub(crate) fn copy_columns<T: SimCell>(v: &Vec<Vec<T>>) -> (r: Vec<Vec<T>>)
    ensures
        grid_view(r) == grid_view(*v),
{
    let mut out: Vec<Vec<T>> = Vec::new();
    for x in 0..v.len()
        invariant
            grid_view(out) == grid_view(*v).subrange(0, x as int),
    {
        let mut column: Vec<T> = Vec::new();
        let rows = v[x].len();
        for y in 0..rows
            invariant
                x < v@.len(),
                rows == v@[x as int]@.len(),
                column@ == v@[x as int]@.subrange(0, y as int),
        {
            column.push(v[x][y]);
            assert(column@ =~= v@[x as int]@.subrange(0, y + 1));
        }
        assert(column@ =~= v@[x as int]@);
        let ghost before = out;
        out.push(column);
        assert(grid_view(out) =~= grid_view(before).push(column@));
        assert(grid_view(out) =~= grid_view(*v).subrange(0, x + 1));
    }
    assert(grid_view(out) =~= grid_view(*v));
    out
}

/// A rectangular grid of cells, absent until it is first populated.
///
/// `vector[x][y]` is the cell in column `x` and row `y`.
#[derive(Debug)]
pub struct CellGrid<T> where T: SimCell {
    pub cellsize: u32,
    pub vector: Option<Vec<Vec<T>>>,
    pub dimensions: Option<Dimensions>,
}

impl<T: SimCell> CellGrid<T> {
    /// The contents, `None` while the grid is absent.
    pub open spec fn cells(&self) -> Option<Seq<Seq<T>>> {
        match self.vector {
            Some(v) => Some(grid_view(v)),
            None => None,
        }
    }

    /// The cell size is positive and populated contents are rectangular.
    pub open spec fn well_formed(&self) -> bool {
        &&& self.cellsize > 0
        &&& self.cells() matches Some(s) ==> is_rect(s)
    }

    /// An absent grid for square cells of side `cellsize`.
    pub fn new(cellsize: u32) -> (r: Self)
        requires
            cellsize > 0,
        ensures
            r.well_formed(),
            r.cells() is None,
            r.dimensions is None,
            r.cellsize == cellsize,
    {
        CellGrid { cellsize, vector: None, dimensions: None }
    }

    /// The side of a cell, in pixels.
    pub fn cellsize(&self) -> (r: u32)
        ensures
            r == self.cellsize,
    {
        self.cellsize
    }

    /// Replaces the contents wholesale.
    pub fn setgrid(&mut self, other: Vec<Vec<T>>)
        requires
            old(self).well_formed(),
            is_rect(grid_view(other)),
        ensures
            final(self).well_formed(),
            final(self).cells() == Some(grid_view(other)),
            final(self).dimensions == old(self).dimensions,
            final(self).cellsize == old(self).cellsize,
    {
        self.vector = Some(other);
    }

    /// Records the area the grid occupies.
    pub fn setdimensions(&mut self, other: Dimensions)
        requires
            old(self).well_formed(),
        ensures
            final(self).well_formed(),
            final(self).cells() == old(self).cells(),
            final(self).dimensions == Some(other),
            final(self).cellsize == old(self).cellsize,
    {
        self.dimensions = Some(other);
    }

    /// The number of rows, 0 while the grid is absent.
    pub fn getheight(&self) -> (r: usize)
        ensures
            r == match self.cells() {
                Some(s) => height_of(s),
                None => 0,
            },
    {
        match &self.vector {
            None => 0,
            Some(v) => {
                if v.len() == 0 {
                    0
                } else {
                    v[0].len()
                }
            },
        }
    }

    /// The number of columns, 0 while the grid is absent.
    pub fn getwidth(&self) -> (r: usize)
        ensures
            r == match self.cells() {
                Some(s) => width_of(s),
                None => 0,
            },
    {
        match &self.vector {
            None => 0,
            Some(v) => v.len(),
        }
    }

    /// Picks a column and a row uniformly and independently, and returns
    /// them with the cell there. Fails when there is no cell to pick.
    pub fn randomcell(&self) -> (r: Result<GridCell<T>, AutomatonError>)
        requires
            self.well_formed(),
        ensures
            r is Err <==> match self.cells() {
                Some(s) => width_of(s) == 0 || height_of(s) == 0,
                None => true,
            },
            r is Err ==> r == Err::<GridCell<T>, AutomatonError>(AutomatonError::EmptyGrid),
            r matches Ok((x, y, c)) ==> {
                let s = self.cells().unwrap();
                &&& x < width_of(s)
                &&& y < height_of(s)
                &&& c == s[x as int][y as int]
            },
    {
        match &self.vector {
            None => Err(AutomatonError::EmptyGrid),
            Some(v) => {
                let w = v.len();
                if w == 0 {
                    return Err(AutomatonError::EmptyGrid);
                }
                let h = v[0].len();
                if h == 0 {
                    return Err(AutomatonError::EmptyGrid);
                }
                let col = draw_up_to(w - 1);
                let row = draw_up_to(h - 1);
                assert(grid_view(*v)[col as int].len() == h);
                Ok((col, row, v[col][row]))
            },
        }
    }

    /// A grid of `dimensions.width / cellsize` columns of
    /// `dimensions.height / cellsize` cells, each drawn with every state
    /// equally likely.
    pub fn generate_randomgrid_balanced(cellsize: u32, dimensions: Dimensions) -> (r: Vec<Vec<T>>)
        requires
            cellsize > 0,
        ensures
            has_shape(grid_view(r), cells_across(dimensions, cellsize).0, cells_across(dimensions, cellsize).1),
            is_rect(grid_view(r)),
    {
        let cols = (dimensions.width / cellsize) as usize;
        let rows = (dimensions.height / cellsize) as usize;
        let mut gridvector: Vec<Vec<T>> = Vec::new();
        for _x in 0..cols
            invariant
                cols == dimensions.width / cellsize,
                rows == dimensions.height / cellsize,
                has_shape(grid_view(gridvector), _x as int, rows as int),
        {
            let mut column: Vec<T> = Vec::new();
            for _y in 0..rows
                invariant
                    column@.len() == _y,
            {
                column.push(T::balanced());
            }
            let ghost before = gridvector;
            gridvector.push(column);
            assert(grid_view(gridvector) =~= grid_view(before).push(column@));
        }
        gridvector
    }
}

impl CellGrid<BinaryCell> {
    /// A grid of `dimensions.width / cellsize` columns of
    /// `dimensions.height / cellsize` passive cells.
    pub fn generate_empty_grid(cellsize: u32, dimensions: Dimensions) -> (r: Vec<Vec<BinaryCell>>)
        requires
            cellsize > 0,
        ensures
            has_shape(grid_view(r), cells_across(dimensions, cellsize).0, cells_across(dimensions, cellsize).1),
            is_rect(grid_view(r)),
            all_cells_are(grid_view(r), BinaryCell::Passive),
    {
        let cols = (dimensions.width / cellsize) as usize;
        let rows = (dimensions.height / cellsize) as usize;
        let mut gridvector: Vec<Vec<BinaryCell>> = Vec::new();
        for _x in 0..cols
            invariant
                cols == dimensions.width / cellsize,
                rows == dimensions.height / cellsize,
                has_shape(grid_view(gridvector), _x as int, rows as int),
                all_cells_are(grid_view(gridvector), BinaryCell::Passive),
        {
            let mut column: Vec<BinaryCell> = Vec::new();
            for _y in 0..rows
                invariant
                    column@.len() == _y,
                    forall|j: int| 0 <= j < column@.len() ==> column@[j] == BinaryCell::Passive,
            {
                column.push(BinaryCell::Passive);
            }
            let ghost before = gridvector;
            gridvector.push(column);
            assert(grid_view(gridvector) =~= grid_view(before).push(column@));
        }
        gridvector
    }
}

} // verus!
