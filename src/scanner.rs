use vstd::arithmetic::div_mod::lemma_fundamental_div_mod_converse;
use vstd::prelude::*;

use crate::binarycell::SimCell;
use crate::error::AutomatonError;
use crate::grid::{copy_columns, grid_view, height_of, is_rect, width_of, CellGrid, GridCell};

verus! {

/// The cells of `s` in scan order: column by column from the first, and
/// within a column row by row from the first. Entry `k` is the cell in
/// column `k / height` and row `k % height`.
pub open spec fn scan_order<T>(s: Seq<Seq<T>>) -> Seq<GridCell<T>> {
    let h = height_of(s) as int;
    Seq::new(
        width_of(s) * height_of(s),
        |k: int| ((k / h) as usize, (k % h) as usize, s[k / h][k % h]),
    )
}

/// A one-shot scan over a snapshot of a grid's contents, in scan order.
pub struct GridScanner<T> where T: SimCell {
    gridvector: Vec<Vec<T>>,
    current_column: usize,
    current_row: usize,
}

impl<T: SimCell> GridScanner<T> {
    /// The contents being scanned.
    pub closed spec fn cells(&self) -> Seq<Seq<T>> {
        grid_view(self.gridvector)
    }

    /// How many cells have been handed out so far.
    pub closed spec fn visited(&self) -> int {
        self.current_column * height_of(self.cells()) + self.current_row
    }

    pub closed spec fn well_formed(&self) -> bool {
        let s = self.cells();
        let h = height_of(s);
        &&& is_rect(s)
        &&& h == 0 ==> self.current_column == 0 && self.current_row == 0
        &&& h > 0 ==> {
            &&& self.current_row < h
            &&& self.current_column <= width_of(s)
            &&& self.current_column == width_of(s) ==> self.current_row == 0
        }
    }

    proof fn lemma_visited_bound(&self)
        requires
            self.well_formed(),
        ensures
            0 <= self.visited() <= width_of(self.cells()) * height_of(self.cells()),
    {
        let s = self.cells();
        let w = width_of(s) as int;
        let h = height_of(s) as int;
        let x = self.current_column as int;
        let y = self.current_row as int;
        assert(0 <= x * h + y <= w * h) by (nonlinear_arith)
            requires
                0 <= x <= w,
                0 <= y,
                0 <= h,
                h == 0 ==> x == 0 && y == 0,
                h > 0 ==> y < h,
                x == w ==> y == 0,
        ;
    }

    /// Hands out the next cell in scan order, or `None` once every cell has
    /// been handed out.
    pub fn next(&mut self) -> (r: Option<GridCell<T>>)
        requires
            old(self).well_formed(),
        ensures
            final(self).well_formed(),
            final(self).cells() == old(self).cells(),
            old(self).visited() < scan_order(old(self).cells()).len() ==> {
                &&& r == Some(scan_order(old(self).cells())[old(self).visited()])
                &&& final(self).visited() == old(self).visited() + 1
            },
            old(self).visited() >= scan_order(old(self).cells()).len() ==> {
                &&& r is None
                &&& final(self).visited() == old(self).visited()
            },
    {
        proof {
            self.lemma_visited_bound();
        }
        let ghost s = self.cells();
        let w = self.gridvector.len();
        if w == 0 {
            return None;
        }
        let h = self.gridvector[0].len();
        if h == 0 || self.current_column >= w {
            proof {
                if h > 0 {
                    assert(self.current_column * h == w * h);
                }
            }
            return None;
        }
        let x = self.current_column;
        let y = self.current_row;
        assert(s[x as int].len() == h);
        let item = (x, y, self.gridvector[x][y]);
        proof {
            let k = x * h + y;
            lemma_fundamental_div_mod_converse(k, h as int, x as int, y as int);
            assert(k < w * h) by (nonlinear_arith)
                requires
                    0 <= x < w,
                    0 <= y < h,
                    k == x * h + y,
            ;
            assert((x + 1) * h == x * h + h) by (nonlinear_arith);
        }
        if y + 1 < h {
            self.current_row = y + 1;
        } else {
            self.current_row = 0;
            self.current_column = x + 1;
        }
        Some(item)
    }

    /// Hands out every remaining cell, in scan order.
    pub fn collect_remaining(&mut self) -> (r: Vec<GridCell<T>>)
        requires
            old(self).well_formed(),
        ensures
            final(self).well_formed(),
            final(self).cells() == old(self).cells(),
            r@ == scan_order(old(self).cells()).subrange(
                old(self).visited(),
                scan_order(old(self).cells()).len() as int,
            ),
            final(self).visited() == scan_order(old(self).cells()).len(),
    {
        let ghost s = self.cells();
        let ghost start = self.visited();
        proof {
            self.lemma_visited_bound();
        }
        let mut out: Vec<GridCell<T>> = Vec::new();
        loop
            invariant
                self.well_formed(),
                self.cells() == s,
                0 <= start <= self.visited() <= scan_order(s).len(),
                out@ == scan_order(s).subrange(start, self.visited()),
            ensures
                self.well_formed(),
                self.cells() == s,
                self.visited() == scan_order(s).len(),
                out@ == scan_order(s).subrange(start, scan_order(s).len() as int),
            decreases scan_order(s).len() - self.visited(),
        {
            let ghost before = self.visited();
            match self.next() {
                Some(c) => {
                    assert(scan_order(s).subrange(start, self.visited()) =~= scan_order(s).subrange(
                        start,
                        before,
                    ).push(c));
                    out.push(c);
                },
                None => {
                    break;
                },
            }
        }
        out
    }
}

impl<T: SimCell> CellGrid<T> {
    /// A scan over a snapshot of the current contents, starting at the
    /// first cell. Fails while the grid is absent.
    pub fn scan(&self) -> (r: Result<GridScanner<T>, AutomatonError>)
        requires
            self.well_formed(),
        ensures
            self.cells() is None ==> r == Err::<GridScanner<T>, AutomatonError>(
                AutomatonError::NotInitialized,
            ),
            self.cells() matches Some(s) ==> r matches Ok(sc) && sc.well_formed() && sc.cells()
                == s && sc.visited() == 0,
    {
        match &self.vector {
            None => Err(AutomatonError::NotInitialized),
            Some(v) => {
                let gridvector = copy_columns(v);
                let sc = GridScanner { gridvector, current_column: 0, current_row: 0 };
                assert(sc.visited() == 0);
                Ok(sc)
            },
        }
    }

    /// Every cell of the grid with its position, in scan order. Fails while
    /// the grid is absent.
    pub fn scan_all(&self) -> (r: Result<Vec<GridCell<T>>, AutomatonError>)
        requires
            self.well_formed(),
        ensures
            self.cells() is None ==> r == Err::<Vec<GridCell<T>>, AutomatonError>(
                AutomatonError::NotInitialized,
            ),
            self.cells() matches Some(s) ==> r matches Ok(v) && v@ == scan_order(s),
    {
        let mut sc = self.scan()?;
        let all = sc.collect_remaining();
        assert(all@ =~= scan_order(self.cells().unwrap()));
        Ok(all)
    }
}

/// A scan visits exactly `width * height` cells, and the cell at column `x`
/// and row `y` comes at place `x * height + y` of the scan order, with its
/// own value.
pub proof fn lemma_scan_cell<T>(s: Seq<Seq<T>>, x: int, y: int)
    requires
        0 <= x < width_of(s),
        0 <= y < height_of(s),
        width_of(s) <= usize::MAX,
        height_of(s) <= usize::MAX,
    ensures
        scan_order(s).len() == width_of(s) * height_of(s),
        0 <= x * height_of(s) + y < scan_order(s).len(),
        scan_order(s)[x * height_of(s) + y].0 as int == x,
        scan_order(s)[x * height_of(s) + y].1 as int == y,
        scan_order(s)[x * height_of(s) + y].2 == s[x][y],
{
    let w = width_of(s) as int;
    let h = height_of(s) as int;
    let k = x * h + y;
    lemma_fundamental_div_mod_converse(k, h, x, y);
    assert(0 <= k < w * h) by (nonlinear_arith)
        requires
            0 <= x < w,
            0 <= y < h,
            k == x * h + y,
    ;
}

/// Place `k` of the scan order holds column `k / height` and row
/// `k % height`, a position inside the grid, with the cell there.
pub proof fn lemma_scan_place<T>(s: Seq<Seq<T>>, k: int)
    requires
        width_of(s) <= usize::MAX,
        height_of(s) <= usize::MAX,
        0 <= k < scan_order(s).len(),
    ensures
        height_of(s) > 0,
        0 <= k / (height_of(s) as int) < width_of(s),
        0 <= k % (height_of(s) as int) < height_of(s),
        scan_order(s)[k].0 as int == k / (height_of(s) as int),
        scan_order(s)[k].1 as int == k % (height_of(s) as int),
        scan_order(s)[k].2 == s[scan_order(s)[k].0 as int][scan_order(s)[k].1 as int],
{
    let w = width_of(s) as int;
    let h = height_of(s) as int;
    assert(h > 0) by (nonlinear_arith)
        requires
            0 <= k < w * h,
            w >= 0,
            h >= 0,
    ;
    assert(0 <= k / h < w) by (nonlinear_arith)
        requires
            0 <= k < w * h,
            h > 0,
    ;
    assert(0 <= k % h < h) by (nonlinear_arith)
        requires
            h > 0,
    ;
}

/// Positions strictly increase along the scan order, column first and then
/// row, so no position comes twice.
pub proof fn lemma_scan_column_major<T>(s: Seq<Seq<T>>, k1: int, k2: int)
    requires
        width_of(s) <= usize::MAX,
        height_of(s) <= usize::MAX,
        0 <= k1 < k2 < scan_order(s).len(),
    ensures
        ({
            let (x1, y1, _) = scan_order(s)[k1];
            let (x2, y2, _) = scan_order(s)[k2];
            x1 < x2 || (x1 == x2 && y1 < y2)
        }),
{
    lemma_scan_place(s, k1);
    lemma_scan_place(s, k2);
    let h = height_of(s) as int;
    let q1 = k1 / h;
    let q2 = k2 / h;
    let r1 = k1 % h;
    let r2 = k2 % h;
    assert(k1 == q1 * h + r1 && k2 == q2 * h + r2) by (nonlinear_arith)
        requires
            h > 0,
            q1 == k1 / h,
            q2 == k2 / h,
            r1 == k1 % h,
            r2 == k2 % h,
    ;
    assert(q1 < q2 || (q1 == q2 && r1 < r2)) by (nonlinear_arith)
        requires
            k1 < k2,
            k1 == q1 * h + r1,
            k2 == q2 * h + r2,
            0 <= r1 < h,
            0 <= r2 < h,
    ;
}

} // verus!
