use automata::{AutomatonError, BinaryCell, CellGrid, Dimensions};

use BinaryCell::{Active as A, Passive as P};

fn grid_of(cells: Vec<Vec<BinaryCell>>) -> CellGrid<BinaryCell> {
    let mut g = CellGrid::new(10);
    g.setgrid(cells);
    g
}

#[test]
fn absent_grid_has_no_size_and_no_cells() {
    let g = CellGrid::<BinaryCell>::new(10);
    assert_eq!(g.getwidth(), 0);
    assert_eq!(g.getheight(), 0);
    assert_eq!(g.cellsize(), 10);
    assert!(g.vector.is_none());
    assert!(g.dimensions.is_none());
    assert_eq!(g.randomcell(), Err(AutomatonError::EmptyGrid));
    assert!(matches!(g.scan(), Err(AutomatonError::NotInitialized)));
    assert_eq!(g.scan_all(), Err(AutomatonError::NotInitialized));
}

#[test]
fn width_counts_columns_and_height_rows() {
    let g = grid_of(vec![vec![P, A], vec![A, A], vec![P, P]]);
    assert_eq!(g.getwidth(), 3);
    assert_eq!(g.getheight(), 2);
}

#[test]
fn empty_grid_has_the_fitting_shape_and_only_passive_cells() {
    let cells = CellGrid::<BinaryCell>::generate_empty_grid(10, Dimensions { width: 600, height: 545 });
    assert_eq!(cells.len(), 60);
    assert!(cells.iter().all(|c| c.len() == 54));
    assert!(cells.iter().all(|c| c.iter().all(|x| *x == P)));
}

#[test]
fn random_grid_has_the_fitting_shape_and_both_states() {
    let cells =
        CellGrid::<BinaryCell>::generate_randomgrid_balanced(7, Dimensions { width: 70, height: 140 });
    assert_eq!(cells.len(), 10);
    assert!(cells.iter().all(|c| c.len() == 20));
    let active = cells.iter().flatten().filter(|x| **x == A).count();
    assert!(active > 0 && active < 200);
}

#[test]
fn grid_smaller_than_a_cell_is_empty() {
    let cells = CellGrid::<BinaryCell>::generate_empty_grid(10, Dimensions { width: 9, height: 100 });
    assert!(cells.is_empty());
    let g = grid_of(cells);
    assert_eq!(g.getwidth(), 0);
    assert_eq!(g.getheight(), 0);
    assert_eq!(g.randomcell(), Err(AutomatonError::EmptyGrid));
    assert_eq!(g.scan_all(), Ok(vec![]));
}

#[test]
fn grid_without_rows_has_no_cell_to_pick() {
    let g = grid_of(vec![vec![], vec![]]);
    assert_eq!(g.getwidth(), 2);
    assert_eq!(g.getheight(), 0);
    assert_eq!(g.randomcell(), Err(AutomatonError::EmptyGrid));
    assert_eq!(g.scan_all(), Ok(vec![]));
}

#[test]
fn scan_is_column_major() {
    let g = grid_of(vec![vec![A, P], vec![P, P], vec![A, A]]);
    let mut sc = g.scan().unwrap();
    let mut seen = vec![];
    while let Some(item) = sc.next() {
        seen.push(item);
    }
    assert_eq!(
        seen,
        vec![(0, 0, A), (0, 1, P), (1, 0, P), (1, 1, P), (2, 0, A), (2, 1, A)]
    );
    // The scan is one-shot: once done it stays done.
    assert_eq!(sc.next(), None);
    assert_eq!(sc.next(), None);
}

#[test]
fn scan_visits_every_cell_once() {
    let (w, h) = (7usize, 5usize);
    let cells: Vec<Vec<BinaryCell>> =
        (0..w).map(|x| (0..h).map(|y| if (x + y) % 2 == 0 { A } else { P }).collect()).collect();
    let g = grid_of(cells.clone());
    let all = g.scan_all().unwrap();
    assert_eq!(all.len(), w * h);
    for (k, (x, y, c)) in all.iter().enumerate() {
        assert_eq!((*x, *y), (k / h, k % h));
        assert_eq!(*c, cells[*x][*y]);
    }
}

#[test]
fn scan_takes_a_snapshot() {
    let mut g = grid_of(vec![vec![A], vec![P]]);
    let mut sc = g.scan().unwrap();
    g.setgrid(vec![vec![P], vec![P]]);
    assert_eq!(sc.next(), Some((0, 0, A)));
    assert_eq!(sc.collect_remaining(), vec![(1, 0, P)]);
}

#[test]
fn random_cell_lies_inside_and_reads_its_cell() {
    let cells = vec![vec![A, P, P], vec![P, A, P]];
    let g = grid_of(cells.clone());
    let mut seen = std::collections::HashSet::new();
    for _ in 0..500 {
        let (x, y, c) = g.randomcell().unwrap();
        assert!(x < 2 && y < 3);
        assert_eq!(c, cells[x][y]);
        seen.insert((x, y));
    }
    assert_eq!(seen.len(), 6);
}

#[test]
fn setdimensions_records_the_area() {
    let mut g = CellGrid::<BinaryCell>::new(5);
    g.setdimensions(Dimensions { width: 30, height: 40 });
    assert_eq!(g.dimensions, Some(Dimensions { width: 30, height: 40 }));
    assert!(g.vector.is_none());
}
