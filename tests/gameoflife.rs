use automata::{Automaton, AutomatonError, BinaryCell, Dimensions, GameOfLife};

use BinaryCell::{Active as A, Passive as P};

fn life_with(cells: Vec<Vec<BinaryCell>>) -> GameOfLife {
    let mut g = GameOfLife::new("default", 10);
    g.set_cells(cells);
    g
}

fn cells_of(g: &GameOfLife) -> Vec<Vec<BinaryCell>> {
    g.grid().vector.clone().unwrap()
}

/// A grid of `w` columns and `h` rows whose active cells are `on`.
fn grid_with(w: usize, h: usize, on: &[(usize, usize)]) -> Vec<Vec<BinaryCell>> {
    let mut cells = vec![vec![P; h]; w];
    for &(x, y) in on {
        cells[x][y] = A;
    }
    cells
}

#[test]
fn neighbour_counts_around_a_block() {
    let g = life_with(grid_with(4, 4, &[(1, 1), (1, 2), (2, 1), (2, 2)]));
    for x in 0..4 {
        for y in 0..4 {
            let n = g.scan_vicinity(x, y);
            if (1..=2).contains(&x) && (1..=2).contains(&y) {
                assert_eq!(n, 3);
            } else {
                assert!(n <= 2);
            }
        }
    }
    assert_eq!(g.scan_vicinity(0, 0), 1);
    assert_eq!(g.scan_vicinity(0, 1), 2);
}

#[test]
fn lonely_cell_dies() {
    let mut g = life_with(grid_with(5, 5, &[(2, 2)]));
    g.advance();
    assert_eq!(cells_of(&g), grid_with(5, 5, &[]));
    assert_eq!(g.alive(), 0);
    assert_eq!(g.dead(), 25);
}

#[test]
fn cell_with_one_neighbour_dies() {
    let mut g = life_with(grid_with(4, 4, &[(1, 1), (2, 1)]));
    g.advance();
    assert_eq!(cells_of(&g), grid_with(4, 4, &[]));
}

#[test]
fn block_is_a_still_life() {
    let block = grid_with(4, 4, &[(1, 1), (1, 2), (2, 1), (2, 2)]);
    let mut g = life_with(block.clone());
    for _ in 0..3 {
        g.advance();
        assert_eq!(cells_of(&g), block);
    }
    assert_eq!(g.alive(), 4);
    assert_eq!(g.dead(), 12);
}

#[test]
fn block_in_a_corner_is_a_still_life() {
    let block = grid_with(3, 2, &[(0, 0), (0, 1), (1, 0), (1, 1)]);
    let mut g = life_with(block.clone());
    g.advance();
    assert_eq!(cells_of(&g), block);
}

#[test]
fn all_passive_grid_stays_passive() {
    for (w, h) in [(1, 1), (3, 7), (10, 10)] {
        let mut g = life_with(grid_with(w, h, &[]));
        g.advance();
        assert_eq!(cells_of(&g), grid_with(w, h, &[]));
        assert_eq!(g.alive(), 0);
        assert_eq!(g.dead(), (w * h) as u64);
    }
}

#[test]
fn blinker_oscillates() {
    let horizontal = grid_with(5, 5, &[(1, 2), (2, 2), (3, 2)]);
    let vertical = grid_with(5, 5, &[(2, 1), (2, 2), (2, 3)]);
    let mut g = life_with(horizontal.clone());
    g.advance();
    assert_eq!(cells_of(&g), vertical);
    assert_eq!(g.alive(), 3);
    g.advance();
    assert_eq!(cells_of(&g), horizontal);
    assert_eq!(g.generation(), 2);
}

#[test]
fn crowded_cell_dies_and_three_neighbours_give_birth() {
    // A plus sign: the centre has four neighbours and dies; corners get three
    // and come alive.
    let mut g = life_with(grid_with(3, 3, &[(1, 0), (0, 1), (1, 1), (2, 1), (1, 2)]));
    g.advance();
    assert_eq!(
        cells_of(&g),
        vec![vec![A, A, A], vec![A, P, A], vec![A, A, A]]
    );
    assert_eq!(g.alive(), 8);
    assert_eq!(g.dead(), 1);
}

#[test]
fn update_reads_the_old_generation_only() {
    // Column of three: in place updates would kill the middle too early.
    let mut g = life_with(grid_with(3, 3, &[(1, 0), (1, 1), (1, 2)]));
    g.advance();
    assert_eq!(cells_of(&g), grid_with(3, 3, &[(0, 1), (1, 1), (2, 1)]));
}

#[test]
fn initialize_fills_the_area_above_the_banner() {
    let mut g = GameOfLife::new("default", 10);
    assert_eq!(g.initialize(Dimensions { width: 600, height: 660 }), Ok(()));
    let cells = cells_of(&g);
    assert_eq!(cells.len(), 60);
    assert!(cells.iter().all(|c| c.len() == 60));
    assert_eq!(g.grid().dimensions, Some(Dimensions { width: 600, height: 600 }));
    assert_eq!(g.name(), "Conway's Game of Life | Grid | Random [1:1]");
    assert_eq!(g.generation(), 0);
}

#[test]
fn initialize_accepts_random_balanced() {
    let mut g = GameOfLife::new("random-balanced", 20);
    assert_eq!(g.initialize(Dimensions { width: 100, height: 100 }), Ok(()));
    assert_eq!(cells_of(&g).len(), 5);
    assert_eq!(cells_of(&g)[0].len(), 2);
}

#[test]
fn window_lower_than_the_banner_leaves_no_rows() {
    let mut g = GameOfLife::new("default", 10);
    assert_eq!(g.initialize(Dimensions { width: 100, height: 50 }), Ok(()));
    assert_eq!(g.grid().getwidth(), 10);
    assert_eq!(g.grid().getheight(), 0);
    g.advance();
    assert_eq!(g.alive() + g.dead(), 0);
}

#[test]
fn life_initialize_rejects_unknown_state() {
    let mut g = GameOfLife::new("glider-gun", 10);
    assert_eq!(
        g.initialize(Dimensions { width: 600, height: 660 }),
        Err(AutomatonError::UnsupportedInitialState)
    );
    assert!(g.grid().vector.is_none());
    assert_eq!(g.name(), "Conway's Game of Life | Grid | glider-gun");
}

#[test]
fn counts_cover_the_whole_grid() {
    let mut g = GameOfLife::new("default", 10);
    g.initialize(Dimensions { width: 200, height: 160 }).unwrap();
    g.advance();
    let cells = cells_of(&g);
    let active = cells.iter().flatten().filter(|c| **c == A).count() as u64;
    assert_eq!(g.alive(), active);
    assert_eq!(g.alive() + g.dead(), 200);
}

#[test]
fn state_and_name_text() {
    let mut g = life_with(grid_with(2, 2, &[(0, 0), (0, 1), (1, 0)]));
    assert_eq!(g.state(), "Generation: 0 | Alive: 0 | Dead: 0");
    g.advance();
    assert_eq!(g.state(), "Generation: 1 | Alive: 4 | Dead: 0");
    assert_eq!(g.name(), "Conway's Game of Life | Grid | default");
    assert_eq!(g.fullname(), g.name());
}
