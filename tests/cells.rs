use automata::{AutomatonError, BinaryCell, Cell, SimCell};

#[test]
fn balanced_draw_maps_zero_to_passive() {
    assert_eq!(BinaryCell::from_balanced_draw(0), BinaryCell::Passive);
    assert_eq!(BinaryCell::from_balanced_draw(1), BinaryCell::Active);
}

#[test]
fn skewed_draw_gives_the_other_state_only_on_zero() {
    assert_eq!(BinaryCell::from_skewed_draw("active", 0), Ok(BinaryCell::Passive));
    assert_eq!(BinaryCell::from_skewed_draw("active", 1), Ok(BinaryCell::Active));
    assert_eq!(BinaryCell::from_skewed_draw("active", 100), Ok(BinaryCell::Active));
    assert_eq!(BinaryCell::from_skewed_draw("passive", 0), Ok(BinaryCell::Active));
    assert_eq!(BinaryCell::from_skewed_draw("passive", 7), Ok(BinaryCell::Passive));
}

#[test]
fn skewed_rejects_unknown_target() {
    assert_eq!(BinaryCell::from_skewed_draw("sideways", 3), Err(AutomatonError::InvalidArgument));
    assert_eq!(BinaryCell::from_skewed_draw("", 0), Err(AutomatonError::InvalidArgument));
    assert_eq!(BinaryCell::from_skewed_draw("Active", 1), Err(AutomatonError::InvalidArgument));
    assert_eq!(BinaryCell::skewed("activ", 10), Err(AutomatonError::InvalidArgument));
}

#[test]
fn skewed_with_zero_bias_always_gives_the_other_state() {
    for _ in 0..100 {
        assert_eq!(BinaryCell::skewed("active", 0), Ok(BinaryCell::Passive));
        assert_eq!(BinaryCell::skewed("passive", 0), Ok(BinaryCell::Active));
    }
}

#[test]
fn skewed_bias_one_is_balanced() {
    let n = 20000;
    let mut passive = 0;
    for _ in 0..n {
        if BinaryCell::skewed("active", 1).unwrap() == BinaryCell::Passive {
            passive += 1;
        }
    }
    // Expected 10000, standard deviation about 71.
    assert!((9000..=11000).contains(&passive), "passive = {}", passive);
}

#[test]
fn skewed_bias_hundred_rarely_gives_passive() {
    let n = 101000;
    let mut passive = 0;
    for _ in 0..n {
        if BinaryCell::skewed("active", 100).unwrap() == BinaryCell::Passive {
            passive += 1;
        }
    }
    // Expected 1000 (one in 101), standard deviation about 31.
    assert!((800..=1200).contains(&passive), "passive = {}", passive);
}

#[test]
fn balanced_is_even() {
    let n = 20000;
    let active = (0..n).filter(|_| BinaryCell::balanced() == BinaryCell::Active).count();
    assert!((9000..=11000).contains(&active), "active = {}", active);
}

#[test]
fn cell_from_integer_is_alive_on_multiples_of_three() {
    assert_eq!(Cell::from(0), Cell::Alive);
    assert_eq!(Cell::from(3), Cell::Alive);
    assert_eq!(Cell::from(9), Cell::Alive);
    assert_eq!(Cell::from(-3), Cell::Alive);
    assert_eq!(Cell::from(1), Cell::Dead);
    assert_eq!(Cell::from(5), Cell::Dead);
    assert_eq!(Cell::from(-1), Cell::Dead);
}

#[test]
fn random_plain_cell_is_alive_four_times_in_ten() {
    let n = 20000;
    let alive = (0..n).filter(|_| Cell::new() == Cell::Alive).count();
    // Expected 8000, standard deviation about 69.
    assert!((7400..=8600).contains(&alive), "alive = {}", alive);
}
