use automata::{Direction, Direction4, Orient};

const ALL4: [Direction4; 4] = [Direction4::North, Direction4::East, Direction4::South, Direction4::West];
const ALL: [Direction; 4] = [Direction::North, Direction::East, Direction::South, Direction::West];

#[test]
fn turn_right_follows_the_cycle() {
    assert_eq!(Direction4::North.turn_right(), Direction4::East);
    assert_eq!(Direction4::East.turn_right(), Direction4::South);
    assert_eq!(Direction4::South.turn_right(), Direction4::West);
    assert_eq!(Direction4::West.turn_right(), Direction4::North);
}

#[test]
fn turn_left_goes_back_along_the_cycle() {
    assert_eq!(Direction4::North.turn_left(), Direction4::West);
    assert_eq!(Direction4::West.turn_left(), Direction4::South);
    assert_eq!(Direction4::South.turn_left(), Direction4::East);
    assert_eq!(Direction4::East.turn_left(), Direction4::North);
}

#[test]
fn turn_around_is_two_right_turns() {
    for o in ALL4 {
        assert_eq!(o.turn_around(), o.turn_right().turn_right());
    }
}

#[test]
fn turns_undo_each_other() {
    for o in ALL4 {
        assert_eq!(o.turn_right().turn_left(), o);
        assert_eq!(o.turn_left().turn_right(), o);
        assert_eq!(o.turn_around().turn_around(), o);
    }
}

#[test]
fn plain_direction_turns_undo_each_other() {
    for d in ALL {
        assert_eq!(d.turn_right().turn_left(), d);
        assert_eq!(d.turn_around().turn_around(), d);
    }
    assert_eq!(Direction::North.turn_right(), Direction::East);
    assert_eq!(Direction::North.turn_left(), Direction::West);
    assert_eq!(Direction::East.turn_around(), Direction::West);
}

#[test]
fn from_index_follows_the_cycle() {
    assert_eq!(Direction4::from_index(0), Direction4::North);
    assert_eq!(Direction4::from_index(1), Direction4::East);
    assert_eq!(Direction4::from_index(2), Direction4::South);
    assert_eq!(Direction4::from_index(3), Direction4::West);
    assert_eq!(Direction::from_index(2), Direction::South);
}

#[test]
fn random_orientation_reaches_every_direction() {
    let mut seen = [false; 4];
    for _ in 0..2000 {
        let o = Direction4::random();
        let i = ALL4.iter().position(|d| *d == o).unwrap();
        seen[i] = true;
    }
    assert!(seen.iter().all(|s| *s));
    let mut seen_plain = [false; 4];
    for _ in 0..2000 {
        let d = Direction::random();
        let i = ALL.iter().position(|e| *e == d).unwrap();
        seen_plain[i] = true;
    }
    assert!(seen_plain.iter().all(|s| *s));
}
