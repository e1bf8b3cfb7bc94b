use automata::{Automaton, Dimensions, GameOfLife, LangtonsAnt, Simulation};

#[test]
fn simulation_starts_unset() {
    let sim = Simulation::<GameOfLife>::new("default", 10, 30);
    assert!(!sim.initialized);
    assert_eq!(sim.fps, 30);
    assert_eq!(sim.automaton.generation(), 0);
}

#[test]
fn simulation_initializes_once() {
    let mut sim = Simulation::<LangtonsAnt>::new("default", 10, 0);
    assert_eq!(sim.initialize_once(Dimensions { width: 100, height: 160 }), Ok(()));
    assert!(sim.initialized);
    let ant = sim.automaton.ant().unwrap();
    // A second call leaves the automaton as it is.
    assert_eq!(sim.initialize_once(Dimensions { width: 300, height: 300 }), Ok(()));
    assert_eq!(sim.automaton.ant().unwrap().position, ant.position);
    assert_eq!(sim.automaton.grid().getwidth(), 10);
}

#[test]
fn failed_initialization_is_not_recorded() {
    let mut sim = Simulation::<GameOfLife>::new("nonsense", 10, 0);
    assert!(sim.initialize_once(Dimensions { width: 100, height: 160 }).is_err());
    assert!(!sim.initialized);
}

#[test]
fn step_advances_the_automaton() {
    let mut sim = Simulation::<GameOfLife>::new("default", 10, 0);
    sim.initialize_once(Dimensions { width: 100, height: 160 }).unwrap();
    assert!(sim.step());
    assert!(sim.step());
    assert_eq!(sim.automaton.generation(), 2);
}

#[test]
fn step_waits_for_initialization() {
    let mut sim = Simulation::<GameOfLife>::new("default", 10, 0);
    assert!(!sim.step());
    assert_eq!(sim.automaton.generation(), 0);
    assert!(sim.automaton.grid().vector.is_none());
    let mut ant = Simulation::<LangtonsAnt>::new("default", 10, 0);
    assert!(!ant.step());
    assert!(ant.automaton.ant().is_none());
    ant.initialize_once(Dimensions { width: 100, height: 160 }).unwrap();
    assert!(ant.step());
    assert_eq!(ant.automaton.ant().unwrap().step, 1);
}
