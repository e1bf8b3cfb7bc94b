use vstd::prelude::*;

use crate::automaton::Automaton;
use crate::error::AutomatonError;
use crate::grid::Dimensions;

verus! {

/// Drives an automaton for a host loop: sets it up once, on the first frame,
/// and advances it as many times as the host's tick budget allows.
pub struct Simulation<T> where T: Automaton {
    pub automaton: T,
    /// Generations per second the host aims for; 0 means one per frame.
    pub fps: u32,
    pub initialized: bool,
}

impl<T: Automaton> Simulation<T> {
    /// The automaton keeps its invariant, and it is set up once the
    /// simulation says so.
    pub open spec fn well_formed(&self) -> bool {
        &&& self.automaton.well_formed()
        &&& self.initialized ==> self.automaton.is_set_up()
    }

    /// A simulation of a new automaton, not set up yet.
    pub fn new(initialstate: &str, cellsize: u32, fps: u32) -> (r: Self)
        requires
            cellsize > 0,
        ensures
            r.well_formed(),
            !r.initialized,
            r.fps == fps,
            r.automaton.generation_count() == 0,
    {
        Simulation { automaton: T::new(initialstate, cellsize), fps, initialized: false }
    }

    /// Sets the automaton up for a window of size `dimensions`, unless that
    /// was done already. The simulation counts as set up once this succeeds;
    /// on failure nothing changes.
    pub fn initialize_once(&mut self, dimensions: Dimensions) -> (r: Result<(), AutomatonError>)
        requires
            old(self).well_formed(),
        ensures
            final(self).well_formed(),
            final(self).fps == old(self).fps,
            old(self).initialized ==> r is Ok && *final(self) == *old(self),
            !old(self).initialized ==> (r is Ok <==> old(self).automaton.init_ok(dimensions)),
            !old(self).initialized && r is Ok ==> {
                &&& final(self).initialized
                &&& old(self).automaton.initialized_to(dimensions, final(self).automaton)
            },
            r is Err ==> *final(self) == *old(self),
    {
        if self.initialized {
            return Ok(());
        }
        self.automaton.initialize(dimensions)?;
        self.initialized = true;
        Ok(())
    }

    /// Advances the automaton by one step, if it has been set up and its
    /// generation counter is not exhausted; tells whether it advanced.
    pub fn step(&mut self) -> (r: bool)
        requires
            old(self).well_formed(),
        ensures
            final(self).well_formed(),
            final(self).fps == old(self).fps,
            final(self).initialized == old(self).initialized,
            r == (old(self).initialized && old(self).automaton.generation_count() < u32::MAX),
            r ==> old(self).automaton.advanced_to(final(self).automaton),
            !r ==> *final(self) == *old(self),
    {
        if self.initialized && self.automaton.generation() < u32::MAX {
            self.automaton.advance();
            true
        } else {
            false
        }
    }
}

} // verus!
