use vstd::prelude::*;

use crate::error::AutomatonError;
use crate::grid::Dimensions;

verus! {

/// Height, in pixels, kept free below the grid for the host's banner.
pub const BANNER_HEIGHT: u32 = 60;

/// The area left to the grid in a window of size `d`, once the banner's
/// height is taken off (none is left when the window is lower than that).
pub open spec fn grid_area(d: Dimensions) -> Dimensions {
    Dimensions {
        width: d.width,
        height: if d.height >= BANNER_HEIGHT {
            (d.height - BANNER_HEIGHT) as u32
        } else {
            0
        },
    }
}

/// The area left to the grid in a window of size `d`.
pub fn grid_area_of(d: Dimensions) -> (r: Dimensions)
    ensures
        r == grid_area(d),
{
    Dimensions {
        width: d.width,
        height: if d.height >= BANNER_HEIGHT {
            d.height - BANNER_HEIGHT
        } else {
            0
        },
    }
}

/// A rule set over a grid that is set up once and then advanced one
/// generation at a time.
pub trait Automaton: Sized {
    /// The invariant that every operation keeps.
    spec fn well_formed(&self) -> bool;

    /// The generation counter.
    spec fn generation_count(&self) -> nat;

    /// The automaton has been set up and can be advanced.
    spec fn is_set_up(&self) -> bool;

    /// `initialize` succeeds on this automaton for a window of size `d`.
    spec fn init_ok(&self, d: Dimensions) -> bool;

    /// `next` is what a successful `initialize` for a window of size `d`
    /// makes of this automaton.
    spec fn initialized_to(&self, d: Dimensions, next: Self) -> bool;

    /// `next` is this automaton moved on by one step of its rule set.
    spec fn advanced_to(&self, next: Self) -> bool;

    /// An automaton that waits for `initialize`, for square cells of side
    /// `cellsize` and the initial state named `initialstate`.
    fn new(initialstate: &str, cellsize: u32) -> (r: Self)
        requires
            cellsize > 0,
        ensures
            r.well_formed(),
            r.generation_count() == 0,
            !r.is_set_up(),
    ;

    /// Sets up the initial state over the area of a window of size
    /// `dimensions`, less the banner. On failure nothing changes.
    fn initialize(&mut self, dimensions: Dimensions) -> (r: Result<(), AutomatonError>)
        requires
            old(self).well_formed(),
        ensures
            final(self).well_formed(),
            r is Ok <==> old(self).init_ok(dimensions),
            r is Ok ==> old(self).initialized_to(dimensions, *final(self)),
            r is Ok ==> final(self).is_set_up(),
            r is Err ==> *final(self) == *old(self),
    ;

    /// The generation counter.
    fn generation(&self) -> (r: u32)
        ensures
            r == self.generation_count(),
    ;

    /// Moves on by one step of the rule set. The automaton must have been
    /// set up.
    fn advance(&mut self)
        requires
            old(self).well_formed(),
            old(self).is_set_up(),
            old(self).generation_count() < u32::MAX,
        ensures
            final(self).well_formed(),
            final(self).is_set_up(),
            old(self).advanced_to(*final(self)),
            old(self).generation_count() <= final(self).generation_count() <= old(
                self,
            ).generation_count() + 1,
    ;

    /// A one-line summary of the current state.
    fn state(&self) -> String;

    /// The automaton's name.
    fn name(&self) -> String;

    /// The automaton's name with its grid and initial state.
    fn fullname(&self) -> String;
}

} // verus!
