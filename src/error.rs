use vstd::prelude::*;

verus! {

/// The ways an operation of the automaton core can fail.
#[derive(Debug, Clone, Copy, PartialEq, Eq, Structural)]
pub enum AutomatonError {
    /// A parameter outside the values the operation accepts, such as an
    /// unknown skew target.
    InvalidArgument,
    /// The grid has not been populated yet.
    NotInitialized,
    /// There is no cell to pick: the grid is absent or holds no cells.
    EmptyGrid,
    /// The automaton does not know the initial-state keyword it was given.
    UnsupportedInitialState,
}

} // verus!
