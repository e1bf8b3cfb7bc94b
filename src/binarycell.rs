use vstd::prelude::*;

use crate::error::AutomatonError;
use crate::random::draw_up_to;
use crate::text::same_text;

verus! {

/// The capability of a grid cell: it can be drawn at random, either evenly
/// between its states or skewed toward one of them.
pub trait SimCell: Sized + Copy {
    /// Draws a cell with every state equally likely.
    fn balanced() -> Self;

    /// Draws a cell skewed toward the state that `skew` names, `"active"` or
    /// `"passive"`: a draw from `0..=bias` that is 0 gives the other state.
    /// Any other `skew` is an invalid argument.
    fn skewed(skew: &str, bias: i8) -> (r: Result<Self, AutomatonError>)
        requires
            bias >= 0,
    ;
}

/// A two-state cell: off (`Passive`) or on (`Active`).
#[derive(Debug, Clone, Copy, PartialEq, Eq, Structural)]
pub enum BinaryCell {
    Passive,
    Active,
}

/// The cell that a balanced draw from `0..=1` gives.
pub open spec fn balanced_outcome(draw: int) -> BinaryCell {
    if draw == 0 {
        BinaryCell::Passive
    } else {
        BinaryCell::Active
    }
}

/// What a skewed draw gives: the favoured state unless the draw is 0, and an
/// invalid argument for a skew target other than `"active"` or `"passive"`.
pub open spec fn skew_outcome(skew: Seq<char>, draw: int) -> Result<BinaryCell, AutomatonError> {
    if skew == "active"@ {
        Ok(if draw == 0 { BinaryCell::Passive } else { BinaryCell::Active })
    } else if skew == "passive"@ {
        Ok(if draw == 0 { BinaryCell::Active } else { BinaryCell::Passive })
    } else {
        Err(AutomatonError::InvalidArgument)
    }
}

impl BinaryCell {
    /// The other state.
    pub open spec fn toggled(self) -> BinaryCell {
        match self {
            BinaryCell::Active => BinaryCell::Passive,
            BinaryCell::Passive => BinaryCell::Active,
        }
    }

    /// The cell for a draw from `0..=1`: 0 is passive, anything else active.
    pub fn from_balanced_draw(draw: usize) -> (r: BinaryCell)
        ensures
            r == balanced_outcome(draw as int),
    {
        if draw == 0 {
            BinaryCell::Passive
        } else {
            BinaryCell::Active
        }
    }

    /// The cell for a draw made toward the skew target `skew`.
    pub fn from_skewed_draw(skew: &str, draw: usize) -> (r: Result<BinaryCell, AutomatonError>)
        ensures
            r == skew_outcome(skew@, draw as int),
    {
        if same_text(skew, "active") {
            if draw == 0 {
                Ok(BinaryCell::Passive)
            } else {
                Ok(BinaryCell::Active)
            }
        } else if same_text(skew, "passive") {
            if draw == 0 {
                Ok(BinaryCell::Active)
            } else {
                Ok(BinaryCell::Passive)
            }
        } else {
            Err(AutomatonError::InvalidArgument)
        }
    }
}

impl SimCell for BinaryCell {
    fn balanced() -> (r: BinaryCell)
        ensures
            exists|d: int| 0 <= d <= 1 && r == balanced_outcome(d),
    {
        let draw = draw_up_to(1);
        BinaryCell::from_balanced_draw(draw)
    }

    fn skewed(skew: &str, bias: i8) -> (r: Result<BinaryCell, AutomatonError>)
        ensures
            exists|d: int| 0 <= d <= bias && r == #[trigger] skew_outcome(skew@, d),
            r is Err <==> (skew@ != "active"@ && skew@ != "passive"@),
            r is Err ==> r == Err::<BinaryCell, AutomatonError>(AutomatonError::InvalidArgument),
            bias == 0 ==> r == skew_outcome(skew@, 0),
    {
        let draw = draw_up_to(bias as usize);
        BinaryCell::from_skewed_draw(skew, draw)
    }
}

} // verus!
