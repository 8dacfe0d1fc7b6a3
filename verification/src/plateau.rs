//! The rectangular grid that bounds a rover's moves.

use vstd::prelude::*;

verus! {

/// A rectangle of grid cells with corners `(0, 0)` and `(max_x, max_y)`, both
/// inclusive. Its bounds are fixed when it is made and are never negative.
#[derive(Debug, Clone, Copy, PartialEq, Eq)]
pub struct Plateau {
    max_x: i32,
    max_y: i32,
}

impl Plateau {
    /// The largest `x` of any cell.
    pub closed spec fn spec_max_x(&self) -> i32 {
        self.max_x
    }

    /// The largest `y` of any cell.
    pub closed spec fn spec_max_y(&self) -> i32 {
        self.max_y
    }

    /// Neither bound is negative, so the plateau holds at least the cell `(0, 0)`.
    #[verifier::type_invariant]
    pub open spec fn wf(&self) -> bool {
        0 <= self.spec_max_x() && 0 <= self.spec_max_y()
    }

    /// Whether `(x, y)` is a cell of this plateau.
    pub open spec fn contains(&self, x: int, y: int) -> bool {
        0 <= x <= self.spec_max_x() && 0 <= y <= self.spec_max_y()
    }

    /// The plateau with corners `(0, 0)` and `(max_x, max_y)`. Neither bound
    /// may be negative.
    pub fn new(max_x: i32, max_y: i32) -> (plateau: Plateau)
        requires
            0 <= max_x,
            0 <= max_y,
        ensures
            plateau.spec_max_x() == max_x,
            plateau.spec_max_y() == max_y,
            plateau.wf(),
    {
        Plateau { max_x, max_y }
    }

    /// The largest `x` of any cell.
    #[verifier::when_used_as_spec(spec_max_x)]
    pub fn max_x(&self) -> (bound: i32)
        ensures
            bound == self.spec_max_x(),
            0 <= bound,
    {
        proof {
            use_type_invariant(self);
        }
        self.max_x
    }

    /// The largest `y` of any cell.
    #[verifier::when_used_as_spec(spec_max_y)]
    pub fn max_y(&self) -> (bound: i32)
        ensures
            bound == self.spec_max_y(),
            0 <= bound,
    {
        proof {
            use_type_invariant(self);
        }
        self.max_y
    }

    /// Tells whether `(x, y)` is a cell of this plateau. Every pair of
    /// coordinates may be asked about; negative ones are never on it.
    pub fn is_within_bounds(&self, x: i32, y: i32) -> (within: bool)
        ensures
            within == self.contains(x as int, y as int),
    {
        0 <= x && x <= self.max_x && 0 <= y && y <= self.max_y
    }
}

} // verus!
