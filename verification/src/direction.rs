//! The four headings and the two quarter turns between them.

use vstd::prelude::*;

verus! {

/// A compass heading. Clockwise the headings follow each other as
/// `N`, `E`, `S`, `W` and then `N` again.
#[derive(Debug, Clone, Copy, PartialEq, Eq, Structural)]
pub enum Direction {
    N,
    E,
    S,
    W,
}

impl Direction {
    /// The heading a quarter turn counter-clockwise from this one.
    pub open spec fn spec_rotate_left(self) -> Direction {
        match self {
            Direction::N => Direction::W,
            Direction::W => Direction::S,
            Direction::S => Direction::E,
            Direction::E => Direction::N,
        }
    }

    /// The heading a quarter turn clockwise from this one.
    pub open spec fn spec_rotate_right(self) -> Direction {
        match self {
            Direction::N => Direction::E,
            Direction::E => Direction::S,
            Direction::S => Direction::W,
            Direction::W => Direction::N,
        }
    }

    /// How far one step along this heading changes `x`.
    pub open spec fn dx(self) -> int {
        match self {
            Direction::E => 1,
            Direction::W => -1,
            Direction::N | Direction::S => 0,
        }
    }

    /// How far one step along this heading changes `y`.
    pub open spec fn dy(self) -> int {
        match self {
            Direction::N => 1,
            Direction::S => -1,
            Direction::E | Direction::W => 0,
        }
    }

    /// Turns a quarter turn counter-clockwise.
    #[verifier::when_used_as_spec(spec_rotate_left)]
    pub fn rotate_left(self) -> (turned: Direction)
        ensures
            turned == self.spec_rotate_left(),
    {
        match self {
            Direction::N => Direction::W,
            Direction::W => Direction::S,
            Direction::S => Direction::E,
            Direction::E => Direction::N,
        }
    }

    /// Turns a quarter turn clockwise.
    #[verifier::when_used_as_spec(spec_rotate_right)]
    pub fn rotate_right(self) -> (turned: Direction)
        ensures
            turned == self.spec_rotate_right(),
    {
        match self {
            Direction::N => Direction::E,
            Direction::E => Direction::S,
            Direction::S => Direction::W,
            Direction::W => Direction::N,
        }
    }
}

/// Four quarter turns counter-clockwise bring every heading back to itself.
pub proof fn lemma_rotate_left_four_times(h: Direction)
    ensures
        h.spec_rotate_left().spec_rotate_left().spec_rotate_left().spec_rotate_left() == h,
{
}

/// Four quarter turns clockwise bring every heading back to itself.
pub proof fn lemma_rotate_right_four_times(h: Direction)
    ensures
        h.spec_rotate_right().spec_rotate_right().spec_rotate_right().spec_rotate_right() == h,
{
}

/// A quarter turn counter-clockwise undoes a quarter turn clockwise.
pub proof fn lemma_rotate_left_undoes_right(h: Direction)
    ensures
        h.spec_rotate_right().spec_rotate_left() == h,
{
}

/// A quarter turn clockwise undoes a quarter turn counter-clockwise.
pub proof fn lemma_rotate_right_undoes_left(h: Direction)
    ensures
        h.spec_rotate_left().spec_rotate_right() == h,
{
}

} // verus!
