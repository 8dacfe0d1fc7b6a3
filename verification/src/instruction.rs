//! The commands a rover obeys.

use vstd::prelude::*;

verus! {

/// One command for a rover.
#[derive(Debug, Clone, Copy, PartialEq, Eq, Structural)]
pub enum Instruction {
    /// Turn a quarter turn counter-clockwise on the spot.
    LEFT,
    /// Turn a quarter turn clockwise on the spot.
    RIGHT,
    /// Move one cell ahead, or stay where moving would leave the plateau.
    MOVE,
}

} // verus!
