//! The rover itself: a cell, a heading and the plateau it drives on.

use vstd::prelude::*;
use crate::direction::Direction;
use crate::instruction::Instruction;
use crate::plateau::Plateau;
use crate::state::{lemma_execute_all_push, lemma_execute_all_stays_on_plateau, RoverState};

verus! {

/// A rover on a plateau. It always stands on a cell of that plateau: it is
/// put on one when it is made, and a move that would take it off is not made.
#[derive(Debug, PartialEq)]
pub struct Rover<'a> {
    x: i32,
    y: i32,
    direction: Direction,
    plateau: &'a Plateau,
}

impl<'a> View for Rover<'a> {
    type V = RoverState;

    closed spec fn view(&self) -> RoverState {
        RoverState {
            x: self.x as int,
            y: self.y as int,
            direction: self.direction,
            plateau: *self.plateau,
        }
    }
}

impl<'a> Rover<'a> {
    /// The rover stands on a cell of its plateau.
    #[verifier::type_invariant]
    pub open spec fn wf(&self) -> bool {
        self@.on_plateau()
    }

    /// A rover on the cell `(x, y)` of `plateau`, facing `direction`. The cell
    /// has to be one of the plateau's: ask [`Plateau::is_within_bounds`] where
    /// that is not known.
    pub fn new(x: i32, y: i32, direction: Direction, plateau: &'a Plateau) -> (rover: Self)
        requires
            plateau.contains(x as int, y as int),
        ensures
            rover@ == (RoverState { x: x as int, y: y as int, direction, plateau: *plateau }),
            rover.wf(),
    {
        Rover { x, y, direction, plateau }
    }

    /// The `x` of the cell the rover stands on.
    pub fn x(&self) -> (x: i32)
        ensures
            x == self@.x,
            0 <= x <= self@.plateau.spec_max_x(),
    {
        proof {
            use_type_invariant(self);
        }
        self.x
    }

    /// The `y` of the cell the rover stands on.
    pub fn y(&self) -> (y: i32)
        ensures
            y == self@.y,
            0 <= y <= self@.plateau.spec_max_y(),
    {
        proof {
            use_type_invariant(self);
        }
        self.y
    }

    /// The heading the rover faces.
    pub fn direction(&self) -> (direction: Direction)
        ensures
            direction == self@.direction,
    {
        self.direction
    }

    /// Turns the rover a quarter turn counter-clockwise on the spot.
    pub fn turn_left(&mut self)
        ensures
            final(self)@ == old(self)@.turn_left(),
            final(self).wf(),
    {
        proof {
            use_type_invariant(&*self);
        }
        self.direction = self.direction.rotate_left();
    }

    /// Turns the rover a quarter turn clockwise on the spot.
    pub fn turn_right(&mut self)
        ensures
            final(self)@ == old(self)@.turn_right(),
            final(self).wf(),
    {
        proof {
            use_type_invariant(&*self);
        }
        self.direction = self.direction.rotate_right();
    }

    /// Moves the rover one cell ahead. Where that cell lies off the plateau
    /// the rover stays as it is.
    pub fn move_forward(&mut self)
        ensures
            final(self)@ == old(self)@.move_forward(),
            final(self).wf(),
    {
        proof {
            use_type_invariant(&*self);
        }
        let ahead: Option<(i32, i32)> = match self.direction {
            Direction::N => match self.y.checked_add(1) {
                Some(y) => Some((self.x, y)),
                None => None,
            },
            Direction::E => match self.x.checked_add(1) {
                Some(x) => Some((x, self.y)),
                None => None,
            },
            Direction::S => match self.y.checked_sub(1) {
                Some(y) => Some((self.x, y)),
                None => None,
            },
            Direction::W => match self.x.checked_sub(1) {
                Some(x) => Some((x, self.y)),
                None => None,
            },
        };
        if let Some((x, y)) = ahead {
            if self.plateau.is_within_bounds(x, y) {
                self.x = x;
                self.y = y;
            }
        }
    }

    /// Obeys the instructions one after the other, first to last.
    pub fn execute_instructions(&mut self, instructions: &[Instruction])
        ensures
            final(self)@ == old(self)@.execute_all(instructions@),
            final(self)@.plateau == old(self)@.plateau,
            final(self).wf(),
    {
        let mut done: usize = 0;
        while done < instructions.len()
            invariant
                done <= instructions.len(),
                self@ == old(self)@.execute_all(instructions@.take(done as int)),
            decreases instructions.len() - done,
        {
            proof {
                lemma_execute_all_push(
                    old(self)@,
                    instructions@.take(done as int),
                    instructions@[done as int],
                );
                assert(instructions@.take(done as int).push(instructions@[done as int])
                    =~= instructions@.take(done + 1));
            }
            match instructions[done] {
                Instruction::LEFT => self.turn_left(),
                Instruction::RIGHT => self.turn_right(),
                Instruction::MOVE => self.move_forward(),
            }
            done += 1;
        }
        proof {
            assert(instructions@.take(done as int) =~= instructions@);
            lemma_execute_all_stays_on_plateau(old(self)@, instructions@);
            use_type_invariant(&*self);
        }
    }
}

} // verus!
