//! The mathematical model of a rover: what it is at one moment, and what each
//! instruction makes of it.

use vstd::prelude::*;
use crate::direction::Direction;
use crate::instruction::Instruction;
use crate::plateau::Plateau;

verus! {

/// A rover at one moment: the cell it stands on, the heading it faces and the
/// plateau it is bound to.
pub struct RoverState {
    pub x: int,
    pub y: int,
    pub direction: Direction,
    pub plateau: Plateau,
}

impl RoverState {
    /// Whether the rover stands on a cell of its plateau.
    pub open spec fn on_plateau(self) -> bool {
        self.plateau.contains(self.x, self.y)
    }

    /// The cell one step ahead along the heading, on the plateau or not.
    pub open spec fn ahead(self) -> (int, int) {
        (self.x + self.direction.dx(), self.y + self.direction.dy())
    }

    /// Whether the cell one step ahead lies off the plateau.
    pub open spec fn blocked(self) -> bool {
        !self.plateau.contains(self.ahead().0, self.ahead().1)
    }

    /// The rover after a quarter turn counter-clockwise on the spot.
    pub open spec fn turn_left(self) -> RoverState {
        RoverState { direction: self.direction.spec_rotate_left(), ..self }
    }

    /// The rover after a quarter turn clockwise on the spot.
    pub open spec fn turn_right(self) -> RoverState {
        RoverState { direction: self.direction.spec_rotate_right(), ..self }
    }

    /// The rover after a move: one cell ahead, or unchanged where that cell
    /// lies off the plateau.
    pub open spec fn move_forward(self) -> RoverState {
        if self.blocked() {
            self
        } else {
            RoverState { x: self.ahead().0, y: self.ahead().1, ..self }
        }
    }

    /// The rover after one instruction.
    pub open spec fn execute(self, instruction: Instruction) -> RoverState {
        match instruction {
            Instruction::LEFT => self.turn_left(),
            Instruction::RIGHT => self.turn_right(),
            Instruction::MOVE => self.move_forward(),
        }
    }

    /// The rover after a sequence of instructions, obeyed first to last.
    pub open spec fn execute_all(self, instructions: Seq<Instruction>) -> RoverState {
        instructions.fold_left(
            self,
            |state: RoverState, instruction: Instruction| state.execute(instruction),
        )
    }
}

/// Whether every instruction of the sequence is `MOVE`.
pub open spec fn only_moves(instructions: Seq<Instruction>) -> bool {
    forall|i: int| 0 <= i < instructions.len() ==> instructions[i] == Instruction::MOVE
}

/// No instructions leave the rover as it is.
pub proof fn lemma_execute_all_empty(state: RoverState)
    ensures
        state.execute_all(Seq::empty()) == state,
{
}

/// Obeying a sequence with one more instruction at its end is obeying the
/// sequence and then that instruction.
pub proof fn lemma_execute_all_push(
    state: RoverState,
    instructions: Seq<Instruction>,
    last: Instruction,
)
    ensures
        state.execute_all(instructions.push(last)) == state.execute_all(instructions).execute(last),
{
    assert(instructions.push(last).drop_last() =~= instructions);
}

/// Obeying two sequences one after the other is obeying the first and then,
/// from where that ends, the second: no instruction looks ahead.
pub proof fn lemma_execute_all_concat(
    state: RoverState,
    first: Seq<Instruction>,
    second: Seq<Instruction>,
)
    ensures
        state.execute_all(first + second) == state.execute_all(first).execute_all(second),
    decreases second.len(),
{
    if second.len() == 0 {
        assert(first + second =~= first);
    } else {
        lemma_execute_all_concat(state, first, second.drop_last());
        assert((first + second).drop_last() =~= first + second.drop_last());
    }
}

/// Obeying the same instructions from the same start ends in the same state.
pub proof fn lemma_execute_all_deterministic(
    start_a: RoverState,
    start_b: RoverState,
    instructions_a: Seq<Instruction>,
    instructions_b: Seq<Instruction>,
)
    requires
        start_a == start_b,
        instructions_a.len() == instructions_b.len(),
        forall|i: int| 0 <= i < instructions_a.len() ==> instructions_a[i] == instructions_b[i],
    ensures
        start_a.execute_all(instructions_a) == start_b.execute_all(instructions_b),
{
    assert(instructions_a =~= instructions_b);
}

/// One instruction never changes the plateau, and never takes a rover that
/// stands on its plateau off it.
pub proof fn lemma_execute_stays_on_plateau(state: RoverState, instruction: Instruction)
    ensures
        state.execute(instruction).plateau == state.plateau,
        state.on_plateau() ==> state.execute(instruction).on_plateau(),
{
}

/// No sequence of instructions changes the plateau, or takes a rover that
/// stands on its plateau off it.
pub proof fn lemma_execute_all_stays_on_plateau(state: RoverState, instructions: Seq<Instruction>)
    ensures
        state.execute_all(instructions).plateau == state.plateau,
        state.on_plateau() ==> state.execute_all(instructions).on_plateau(),
    decreases instructions.len(),
{
    if instructions.len() > 0 {
        lemma_execute_all_stays_on_plateau(state, instructions.drop_last());
    }
}

/// A rover whose way ahead is blocked stays as it is however often it is told
/// to move.
pub proof fn lemma_blocked_moves_change_nothing(state: RoverState, moves: Seq<Instruction>)
    requires
        state.blocked(),
        only_moves(moves),
    ensures
        state.execute_all(moves) == state,
    decreases moves.len(),
{
    if moves.len() > 0 {
        lemma_blocked_moves_change_nothing(state, moves.drop_last());
    }
}

/// At the corner `(max_x, max_y)`, facing north or east, repeated moves leave
/// the rover where it is.
pub proof fn lemma_far_corner_holds(state: RoverState, moves: Seq<Instruction>)
    requires
        state.x == state.plateau.spec_max_x(),
        state.y == state.plateau.spec_max_y(),
        state.direction == Direction::N || state.direction == Direction::E,
        only_moves(moves),
    ensures
        state.move_forward() == state,
        state.execute_all(moves) == state,
{
    lemma_blocked_moves_change_nothing(state, moves);
}

/// At the corner `(0, 0)`, facing south or west, repeated moves leave the
/// rover where it is.
pub proof fn lemma_origin_holds(state: RoverState, moves: Seq<Instruction>)
    requires
        state.x == 0,
        state.y == 0,
        state.direction == Direction::S || state.direction == Direction::W,
        only_moves(moves),
    ensures
        state.move_forward() == state,
        state.execute_all(moves) == state,
{
    lemma_blocked_moves_change_nothing(state, moves);
}

} // verus!
