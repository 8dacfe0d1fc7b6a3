//! A rover that drives over a bounded rectangular plateau.
//!
//! A [`Plateau`] is a fixed grid with corners `(0, 0)` and `(max_x, max_y)`.
//! A [`Rover`] stands on one cell of a plateau, faces one of four
//! [`Direction`]s and obeys [`Instruction`]s: it turns on the spot, or moves one
//! cell ahead unless that would take it off the plateau.

pub mod direction;
pub mod instruction;
pub mod plateau;
pub mod rover;
pub mod state;

pub use direction::Direction;
pub use instruction::Instruction;
pub use plateau::Plateau;
pub use rover::Rover;
pub use state::RoverState;
