//! Conway's Game of Life on a toroidal grid.
//!
//! The grid wraps at all four edges: every cell has exactly eight
//! neighbors, obtained by offsetting its row and column by -1, 0 or +1
//! modulo the grid dimensions. One `tick` applies the standard rule to
//! every cell simultaneously, computed from a snapshot of the current
//! generation.
//!
//! Random seeding is a host concern: the constructor and `reset` take
//! the outcomes of the host's coin flips as a slice of booleans, so the
//! core stays deterministic and fully specified.

pub mod rules;
pub mod universe;
pub mod laws;

pub use rules::Cell;
pub use universe::Universe;
