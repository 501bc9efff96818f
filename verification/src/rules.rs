//! The cell state and the per-cell update rule.

use vstd::prelude::*;

verus! {

/// One grid unit: `Dead` or `Alive`. Copied freely; no identity beyond
/// its value.
#[derive(Clone, Copy, Debug, PartialEq, Eq, Structural)]
pub enum Cell {
    Dead,
    Alive,
}

/// The integer weight of a cell: `Alive` counts as one live neighbor.
pub open spec fn cell_weight(c: Cell) -> nat {
    match c {
        Cell::Dead => 0,
        Cell::Alive => 1,
    }
}

/// The standard Game of Life rule for one cell, given its number of
/// live neighbors:
/// - an `Alive` cell with fewer than two live neighbors dies
///   (underpopulation);
/// - an `Alive` cell with two or three live neighbors survives;
/// - an `Alive` cell with more than three live neighbors dies
///   (overpopulation);
/// - a `Dead` cell with exactly three live neighbors becomes `Alive`
///   (reproduction);
/// - every other cell keeps its state.
pub open spec fn next_cell(c: Cell, live: nat) -> Cell {
    match c {
        Cell::Alive => if live < 2 || live > 3 {
            Cell::Dead
        } else {
            Cell::Alive
        },
        Cell::Dead => if live == 3 {
            Cell::Alive
        } else {
            Cell::Dead
        },
    }
}

impl Cell {
    /// The opposite state.
    pub open spec fn toggled(self) -> Cell {
        match self {
            Cell::Dead => Cell::Alive,
            Cell::Alive => Cell::Dead,
        }
    }

    /// Flip this cell between `Dead` and `Alive` in place.
    pub fn toggle(&mut self)
        ensures
            *final(self) == old(self).toggled(),
    {
        *self = match *self {
            Cell::Dead => Cell::Alive,
            Cell::Alive => Cell::Dead,
        };
    }

    /// The executable counterpart of [`cell_weight`]: the summand this
    /// cell contributes to a live-neighbor count.
    pub fn weight(&self) -> (w: u8)
        ensures
            w as nat == cell_weight(*self),
    {
        match *self {
            Cell::Dead => 0,
            Cell::Alive => 1,
        }
    }
}

} // verus!
