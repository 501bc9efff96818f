//! Laws of the automaton, proved once for every grid.

use vstd::prelude::*;

use crate::rules::Cell;
use crate::universe::{
    all_dead, cell_index, lemma_cell_index_in_range, live_neighbors, live_neighbors_at,
    neighbor_weight, tick_spec, toggled_at, with_cells_alive, wrap,
};

verus! {

/// On a grid with every cell `Dead`, the live-neighbor count is zero at
/// every position, corners and edges included: wrapping around an edge
/// never conjures a live cell.
pub proof fn lemma_dead_grid_has_no_live_neighbors(w: nat, h: nat, row: nat, col: nat)
    requires
        1 <= w,
        1 <= h,
        row < h,
        col < w,
    ensures
        live_neighbors(all_dead(w * h), w, h, row, col) == 0,
{
    assert forall|dr: nat, dc: nat|
        #[trigger] neighbor_weight(all_dead(w * h), w, h, row, col, dr, dc) == 0 by {
        let nr = wrap(row, dr, h);
        let nc = wrap(col, dc, w);
        lemma_cell_index_in_range(w, h, nr, nc);
        assert(all_dead(w * h)[cell_index(w, nr, nc) as int] == Cell::Dead);
    }
}

/// Toggling the same cell twice returns the grid to its original state:
/// toggling is its own inverse.
pub proof fn lemma_toggle_twice_restores(g: Seq<Cell>, i: int)
    requires
        0 <= i < g.len(),
    ensures
        toggled_at(toggled_at(g, i), i) == g,
{
    assert(toggled_at(toggled_at(g, i), i) =~= g);
}

/// Setting the same cells alive a second time changes nothing:
/// `set_cells` is idempotent, duplicate coordinates included.
pub proof fn lemma_set_cells_idempotent(g: Seq<Cell>, coords: Seq<(u32, u32)>, w: nat)
    ensures
        with_cells_alive(with_cells_alive(g, coords, w), coords, w) == with_cells_alive(
            g,
            coords,
            w,
        ),
{
    assert(with_cells_alive(with_cells_alive(g, coords, w), coords, w) =~= with_cells_alive(
        g,
        coords,
        w,
    ));
}

/// `set_cells` only ever turns cells `Alive`, never `Dead`: a cell that
/// comes out `Dead` was `Dead` before, and a live cell stays live.
pub proof fn lemma_set_cells_only_enlivens(g: Seq<Cell>, coords: Seq<(u32, u32)>, w: nat, i: int)
    requires
        0 <= i < g.len(),
    ensures
        with_cells_alive(g, coords, w)[i] == Cell::Dead ==> g[i] == Cell::Dead,
        g[i] == Cell::Alive ==> with_cells_alive(g, coords, w)[i] == Cell::Alive,
{
}

/// Two batches of cells can be set alive in either order: the resulting
/// grid is the same.
pub proof fn lemma_set_cells_commute(
    g: Seq<Cell>,
    first: Seq<(u32, u32)>,
    second: Seq<(u32, u32)>,
    w: nat,
)
    ensures
        with_cells_alive(with_cells_alive(g, first, w), second, w) == with_cells_alive(
            with_cells_alive(g, second, w),
            first,
            w,
        ),
{
    assert(with_cells_alive(with_cells_alive(g, first, w), second, w) =~= with_cells_alive(
        with_cells_alive(g, second, w),
        first,
        w,
    ));
}

/// Underpopulation: an `Alive` cell with fewer than two live neighbors
/// is `Dead` in the next generation.
pub proof fn lemma_underpopulation(g: Seq<Cell>, w: nat, h: nat, i: int)
    requires
        1 <= w,
        1 <= h,
        g.len() == w * h,
        0 <= i < g.len(),
        g[i] == Cell::Alive,
        live_neighbors_at(g, w, h, i) < 2,
    ensures
        tick_spec(g, w, h)[i] == Cell::Dead,
{
}

/// Overpopulation: an `Alive` cell with more than three live neighbors
/// is `Dead` in the next generation.
pub proof fn lemma_overpopulation(g: Seq<Cell>, w: nat, h: nat, i: int)
    requires
        1 <= w,
        1 <= h,
        g.len() == w * h,
        0 <= i < g.len(),
        g[i] == Cell::Alive,
        live_neighbors_at(g, w, h, i) > 3,
    ensures
        tick_spec(g, w, h)[i] == Cell::Dead,
{
}

/// Survival: an `Alive` cell with two or three live neighbors stays
/// `Alive`.
pub proof fn lemma_survival(g: Seq<Cell>, w: nat, h: nat, i: int)
    requires
        1 <= w,
        1 <= h,
        g.len() == w * h,
        0 <= i < g.len(),
        g[i] == Cell::Alive,
        2 <= live_neighbors_at(g, w, h, i) <= 3,
    ensures
        tick_spec(g, w, h)[i] == Cell::Alive,
{
}

/// Reproduction: a `Dead` cell with exactly three live neighbors
/// becomes `Alive`; with any other count it stays `Dead`.
pub proof fn lemma_reproduction(g: Seq<Cell>, w: nat, h: nat, i: int)
    requires
        1 <= w,
        1 <= h,
        g.len() == w * h,
        0 <= i < g.len(),
        g[i] == Cell::Dead,
    ensures
        live_neighbors_at(g, w, h, i) == 3 ==> tick_spec(g, w, h)[i] == Cell::Alive,
        live_neighbors_at(g, w, h, i) != 3 ==> tick_spec(g, w, h)[i] == Cell::Dead,
{
}

} // verus!
