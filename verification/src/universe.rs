//! The universe: grid dimensions, the flat cell buffer, and the
//! generational update.

use vstd::prelude::*;

use crate::rules::{cell_weight, next_cell, Cell};
use vstd::arithmetic::div_mod::lemma_fundamental_div_mod_converse;
use vstd::pervasive::VecAdditionalExecFns;
use vstd::string::StringExecFns;

verus! {

/// The flat index of the cell at `(row, col)` in a row-major grid of
/// width `w`.
pub open spec fn cell_index(w: nat, row: nat, col: nat) -> nat {
    row * w + col
}

/// A coordinate offset by a delta, wrapped around a dimension of size
/// `m`.
pub open spec fn wrap(x: nat, d: nat, m: nat) -> nat
    recommends
        m >= 1,
{
    (x + d) % m
}

/// The full grid (dimensions plus row-major cell buffer) and its
/// update logic.
pub struct Universe {
    width: u32,
    height: u32,
    cells: Vec<Cell>,
}

impl Universe {
    /// The row-major cell buffer, as a mathematical sequence.
    pub closed spec fn grid(self) -> Seq<Cell> {
        self.cells@
    }

    /// The grid width, as a mathematical integer.
    pub closed spec fn spec_width(self) -> nat {
        self.width as nat
    }

    /// The grid height, as a mathematical integer.
    pub closed spec fn spec_height(self) -> nat {
        self.height as nat
    }

    /// The buffer always holds exactly one cell per grid position.
    pub open spec fn well_formed(self) -> bool {
        self.grid().len() == self.spec_width() * self.spec_height()
    }

    /// The grid width.
    pub fn width(&self) -> (w: u32)
        ensures
            w as nat == self.spec_width(),
    {
        self.width
    }

    /// The grid height.
    pub fn height(&self) -> (h: u32)
        ensures
            h as nat == self.spec_height(),
    {
        self.height
    }

    /// Translate a row and column into an index into the cell buffer.
    fn get_index(&self, row: u32, column: u32) -> (i: usize)
        requires
            self.well_formed(),
            row < self.spec_height(),
            column < self.spec_width(),
        ensures
            i == cell_index(self.spec_width(), row as nat, column as nat),
            i < self.grid().len(),
    {
        // The buffer length bounds the index, so the arithmetic below
        // stays within usize.
        let _len = self.cells.len();
        proof {
            lemma_cell_index_in_range(
                self.spec_width(),
                self.spec_height(),
                row as nat,
                column as nat,
            );
        }
        (row as usize) * (self.width as usize) + (column as usize)
    }

    /// The weight of the one neighbor at offset `(dr, dc)` from
    /// `(row, column)`, wrapping around the grid edges.
    fn neighbor_weight_at(&self, row: u32, column: u32, dr: u32, dc: u32) -> (n: u8)
        requires
            self.well_formed(),
            1 <= self.spec_width(),
            1 <= self.spec_height(),
            row < self.spec_height(),
            column < self.spec_width(),
        ensures
            n as nat == neighbor_weight(
                self.grid(),
                self.spec_width(),
                self.spec_height(),
                row as nat,
                column as nat,
                dr as nat,
                dc as nat,
            ),
            n <= 1,
    {
        let nr = ((row as u64 + dr as u64) % (self.height as u64)) as u32;
        let nc = ((column as u64 + dc as u64) % (self.width as u64)) as u32;
        let idx = self.get_index(nr, nc);
        self.cells[idx].weight()
    }

    /// Count the live cells among the eight toroidal neighbors of the
    /// cell at `(row, column)`. The neighbor coordinates are the row
    /// and column each offset by `-1`, `0` or `+1` modulo the grid
    /// dimensions, the cell itself skipped, so lookups wrap at all four
    /// edges.
    pub fn live_neighbor_count(&self, row: u32, column: u32) -> (count: u8)
        requires
            self.well_formed(),
            1 <= self.spec_width(),
            1 <= self.spec_height(),
            row < self.spec_height(),
            column < self.spec_width(),
        ensures
            count as nat == live_neighbors(
                self.grid(),
                self.spec_width(),
                self.spec_height(),
                row as nat,
                column as nat,
            ),
            count <= 8,
    {
        let up = self.height - 1;
        let left = self.width - 1;
        let mut count: u8 = self.neighbor_weight_at(row, column, up, left);
        count = count + self.neighbor_weight_at(row, column, up, 0);
        count = count + self.neighbor_weight_at(row, column, up, 1);
        count = count + self.neighbor_weight_at(row, column, 0, left);
        count = count + self.neighbor_weight_at(row, column, 0, 1);
        count = count + self.neighbor_weight_at(row, column, 1, left);
        count = count + self.neighbor_weight_at(row, column, 1, 0);
        count = count + self.neighbor_weight_at(row, column, 1, 1);
        count
    }

    /// Build the cell buffer named by a sequence of coin flips.
    fn seeded_cells(flips: &[bool]) -> (cells: Vec<Cell>)
        ensures
            cells@ == seeded(flips@),
    {
        let n = flips.len();
        let mut cells: Vec<Cell> = Vec::new();
        let mut i: usize = 0;
        while i < n
            invariant
                n == flips@.len(),
                i <= n,
                cells@.len() == i,
                forall|j: int| 0 <= j < i ==> cells@[j] == seeded(flips@)[j],
            decreases n - i,
        {
            let alive = flips[i];
            cells.push(
                if alive {
                    Cell::Alive
                } else {
                    Cell::Dead
                },
            );
            i = i + 1;
        }
        proof {
            assert(cells@ =~= seeded(flips@));
        }
        cells
    }

    /// Create a universe of the given dimensions. The host supplies the
    /// outcome of one fair coin flip per cell, row-major: a `true` flip
    /// seeds that cell `Alive`, a `false` flip seeds it `Dead`.
    pub fn new(width: u32, height: u32, flips: &[bool]) -> (u: Universe)
        requires
            flips@.len() == width * height,
        ensures
            u.well_formed(),
            u.spec_width() == width as nat,
            u.spec_height() == height as nat,
            u.grid() == seeded(flips@),
            u.grid().len() == width * height,
    {
        let cells = Self::seeded_cells(flips);
        Universe { width, height, cells }
    }

    /// Re-seed every cell from a fresh coin flip, one per cell, exactly
    /// as at construction. The dimensions stay as they are.
    pub fn reset(&mut self, flips: &[bool])
        requires
            old(self).well_formed(),
            flips@.len() == old(self).spec_width() * old(self).spec_height(),
        ensures
            final(self).well_formed(),
            final(self).spec_width() == old(self).spec_width(),
            final(self).spec_height() == old(self).spec_height(),
            final(self).grid() == seeded(flips@),
    {
        self.cells = Self::seeded_cells(flips);
    }

    /// Read-only view of the whole cell buffer, row-major.
    pub fn get_cells(&self) -> (cells: &[Cell])
        ensures
            cells@ == self.grid(),
    {
        self.cells.as_slice()
    }

    /// Borrow the current cell buffer for zero-copy consumption by a
    /// host renderer. The borrow must end before the next mutating
    /// call: a tick, resize or reset may rewrite or reallocate the
    /// buffer.
    pub fn cells(&self) -> (cells: &[Cell])
        ensures
            cells@ == self.grid(),
    {
        self.cells.as_slice()
    }

    /// Set the width of the universe. Destructive: every cell of the
    /// resized grid is `Dead`.
    pub fn set_width(&mut self, width: u32)
        requires
            (width as int) * (old(self).spec_height() as int) <= usize::MAX,
        ensures
            final(self).well_formed(),
            final(self).spec_width() == width as nat,
            final(self).spec_height() == old(self).spec_height(),
            final(self).grid() == all_dead((width as nat) * old(self).spec_height()),
    {
        let n = (width as usize) * (self.height as usize);
        self.width = width;
        self.cells = Self::dead_cells(n);
    }

    /// Set the height of the universe. Destructive: every cell of the
    /// resized grid is `Dead`.
    pub fn set_height(&mut self, height: u32)
        requires
            (old(self).spec_width() as int) * (height as int) <= usize::MAX,
        ensures
            final(self).well_formed(),
            final(self).spec_width() == old(self).spec_width(),
            final(self).spec_height() == height as nat,
            final(self).grid() == all_dead(old(self).spec_width() * (height as nat)),
    {
        let n = (self.width as usize) * (height as usize);
        self.height = height;
        self.cells = Self::dead_cells(n);
    }

    /// Build an all-`Dead` buffer of `n` cells.
    fn dead_cells(n: usize) -> (cells: Vec<Cell>)
        ensures
            cells@ == all_dead(n as nat),
    {
        let mut cells: Vec<Cell> = Vec::new();
        let mut i: usize = 0;
        while i < n
            invariant
                i <= n,
                cells@.len() == i,
                forall|j: int| 0 <= j < i ==> cells@[j] == Cell::Dead,
            decreases n - i,
        {
            cells.push(Cell::Dead);
            i = i + 1;
        }
        proof {
            assert(cells@ =~= all_dead(n as nat));
        }
        cells
    }

    /// Flip the cell at `(row, column)` between `Dead` and `Alive` in
    /// place.
    pub fn toggle_cell(&mut self, row: u32, column: u32)
        requires
            old(self).well_formed(),
            row < old(self).spec_height(),
            column < old(self).spec_width(),
        ensures
            final(self).well_formed(),
            final(self).spec_width() == old(self).spec_width(),
            final(self).spec_height() == old(self).spec_height(),
            final(self).grid() == toggled_at(
                old(self).grid(),
                cell_index(old(self).spec_width(), row as nat, column as nat) as int,
            ),
    {
        let idx = self.get_index(row, column);
        let mut cell = self.cells[idx];
        cell.toggle();
        self.cells.set(idx, cell);
    }

    /// A human-readable snapshot of the grid: one line per row, one
    /// glyph per cell (`'◼'` for `Alive`, `'◻'` for `Dead`), each row
    /// ended by a newline.
    pub fn render(&self) -> (s: String)
        requires
            self.well_formed(),
        ensures
            s@ == render_text(self.grid(), self.spec_width(), self.spec_height()),
    {
        proof {
            reveal_strlit("◼");
            reveal_strlit("◻");
            reveal_strlit("\n");
        }
        let w = self.width;
        let h = self.height;
        let ghost g = self.grid();
        let mut s = String::new();
        let mut row: u32 = 0;
        while row < h
            invariant
                self.well_formed(),
                w == self.width,
                h == self.height,
                g == self.grid(),
                row <= h,
                s@ == rows_text(g, w as nat, row as nat),
            decreases h - row,
        {
            let mut col: u32 = 0;
            while col < w
                invariant
                    self.well_formed(),
                    w == self.width,
                    h == self.height,
                    g == self.grid(),
                    row < h,
                    col <= w,
                    s@ == rows_text(g, w as nat, row as nat) + Seq::new(
                        col as nat,
                        |c: int| glyph(g[(row as int) * (w as int) + c]),
                    ),
                decreases w - col,
            {
                let idx = self.get_index(row, col);
                let cell = self.cells[idx];
                match cell {
                    Cell::Alive => s.append("◼"),
                    Cell::Dead => s.append("◻"),
                }
                proof {
                    reveal_strlit("◼");
                    reveal_strlit("◻");
                    assert(Seq::new(
                        (col + 1) as nat,
                        |c: int| glyph(g[(row as int) * (w as int) + c]),
                    ) =~= Seq::new(col as nat, |c: int| glyph(g[(row as int) * (w as int) + c])).push(
                        glyph(g[idx as int]),
                    ));
                }
                col = col + 1;
            }
            s.append("\n");
            proof {
                reveal_strlit("\n");
                assert(Seq::new(w as nat, |c: int| glyph(g[(row as int) * (w as int) + c])) =~= Seq::new(
                    w as nat,
                    |c: int| glyph(g[(row as nat) * (w as nat) + c]),
                ));
                assert(s@ =~= rows_text(g, w as nat, (row + 1) as nat));
            }
            row = row + 1;
        }
        s
    }

    /// Set every cell named by a `(row, column)` pair to `Alive`. Other
    /// cells are untouched; the grid is not cleared first, and naming a
    /// cell twice is the same as naming it once.
    pub fn set_cells(&mut self, cells: &[(u32, u32)])
        requires
            old(self).well_formed(),
            forall|k: int|
                0 <= k < cells@.len() ==> ((#[trigger] cells@[k]).0 < old(self).spec_height()
                    && cells@[k].1 < old(self).spec_width()),
        ensures
            final(self).well_formed(),
            final(self).spec_width() == old(self).spec_width(),
            final(self).spec_height() == old(self).spec_height(),
            final(self).grid() == with_cells_alive(
                old(self).grid(),
                cells@,
                old(self).spec_width(),
            ),
    {
        let ghost g = self.grid();
        let ghost w = self.spec_width();
        let n = cells.len();
        let mut k: usize = 0;
        while k < n
            invariant
                self.well_formed(),
                self.spec_width() == old(self).spec_width(),
                self.spec_height() == old(self).spec_height(),
                g == old(self).grid(),
                w == old(self).spec_width(),
                self.grid().len() == g.len(),
                n == cells@.len(),
                k <= n,
                forall|k2: int|
                    0 <= k2 < n ==> ((#[trigger] cells@[k2]).0 < self.spec_height()
                        && cells@[k2].1 < self.spec_width()),
                forall|i: int|
                    0 <= i < g.len() ==> self.grid()[i] == (if hits(
                        cells@.take(k as int),
                        w,
                        i,
                    ) {
                        Cell::Alive
                    } else {
                        g[i]
                    }),
            decreases n - k,
        {
            let coord = cells[k];
            let idx = self.get_index(coord.0, coord.1);
            let ghost before = self.grid();
            self.cells.set(idx, Cell::Alive);
            proof {
                let prefix = cells@.take(k as int);
                let extended = cells@.take(k as int + 1);
                assert(extended[k as int] == cells@[k as int]);
                assert forall|i: int| 0 <= i < g.len() implies self.grid()[i] == (if hits(
                    extended,
                    w,
                    i,
                ) {
                    Cell::Alive
                } else {
                    g[i]
                }) by {
                    if i == idx as int {
                        assert(cell_index(w, extended[k as int].0 as nat, extended[k as int].1 as nat)
                            == i);
                        assert(hits(extended, w, i));
                    } else {
                        assert(self.grid()[i] == before[i]);
                        if hits(extended, w, i) {
                            let k2 = choose|k2: int|
                                0 <= k2 < extended.len() && cell_index(
                                    w,
                                    (#[trigger] extended[k2]).0 as nat,
                                    extended[k2].1 as nat,
                                ) == i;
                            assert(k2 < k as int);
                            assert(prefix[k2] == extended[k2]);
                            assert(hits(prefix, w, i));
                        } else {
                            assert(!hits(prefix, w, i)) by {
                                if hits(prefix, w, i) {
                                    let k2 = choose|k2: int|
                                        0 <= k2 < prefix.len() && cell_index(
                                            w,
                                            (#[trigger] prefix[k2]).0 as nat,
                                            prefix[k2].1 as nat,
                                        ) == i;
                                    assert(extended[k2] == prefix[k2]);
                                    assert(hits(extended, w, i));
                                }
                            }
                        }
                    }
                }
            }
            k = k + 1;
        }
        proof {
            assert(cells@.take(n as int) =~= cells@);
            assert(self.grid() =~= with_cells_alive(g, cells@, w));
        }
    }

    /// Advance the universe one generation. The whole next grid is
    /// computed from a snapshot of the current one and the buffer is
    /// replaced at once, so no neighbor count ever observes an
    /// already-updated cell.
    pub fn tick(&mut self)
        requires
            old(self).well_formed(),
            1 <= old(self).spec_width(),
            1 <= old(self).spec_height(),
        ensures
            final(self).well_formed(),
            final(self).spec_width() == old(self).spec_width(),
            final(self).spec_height() == old(self).spec_height(),
            final(self).grid() == tick_spec(
                old(self).grid(),
                old(self).spec_width(),
                old(self).spec_height(),
            ),
    {
        let w = self.width;
        let h = self.height;
        let ghost g = self.grid();
        let mut next: Vec<Cell> = Vec::new();
        let mut row: u32 = 0;
        while row < h
            invariant
                *self == *old(self),
                self.well_formed(),
                w == self.width,
                h == self.height,
                1 <= w,
                1 <= h,
                g == self.grid(),
                row <= h,
                next@.len() == row * w,
                forall|j: int|
                    0 <= j < next@.len() ==> next@[j] == tick_spec(g, w as nat, h as nat)[j],
            decreases h - row,
        {
            let mut col: u32 = 0;
            while col < w
                invariant
                    *self == *old(self),
                    self.well_formed(),
                    w == self.width,
                    h == self.height,
                    1 <= w,
                    1 <= h,
                    g == self.grid(),
                    row < h,
                    col <= w,
                    next@.len() == row * w + col,
                    forall|j: int|
                        0 <= j < next@.len() ==> next@[j] == tick_spec(g, w as nat, h as nat)[j],
                decreases w - col,
            {
                let idx = self.get_index(row, col);
                let cell = self.cells[idx];
                let live = self.live_neighbor_count(row, col);
                let next_state = match cell {
                    Cell::Alive => if live < 2 {
                        Cell::Dead
                    } else if live <= 3 {
                        Cell::Alive
                    } else {
                        Cell::Dead
                    },
                    Cell::Dead => if live == 3 {
                        Cell::Alive
                    } else {
                        Cell::Dead
                    },
                };
                proof {
                    lemma_cell_index_in_range(w as nat, h as nat, row as nat, col as nat);
                    lemma_fundamental_div_mod_converse(
                        idx as int,
                        w as int,
                        row as int,
                        col as int,
                    );
                    assert(tick_spec(g, w as nat, h as nat)[idx as int] == next_state);
                }
                next.push(next_state);
                col = col + 1;
            }
            proof {
                assert((row + 1) * (w as int) == row * (w as int) + w) by (nonlinear_arith);
            }
            row = row + 1;
        }
        proof {
            assert(next@.len() == (h as int) * (w as int));
            assert(g.len() == (w as int) * (h as int));
            assert(tick_spec(g, w as nat, h as nat).len() == g.len());
            assert(next@ =~= tick_spec(g, w as nat, h as nat));
        }
        self.cells = next;
    }
}

/// The weight one neighbor contributes to the live-neighbor count of
/// the cell at `(row, col)`: the weight of the cell found by offsetting
/// the coordinates by `(dr, dc)` and wrapping around the grid.
pub open spec fn neighbor_weight(
    g: Seq<Cell>,
    w: nat,
    h: nat,
    row: nat,
    col: nat,
    dr: nat,
    dc: nat,
) -> nat
    recommends
        w >= 1,
        h >= 1,
{
    cell_weight(g[cell_index(w, wrap(row, dr, h), wrap(col, dc, w)) as int])
}

/// The number of `Alive` cells among the eight toroidal neighbors of
/// the cell at `(row, col)`: row offsets `{h-1, 0, 1}` combined with
/// column offsets `{w-1, 0, 1}`, the cell itself excluded. Offsetting
/// by `h-1` (resp. `w-1`) modulo the dimension is offsetting by `-1`,
/// so the grid wraps at all four edges.
pub open spec fn live_neighbors(g: Seq<Cell>, w: nat, h: nat, row: nat, col: nat) -> nat
    recommends
        w >= 1,
        h >= 1,
{
    neighbor_weight(g, w, h, row, col, (h - 1) as nat, (w - 1) as nat) + neighbor_weight(
        g,
        w,
        h,
        row,
        col,
        (h - 1) as nat,
        0,
    ) + neighbor_weight(g, w, h, row, col, (h - 1) as nat, 1) + neighbor_weight(
        g,
        w,
        h,
        row,
        col,
        0,
        (w - 1) as nat,
    ) + neighbor_weight(g, w, h, row, col, 0, 1) + neighbor_weight(
        g,
        w,
        h,
        row,
        col,
        1,
        (w - 1) as nat,
    ) + neighbor_weight(g, w, h, row, col, 1, 0) + neighbor_weight(g, w, h, row, col, 1, 1)
}

/// The live-neighbor count of the cell at flat index `i`, recovered
/// from the row `i / w` and column `i % w` that the index encodes.
pub open spec fn live_neighbors_at(g: Seq<Cell>, w: nat, h: nat, i: int) -> nat
    recommends
        w >= 1,
        h >= 1,
{
    live_neighbors(g, w, h, (i / w as int) as nat, (i % w as int) as nat)
}

/// The next generation of a grid of width `w` and height `h`: the rule
/// applied to every cell at once, every neighbor count read from the
/// same snapshot `g` of the current generation.
pub open spec fn tick_spec(g: Seq<Cell>, w: nat, h: nat) -> Seq<Cell>
    recommends
        w >= 1,
        h >= 1,
        g.len() == w * h,
{
    Seq::new(g.len(), |i: int| next_cell(g[i], live_neighbors_at(g, w, h, i)))
}

/// The grid seeded from one coin flip per cell: a `true` flip makes the
/// cell `Alive`, a `false` flip makes it `Dead`.
pub open spec fn seeded(flips: Seq<bool>) -> Seq<Cell> {
    Seq::new(
        flips.len(),
        |i: int|
            if flips[i] {
                Cell::Alive
            } else {
                Cell::Dead
            },
    )
}

/// An all-`Dead` grid of `n` cells.
pub open spec fn all_dead(n: nat) -> Seq<Cell> {
    Seq::new(n, |i: int| Cell::Dead)
}

/// The grid `g` with the cell at flat index `i` flipped.
pub open spec fn toggled_at(g: Seq<Cell>, i: int) -> Seq<Cell> {
    g.update(i, g[i].toggled())
}

/// Whether some coordinate pair in `coords` names the cell at flat
/// index `i` of a grid of width `w`.
pub open spec fn hits(coords: Seq<(u32, u32)>, w: nat, i: int) -> bool {
    exists|k: int|
        0 <= k < coords.len() && cell_index(
            w,
            (#[trigger] coords[k]).0 as nat,
            coords[k].1 as nat,
        ) == i
}

/// The grid `g` with every cell named in `coords` set `Alive`; all
/// other cells keep their state.
pub open spec fn with_cells_alive(g: Seq<Cell>, coords: Seq<(u32, u32)>, w: nat) -> Seq<Cell> {
    Seq::new(
        g.len(),
        |i: int|
            if hits(coords, w, i) {
                Cell::Alive
            } else {
                g[i]
            },
    )
}

/// The glyph the textual rendering uses for one cell.
pub open spec fn glyph(c: Cell) -> char {
    match c {
        Cell::Dead => '◻',
        Cell::Alive => '◼',
    }
}

/// One rendered row: a glyph per column, closed by a newline.
pub open spec fn row_text(g: Seq<Cell>, w: nat, row: nat) -> Seq<char> {
    Seq::new(w, |c: int| glyph(g[row * w + c])).push('\n')
}

/// The first `r` rendered rows, concatenated.
pub open spec fn rows_text(g: Seq<Cell>, w: nat, r: nat) -> Seq<char>
    decreases r,
{
    if r == 0 {
        Seq::empty()
    } else {
        rows_text(g, w, (r - 1) as nat) + row_text(g, w, (r - 1) as nat)
    }
}

/// The rendered universe: one line per grid row, one glyph per cell.
pub open spec fn render_text(g: Seq<Cell>, w: nat, h: nat) -> Seq<char> {
    rows_text(g, w, h)
}

/// In-range coordinates give an in-range flat index.
pub proof fn lemma_cell_index_in_range(w: nat, h: nat, row: nat, col: nat)
    requires
        row < h,
        col < w,
    ensures
        cell_index(w, row, col) < w * h,
{
    assert(row * w + col < w * h) by (nonlinear_arith)
        requires
            row < h,
            col < w,
    ;
}

} // verus!
