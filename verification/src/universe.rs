//! The grid engine: a fixed-size toroidal Game of Life universe with
//! bit-per-cell storage.

use vstd::prelude::*;

use crate::bitset::fbs_bits;

verus! {

/// The state of a single grid cell.
#[derive(Clone, Copy, Debug, PartialEq, Eq, Structural)]
pub enum Cell {
    Dead,
    Alive,
}

/// A toroidal Game of Life grid: `width * height` cells in row-major order,
/// one bit per cell.
pub struct Universe {
    width: u32,
    height: u32,
    cells: fixedbitset::FixedBitSet,
}

/// The row-major storage index of the cell at `(row, col)` on a grid
/// `w` columns wide.
pub open spec fn grid_index(w: int, row: int, col: int) -> int {
    row * w + col
}

/// The row above `row` (or below, for columns) on a torus with `n` rows:
/// row `0` wraps to row `n - 1`.
pub open spec fn dec_wrap(x: int, n: int) -> int {
    if x == 0 {
        n - 1
    } else {
        x - 1
    }
}

/// The row below `row` (or the column to the right) on a torus with `n`
/// rows: row `n - 1` wraps to row `0`.
pub open spec fn inc_wrap(x: int, n: int) -> int {
    if x == n - 1 {
        0
    } else {
        x + 1
    }
}

/// `1` for a live cell, `0` for a dead one.
pub open spec fn live_as_count(alive: bool) -> int {
    if alive {
        1
    } else {
        0
    }
}

impl Universe {
    /// The grid width, as a mathematical integer.
    pub closed spec fn spec_width(&self) -> int {
        self.width as int
    }

    /// The grid height, as a mathematical integer.
    pub closed spec fn spec_height(&self) -> int {
        self.height as int
    }

    /// The cell contents in row-major order: `true` is `Alive`.
    pub closed spec fn bits(&self) -> Seq<bool> {
        fbs_bits(self.cells)
    }

    /// Grid well-formedness: positive dimensions, a cell count that fits the
    /// index arithmetic, and storage of exactly `width * height` bits.
    pub open spec fn wf(&self) -> bool {
        &&& 1 <= self.spec_width()
        &&& 1 <= self.spec_height()
        &&& self.spec_width() * self.spec_height() <= u32::MAX
        &&& self.bits().len() == self.spec_width() * self.spec_height()
    }

    /// Whether the cell at `(row, col)` is alive.
    pub open spec fn cell_at(&self, row: int, col: int) -> bool {
        self.bits()[grid_index(self.spec_width(), row, col)]
    }

    /// The number of live cells among the 8 toroidal neighbors of
    /// `(row, col)`: one term per delta pair in `{-1, 0, 1}^2` other than
    /// `(0, 0)`, with each coordinate wrapped modulo its extent.
    pub open spec fn live_neighbors(&self, row: int, col: int) -> int {
        let h = self.spec_height();
        let w = self.spec_width();
        let rm = dec_wrap(row, h);
        let rp = inc_wrap(row, h);
        let cm = dec_wrap(col, w);
        let cp = inc_wrap(col, w);
        live_as_count(self.cell_at(rm, cm)) + live_as_count(self.cell_at(rm, col))
            + live_as_count(self.cell_at(rm, cp)) + live_as_count(self.cell_at(row, cm))
            + live_as_count(self.cell_at(row, cp)) + live_as_count(self.cell_at(rp, cm))
            + live_as_count(self.cell_at(rp, col)) + live_as_count(self.cell_at(rp, cp))
    }

    /// The birth/survival rule: a live cell survives with 2 or 3 live
    /// neighbors, a dead cell is born with exactly 3, every other cell is
    /// dead in the next generation.
    pub open spec fn next_state(alive: bool, neighbors: int) -> bool {
        if alive {
            neighbors == 2 || neighbors == 3
        } else {
            neighbors == 3
        }
    }

    /// Creates a square `length * length` grid with every cell dead.
    /// The host seeds it afterwards through `randomize`.
    pub fn new(length: u32) -> (u: Universe)
        requires
            1 <= length,
            length * length <= u32::MAX,
        ensures
            u.wf(),
            u.spec_width() == length,
            u.spec_height() == length,
            forall|i: int| 0 <= i < u.bits().len() ==> !u.bits()[i],
    {
        let size = (length * length) as usize;
        let cells = fixedbitset::FixedBitSet::with_capacity(size);
        Universe { width: length, height: length, cells }
    }

    /// The grid width in cells.
    pub fn width(&self) -> (w: u32)
        ensures
            w == self.spec_width(),
    {
        self.width
    }

    /// The grid height in cells.
    pub fn height(&self) -> (h: u32)
        ensures
            h == self.spec_height(),
    {
        self.height
    }

    /// The row-major storage index of `(row, column)`.
    fn get_index(&self, row: u32, column: u32) -> (idx: usize)
        requires
            self.wf(),
            row < self.spec_height(),
            column < self.spec_width(),
        ensures
            idx == grid_index(self.spec_width(), row as int, column as int),
            idx < self.bits().len(),
    {
        proof {
            assert(row * self.width + column < self.width * self.height) by (nonlinear_arith)
                requires
                    row < self.height,
                    column < self.width,
                    1 <= self.width,
            ;
        }
        (row * self.width + column) as usize
    }

    /// Whether the cell at `(row, column)` is alive.
    fn is_alive(&self, row: u32, column: u32) -> (alive: bool)
        requires
            self.wf(),
            row < self.spec_height(),
            column < self.spec_width(),
        ensures
            alive == self.cell_at(row as int, column as int),
    {
        let idx = self.get_index(row, column);
        self.cells.contains(idx)
    }

    /// Reads one cell.
    pub fn read(&self, row: u32, column: u32) -> (cell: Cell)
        requires
            self.wf(),
            row < self.spec_height(),
            column < self.spec_width(),
        ensures
            (cell == Cell::Alive) == self.cell_at(row as int, column as int),
    {
        if self.is_alive(row, column) {
            Cell::Alive
        } else {
            Cell::Dead
        }
    }

    /// The number of live cells among the 8 toroidal neighbors of
    /// `(row, column)`; always at most 8.
    pub fn live_neighbor_count(&self, row: u32, column: u32) -> (count: u8)
        requires
            self.wf(),
            row < self.spec_height(),
            column < self.spec_width(),
        ensures
            count == self.live_neighbors(row as int, column as int),
            count <= 8,
    {
        let rm = prev_wrap(row, self.height);
        let rp = next_wrap(row, self.height);
        let cm = prev_wrap(column, self.width);
        let cp = next_wrap(column, self.width);
        let mut count: u8 = 0;
        if self.is_alive(rm, cm) {
            count += 1;
        }
        if self.is_alive(rm, column) {
            count += 1;
        }
        if self.is_alive(rm, cp) {
            count += 1;
        }
        if self.is_alive(row, cm) {
            count += 1;
        }
        if self.is_alive(row, cp) {
            count += 1;
        }
        if self.is_alive(rp, cm) {
            count += 1;
        }
        if self.is_alive(rp, column) {
            count += 1;
        }
        if self.is_alive(rp, cp) {
            count += 1;
        }
        count
    }

    /// Flips the single cell at `(row, column)`; every other cell, and the
    /// dimensions, are unchanged.
    pub fn toggle_cell(&mut self, row: u32, column: u32)
        requires
            old(self).wf(),
            row < old(self).spec_height(),
            column < old(self).spec_width(),
        ensures
            final(self).wf(),
            toggles(*old(self), *final(self), row as int, column as int),
    {
        let idx = self.get_index(row, column);
        let current = self.cells.contains(idx);
        self.cells.set(idx, !current);
    }

    /// Advances the whole grid one generation. Every cell's next state is
    /// the birth/survival rule applied to its state and live-neighbor count
    /// in the current generation: the rule is evaluated against a full
    /// snapshot, never against partially updated cells, and the new
    /// generation replaces the old one in a single final swap.
    #[verifier::loop_isolation(false)]
    pub fn tick(&mut self)
        requires
            old(self).wf(),
        ensures
            final(self).wf(),
            final(self).spec_width() == old(self).spec_width(),
            final(self).spec_height() == old(self).spec_height(),
            forall|r: int, c: int|
                0 <= r < old(self).spec_height() && 0 <= c < old(self).spec_width()
                    ==> #[trigger] final(self).cell_at(r, c) == Self::next_state(
                    old(self).cell_at(r, c),
                    old(self).live_neighbors(r, c),
                ),
    {
        let ghost w = self.spec_width();
        let ghost h = self.spec_height();
        let mut next = self.cells.clone();
        let mut row: u32 = 0;
        while row < self.height
            invariant
                row <= h,
                fbs_bits(next).len() == self.bits().len(),
                forall|r: int, c: int|
                    0 <= r < row && 0 <= c < w ==> #[trigger] fbs_bits(next)[grid_index(w, r, c)]
                        == Self::next_state(self.cell_at(r, c), self.live_neighbors(r, c)),
            decreases h - row,
        {
            let mut col: u32 = 0;
            while col < self.width
                invariant
                    col <= w,
                    row < h,
                    fbs_bits(next).len() == self.bits().len(),
                    forall|r: int, c: int|
                        0 <= r < row && 0 <= c < w ==> #[trigger] fbs_bits(next)[grid_index(
                            w,
                            r,
                            c,
                        )] == Self::next_state(self.cell_at(r, c), self.live_neighbors(r, c)),
                    forall|c: int|
                        0 <= c < col ==> #[trigger] fbs_bits(next)[grid_index(w, row as int, c)]
                            == Self::next_state(
                            self.cell_at(row as int, c),
                            self.live_neighbors(row as int, c),
                        ),
                decreases w - col,
            {
                let idx = self.get_index(row, col);
                let cell = self.cells.contains(idx);
                let live_neighbors = self.live_neighbor_count(row, col);
                let born = if cell {
                    live_neighbors == 2 || live_neighbors == 3
                } else {
                    live_neighbors == 3
                };
                next.set(idx, born);
                proof {
                    lemma_grid_index_injective(w, h);
                    lemma_grid_index_bounds(w, h);
                }
                col += 1;
            }
            row += 1;
        }
        self.cells = next;
    }

    /// Overwrites every cell with the matching draw from `draws`, one draw
    /// per cell in row-major order (`true` is `Alive`). The host supplies
    /// one independent fair coin flip per cell from its entropy source; the
    /// dimensions are unchanged.
    #[verifier::loop_isolation(false)]
    pub fn randomize(&mut self, draws: &[bool])
        requires
            old(self).wf(),
            draws@.len() == old(self).bits().len(),
        ensures
            final(self).wf(),
            final(self).spec_width() == old(self).spec_width(),
            final(self).spec_height() == old(self).spec_height(),
            final(self).bits() == draws@,
    {
        let ghost size = self.bits().len();
        let len = (self.width * self.height) as usize;
        let mut i: usize = 0;
        while i < len
            invariant
                i <= len,
                len == size,
                self.width == old(self).width,
                self.height == old(self).height,
                fbs_bits(self.cells).len() == size,
                forall|j: int| 0 <= j < i ==> #[trigger] fbs_bits(self.cells)[j] == draws@[j],
            decreases len - i,
        {
            self.cells.set(i, draws[i]);
            i += 1;
        }
        proof {
            assert(self.bits() =~= draws@);
        }
    }

    /// Renders the grid as text. The rendering is intentionally empty: the
    /// host draws straight from the packed cell view instead.
    pub fn render(&self) -> (r: String)
        ensures
            r@.len() == 0,
    {
        String::new()
    }

    /// A read-only view of the packed storage: bit `i % 64` of word `i / 64`
    /// is the cell at row-major index `i`. The borrow ends before the next
    /// mutation, so no caller can observe a half-updated generation.
    pub fn cells(&self) -> (words: &[usize])
        requires
            self.wf(),
        ensures
            words@.len() == (self.bits().len() + 63) / 64,
            forall|i: int|
                0 <= i < self.bits().len() ==> self.bits()[i] == crate::bitset::word_bit(
                    words@[i / 64],
                    i % 64,
                ),
    {
        self.cells.as_slice()
    }
}

/// Toroidal wrap at the corners: the cell at `(height-1, width-1)` is one
/// of the 8 neighbors of `(0, 0)`, so when it is alive the count at
/// `(0, 0)` is at least one — and vice versa.
pub proof fn lemma_toroidal_wrap(u: Universe)
    requires
        u.wf(),
    ensures
        u.cell_at(u.spec_height() - 1, u.spec_width() - 1) ==> u.live_neighbors(0, 0) >= 1,
        u.cell_at(0, 0) ==> u.live_neighbors(u.spec_height() - 1, u.spec_width() - 1) >= 1,
{
}

/// Toggling the same coordinate twice returns the grid to its original
/// contents and dimensions: `toggle_cell` is an involution.
pub proof fn lemma_toggle_involution(u0: Universe, u1: Universe, u2: Universe, row: int, col: int)
    requires
        u0.wf(),
        0 <= row < u0.spec_height(),
        0 <= col < u0.spec_width(),
        toggles(u0, u1, row, col),
        toggles(u1, u2, row, col),
    ensures
        u2.bits() == u0.bits(),
        u2.spec_width() == u0.spec_width(),
        u2.spec_height() == u0.spec_height(),
{
    lemma_grid_index_bounds(u0.spec_width(), u0.spec_height());
    assert(u2.bits() =~= u0.bits());
}

/// The live-neighbor count of any cell lies in `[0, 8]`.
pub proof fn lemma_neighbor_count_range(u: Universe, row: int, col: int)
    requires
        u.wf(),
        0 <= row < u.spec_height(),
        0 <= col < u.spec_width(),
    ensures
        0 <= u.live_neighbors(row, col) <= 8,
{
}

/// Every in-range grid coordinate has a row-major index inside the storage.
proof fn lemma_grid_index_bounds(w: int, h: int)
    requires
        1 <= w,
        1 <= h,
    ensures
        forall|r: int, c: int|
            0 <= r < h && 0 <= c < w ==> 0 <= #[trigger] grid_index(w, r, c) < w * h,
{
    assert forall|r: int, c: int| 0 <= r < h && 0 <= c < w implies 0 <= #[trigger] grid_index(
        w,
        r,
        c,
    ) < w * h by {
        assert(0 <= r * w + c < w * h) by (nonlinear_arith)
            requires
                0 <= r < h && 0 <= c < w,
        ;
    }
}

/// Distinct in-range grid coordinates map to distinct row-major indices.
proof fn lemma_grid_index_injective(w: int, h: int)
    requires
        1 <= w,
        1 <= h,
    ensures
        forall|r1: int, c1: int, r2: int, c2: int|
            0 <= r1 < h && 0 <= c1 < w && 0 <= r2 < h && 0 <= c2 < w && (r1 != r2 || c1 != c2)
                ==> #[trigger] grid_index(w, r1, c1) != #[trigger] grid_index(w, r2, c2),
{
    assert forall|r1: int, c1: int, r2: int, c2: int|
        0 <= r1 < h && 0 <= c1 < w && 0 <= r2 < h && 0 <= c2 < w && (r1 != r2 || c1 != c2)
        implies #[trigger] grid_index(w, r1, c1) != #[trigger] grid_index(w, r2, c2) by {
        assert(r1 * w + c1 != r2 * w + c2) by (nonlinear_arith)
            requires
                0 <= r1 < h && 0 <= c1 < w && 0 <= r2 < h && 0 <= c2 < w,
                r1 != r2 || c1 != c2,
                1 <= w,
        ;
    }
}

/// The coordinate one step down on a torus with `n` positions: `0` wraps
/// to `n - 1`.
fn prev_wrap(x: u32, n: u32) -> (r: u32)
    requires
        1 <= n,
        x < n,
    ensures
        r == dec_wrap(x as int, n as int),
        r < n,
{
    if x == 0 {
        n - 1
    } else {
        x - 1
    }
}

/// The coordinate one step up on a torus with `n` positions: `n - 1` wraps
/// to `0`.
fn next_wrap(x: u32, n: u32) -> (r: u32)
    requires
        1 <= n,
        x < n,
    ensures
        r == inc_wrap(x as int, n as int),
        r < n,
{
    if x == n - 1 {
        0
    } else {
        x + 1
    }
}

/// `post` is `pre` with exactly the cell at `(row, col)` flipped: the
/// dimensions are kept and the bit sequence changes at that one index.
pub open spec fn toggles(pre: Universe, post: Universe, row: int, col: int) -> bool {
    &&& post.spec_width() == pre.spec_width()
    &&& post.spec_height() == pre.spec_height()
    &&& post.bits() == pre.bits().update(
        grid_index(pre.spec_width(), row, col),
        !pre.cell_at(row, col),
    )
}

} // verus!
