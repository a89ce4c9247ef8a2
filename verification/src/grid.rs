//! The cell grid: a fixed-size, row-major board of binary cells with
//! bounds-checked reads, toggling, clearing, and neighbor counting.
//!
//! The grid has hard edges: positions outside it simply do not exist
//! and are never counted as neighbors (bounded, not toroidal, topology).

use vstd::prelude::*;

verus! {

/// The state of one cell: alive or dead. No other states exist.
#[derive(Copy, Clone, PartialEq, Eq, Structural, Debug)]
pub enum CellState {
    Alive,
    Dead,
}

/// The opposite state: `Alive` <-> `Dead`.
pub open spec fn flip(s: CellState) -> CellState {
    match s {
        CellState::Alive => CellState::Dead,
        CellState::Dead => CellState::Alive,
    }
}

/// A fixed-size board of cells, stored row-major:
/// the cell at `(row, col)` sits at index `row * width + col`.
pub struct Grid {
    pub width: usize,
    pub height: usize,
    pub cells: Vec<CellState>,
}

/// Row and column lie on the board.
pub open spec fn in_bounds(width: int, height: int, row: int, col: int) -> bool {
    0 <= row < height && 0 <= col < width
}

/// `(row, col)` lies on the board and holds a live cell.
pub open spec fn live_at(
    cells: Seq<CellState>,
    width: int,
    height: int,
    row: int,
    col: int,
) -> bool {
    in_bounds(width, height, row, col) && cells[row * width + col] == CellState::Alive
}

/// 1 if `(row, col)` holds a live cell, else 0.
pub open spec fn live_1(
    cells: Seq<CellState>,
    width: int,
    height: int,
    row: int,
    col: int,
) -> int {
    if live_at(cells, width, height, row, col) {
        1int
    } else {
        0int
    }
}

/// How many of the eight grid-adjacent positions of `(row, col)` hold a
/// live cell. Positions off the board contribute nothing: the grid has
/// hard edges, not wraparound.
pub open spec fn neighbor_count(
    cells: Seq<CellState>,
    width: int,
    height: int,
    row: int,
    col: int,
) -> int {
    live_1(cells, width, height, row - 1, col - 1) + live_1(cells, width, height, row - 1, col)
        + live_1(cells, width, height, row - 1, col + 1) + live_1(
        cells,
        width,
        height,
        row,
        col - 1,
    ) + live_1(cells, width, height, row, col + 1) + live_1(
        cells,
        width,
        height,
        row + 1,
        col - 1,
    ) + live_1(cells, width, height, row + 1, col) + live_1(cells, width, height, row + 1, col + 1)
}

/// `cells` with the cell at index `i` flipped.
pub open spec fn toggled(cells: Seq<CellState>, i: int) -> Seq<CellState> {
    cells.update(i, flip(cells[i]))
}

/// Every cell of `cells` is dead.
pub open spec fn all_dead(cells: Seq<CellState>) -> bool {
    forall|i: int| 0 <= i < cells.len() ==> cells[i] == CellState::Dead
}

/// 1 if `(row, col)` lies on the board, else 0.
pub open spec fn in_bounds_1(width: int, height: int, row: int, col: int) -> int {
    if in_bounds(width, height, row, col) {
        1int
    } else {
        0int
    }
}

/// How many of the eight grid-adjacent positions of `(row, col)` lie on
/// the board at all: the positions that a neighbor count examines.
pub open spec fn in_bounds_neighbors(width: int, height: int, row: int, col: int) -> int {
    in_bounds_1(width, height, row - 1, col - 1) + in_bounds_1(width, height, row - 1, col)
        + in_bounds_1(width, height, row - 1, col + 1) + in_bounds_1(width, height, row, col - 1)
        + in_bounds_1(width, height, row, col + 1) + in_bounds_1(width, height, row + 1, col - 1)
        + in_bounds_1(width, height, row + 1, col) + in_bounds_1(width, height, row + 1, col + 1)
}

/// A row-major index computed from an in-bounds position lies inside
/// the flat cell array.
pub proof fn lemma_index_bounds(width: int, height: int, row: int, col: int)
    requires
        0 <= row < height,
        0 <= col < width,
    ensures
        0 <= row * width + col < width * height,
{
    assert(0 <= row * width + col < width * height) by (nonlinear_arith)
        requires
            0 <= row < height,
            0 <= col < width,
    ;
}

/// Distinct in-bounds positions have distinct row-major indices.
pub proof fn lemma_row_major_injective(width: int, r1: int, c1: int, r2: int, c2: int)
    requires
        0 <= c1 < width,
        0 <= c2 < width,
        r1 * width + c1 == r2 * width + c2,
    ensures
        r1 == r2,
        c1 == c2,
{
    assert(r1 == r2 && c1 == c2) by (nonlinear_arith)
        requires
            0 <= c1 < width,
            0 <= c2 < width,
            r1 * width + c1 == r2 * width + c2,
    ;
}

/// On a fully dead board no position is live.
proof fn lemma_dead_board_not_live(
    cells: Seq<CellState>,
    width: int,
    height: int,
    row: int,
    col: int,
)
    requires
        all_dead(cells),
        cells.len() == width * height,
    ensures
        live_1(cells, width, height, row, col) == 0,
{
    if live_at(cells, width, height, row, col) {
        lemma_index_bounds(width, height, row, col);
        assert(false);
    }
}

/// After a `reset`, whose postcondition is `all_dead`, every in-bounds
/// read returns `Dead`.
pub proof fn lemma_reset_reads_dead(g: Grid, row: int, col: int)
    requires
        g.wf(),
        all_dead(g.cells@),
        0 <= row < g.height,
        0 <= col < g.width,
    ensures
        g.cell(row, col) == CellState::Dead,
{
    lemma_index_bounds(g.width as int, g.height as int, row, col);
}

/// Toggling the same cell twice returns the board to its original state.
pub proof fn lemma_toggle_involution(cells: Seq<CellState>, i: int)
    requires
        0 <= i < cells.len(),
    ensures
        toggled(toggled(cells, i), i) == cells,
{
    assert(toggled(toggled(cells, i), i) =~= cells);
}

/// On a fully dead board the neighbor count is zero at every position,
/// even one off the board.
pub proof fn lemma_dead_board_neighbor_count(
    cells: Seq<CellState>,
    width: int,
    height: int,
    row: int,
    col: int,
)
    requires
        all_dead(cells),
        cells.len() == width * height,
    ensures
        neighbor_count(cells, width, height, row, col) == 0,
{
    lemma_dead_board_not_live(cells, width, height, row - 1, col - 1);
    lemma_dead_board_not_live(cells, width, height, row - 1, col);
    lemma_dead_board_not_live(cells, width, height, row - 1, col + 1);
    lemma_dead_board_not_live(cells, width, height, row, col - 1);
    lemma_dead_board_not_live(cells, width, height, row, col + 1);
    lemma_dead_board_not_live(cells, width, height, row + 1, col - 1);
    lemma_dead_board_not_live(cells, width, height, row + 1, col);
    lemma_dead_board_not_live(cells, width, height, row + 1, col + 1);
}

/// A neighbor count always lies in `[0, 8]`: there are only eight
/// adjacent positions and each contributes at most one.
pub proof fn lemma_neighbor_count_range(
    cells: Seq<CellState>,
    width: int,
    height: int,
    row: int,
    col: int,
)
    ensures
        0 <= neighbor_count(cells, width, height, row, col) <= 8,
{
}

/// A neighbor count examines only the positions that lie on the board:
/// at most 3 at a corner, at most 5 on an edge that is not a corner,
/// and exactly 8 in the interior.
pub proof fn lemma_neighbor_positions(
    cells: Seq<CellState>,
    width: int,
    height: int,
    row: int,
    col: int,
)
    requires
        0 <= row < height,
        0 <= col < width,
    ensures
        neighbor_count(cells, width, height, row, col) <= in_bounds_neighbors(
            width,
            height,
            row,
            col,
        ),
        (row == 0 || row == height - 1) && (col == 0 || col == width - 1)
            ==> in_bounds_neighbors(width, height, row, col) <= 3,
        ((row == 0 || row == height - 1) && !(col == 0 || col == width - 1)) || (!(row == 0 || row
            == height - 1) && (col == 0 || col == width - 1)) ==> in_bounds_neighbors(
            width,
            height,
            row,
            col,
        ) <= 5,
        0 < row < height - 1 && 0 < col < width - 1 ==> in_bounds_neighbors(
            width,
            height,
            row,
            col,
        ) == 8,
{
}

impl Grid {
    /// The grid is well formed: both dimensions are positive, their
    /// product fits in `usize`, and the flat cell array has exactly
    /// one entry per board position.
    pub open spec fn wf(self) -> bool {
        &&& 0 < self.width
        &&& 0 < self.height
        &&& self.width * self.height <= usize::MAX
        &&& self.cells@.len() == self.width * self.height
    }

    /// The cell stored at `(row, col)`.
    pub open spec fn cell(self, row: int, col: int) -> CellState {
        self.cells@[row * self.width + col]
    }

    /// Allocates a `width` by `height` grid with every cell dead.
    pub fn new(width: usize, height: usize) -> (g: Grid)
        requires
            0 < width,
            0 < height,
            width * height <= usize::MAX,
        ensures
            g.wf(),
            g.width == width,
            g.height == height,
            all_dead(g.cells@),
    {
        let n = width * height;
        let mut cells: Vec<CellState> = Vec::new();
        let mut i: usize = 0;
        while i < n
            invariant
                i <= n,
                cells@.len() == i,
                all_dead(cells@),
            decreases n - i,
        {
            cells.push(CellState::Dead);
            i = i + 1;
        }
        Grid { width, height, cells }
    }

    /// The board's width and height, fixed at construction.
    pub fn dimensions(&self) -> (d: (usize, usize))
        ensures
            d.0 == self.width,
            d.1 == self.height,
    {
        (self.width, self.height)
    }

    /// Reads the cell at `(row, col)`; out-of-bounds positions are a
    /// caller error, ruled out by the precondition.
    pub fn get(&self, row: usize, col: usize) -> (s: CellState)
        requires
            self.wf(),
            row < self.height,
            col < self.width,
        ensures
            s == self.cell(row as int, col as int),
    {
        proof {
            lemma_index_bounds(self.width as int, self.height as int, row as int, col as int);
        }
        self.cells[row * self.width + col]
    }

    /// Flips the cell at `(row, col)` between `Alive` and `Dead`;
    /// every other cell and both dimensions are unchanged.
    pub fn toggle(&mut self, row: usize, col: usize)
        requires
            old(self).wf(),
            row < old(self).height,
            col < old(self).width,
        ensures
            final(self).wf(),
            final(self).width == old(self).width,
            final(self).height == old(self).height,
            final(self).cells@ == toggled(
                old(self).cells@,
                row as int * old(self).width as int + col as int,
            ),
    {
        proof {
            lemma_index_bounds(self.width as int, self.height as int, row as int, col as int);
        }
        let i = row * self.width + col;
        let next = match self.cells[i] {
            CellState::Alive => CellState::Dead,
            CellState::Dead => CellState::Alive,
        };
        self.cells.set(i, next);
    }

    /// Sets every cell to `Dead`, in place; dimensions are unchanged.
    pub fn reset(&mut self)
        requires
            old(self).wf(),
        ensures
            final(self).wf(),
            final(self).width == old(self).width,
            final(self).height == old(self).height,
            all_dead(final(self).cells@),
    {
        let n = self.cells.len();
        let mut i: usize = 0;
        while i < n
            invariant
                i <= n,
                self.width == old(self).width,
                self.height == old(self).height,
                self.cells@.len() == n,
                old(self).wf(),
                n == old(self).cells@.len(),
                forall|j: int| 0 <= j < i ==> self.cells@[j] == CellState::Dead,
            decreases n - i,
        {
            self.cells.set(i, CellState::Dead);
            i = i + 1;
        }
    }

    /// Counts the live cells among the eight grid-adjacent positions of
    /// `(row, col)`; positions off the board are excluded, so the result
    /// lies in `[0, 8]`.
    pub fn count_alive_neighbors(&self, row: usize, col: usize) -> (n: usize)
        requires
            self.wf(),
            row < self.height,
            col < self.width,
        ensures
            n == neighbor_count(
                self.cells@,
                self.width as int,
                self.height as int,
                row as int,
                col as int,
            ),
            n <= 8,
    {
        let mut n: usize = 0;
        let ghost s = self.cells@;
        let ghost w = self.width as int;
        let ghost h = self.height as int;
        let ghost r = row as int;
        let ghost c = col as int;
        if row > 0 && col > 0 && self.get(row - 1, col - 1) == CellState::Alive {
            n = n + 1;
        }
        assert(n == live_1(s, w, h, r - 1, c - 1));
        if row > 0 && self.get(row - 1, col) == CellState::Alive {
            n = n + 1;
        }
        assert(n == live_1(s, w, h, r - 1, c - 1) + live_1(s, w, h, r - 1, c));
        if row > 0 && col + 1 < self.width && self.get(row - 1, col + 1) == CellState::Alive {
            n = n + 1;
        }
        if col > 0 && self.get(row, col - 1) == CellState::Alive {
            n = n + 1;
        }
        assert(n == live_1(s, w, h, r - 1, c - 1) + live_1(s, w, h, r - 1, c) + live_1(
            s,
            w,
            h,
            r - 1,
            c + 1,
        ) + live_1(s, w, h, r, c - 1));
        if col + 1 < self.width && self.get(row, col + 1) == CellState::Alive {
            n = n + 1;
        }
        if row + 1 < self.height && col > 0 && self.get(row + 1, col - 1) == CellState::Alive {
            n = n + 1;
        }
        assert(n == live_1(s, w, h, r - 1, c - 1) + live_1(s, w, h, r - 1, c) + live_1(
            s,
            w,
            h,
            r - 1,
            c + 1,
        ) + live_1(s, w, h, r, c - 1) + live_1(s, w, h, r, c + 1) + live_1(s, w, h, r + 1, c - 1));
        if row + 1 < self.height && self.get(row + 1, col) == CellState::Alive {
            n = n + 1;
        }
        if row + 1 < self.height && col + 1 < self.width && self.get(row + 1, col + 1)
            == CellState::Alive {
            n = n + 1;
        }
        n
    }
}

} // verus!
