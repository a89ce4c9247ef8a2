//! The generation-advancing transition rule.
//!
//! `step` evaluates every cell against a snapshot of the previous
//! generation, so no cell's update can observe another cell's already
//! updated value, and swaps the finished buffer in as the new state.

use vstd::prelude::*;

use crate::grid::CellState;
use crate::grid::Grid;

verus! {

/// The rule table: a live cell survives on exactly 2 or 3 live
/// neighbors and otherwise dies (underpopulation below 2,
/// overpopulation above 3); a dead cell comes alive on exactly 3 live
/// neighbors and otherwise stays dead.
pub open spec fn next_state(cur: CellState, neighbors: int) -> CellState {
    match cur {
        CellState::Alive => if neighbors == 2 || neighbors == 3 {
            CellState::Alive
        } else {
            CellState::Dead
        },
        CellState::Dead => if neighbors == 3 {
            CellState::Alive
        } else {
            CellState::Dead
        },
    }
}

/// The whole next generation, each cell judged against the previous
/// generation only.
pub open spec fn step_cells(cells: Seq<CellState>, width: int, height: int) -> Seq<CellState> {
    Seq::new(
        cells.len(),
        |i: int|
            next_state(cells[i], crate::grid::neighbor_count(cells, width, height, i / width, i % width)),
    )
}

/// One cell's next state, as an executable decision.
pub fn next_cell(cur: CellState, neighbors: usize) -> (next: CellState)
    ensures
        next == next_state(cur, neighbors as int),
{
    match cur {
        CellState::Alive => if neighbors == 2 || neighbors == 3 {
            CellState::Alive
        } else {
            CellState::Dead
        },
        CellState::Dead => if neighbors == 3 {
            CellState::Alive
        } else {
            CellState::Dead
        },
    }
}

/// Advances the grid by exactly one generation, no more and no less.
pub fn step(grid: &mut Grid)
    requires
        old(grid).wf(),
    ensures
        final(grid).wf(),
        final(grid).width == old(grid).width,
        final(grid).height == old(grid).height,
        final(grid).cells@ == step_cells(
            old(grid).cells@,
            old(grid).width as int,
            old(grid).height as int,
        ),
{
    let w = grid.width;
    let h = grid.height;
    let ghost target = step_cells(grid.cells@, w as int, h as int);
    let mut buffer: Vec<CellState> = Vec::new();
    let mut row: usize = 0;
    while row < h
        invariant
            *grid == *old(grid),
            grid.wf(),
            w == grid.width,
            h == grid.height,
            row <= h,
            target == step_cells(grid.cells@, w as int, h as int),
            target.len() == w * h,
            buffer@.len() == row * w,
            forall|i: int| 0 <= i < buffer@.len() ==> buffer@[i] == target[i],
        decreases h - row,
    {
        let mut col: usize = 0;
        while col < w
            invariant
                *grid == *old(grid),
                grid.wf(),
                w == grid.width,
                h == grid.height,
                row < h,
                col <= w,
                target == step_cells(grid.cells@, w as int, h as int),
                target.len() == w * h,
                buffer@.len() == row * w + col,
                forall|i: int| 0 <= i < buffer@.len() ==> buffer@[i] == target[i],
            decreases w - col,
        {
            proof {
                crate::grid::lemma_index_bounds(w as int, h as int, row as int, col as int);
                vstd::arithmetic::div_mod::lemma_fundamental_div_mod_converse(
                    row as int * w as int + col as int,
                    w as int,
                    row as int,
                    col as int,
                );
            }
            let neighbors = grid.count_alive_neighbors(row, col);
            let cur = grid.get(row, col);
            buffer.push(next_cell(cur, neighbors));
            col = col + 1;
        }
        proof {
            assert((row + 1) * w == row * w + w) by (nonlinear_arith);
        }
        row = row + 1;
    }
    proof {
        assert(h * w == w * h) by (nonlinear_arith);
        assert(buffer@ =~= target);
    }
    grid.cells = buffer;
}

/// `step` is a pure function of the grid alone: two structurally equal
/// grids have structurally equal next generations.
pub proof fn lemma_step_pure(g1: Grid, g2: Grid)
    requires
        g1.wf(),
        g2.wf(),
        g1.width == g2.width,
        g1.height == g2.height,
        g1.cells@ == g2.cells@,
    ensures
        step_cells(g1.cells@, g1.width as int, g1.height as int) == step_cells(
            g2.cells@,
            g2.width as int,
            g2.height as int,
        ),
{
}

/// Underpopulation: a live cell that is the only live cell on the
/// board has no live neighbors, so one step kills it.
pub proof fn lemma_underpopulation(cells: Seq<CellState>, width: int, height: int, row: int, col: int)
    requires
        0 < width,
        0 < height,
        cells.len() == width * height,
        0 <= row < height,
        0 <= col < width,
        cells[row * width + col] == CellState::Alive,
        forall|i: int|
            0 <= i < cells.len() && i != row * width + col ==> cells[i] == CellState::Dead,
    ensures
        step_cells(cells, width, height)[row * width + col] == CellState::Dead,
{
    lemma_lone_cell_not_live(cells, width, height, row - 1, col - 1, row, col);
    lemma_lone_cell_not_live(cells, width, height, row - 1, col, row, col);
    lemma_lone_cell_not_live(cells, width, height, row - 1, col + 1, row, col);
    lemma_lone_cell_not_live(cells, width, height, row, col - 1, row, col);
    lemma_lone_cell_not_live(cells, width, height, row, col + 1, row, col);
    lemma_lone_cell_not_live(cells, width, height, row + 1, col - 1, row, col);
    lemma_lone_cell_not_live(cells, width, height, row + 1, col, row, col);
    lemma_lone_cell_not_live(cells, width, height, row + 1, col + 1, row, col);
    assert(crate::grid::neighbor_count(cells, width, height, row, col) == 0);
    crate::grid::lemma_index_bounds(width, height, row, col);
    vstd::arithmetic::div_mod::lemma_fundamental_div_mod_converse(
        row * width + col,
        width,
        row,
        col,
    );
}

/// A position other than the one live cell of the board is not live.
proof fn lemma_lone_cell_not_live(
    cells: Seq<CellState>,
    width: int,
    height: int,
    row: int,
    col: int,
    live_row: int,
    live_col: int,
)
    requires
        0 < width,
        0 < height,
        cells.len() == width * height,
        0 <= live_row < height,
        0 <= live_col < width,
        row != live_row || col != live_col,
        forall|i: int|
            0 <= i < cells.len() && i != live_row * width + live_col ==> cells[i]
                == CellState::Dead,
    ensures
        crate::grid::live_1(cells, width, height, row, col) == 0,
{
    if crate::grid::live_at(cells, width, height, row, col) {
        crate::grid::lemma_index_bounds(width, height, row, col);
        if row * width + col == live_row * width + live_col {
            crate::grid::lemma_row_major_injective(width, row, col, live_row, live_col);
            assert(false);
        }
        assert(false);
    }
}

/// Overpopulation: a live interior cell with all eight neighbors live
/// dies in one step.
pub proof fn lemma_overpopulation(cells: Seq<CellState>, width: int, height: int, row: int, col: int)
    requires
        cells.len() == width * height,
        0 < row < height - 1,
        0 < col < width - 1,
        cells[row * width + col] == CellState::Alive,
        cells[(row - 1) * width + (col - 1)] == CellState::Alive,
        cells[(row - 1) * width + col] == CellState::Alive,
        cells[(row - 1) * width + (col + 1)] == CellState::Alive,
        cells[row * width + (col - 1)] == CellState::Alive,
        cells[row * width + (col + 1)] == CellState::Alive,
        cells[(row + 1) * width + (col - 1)] == CellState::Alive,
        cells[(row + 1) * width + col] == CellState::Alive,
        cells[(row + 1) * width + (col + 1)] == CellState::Alive,
    ensures
        step_cells(cells, width, height)[row * width + col] == CellState::Dead,
{
    assert(crate::grid::live_at(cells, width, height, row - 1, col - 1));
    assert(crate::grid::live_at(cells, width, height, row - 1, col));
    assert(crate::grid::live_at(cells, width, height, row - 1, col + 1));
    assert(crate::grid::live_at(cells, width, height, row, col - 1));
    assert(crate::grid::live_at(cells, width, height, row, col + 1));
    assert(crate::grid::live_at(cells, width, height, row + 1, col - 1));
    assert(crate::grid::live_at(cells, width, height, row + 1, col));
    assert(crate::grid::live_at(cells, width, height, row + 1, col + 1));
    assert(crate::grid::neighbor_count(cells, width, height, row, col) == 8);
    crate::grid::lemma_index_bounds(width, height, row, col);
    vstd::arithmetic::div_mod::lemma_fundamental_div_mod_converse(
        row * width + col,
        width,
        row,
        col,
    );
}

/// The fate of a live cell under one step: it dies of
/// underpopulation below two live neighbors, survives on two or
/// three, and dies of overpopulation above three.
pub proof fn lemma_live_cell_fate(cells: Seq<CellState>, width: int, height: int, row: int, col: int)
    requires
        0 < width,
        0 < height,
        cells.len() == width * height,
        0 <= row < height,
        0 <= col < width,
        cells[row * width + col] == CellState::Alive,
    ensures
        crate::grid::neighbor_count(cells, width, height, row, col) < 2 ==> step_cells(
            cells,
            width,
            height,
        )[row * width + col] == CellState::Dead,
        crate::grid::neighbor_count(cells, width, height, row, col) == 2
            || crate::grid::neighbor_count(cells, width, height, row, col) == 3 ==> step_cells(
            cells,
            width,
            height,
        )[row * width + col] == CellState::Alive,
        crate::grid::neighbor_count(cells, width, height, row, col) > 3 ==> step_cells(
            cells,
            width,
            height,
        )[row * width + col] == CellState::Dead,
{
    crate::grid::lemma_index_bounds(width, height, row, col);
    vstd::arithmetic::div_mod::lemma_fundamental_div_mod_converse(
        row * width + col,
        width,
        row,
        col,
    );
}

/// Reproduction and crowding of a dead cell: with exactly three live
/// neighbors it comes alive; with four or more it stays dead.
pub proof fn lemma_dead_cell_fate(cells: Seq<CellState>, width: int, height: int, row: int, col: int)
    requires
        0 < width,
        0 < height,
        cells.len() == width * height,
        0 <= row < height,
        0 <= col < width,
        cells[row * width + col] == CellState::Dead,
    ensures
        crate::grid::neighbor_count(cells, width, height, row, col) == 3 ==> step_cells(
            cells,
            width,
            height,
        )[row * width + col] == CellState::Alive,
        crate::grid::neighbor_count(cells, width, height, row, col) >= 4 ==> step_cells(
            cells,
            width,
            height,
        )[row * width + col] == CellState::Dead,
{
    crate::grid::lemma_index_bounds(width, height, row, col);
    vstd::arithmetic::div_mod::lemma_fundamental_div_mod_converse(
        row * width + col,
        width,
        row,
        col,
    );
}

} // verus!
