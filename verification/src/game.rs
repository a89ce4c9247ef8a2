//! The command interface the presentation shell drives: one game value
//! holding the grid and the current mode, one entry point per frame's
//! worth of resolved commands, and read-only queries for rendering.

use vstd::prelude::*;

use crate::grid::CellState;
use crate::grid::Grid;
use crate::mode::Mode;

verus! {

/// A resolved command from the shell. Hit-testing pixel coordinates
/// against the board is the shell's job: the core receives a
/// `(row, col)` that is already on the board.
#[derive(Copy, Clone, PartialEq, Eq, Structural, Debug)]
pub enum Command {
    /// Flip one cell (legal only while editing; ignored elsewhere).
    ToggleCell(usize, usize),
    /// Clear the whole board (ignored on the menu screen).
    Reset,
    /// Cycle the mode: `Menu -> Edit -> Run -> Edit -> ...`.
    AdvanceMode,
    /// Advance one generation (meaningful only while running).
    Tick,
}

/// The simulation core: the board plus the mode machine that gates
/// which commands touch it.
pub struct GameOfLife {
    pub grid: Grid,
    pub mode: Mode,
}

impl GameOfLife {
    /// The board is well formed; the mode needs no invariant of its own.
    pub open spec fn wf(self) -> bool {
        self.grid.wf()
    }

    /// Starts on the menu screen with a `width` by `height` board of
    /// dead cells.
    pub fn new(width: usize, height: usize) -> (game: GameOfLife)
        requires
            0 < width,
            0 < height,
            width * height <= usize::MAX,
        ensures
            game.wf(),
            game.mode == Mode::Menu,
            game.grid.width == width,
            game.grid.height == height,
            crate::grid::all_dead(game.grid.cells@),
    {
        GameOfLife { grid: Grid::new(width, height), mode: Mode::Menu }
    }

    /// Applies one command under the current mode's rules:
    /// - `AdvanceMode` cycles the mode and leaves the board alone;
    /// - `ToggleCell` flips the cell while editing and is a no-op in
    ///   every other mode;
    /// - `Reset` clears the board while editing or running and is a
    ///   no-op on the menu screen;
    /// - `Tick` advances exactly one generation while running and is a
    ///   no-op in every other mode.
    ///
    /// A command that is illegal for the current mode is ignored, not
    /// an error. An out-of-bounds toggle is a caller error, ruled out
    /// by the precondition.
    pub fn handle(&mut self, cmd: Command)
        requires
            old(self).wf(),
            cmd matches Command::ToggleCell(row, col) ==> row < old(self).grid.height && col < old(
                self,
            ).grid.width,
        ensures
            final(self).wf(),
            final(self).grid.width == old(self).grid.width,
            final(self).grid.height == old(self).grid.height,
            match cmd {
                Command::AdvanceMode => final(self).mode == crate::mode::advance_spec(
                    old(self).mode,
                ) && final(self).grid == old(self).grid,
                Command::ToggleCell(row, col) => final(self).mode == old(self).mode && if old(
                    self,
                ).mode == Mode::Edit {
                    final(self).grid.cells@ == crate::grid::toggled(
                        old(self).grid.cells@,
                        row as int * old(self).grid.width as int + col as int,
                    )
                } else {
                    *final(self) == *old(self)
                },
                Command::Reset => final(self).mode == old(self).mode && if old(self).mode
                    == Mode::Menu {
                    *final(self) == *old(self)
                } else {
                    crate::grid::all_dead(final(self).grid.cells@)
                },
                Command::Tick => final(self).mode == old(self).mode && if old(self).mode
                    == Mode::Run {
                    final(self).grid.cells@ == crate::sim::step_cells(
                        old(self).grid.cells@,
                        old(self).grid.width as int,
                        old(self).grid.height as int,
                    )
                } else {
                    *final(self) == *old(self)
                },
            },
    {
        match cmd {
            Command::AdvanceMode => {
                self.mode = crate::mode::advance(self.mode);
            },
            Command::ToggleCell(row, col) => {
                if self.mode == Mode::Edit {
                    self.grid.toggle(row, col);
                }
            },
            Command::Reset => {
                if self.mode != Mode::Menu {
                    self.grid.reset();
                }
            },
            Command::Tick => {
                if self.mode == Mode::Run {
                    crate::sim::step(&mut self.grid);
                }
            },
        }
    }

    /// The current mode, for the shell to gate its own input handling.
    pub fn current_mode(&self) -> (m: Mode)
        ensures
            m == self.mode,
    {
        self.mode
    }

    /// Reads one cell for rendering.
    pub fn cell_at(&self, row: usize, col: usize) -> (s: CellState)
        requires
            self.wf(),
            row < self.grid.height,
            col < self.grid.width,
        ensures
            s == self.grid.cell(row as int, col as int),
    {
        self.grid.get(row, col)
    }

    /// The board's width and height.
    pub fn dimensions(&self) -> (d: (usize, usize))
        ensures
            d.0 == self.grid.width,
            d.1 == self.grid.height,
    {
        (self.grid.width, self.grid.height)
    }
}

} // verus!
