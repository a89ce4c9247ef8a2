//! The three-state mode machine that gates which commands are legal.
//!
//! `Menu` is only the initial state: the single advance trigger cycles
//! `Menu -> Edit -> Run -> Edit -> Run -> ...`, never back to `Menu`.

use vstd::prelude::*;

verus! {

/// The current mode: the menu screen, interactive editing of cells,
/// or the running simulation.
#[derive(Copy, Clone, PartialEq, Eq, Structural, Debug)]
pub enum Mode {
    Menu,
    Edit,
    Run,
}

/// The successor of each mode under the advance trigger. Every mode
/// has one, and `Menu` is never a successor.
pub open spec fn advance_spec(m: Mode) -> Mode {
    match m {
        Mode::Menu => Mode::Edit,
        Mode::Edit => Mode::Run,
        Mode::Run => Mode::Edit,
    }
}

/// Applies the advance trigger to a mode.
pub fn advance(m: Mode) -> (next: Mode)
    ensures
        next == advance_spec(m),
{
    match m {
        Mode::Menu => Mode::Edit,
        Mode::Edit => Mode::Run,
        Mode::Run => Mode::Edit,
    }
}

/// Advancing never yields `Menu`: the menu is left once and for all.
pub proof fn lemma_menu_never_reentered(m: Mode)
    ensures
        advance_spec(m) != Mode::Menu,
{
}

} // verus!
