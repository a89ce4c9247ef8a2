use game_of_life::game::Command;
use game_of_life::game::GameOfLife;
use game_of_life::grid::CellState;
use game_of_life::grid::Grid;
use game_of_life::mode::Mode;
use game_of_life::sim::step;

#[test]
fn new_grid_is_all_dead() {
    let g = Grid::new(4, 3);
    assert_eq!(g.dimensions(), (4, 3));
    for row in 0..3 {
        for col in 0..4 {
            assert_eq!(g.get(row, col), CellState::Dead);
        }
    }
}

#[test]
fn toggle_flips_one_cell() {
    let mut g = Grid::new(4, 4);
    g.toggle(2, 1);
    for row in 0..4 {
        for col in 0..4 {
            let expected = if (row, col) == (2, 1) { CellState::Alive } else { CellState::Dead };
            assert_eq!(g.get(row, col), expected);
        }
    }
}

#[test]
fn toggle_twice_restores_the_cell() {
    let mut g = Grid::new(5, 5);
    g.toggle(1, 3);
    assert_eq!(g.get(1, 3), CellState::Alive);
    g.toggle(1, 3);
    assert_eq!(g.get(1, 3), CellState::Dead);
    g.toggle(0, 0);
    g.toggle(4, 4);
    g.toggle(4, 4);
    assert_eq!(g.get(0, 0), CellState::Alive);
    g.toggle(0, 0);
    assert_eq!(g.get(0, 0), CellState::Dead);
    assert_eq!(g.get(4, 4), CellState::Dead);
}

#[test]
fn reset_makes_every_cell_dead() {
    let mut g = Grid::new(6, 4);
    g.toggle(0, 0);
    g.toggle(3, 5);
    g.toggle(2, 2);
    g.reset();
    for row in 0..4 {
        for col in 0..6 {
            assert_eq!(g.get(row, col), CellState::Dead);
        }
    }
}

#[test]
fn dead_board_has_zero_neighbor_counts() {
    let g = Grid::new(5, 4);
    for row in 0..4 {
        for col in 0..5 {
            assert_eq!(g.count_alive_neighbors(row, col), 0);
        }
    }
}

#[test]
fn neighbor_counts_on_a_full_board() {
    // On a 3x3 board of live cells the counts show how many positions
    // each kind of cell examines: 3 at a corner, 5 on an edge, 8 in
    // the interior.
    let mut g = Grid::new(3, 3);
    for row in 0..3 {
        for col in 0..3 {
            g.toggle(row, col);
        }
    }
    assert_eq!(g.count_alive_neighbors(0, 0), 3);
    assert_eq!(g.count_alive_neighbors(0, 2), 3);
    assert_eq!(g.count_alive_neighbors(2, 0), 3);
    assert_eq!(g.count_alive_neighbors(2, 2), 3);
    assert_eq!(g.count_alive_neighbors(0, 1), 5);
    assert_eq!(g.count_alive_neighbors(1, 0), 5);
    assert_eq!(g.count_alive_neighbors(1, 2), 5);
    assert_eq!(g.count_alive_neighbors(2, 1), 5);
    assert_eq!(g.count_alive_neighbors(1, 1), 8);
}

#[test]
fn single_cell_dies_of_underpopulation() {
    let mut g = Grid::new(5, 5);
    g.toggle(2, 2);
    step(&mut g);
    for row in 0..5 {
        for col in 0..5 {
            assert_eq!(g.get(row, col), CellState::Dead);
        }
    }
}

#[test]
fn crowded_cell_dies_of_overpopulation() {
    // Center of a 3x3 board of live cells has all 8 neighbors live.
    let mut g = Grid::new(3, 3);
    for row in 0..3 {
        for col in 0..3 {
            g.toggle(row, col);
        }
    }
    step(&mut g);
    assert_eq!(g.get(1, 1), CellState::Dead);
}

#[test]
fn dead_cell_with_three_neighbors_is_born() {
    // An L of three live cells around the dead (1,1).
    let mut g = Grid::new(4, 4);
    g.toggle(0, 0);
    g.toggle(0, 1);
    g.toggle(1, 0);
    assert_eq!(g.count_alive_neighbors(1, 1), 3);
    step(&mut g);
    assert_eq!(g.get(1, 1), CellState::Alive);
}

#[test]
fn dead_cell_with_four_neighbors_stays_dead() {
    let mut g = Grid::new(4, 4);
    g.toggle(0, 0);
    g.toggle(0, 1);
    g.toggle(0, 2);
    g.toggle(1, 0);
    assert_eq!(g.count_alive_neighbors(1, 1), 4);
    step(&mut g);
    assert_eq!(g.get(1, 1), CellState::Dead);
}

#[test]
fn block_still_life_is_stable() {
    // A 2x2 block at rows {1,2}, cols {1,2} on a 4x4 board.
    let mut g = Grid::new(4, 4);
    g.toggle(1, 1);
    g.toggle(1, 2);
    g.toggle(2, 1);
    g.toggle(2, 2);
    step(&mut g);
    for row in 0..4 {
        for col in 0..4 {
            let in_block = (1..=2).contains(&row) && (1..=2).contains(&col);
            let expected = if in_block { CellState::Alive } else { CellState::Dead };
            assert_eq!(g.get(row, col), expected);
        }
    }
}

#[test]
fn blinker_oscillates_with_period_two() {
    // Horizontal blinker centered on (2,2) of a 5x5 board.
    let mut g = Grid::new(5, 5);
    g.toggle(2, 1);
    g.toggle(2, 2);
    g.toggle(2, 3);
    step(&mut g);
    for row in 0..5 {
        for col in 0..5 {
            let vertical = col == 2 && (1..=3).contains(&row);
            let expected = if vertical { CellState::Alive } else { CellState::Dead };
            assert_eq!(g.get(row, col), expected);
        }
    }
    step(&mut g);
    for row in 0..5 {
        for col in 0..5 {
            let horizontal = row == 2 && (1..=3).contains(&col);
            let expected = if horizontal { CellState::Alive } else { CellState::Dead };
            assert_eq!(g.get(row, col), expected);
        }
    }
}

#[test]
fn step_depends_only_on_the_grid() {
    let mut a = Grid::new(6, 6);
    let mut b = Grid::new(6, 6);
    for &(row, col) in &[(1, 1), (1, 2), (2, 3), (3, 1), (4, 4), (0, 5)] {
        a.toggle(row, col);
        b.toggle(row, col);
    }
    step(&mut a);
    step(&mut b);
    for row in 0..6 {
        for col in 0..6 {
            assert_eq!(a.get(row, col), b.get(row, col));
        }
    }
}

#[test]
fn mode_sequence_from_menu() {
    let mut game = GameOfLife::new(4, 4);
    assert_eq!(game.current_mode(), Mode::Menu);
    game.handle(Command::AdvanceMode);
    assert_eq!(game.current_mode(), Mode::Edit);
    game.handle(Command::AdvanceMode);
    assert_eq!(game.current_mode(), Mode::Run);
    game.handle(Command::AdvanceMode);
    assert_eq!(game.current_mode(), Mode::Edit);
}

#[test]
fn toggle_is_ignored_outside_edit_mode() {
    let mut game = GameOfLife::new(4, 4);
    // In Menu a toggle changes nothing.
    game.handle(Command::ToggleCell(0, 0));
    assert_eq!(game.cell_at(0, 0), CellState::Dead);
    // In Edit it lands.
    game.handle(Command::AdvanceMode);
    game.handle(Command::ToggleCell(1, 1));
    assert_eq!(game.cell_at(1, 1), CellState::Alive);
    // In Run it is ignored again.
    game.handle(Command::AdvanceMode);
    game.handle(Command::ToggleCell(0, 0));
    game.handle(Command::ToggleCell(1, 1));
    assert_eq!(game.cell_at(0, 0), CellState::Dead);
    assert_eq!(game.cell_at(1, 1), CellState::Alive);
}

#[test]
fn reset_is_ignored_on_the_menu_screen() {
    let mut game = GameOfLife::new(4, 4);
    game.handle(Command::Reset);
    assert_eq!(game.current_mode(), Mode::Menu);
    game.handle(Command::AdvanceMode);
    game.handle(Command::ToggleCell(2, 2));
    game.handle(Command::Reset);
    assert_eq!(game.cell_at(2, 2), CellState::Dead);
    assert_eq!(game.current_mode(), Mode::Edit);
}

#[test]
fn tick_steps_only_while_running() {
    let mut game = GameOfLife::new(5, 5);
    game.handle(Command::AdvanceMode);
    // Blinker, built in Edit mode.
    game.handle(Command::ToggleCell(2, 1));
    game.handle(Command::ToggleCell(2, 2));
    game.handle(Command::ToggleCell(2, 3));
    // Tick is a no-op while editing.
    game.handle(Command::Tick);
    assert_eq!(game.cell_at(2, 1), CellState::Alive);
    assert_eq!(game.cell_at(1, 2), CellState::Dead);
    // One tick while running advances exactly one generation.
    game.handle(Command::AdvanceMode);
    game.handle(Command::Tick);
    assert_eq!(game.cell_at(2, 1), CellState::Dead);
    assert_eq!(game.cell_at(1, 2), CellState::Alive);
    assert_eq!(game.cell_at(2, 2), CellState::Alive);
    assert_eq!(game.cell_at(3, 2), CellState::Alive);
}

#[test]
fn reset_while_running_clears_the_board() {
    let mut game = GameOfLife::new(4, 4);
    game.handle(Command::AdvanceMode);
    game.handle(Command::ToggleCell(1, 1));
    game.handle(Command::ToggleCell(1, 2));
    game.handle(Command::ToggleCell(2, 1));
    game.handle(Command::ToggleCell(2, 2));
    game.handle(Command::AdvanceMode);
    game.handle(Command::Reset);
    for row in 0..4 {
        for col in 0..4 {
            assert_eq!(game.cell_at(row, col), CellState::Dead);
        }
    }
    // The next tick keeps stepping from the cleared board.
    game.handle(Command::Tick);
    for row in 0..4 {
        for col in 0..4 {
            assert_eq!(game.cell_at(row, col), CellState::Dead);
        }
    }
}
