use ratgol::grid::{CellState, Grid};

/// Recompute the population by a full scan, for cross-checking the
/// incrementally maintained count.
fn scan_population(g: &Grid) -> usize {
    g.iter_cells().into_iter().filter(|&(_, s)| s.is_alive()).count()
}

#[test]
fn new_grid_is_all_dead() {
    let g = Grid::new(4, 3);
    assert_eq!(g.width, 4);
    assert_eq!(g.height, 3);
    assert_eq!(g.population, 0);
    assert!(g.is_empty());
    for row in 0..3 {
        for col in 0..4 {
            assert_eq!(g.get(row, col), Some(CellState::Dead));
        }
    }
}

#[test]
fn get_out_of_bounds_is_none() {
    let g = Grid::new(4, 3);
    assert_eq!(g.get(3, 0), None);
    assert_eq!(g.get(0, 4), None);
    assert_eq!(g.get(100, 100), None);
}

#[test]
fn set_returns_previous_state() {
    let mut g = Grid::new(3, 3);
    assert_eq!(g.set(1, 1, CellState::Alive), Some(CellState::Dead));
    assert_eq!(g.set(1, 1, CellState::Alive), Some(CellState::Alive));
    assert_eq!(g.set(1, 1, CellState::Dead), Some(CellState::Alive));
    assert_eq!(g.set(3, 0, CellState::Alive), None);
    assert_eq!(g.set(0, 3, CellState::Alive), None);
}

#[test]
fn population_matches_full_scan_after_every_set() {
    let mut g = Grid::new(5, 4);
    let writes = [
        (0, 0, CellState::Alive),
        (0, 0, CellState::Alive), // no-op write
        (3, 4, CellState::Alive),
        (1, 2, CellState::Alive),
        (0, 0, CellState::Dead),
        (2, 2, CellState::Dead), // already dead
        (3, 4, CellState::Dead),
        (1, 2, CellState::Alive), // no-op write
    ];
    for &(row, col, state) in writes.iter() {
        g.set(row, col, state);
        assert_eq!(g.population, scan_population(&g));
    }
    assert_eq!(g.population, 1);
}

#[test]
fn get_wrapped_is_toroidal() {
    let mut g = Grid::new(3, 3);
    g.set(2, 2, CellState::Alive);
    assert_eq!(g.get_wrapped(2, 2), CellState::Alive);
    assert_eq!(g.get_wrapped(-1, -1), CellState::Alive);
    assert_eq!(g.get_wrapped(5, 5), CellState::Alive);
    assert_eq!(g.get_wrapped(-4, -4), CellState::Alive);
    assert_eq!(g.get_wrapped(0, 0), CellState::Dead);
    assert_eq!(g.get_wrapped(3, 3), CellState::Dead);
}

#[test]
fn get_wrapped_periodic_in_both_axes() {
    let mut g = Grid::new(4, 3);
    g.set(1, 2, CellState::Alive);
    g.set(0, 0, CellState::Alive);
    for row in -5isize..5 {
        for col in -5isize..5 {
            assert_eq!(g.get_wrapped(row, col), g.get_wrapped(row + 3, col + 4));
            assert_eq!(g.get_wrapped(row, col), g.get_wrapped(row - 3, col - 4));
        }
    }
}

#[test]
fn count_neighbors_on_three_by_three_torus() {
    // On a 3x3 torus, (1, 1) is a Moore neighbor of (0, 0) through the
    // (+1, +1) offset, and of every other cell.
    let mut g = Grid::new(3, 3);
    g.set(1, 1, CellState::Alive);
    assert_eq!(g.count_neighbors(0, 0), 1);
    assert_eq!(g.count_neighbors(2, 2), 1);
    assert_eq!(g.count_neighbors(1, 1), 0);
}

#[test]
fn count_neighbors_counts_the_moore_neighborhood() {
    let mut g = Grid::new(5, 5);
    g.set(1, 1, CellState::Alive);
    g.set(1, 2, CellState::Alive);
    g.set(2, 1, CellState::Alive);
    g.set(2, 2, CellState::Alive);
    assert_eq!(g.count_neighbors(1, 1), 3);
    assert_eq!(g.count_neighbors(0, 0), 1);
    assert_eq!(g.count_neighbors(0, 1), 2);
    assert_eq!(g.count_neighbors(1, 3), 2);
    assert_eq!(g.count_neighbors(4, 4), 0);
    assert_eq!(g.count_neighbors(3, 3), 1);
}

#[test]
fn resize_preserves_overlap_and_zeroes_the_rest() {
    let mut g = Grid::new(4, 4);
    g.set(0, 0, CellState::Alive);
    g.set(1, 2, CellState::Alive);
    g.set(3, 3, CellState::Alive);

    // Shrink: only the overlapping rectangle survives.
    g.resize(3, 2);
    assert_eq!(g.width, 3);
    assert_eq!(g.height, 2);
    assert_eq!(g.get(0, 0), Some(CellState::Alive));
    assert_eq!(g.get(1, 2), Some(CellState::Alive));
    assert_eq!(g.population, 2);
    assert_eq!(g.population, scan_population(&g));

    // Grow: preserved cells keep their coordinates, new areas are dead.
    g.resize(5, 5);
    assert_eq!(g.get(0, 0), Some(CellState::Alive));
    assert_eq!(g.get(1, 2), Some(CellState::Alive));
    assert_eq!(g.population, 2);
    for row in 0..5 {
        for col in 0..5 {
            if (row, col) != (0, 0) && (row, col) != (1, 2) {
                assert_eq!(g.get(row, col), Some(CellState::Dead));
            }
        }
    }
}

#[test]
fn clear_kills_everything() {
    let mut g = Grid::new(3, 3);
    g.set(0, 0, CellState::Alive);
    g.set(2, 1, CellState::Alive);
    assert!(!g.is_empty());
    g.clear();
    assert!(g.is_empty());
    assert_eq!(g.population, 0);
    for row in 0..3 {
        for col in 0..3 {
            assert_eq!(g.get(row, col), Some(CellState::Dead));
        }
    }
}

#[test]
fn iter_cells_visits_every_cell_in_row_major_order() {
    let mut g = Grid::new(3, 2);
    g.set(1, 0, CellState::Alive);
    let cells = g.iter_cells();
    assert_eq!(cells.len(), 6);
    assert_eq!(cells[0], ((0, 0), CellState::Dead));
    assert_eq!(cells[3], ((1, 0), CellState::Alive));
    assert_eq!(cells[5], ((1, 2), CellState::Dead));
}

#[test]
fn iter_alive_cells_lists_only_live_coordinates() {
    let mut g = Grid::new(3, 3);
    g.set(0, 2, CellState::Alive);
    g.set(2, 0, CellState::Alive);
    let alive = g.iter_alive_cells();
    assert_eq!(alive, vec![(0, 2), (2, 0)]);
}

#[test]
fn render_uses_two_chars_per_cell_and_no_trailing_break() {
    let mut g = Grid::new(2, 2);
    g.set(0, 0, CellState::Alive);
    g.set(1, 1, CellState::Alive);
    assert_eq!(g.render(), "██  \n  ██");

    let empty = Grid::new(3, 1);
    assert_eq!(empty.render(), "      ");
}

#[test]
fn cell_state_is_alive() {
    assert!(CellState::Alive.is_alive());
    assert!(!CellState::Dead.is_alive());
}
