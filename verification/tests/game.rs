use ratgol::game::{
    Game, GameState, DEFAULT_INTERVAL_MS, DENSITY_SCALE, INTERVAL_STEP_MS, MAX_INTERVAL_MS,
    MIN_INTERVAL_MS,
};
use ratgol::grid::CellState;

#[test]
fn new_game_starts_dead_running_at_default_speed() {
    let game = Game::new((10, 8));
    assert_eq!(game.grid.width, 10);
    assert_eq!(game.grid.height, 8);
    assert_eq!(game.grid.population, 0);
    assert_eq!(game.generation, 0);
    assert_eq!(game.state, GameState::Running);
    assert_eq!(game.tick_interval, DEFAULT_INTERVAL_MS);
    assert!(!game.is_paused());
}

#[test]
fn step_on_all_dead_grid_stays_dead_and_counts_generations() {
    let mut game = Game::new((6, 6));
    game.step();
    assert!(game.grid.is_empty());
    assert_eq!(game.generation, 1);
    game.step();
    assert!(game.grid.is_empty());
    assert_eq!(game.generation, 2);
}

#[test]
fn lone_cell_dies_of_underpopulation() {
    let mut game = Game::new((5, 5));
    game.grid.set(2, 2, CellState::Alive);
    game.step();
    assert_eq!(game.grid.get(2, 2), Some(CellState::Dead));
    assert!(game.grid.is_empty());
}

#[test]
fn two_by_two_block_is_a_still_life() {
    let mut game = Game::new((5, 5));
    game.grid.set(1, 1, CellState::Alive);
    game.grid.set(1, 2, CellState::Alive);
    game.grid.set(2, 1, CellState::Alive);
    game.grid.set(2, 2, CellState::Alive);
    for _ in 0..4 {
        game.step();
        assert_eq!(game.grid.population, 4);
        assert_eq!(game.grid.get(1, 1), Some(CellState::Alive));
        assert_eq!(game.grid.get(1, 2), Some(CellState::Alive));
        assert_eq!(game.grid.get(2, 1), Some(CellState::Alive));
        assert_eq!(game.grid.get(2, 2), Some(CellState::Alive));
        assert_eq!(game.grid.iter_alive_cells().len(), 4);
    }
}

#[test]
fn blinker_oscillates() {
    // A horizontal line of three cells flips to a vertical line and back.
    let mut game = Game::new((5, 5));
    game.grid.set(2, 1, CellState::Alive);
    game.grid.set(2, 2, CellState::Alive);
    game.grid.set(2, 3, CellState::Alive);
    game.step();
    assert_eq!(game.grid.iter_alive_cells(), vec![(1, 2), (2, 2), (3, 2)]);
    game.step();
    assert_eq!(game.grid.iter_alive_cells(), vec![(2, 1), (2, 2), (2, 3)]);
}

#[test]
fn resize_is_a_noop_on_same_dimensions_and_preserves_overlap() {
    let mut game = Game::new((4, 4));
    game.grid.set(1, 1, CellState::Alive);
    game.resize(4, 4);
    assert_eq!(game.grid.get(1, 1), Some(CellState::Alive));
    game.resize(2, 2);
    assert_eq!(game.grid.width, 2);
    assert_eq!(game.grid.height, 2);
    assert_eq!(game.grid.get(1, 1), Some(CellState::Alive));
    assert_eq!(game.grid.population, 1);
    // The engine still steps correctly after a resize.
    game.step();
    assert_eq!(game.generation, 1);
}

#[test]
fn clear_resets_grid_and_generation() {
    let mut game = Game::new((4, 4));
    game.grid.set(0, 1, CellState::Alive);
    game.step();
    assert_eq!(game.generation, 1);
    game.clear();
    assert_eq!(game.generation, 0);
    assert!(game.grid.is_empty());
}

#[test]
fn randomize_with_zero_density_leaves_everything_dead() {
    let mut game = Game::new((8, 8));
    game.step();
    game.randomize(0);
    assert_eq!(game.generation, 0);
    assert!(game.grid.is_empty());
}

#[test]
fn randomize_with_full_density_fills_everything() {
    let mut game = Game::new((8, 8));
    game.randomize(DENSITY_SCALE);
    assert_eq!(game.generation, 0);
    assert_eq!(game.grid.population, 64);
}

#[test]
fn interval_adjustment_saturates_at_both_bounds() {
    let mut game = Game::new((3, 3));
    assert_eq!(game.inc_interval(), DEFAULT_INTERVAL_MS + INTERVAL_STEP_MS);
    assert_eq!(game.dec_interval(), DEFAULT_INTERVAL_MS);
    for _ in 0..200 {
        let t = game.inc_interval();
        assert!(t >= MIN_INTERVAL_MS && t <= MAX_INTERVAL_MS);
    }
    assert_eq!(game.tick_interval, MAX_INTERVAL_MS);
    for _ in 0..300 {
        let t = game.dec_interval();
        assert!(t >= MIN_INTERVAL_MS && t <= MAX_INTERVAL_MS);
    }
    assert_eq!(game.tick_interval, MIN_INTERVAL_MS);
    assert_eq!(game.inc_interval(), MIN_INTERVAL_MS + INTERVAL_STEP_MS);
}

#[test]
fn toggle_pause_flips_the_state() {
    let mut game = Game::new((3, 3));
    assert!(!game.is_paused());
    game.toggle_pause();
    assert!(game.is_paused());
    assert_eq!(game.state, GameState::Paused);
    game.toggle_pause();
    assert!(!game.is_paused());
    assert_eq!(game.state, GameState::Running);
}
