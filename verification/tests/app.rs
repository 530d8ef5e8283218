use ratgol::app::{AppCore, KeyAction, LoopEvent, Outgoing};
use ratgol::event::{AppEvent, ControlMessage};
use ratgol::game::{DEFAULT_INTERVAL_MS, DENSITY_SCALE, INTERVAL_STEP_MS};
use ratgol::grid::CellState;
use ratgol::ui::calculate_grid_size;

fn fresh_app() -> AppCore {
    AppCore::new((10, 8), 300000)
}

#[test]
fn tick_steps_the_simulation() {
    let mut app = fresh_app();
    let out = app.handle_event(LoopEvent::Tick);
    assert_eq!(out, None);
    assert_eq!(app.game.generation, 1);
    assert!(!app.should_quit);
}

#[test]
fn quit_key_queues_a_quit_event() {
    let mut app = fresh_app();
    let out = app.handle_event(LoopEvent::Key(KeyAction::Quit));
    assert_eq!(out, Some(Outgoing::Queue(AppEvent::Quit)));
    assert!(!app.should_quit);
}

#[test]
fn queued_quit_event_raises_the_quit_flag() {
    let mut app = fresh_app();
    let out = app.handle_event(LoopEvent::App(AppEvent::Quit));
    assert_eq!(out, None);
    assert!(app.should_quit);
}

#[test]
fn interval_keys_adjust_speed_and_notify_the_producer() {
    let mut app = fresh_app();
    let out = app.handle_event(LoopEvent::Key(KeyAction::IncInterval));
    assert_eq!(
        out,
        Some(Outgoing::Control(ControlMessage::SetTickInterval(
            DEFAULT_INTERVAL_MS + INTERVAL_STEP_MS
        )))
    );
    assert_eq!(app.game.tick_interval, DEFAULT_INTERVAL_MS + INTERVAL_STEP_MS);

    let out = app.handle_event(LoopEvent::Key(KeyAction::DecInterval));
    assert_eq!(
        out,
        Some(Outgoing::Control(ControlMessage::SetTickInterval(
            DEFAULT_INTERVAL_MS
        )))
    );
    assert_eq!(app.game.tick_interval, DEFAULT_INTERVAL_MS);
}

#[test]
fn pause_key_toggles_and_reports_the_new_state() {
    let mut app = fresh_app();
    let out = app.handle_event(LoopEvent::Key(KeyAction::TogglePause));
    assert_eq!(out, Some(Outgoing::Control(ControlMessage::Pause)));
    assert!(app.game.is_paused());

    let out = app.handle_event(LoopEvent::Key(KeyAction::TogglePause));
    assert_eq!(out, Some(Outgoing::Control(ControlMessage::Resume)));
    assert!(!app.game.is_paused());
}

#[test]
fn randomize_and_clear_keys_queue_events() {
    let mut app = fresh_app();
    assert_eq!(
        app.handle_event(LoopEvent::Key(KeyAction::Randomize)),
        Some(Outgoing::Queue(AppEvent::Randomize))
    );
    assert_eq!(
        app.handle_event(LoopEvent::Key(KeyAction::Clear)),
        Some(Outgoing::Queue(AppEvent::Clear))
    );
    assert_eq!(app.game.generation, 0);
}

#[test]
fn resize_event_recomputes_grid_dimensions() {
    let mut app = fresh_app();
    let out = app.handle_event(LoopEvent::Resize(80, 24));
    assert_eq!(out, None);
    let (w, h) = calculate_grid_size((80, 24));
    assert_eq!(app.game.grid.width, w);
    assert_eq!(app.game.grid.height, h);
}

#[test]
fn queued_randomize_event_randomizes_with_the_configured_density() {
    let mut app = AppCore::new((6, 6), DENSITY_SCALE);
    app.handle_event(LoopEvent::Tick);
    let out = app.handle_event(LoopEvent::App(AppEvent::Randomize));
    assert_eq!(out, None);
    assert_eq!(app.game.generation, 0);
    assert_eq!(app.game.grid.population, 36);
}

#[test]
fn queued_clear_event_clears_the_grid() {
    let mut app = fresh_app();
    app.game.grid.set(1, 1, CellState::Alive);
    let out = app.handle_event(LoopEvent::App(AppEvent::Clear));
    assert_eq!(out, None);
    assert!(app.game.grid.is_empty());
    assert_eq!(app.game.generation, 0);
}
