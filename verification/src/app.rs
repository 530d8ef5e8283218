//! The consumer side of the event loop: application state and the
//! dispatch of events to game mutations.
//!
//! The application loop itself (terminal, channels, drawing) lives
//! outside the library. It maps raw input to the high-level actions
//! below, hands each event to `AppCore::handle_event`, and performs the
//! returned outgoing send, if any: queueing an application event back to
//! its own channel, or a fire-and-forget control message to the producer.

use crate::event::{AppEvent, ControlMessage};
use crate::game::{Game, GameState};
use crate::ui::calculate_grid_size;
use crate::ui::grid_size_spec;
use vstd::prelude::*;

verus! {

/// A high-level key action, produced by the input-mapping collaborator.
#[derive(Clone, Copy, Debug, PartialEq, Eq, Structural)]
pub enum KeyAction {
    /// Quit the application.
    Quit,
    /// Increase the tick interval (slow down).
    IncInterval,
    /// Decrease the tick interval (speed up).
    DecInterval,
    /// Toggle pause/resume.
    TogglePause,
    /// Randomize the grid.
    Randomize,
    /// Clear the grid.
    Clear,
}

/// One event consumed by the application loop.
#[derive(Clone, Copy, Debug, PartialEq, Eq, Structural)]
pub enum LoopEvent {
    /// Periodic timer event: advance the simulation.
    Tick,
    /// A mapped key press.
    Key(KeyAction),
    /// The terminal was resized to (columns, rows).
    Resize(u16, u16),
    /// A queued application event.
    App(AppEvent),
}

/// A send the loop must perform after dispatching an event.
#[derive(Clone, Copy, Debug, PartialEq, Eq, Structural)]
pub enum Outgoing {
    /// Queue an application event for the loop's own next receive.
    Queue(AppEvent),
    /// Send a control message to the event producer, fire-and-forget.
    Control(ControlMessage),
}

/// Main application state: the game plus the quit flag and the
/// randomization density setting.
#[derive(Debug, Clone)]
pub struct AppCore {
    /// The game logic and grid state.
    pub game: Game,
    /// Flag to signal application shutdown.
    pub should_quit: bool,
    /// Density of alive cells when randomizing, in millionths.
    pub fill_density: u32,
}

impl AppCore {
    /// The application invariant: a well-formed game and a density within
    /// scale.
    pub open spec fn wf(self) -> bool {
        &&& self.game.wf()
        &&& self.fill_density <= crate::game::DENSITY_SCALE
    }

    /// Creates the application state around a fresh all-Dead game.
    pub fn new(grid_size: (usize, usize), fill_density: u32) -> (r: AppCore)
        requires
            0 < grid_size.0,
            0 < grid_size.1,
            grid_size.0 * grid_size.1 <= isize::MAX,
            fill_density <= crate::game::DENSITY_SCALE,
        ensures
            r.wf(),
            r.game.grid.width == grid_size.0,
            r.game.grid.height == grid_size.1,
            r.game.generation == 0,
            r.game.state is Running,
            !r.should_quit,
            r.fill_density == fill_density,
    {
        AppCore { game: Game::new(grid_size), should_quit: false, fill_density }
    }

    /// Dispatches one event: mutates the game as the event demands and
    /// returns the send, if any, that the loop must perform.
    ///
    /// A Tick steps the simulation. A key action either mutates the game
    /// directly (speed, pause) and reports the change to the producer, or
    /// queues an application event for the next receive (quit, randomize,
    /// clear). A resize recomputes the grid dimensions from the new
    /// terminal size. A queued application event randomizes, clears, or
    /// raises the quit flag.
    pub fn handle_event(&mut self, event: LoopEvent) -> (out: Option<Outgoing>)
        requires
            old(self).wf(),
            old(self).game.generation < u64::MAX,
        ensures
            final(self).wf(),
            final(self).fill_density == old(self).fill_density,
            match event {
                LoopEvent::Tick => {
                    &&& Game::stepped(old(self).game, final(self).game)
                    &&& final(self).should_quit == old(self).should_quit
                    &&& out is None
                },
                LoopEvent::Key(action) => match action {
                    KeyAction::Quit => {
                        &&& *final(self) == *old(self)
                        &&& out == Some(Outgoing::Queue(AppEvent::Quit))
                    },
                    KeyAction::IncInterval => {
                        &&& final(self).game.tick_interval == Game::inc_interval_spec(
                            old(self).game.tick_interval,
                        )
                        &&& final(self).game == (Game {
                            tick_interval: final(self).game.tick_interval,
                            ..old(self).game
                        })
                        &&& final(self).should_quit == old(self).should_quit
                        &&& out == Some(
                            Outgoing::Control(
                                ControlMessage::SetTickInterval(final(self).game.tick_interval),
                            ),
                        )
                    },
                    KeyAction::DecInterval => {
                        &&& final(self).game.tick_interval == Game::dec_interval_spec(
                            old(self).game.tick_interval,
                        )
                        &&& final(self).game == (Game {
                            tick_interval: final(self).game.tick_interval,
                            ..old(self).game
                        })
                        &&& final(self).should_quit == old(self).should_quit
                        &&& out == Some(
                            Outgoing::Control(
                                ControlMessage::SetTickInterval(final(self).game.tick_interval),
                            ),
                        )
                    },
                    KeyAction::TogglePause => {
                        &&& final(self).game == (Game {
                            state: if old(self).game.state is Running {
                                GameState::Paused
                            } else {
                                GameState::Running
                            },
                            ..old(self).game
                        })
                        &&& final(self).should_quit == old(self).should_quit
                        &&& out == Some(
                            Outgoing::Control(
                                if final(self).game.state is Paused {
                                    ControlMessage::Pause
                                } else {
                                    ControlMessage::Resume
                                },
                            ),
                        )
                    },
                    KeyAction::Randomize => {
                        &&& *final(self) == *old(self)
                        &&& out == Some(Outgoing::Queue(AppEvent::Randomize))
                    },
                    KeyAction::Clear => {
                        &&& *final(self) == *old(self)
                        &&& out == Some(Outgoing::Queue(AppEvent::Clear))
                    },
                },
                LoopEvent::Resize(w, h) => {
                    &&& final(self).game.grid.width == grid_size_spec((w, h)).0
                    &&& final(self).game.grid.height == grid_size_spec((w, h)).1
                    &&& final(self).game.generation == old(self).game.generation
                    &&& final(self).game.state == old(self).game.state
                    &&& final(self).game.tick_interval == old(self).game.tick_interval
                    &&& final(self).should_quit == old(self).should_quit
                    &&& out is None
                },
                LoopEvent::App(app_event) => match app_event {
                    AppEvent::Randomize => {
                        &&& final(self).game.grid.width == old(self).game.grid.width
                        &&& final(self).game.grid.height == old(self).game.grid.height
                        &&& final(self).game.generation == 0
                        &&& final(self).game.state == old(self).game.state
                        &&& final(self).game.tick_interval == old(self).game.tick_interval
                        &&& final(self).should_quit == old(self).should_quit
                        &&& out is None
                    },
                    AppEvent::Clear => {
                        &&& final(self).game.grid.width == old(self).game.grid.width
                        &&& final(self).game.grid.height == old(self).game.grid.height
                        &&& final(self).game.grid.population == 0
                        &&& forall|i: int, j: int|
                            0 <= i < old(self).game.grid.height && 0 <= j < old(
                                self,
                            ).game.grid.width ==> final(self).game.grid.cell(i, j) is Dead
                        &&& final(self).game.generation == 0
                        &&& final(self).game.state == old(self).game.state
                        &&& final(self).game.tick_interval == old(self).game.tick_interval
                        &&& final(self).should_quit == old(self).should_quit
                        &&& out is None
                    },
                    AppEvent::Quit => {
                        &&& final(self).game == old(self).game
                        &&& final(self).should_quit
                        &&& out is None
                    },
                },
            },
    {
        match event {
            LoopEvent::Tick => {
                self.game.step();
                None
            },
            LoopEvent::Key(action) => self.handle_key_action(action),
            LoopEvent::Resize(w, h) => {
                let (new_grid_width, new_grid_height) = calculate_grid_size((w, h));
                self.game.resize(new_grid_width, new_grid_height);
                None
            },
            LoopEvent::App(app_event) => {
                match app_event {
                    AppEvent::Randomize => self.game.randomize(self.fill_density),
                    AppEvent::Clear => self.game.clear(),
                    AppEvent::Quit => self.quit(),
                }
                None
            },
        }
    }

    /// Dispatches one mapped key action, returning the send the loop must
    /// perform, if any.
    fn handle_key_action(&mut self, action: KeyAction) -> (out: Option<Outgoing>)
        requires
            old(self).wf(),
        ensures
            final(self).wf(),
            final(self).fill_density == old(self).fill_density,
            match action {
                KeyAction::Quit => {
                    &&& *final(self) == *old(self)
                    &&& out == Some(Outgoing::Queue(AppEvent::Quit))
                },
                KeyAction::IncInterval => {
                    &&& final(self).game.tick_interval == Game::inc_interval_spec(
                        old(self).game.tick_interval,
                    )
                    &&& final(self).game == (Game {
                        tick_interval: final(self).game.tick_interval,
                        ..old(self).game
                    })
                    &&& final(self).should_quit == old(self).should_quit
                    &&& out == Some(
                        Outgoing::Control(
                            ControlMessage::SetTickInterval(final(self).game.tick_interval),
                        ),
                    )
                },
                KeyAction::DecInterval => {
                    &&& final(self).game.tick_interval == Game::dec_interval_spec(
                        old(self).game.tick_interval,
                    )
                    &&& final(self).game == (Game {
                        tick_interval: final(self).game.tick_interval,
                        ..old(self).game
                    })
                    &&& final(self).should_quit == old(self).should_quit
                    &&& out == Some(
                        Outgoing::Control(
                            ControlMessage::SetTickInterval(final(self).game.tick_interval),
                        ),
                    )
                },
                KeyAction::TogglePause => {
                    &&& final(self).game == (Game {
                        state: if old(self).game.state is Running {
                            GameState::Paused
                        } else {
                            GameState::Running
                        },
                        ..old(self).game
                    })
                    &&& final(self).should_quit == old(self).should_quit
                    &&& out == Some(
                        Outgoing::Control(
                            if final(self).game.state is Paused {
                                ControlMessage::Pause
                            } else {
                                ControlMessage::Resume
                            },
                        ),
                    )
                },
                KeyAction::Randomize => {
                    &&& *final(self) == *old(self)
                    &&& out == Some(Outgoing::Queue(AppEvent::Randomize))
                },
                KeyAction::Clear => {
                    &&& *final(self) == *old(self)
                    &&& out == Some(Outgoing::Queue(AppEvent::Clear))
                },
            },
    {
        match action {
            KeyAction::Quit => Some(Outgoing::Queue(AppEvent::Quit)),
            KeyAction::IncInterval => {
                let interval = self.game.inc_interval();
                Some(Outgoing::Control(ControlMessage::SetTickInterval(interval)))
            },
            KeyAction::DecInterval => {
                let interval = self.game.dec_interval();
                Some(Outgoing::Control(ControlMessage::SetTickInterval(interval)))
            },
            KeyAction::TogglePause => {
                self.game.toggle_pause();
                if self.game.is_paused() {
                    Some(Outgoing::Control(ControlMessage::Pause))
                } else {
                    Some(Outgoing::Control(ControlMessage::Resume))
                }
            },
            KeyAction::Randomize => Some(Outgoing::Queue(AppEvent::Randomize)),
            KeyAction::Clear => Some(Outgoing::Queue(AppEvent::Clear)),
        }
    }

    /// Signals the application to terminate.
    fn quit(&mut self)
        ensures
            final(self).game == old(self).game,
            final(self).fill_density == old(self).fill_density,
            final(self).should_quit,
    {
        self.should_quit = true;
    }
}

} // verus!
