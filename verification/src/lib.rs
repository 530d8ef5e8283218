//! A verified core for a terminal Game of Life: a toroidal grid with
//! incremental population tracking, a double-buffered simulation engine,
//! and the decision logic of the event-producer and consumer loops.

pub mod app;
pub mod event;
pub mod game;
pub mod grid;
pub mod ui;
