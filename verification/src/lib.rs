//! Decision logic of a small game client that runs as a plugin of a game engine.

pub mod game;
pub mod handle;
pub mod report;
pub mod ui;
