//! A grid snake game: the simulation, its input rules and the window layout.
//!
//! Positions are grid cells, time is counted in microseconds and the layout is
//! measured in whole pixels; drawing, sound and the event loop live outside.
//! As every position is a whole cell, the head meets the food, the body and
//! the border exactly, with no tolerance.

pub mod constants;
pub mod types;
pub mod random;
pub mod game_state;
pub mod event_handler;
pub mod laws;
