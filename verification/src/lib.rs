//! A grid-based snake simulation with a declarative text display model.
//!
//! The simulation is a deterministic, tick-driven state machine: it owns the
//! snake body, the food cell, the current direction, the game state and mode,
//! and the score. An external driver steps it (`do_next_tick`) and feeds it
//! input (`move_player`, `toggle_pause`, `toggle_mode`); an external renderer
//! reads the body, the food, the state and the text display model each frame.

pub mod constants;
pub mod data;
pub mod data_structs;
pub mod decimal;
pub mod entities;
pub mod game_context;
