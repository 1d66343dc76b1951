//! Core of a terminal Pong game: court model, local physics, the computer
//! opponent, power moves and the reconciliation of remote match state.
//!
//! Quantities that a renderer would hold as fractions are kept in fixed point:
//! court units and paddle rows in thousandths, difficulty in hundredths, time
//! in milliseconds and AI fatigue in millionths.

pub mod ai;
mod arith;
pub mod court;
pub mod game;
pub mod game_theme;
pub mod helpers;
pub mod network;
pub mod rng;
