//! A turn-based chess engine whose state transitions are submitted by
//! untrusted callers and validated before being applied atomically.
//!
//! The core pieces are the board representation, the move-legality rules,
//! check/checkmate/draw detection, and the game state machine that ties a
//! move to turn order, outcome detection, and settlement of a wager and the
//! players' ratings on terminal outcomes.

pub mod board;
pub mod castling_right;
pub mod color;
pub mod detector;
pub mod draw_state;
pub mod error;
pub mod game_state;
pub mod laws;
pub mod piece;
pub mod rules;
pub mod square;
pub mod time_control;
pub mod user;
pub mod validator;
