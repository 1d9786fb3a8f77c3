//! Core of a two-player board game service: a bit-packed board
//! representation with a legal-move generator and rules engine, and a
//! per-match protocol state machine with clocks and terminal-outcome
//! classification.

pub mod bits;
pub mod board;
pub mod movegen;
pub mod packets;
pub mod registry;
pub mod rules;
pub mod session;
pub mod types;
