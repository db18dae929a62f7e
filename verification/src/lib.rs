//! Core logic of a timed navigation game over a hyperlinked document graph:
//! a cursor-addressed browsing history, a fetch coordinator that discards
//! stale asynchronous results, and the game-phase state machine.

pub mod game;
pub mod history;
