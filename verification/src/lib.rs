//! A wager-settled Ludo engine for 2 or 4 players: board geometry, turn
//! rotation with inactivity handling, dice-roll consumption, move legality,
//! capture and home-entry rules, and prize-pool settlement. Every operation
//! is a verified transition on a single `GameState` record; escrow movements
//! are returned as plain transfer instructions for the host to execute.

pub mod board;
pub mod dice;
pub mod game;
pub mod laws;
pub mod lifecycle;
pub mod settlement;
pub mod moves;
pub mod rotation;
