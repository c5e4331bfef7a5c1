//! Coup: cards, abilities, the bank of coins, turns, blocks and contests.

pub mod cards;
pub mod game;
pub mod config;
pub mod texts;
