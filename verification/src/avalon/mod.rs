//! The Resistance: Avalon. Characters, quests, votes and the assassination of Merlin.

pub mod characters;
pub mod game;
pub mod vote;
pub mod quest;
pub mod assassinate;
pub mod roles;
pub mod config;
pub mod setup;
pub mod boards;
