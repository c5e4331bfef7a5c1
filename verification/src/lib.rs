//! Game logic and Discord model of a bot that runs games of Avalon, Coup and Hangman.

pub mod text;
pub mod random;
pub mod ids;
pub mod model;
pub mod outgoing;
pub mod markup;
pub mod emoji;
pub mod cache;
pub mod channel;
pub mod guild;
pub mod message;
pub mod dispatch;
pub mod shard;
pub mod routes;
pub mod rate_limit;
pub mod hangman;
pub mod commands;
pub mod utils;
pub mod interaction_use;
pub mod interaction;
pub mod command_json;
pub mod errors;
pub mod games;
pub mod coup;
pub mod avalon;
