//! The games the bot runs, and the errors they report to users.

use vstd::prelude::*;

use crate::ids::{ChannelId, GuildId};
use crate::text::{decimal, u64_to_string};

verus! {

/// A game the bot can start.
#[derive(Debug, Clone, Copy, PartialEq, Eq, Hash, Structural)]
pub enum GameType {
    Avalon,
    Coup,
    Hangman,
    Kittens,
}

/// The name a game is shown by.
pub open spec fn game_name(g: GameType) -> Seq<char> {
    match g {
        GameType::Avalon => "Avalon"@,
        GameType::Coup => "Coup"@,
        GameType::Hangman => "Hangman"@,
        GameType::Kittens => "Exploding Kittens"@,
    }
}

impl GameType {
    /// The name this game is shown by.
    pub fn name(self) -> (n: &'static str)
        ensures
            n@ == game_name(self),
    {
        match self {
            GameType::Avalon => "Avalon",
            GameType::Coup => "Coup",
            GameType::Hangman => "Hangman",
            GameType::Kittens => "Exploding Kittens",
        }
    }
}

/// An error of one of the games.
#[derive(Debug)]
pub enum GameError {
    Avalon(AvalonError),
    Hangman(HangmanError),
}

/// An error of a game of Avalon.
#[derive(Debug, Clone, Copy, PartialEq, Eq, Structural)]
pub enum AvalonError {
    TooManyPlayers(usize),
    Stopped,
    NotVoting,
}

/// An error of a game of Hangman: no word could be picked from a channel.
#[derive(Debug, Clone, Copy, PartialEq, Eq, Structural)]
pub enum HangmanError {
    NoWords(ChannelId, Option<GuildId>),
}

/// What an Avalon error tells the user.
pub open spec fn avalon_error_text(e: AvalonError) -> Seq<char> {
    match e {
        AvalonError::TooManyPlayers(n) => "Too many players! "@ + decimal(n as nat)
            + " is more than the maximum number of players (10)."@,
        AvalonError::Stopped => "Game Already Over"@,
        AvalonError::NotVoting => "No longer in the voting phase"@,
    }
}

/// What a Hangman error tells the user: a link to the channel that had no words.
pub open spec fn hangman_error_text(e: HangmanError) -> Seq<char> {
    match e {
        HangmanError::NoWords(c, Some(g)) => "No suitable words found in https://discord.com/channels/"@
            + decimal(g.0 as nat) + "/"@ + decimal(c.0 as nat),
        HangmanError::NoWords(c, None) => "No suitable words found in https://discord.com/channels/@me/"@
            + decimal(c.0 as nat),
    }
}

/// What a game error tells the user.
pub open spec fn game_error_text(e: GameError) -> Seq<char> {
    match e {
        GameError::Avalon(a) => avalon_error_text(a),
        GameError::Hangman(h) => hangman_error_text(h),
    }
}

impl AvalonError {
    /// What this error tells the user.
    pub fn message(&self) -> (s: String)
        ensures
            s@ == avalon_error_text(*self),
    {
        match self {
            AvalonError::TooManyPlayers(n) => {
                let mut s = String::from_str("Too many players! ");
                let num = u64_to_string(*n as u64);
                s.append(num.as_str());
                s.append(" is more than the maximum number of players (10).");
                s
            },
            AvalonError::Stopped => String::from_str("Game Already Over"),
            AvalonError::NotVoting => String::from_str("No longer in the voting phase"),
        }
    }
}

impl HangmanError {
    /// What this error tells the user.
    pub fn message(&self) -> (s: String)
        ensures
            s@ == hangman_error_text(*self),
    {
        match self {
            HangmanError::NoWords(c, Some(g)) => {
                let mut s = String::from_str("No suitable words found in https://discord.com/channels/");
                let gs = u64_to_string(g.0);
                s.append(gs.as_str());
                s.append("/");
                let cs = u64_to_string(c.0);
                s.append(cs.as_str());
                s
            },
            HangmanError::NoWords(c, None) => {
                let mut s = String::from_str("No suitable words found in https://discord.com/channels/@me/");
                let cs = u64_to_string(c.0);
                s.append(cs.as_str());
                s
            },
        }
    }
}

impl GameError {
    /// What this error tells the user.
    pub fn message(&self) -> (s: String)
        ensures
            s@ == game_error_text(*self),
    {
        match self {
            GameError::Avalon(a) => a.message(),
            GameError::Hangman(h) => h.message(),
        }
    }
}

impl From<AvalonError> for GameError {
    fn from(e: AvalonError) -> (g: Self) {
        GameError::Avalon(e)
    }
}

impl vstd::std_specs::convert::FromSpecImpl<AvalonError> for GameError {
    open spec fn obeys_from_spec() -> bool {
        true
    }

    open spec fn from_spec(e: AvalonError) -> GameError {
        GameError::Avalon(e)
    }
}

impl From<HangmanError> for GameError {
    fn from(e: HangmanError) -> (g: Self) {
        GameError::Hangman(e)
    }
}

impl vstd::std_specs::convert::FromSpecImpl<HangmanError> for GameError {
    open spec fn obeys_from_spec() -> bool {
        true
    }

    open spec fn from_spec(e: HangmanError) -> GameError {
        GameError::Hangman(e)
    }
}

} // verus!
