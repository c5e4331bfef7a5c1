//! The errors of reading a command that a user invoked.

use vstd::prelude::*;

use std::ops::Range;

use crate::ids::{CommandId, GuildId};
use crate::interaction::{ApplicationCommandOptionType, OptionValue};
use crate::text::{decimal, u64_to_string};

verus! {

/// A command that could not be read, with the command and the guild it was used in.
#[derive(Debug)]
pub struct CommandParseErrorInfo {
    pub id: CommandId,
    pub guild: GuildId,
    pub error: CommandParseError,
}

/// Why a command could not be read.
#[derive(Debug)]
pub enum CommandParseError {
    /// an option's value had the wrong type
    BadType(OptionType),
    /// an option the command does not have
    UnknownOption(UnknownOption),
    /// an option without a value
    EmptyOption(String),
    /// an option at a position outside the range it may stand in
    BadOrder(String, usize, Range<usize>),
    /// a required option that was not given
    MissingOption(String),
    /// Command named `String` didn't have a subcommand option
    NoSubtype(String),
}

/// The guild an error happened in, as the log names it: by name and id where the cache knows
/// the guild (`null` for a guild without a name), else by id alone.
pub open spec fn guild_label_text(guild: GuildId, known: Option<Option<Seq<char>>>) -> Seq<char> {
    match known {
        Some(name) => "guild `"@ + (match name { Some(n) => n, None => "null"@ }) + "` ("@
            + decimal(guild.0 as nat) + ")"@,
        None => "unknown guild `"@ + decimal(guild.0 as nat) + "`"@,
    }
}

/// The log line of a parse error. `command` is `None` when the guild has no commands,
/// `Some(None)` when it has none with the error's id, and `Some(Some(name))` for the command's
/// name; `error` is the error as it is printed for debugging.
pub open spec fn parse_error_text(id: CommandId, guild: Seq<char>, command: Option<Option<Seq<char>>>,
    error: Seq<char>) -> Seq<char>
{
    match command {
        Some(Some(name)) => "Failed to parse command `"@ + name + "` ("@ + decimal(id.0 as nat) + ") in "@
            + guild + ": "@ + error,
        Some(None) => "Failed to parse unknown command `"@ + decimal(id.0 as nat) + "` in "@ + guild + ": "@ + error,
        None => "Failed to parse command `"@ + decimal(id.0 as nat) + "` in "@ + guild
            + ", which has no commands: "@ + error,
    }
}

impl CommandParseErrorInfo {
    /// The log line of the error, given what the cache knows of the guild (its name, if it is
    /// cached), what the guild's commands say of the id, and the error as printed for debugging.
    pub fn describe(&self, guild_name: Option<Option<&str>>, command: Option<Option<&str>>, error: &str) -> (s: String)
        ensures
            s@ == parse_error_text(self.id, guild_label_text(self.guild,
                match guild_name { Some(Some(n)) => Some(Some(n@)), Some(None) => Some(None), None => None }),
                match command { Some(Some(n)) => Some(Some(n@)), Some(None) => Some(None), None => None },
                error@),
    {
        let guild_id = u64_to_string(self.guild.0);
        let guild = match guild_name {
            Some(name) => {
                let mut g = String::from_str("guild `");
                match name {
                    Some(n) => g.append(n),
                    None => g.append("null"),
                }
                g.append("` (");
                g.append(guild_id.as_str());
                g.append(")");
                g
            },
            None => {
                let mut g = String::from_str("unknown guild `");
                g.append(guild_id.as_str());
                g.append("`");
                g
            },
        };
        let id = u64_to_string(self.id.0);
        let mut s: String;
        match command {
            Some(Some(name)) => {
                s = String::from_str("Failed to parse command `");
                s.append(name);
                s.append("` (");
                s.append(id.as_str());
                s.append(") in ");
                s.append(guild.as_str());
                s.append(": ");
            },
            Some(None) => {
                s = String::from_str("Failed to parse unknown command `");
                s.append(id.as_str());
                s.append("` in ");
                s.append(guild.as_str());
                s.append(": ");
            },
            None => {
                s = String::from_str("Failed to parse command `");
                s.append(id.as_str());
                s.append("` in ");
                s.append(guild.as_str());
                s.append(", which has no commands: ");
            },
        }
        s.append(error);
        s
    }
}

/// Attaching the guild to a parse error.
pub trait CommandParseErrorWithInfo {
    fn with_info(self, guild: GuildId) -> CommandParseErrorInfo;
}

impl CommandParseErrorWithInfo for (CommandParseError, CommandId) {
    fn with_info(self, guild: GuildId) -> (info: CommandParseErrorInfo)
        ensures
            info.id == self.1,
            info.guild == guild,
            info.error == self.0,
    {
        CommandParseErrorInfo { id: self.1, guild, error: self.0 }
    }
}

/// A value that was not of the type the command wanted.
#[derive(Debug, Clone)]
pub struct OptionType {
    pub value: OptionValue,
    pub desired: ApplicationCommandOptionType,
}

impl From<OptionType> for CommandParseError {
    fn from(ot: OptionType) -> (e: Self) {
        CommandParseError::BadType(ot)
    }
}

impl vstd::std_specs::convert::FromSpecImpl<OptionType> for CommandParseError {
    open spec fn obeys_from_spec() -> bool {
        true
    }

    open spec fn from_spec(ot: OptionType) -> CommandParseError {
        CommandParseError::BadType(ot)
    }
}

/// An option name the command does not know, with the names it does.
#[derive(Debug)]
pub struct UnknownOption {
    pub name: String,
    pub options: &'static [&'static str],
}

} // verus!
