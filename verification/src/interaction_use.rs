//! An interaction as a command handles it, marked by whether it was answered yet. The marks
//! are types that only stand in the type of an interaction.

use vstd::prelude::*;
use std::marker::PhantomData;

use crate::ids::{ChannelId, CommandId, GuildId, InteractionId};
use crate::interaction::{ApplicationCommandInteractionDataOption, Interaction};
use crate::model::{GuildMember, User};

verus! {

/// Whether an interaction was answered yet.
pub trait Usability {}

/// An interaction that was answered, or put off.
pub trait NotUnused: Usability {}

/// Not answered yet.
#[derive(Debug, PartialEq)]
pub struct Unused;

impl Usability for Unused {}

/// Answered later: the user was told the answer is coming.
#[derive(Debug, PartialEq, Clone, Copy)]
pub struct Deferred;

impl Usability for Deferred {}

impl NotUnused for Deferred {}

/// Answered.
#[derive(Debug, PartialEq, Clone, Copy)]
pub struct Used;

impl Usability for Used {}

impl NotUnused for Used {}

/// Where an interaction was sent from.
#[derive(Debug, Clone)]
pub enum InteractionSource {
    /// a guild, by one of its members
    Guild(GuildSource),
    /// a direct message, by a user
    Dm(DmSource),
}

/// A guild and the member who sent an interaction there.
#[derive(Debug, Clone)]
pub struct GuildSource {
    pub id: GuildId,
    pub member: GuildMember,
}

/// The user who sent an interaction in a direct message.
#[derive(Debug, Clone)]
pub struct DmSource {
    pub user: User,
}

/// An interaction being handled by a command.
#[derive(Debug)]
pub struct InteractionUse<U: Usability> {
    /// id of the interaction
    pub id: InteractionId,
    /// the id of the command being invoked
    pub command: CommandId,
    /// the name of the command being invoked
    pub command_name: String,
    /// the channel it was sent from
    pub channel: ChannelId,
    pub source: InteractionSource,
    /// a continuation token for responding to the interaction
    pub token: String,
    /// which state of being answered the interaction is in
    pub marker: PhantomData<U>,
}

impl<U: Usability> InteractionUse<U> {
    /// The guild the interaction was sent from, if any.
    pub fn guild(&self) -> (g: Option<GuildId>)
        ensures
            g == match self.source {
                InteractionSource::Guild(gs) => Some(gs.id),
                InteractionSource::Dm(_) => None,
            },
    {
        match &self.source {
            InteractionSource::Guild(gs) => Some(gs.id),
            InteractionSource::Dm(_) => None,
        }
    }

    /// The user who sent the interaction.
    pub fn user(&self) -> (u: &User)
        ensures
            *u == match self.source {
                InteractionSource::Guild(gs) => gs.member.user,
                InteractionSource::Dm(ds) => ds.user,
            },
    {
        match &self.source {
            InteractionSource::Guild(gs) => &gs.member.user,
            InteractionSource::Dm(ds) => &ds.user,
        }
    }

    /// The member who sent the interaction, if it came from a guild.
    pub fn member(&self) -> (m: Option<&GuildMember>)
        ensures
            match self.source {
                InteractionSource::Guild(gs) => m matches Some(x) && *x == gs.member,
                InteractionSource::Dm(_) => m.is_none(),
            },
    {
        match &self.source {
            InteractionSource::Guild(gs) => Some(&gs.member),
            InteractionSource::Dm(_) => None,
        }
    }
}

/// The same interaction, in another state of being answered.
pub open spec fn same_use<A: Usability, B: Usability>(a: InteractionUse<A>, b: InteractionUse<B>) -> bool {
    &&& b.id == a.id
    &&& b.command == a.command
    &&& b.command_name == a.command_name
    &&& b.channel == a.channel
    &&& b.source == a.source
    &&& b.token == a.token
}

impl InteractionUse<Unused> {
    /// An interaction that a user just sent from a guild, with the options they gave.
    pub fn from(interaction: Interaction) -> (r: (Self, Vec<ApplicationCommandInteractionDataOption>))
        ensures
            r.0.id == interaction.id,
            r.0.command == interaction.data.id,
            r.0.command_name == interaction.data.name,
            r.0.channel == interaction.channel_id,
            r.0.source == InteractionSource::Guild(GuildSource { id: interaction.guild_id, member: interaction.member }),
            r.0.token == interaction.token,
            r.1 == interaction.data.options,
    {
        let Interaction { id, kind: _, data, guild_id, channel_id, member, token } = interaction;
        let this = InteractionUse {
            id,
            command: data.id,
            command_name: data.name,
            channel: channel_id,
            source: InteractionSource::Guild(GuildSource { id: guild_id, member }),
            token,
            marker: PhantomData,
        };
        (this, data.options)
    }

    /// The interaction once it was answered.
    pub fn into_used(self) -> (u: InteractionUse<Used>)
        ensures
            same_use(self, u),
    {
        InteractionUse {
            id: self.id,
            command: self.command,
            command_name: self.command_name,
            channel: self.channel,
            source: self.source,
            token: self.token,
            marker: PhantomData,
        }
    }

    /// The interaction once its answer was put off.
    pub fn into_deferred(self) -> (u: InteractionUse<Deferred>)
        ensures
            same_use(self, u),
    {
        InteractionUse {
            id: self.id,
            command: self.command,
            command_name: self.command_name,
            channel: self.channel,
            source: self.source,
            token: self.token,
            marker: PhantomData,
        }
    }
}

impl InteractionUse<Deferred> {
    /// The interaction once its put-off answer was given.
    pub fn into_used(self) -> (u: InteractionUse<Used>)
        ensures
            same_use(self, u),
    {
        InteractionUse {
            id: self.id,
            command: self.command,
            command_name: self.command_name,
            channel: self.channel,
            source: self.source,
            token: self.token,
            marker: PhantomData,
        }
    }
}

} // verus!
