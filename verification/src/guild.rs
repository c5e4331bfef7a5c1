//! Guilds and what the bot keeps of them: roles and their permissions, presences, voice states.

use vstd::prelude::*;

use crate::cache::IdMap;
use crate::channel::Channel;
use crate::emoji::CustomEmoji;
use crate::ids::{ApplicationId, ChannelId, GuildId, Id, InteractionId, RoleId, UserId};
use crate::model::{GuildMember, User};
use crate::text::{parse_u64, parsed_u64};

verus! {

/// Allows creation of instant invites
pub const CREATE_INSTANT_INVITE: u64 = 0x1;
/// Allows for the addition of reactions to messages
pub const ADD_REACTIONS: u64 = 0x40;
/// Allows guild members to view a channel, which includes reading messages in text channels
pub const VIEW_CHANNEL: u64 = 0x400;
/// Allows for sending messages in a channel
pub const SEND_MESSAGES: u64 = 0x800;
/// Allows for deletion of other users messages
pub const MANAGE_MESSAGES: u64 = 0x2000;
/// Allows for uploading images and files
pub const ATTACH_FILES: u64 = 0x8000;
/// Allows for reading of message history
pub const READ_MESSAGE_HISTORY: u64 = 0x10000;
/// Allows the usage of custom emojis from other servers
pub const USE_EXTERNAL_EMOJIS: u64 = 0x40000;
/// Allows management and editing of roles
pub const MANAGE_ROLES: u64 = 0x10000000;
/// Allows for requesting to speak in stage channels
pub const REQUEST_TO_SPEAK: u64 = 0x100000000;
/// Every permission Discord defines: the bits from `CREATE_INSTANT_INVITE` to
/// `REQUEST_TO_SPEAK`.
pub const ALL_PERMISSIONS: u64 = 0x1_ffff_ffff;

/// A set of permissions, as a bit set.
#[derive(Debug, Clone, Copy, PartialEq, Eq, Structural)]
pub struct Permissions {
    pub bits: u64,
}

/// Why a permission set could not be read.
#[derive(Debug, Clone, Copy, PartialEq, Eq, Structural)]
pub enum PermissionsError {
    /// the text is not a number
    NotANumber,
    /// the number holds bits that name no permission
    UnknownBits(u64),
}

/// What a permission set that Discord sends as decimal text reads as.
pub open spec fn permissions_of(s: Seq<char>) -> Result<Permissions, PermissionsError> {
    match parsed_u64(s) {
        None => Err(PermissionsError::NotANumber),
        Some(bits) => if bits & !ALL_PERMISSIONS == 0 {
            Ok(Permissions { bits })
        } else {
            Err(PermissionsError::UnknownBits(bits))
        },
    }
}

impl Permissions {
    /// The set with these bits, if every bit names a permission.
    pub fn from_bits(bits: u64) -> (p: Option<Permissions>)
        ensures
            match p {
                Some(p) => p.bits == bits && bits & !ALL_PERMISSIONS == 0,
                None => bits & !ALL_PERMISSIONS != 0,
            },
    {
        if bits & !ALL_PERMISSIONS == 0 {
            Some(Permissions { bits })
        } else {
            None
        }
    }

    /// Reads a permission set that Discord sends as decimal text.
    pub fn from_decimal(s: &str) -> (r: Result<Permissions, PermissionsError>)
        ensures
            r == permissions_of(s@),
    {
        match parse_u64(s) {
            None => Err(PermissionsError::NotANumber),
            Some(bits) => match Permissions::from_bits(bits) {
                Some(p) => Ok(p),
                None => Err(PermissionsError::UnknownBits(bits)),
            },
        }
    }

    /// Whether every permission of `other` is in this set.
    pub fn contains(&self, other: Permissions) -> (b: bool)
        ensures
            b == (self.bits & other.bits == other.bits),
    {
        self.bits & other.bits == other.bits
    }

    /// The permissions of either set.
    pub fn union(&self, other: Permissions) -> (p: Permissions)
        ensures
            p.bits == self.bits | other.bits,
    {
        Permissions { bits: self.bits | other.bits }
    }
}

/// A set of permissions attached to a group of users.
#[derive(Debug, Clone)]
pub struct Role {
    /// role id
    pub id: RoleId,
    /// role name
    pub name: String,
    /// integer representation of hexadecimal color code
    pub color: u32,
    /// if this role is pinned in the user listing
    pub hoist: bool,
    /// position of this role
    pub position: u32,
    /// permission bit set
    pub permissions: Permissions,
    /// whether this role is managed by an integration
    pub managed: bool,
    /// whether this role is mentionable
    pub mentionable: bool,
    /// what the role belongs to, if anything
    pub tags: Option<RoleTags>,
}

/// What a role belongs to.
#[derive(Debug, Clone, Copy)]
pub struct RoleTags {
    /// the id of the bot this role belongs to
    pub bot_id: Option<ApplicationId>,
    /// the id of the integration this role belongs to
    pub integration_id: Option<InteractionId>,
    /// whether this is the guild's premium subscriber role
    pub premium_subscriber: bool,
}

impl Id for Role {
    type Id = RoleId;

    open spec fn spec_id(&self) -> RoleId {
        self.id
    }

    fn id(&self) -> (i: RoleId) {
        self.id
    }
}

/// A guild that is not available, or not yet.
#[derive(Debug, Clone, Copy)]
pub struct UnavailableGuild {
    pub id: GuildId,
    /// whether the guild is unavailable because of an outage, rather than because the bot left it
    pub unavailable: bool,
}

impl Id for UnavailableGuild {
    type Id = GuildId;

    open spec fn spec_id(&self) -> GuildId {
        self.id
    }

    fn id(&self) -> (i: GuildId) {
        self.id
    }
}

/// Whether a user is online.
#[derive(Debug, Clone, Copy, PartialEq, Eq, Structural)]
pub enum StatusType {
    Online,
    Idle,
    Dnd,
    Offline,
}

/// A user's status on each kind of client.
#[derive(Debug, Clone, Copy)]
pub struct ClientStatus {
    /// the user's status set for an active desktop (Windows, Linux, Mac) application session
    pub desktop: Option<StatusType>,
    /// the user's status set for an active mobile (iOS, Android) application session
    pub mobile: Option<StatusType>,
    /// the user's status set for an active web (browser, bot account) application session
    pub web: Option<StatusType>,
}

/// A user's current state on a guild.
#[derive(Debug, Clone)]
pub struct PresenceUpdate {
    /// the user presence is being updated for
    pub user: User,
    /// id of the guild
    pub guild_id: GuildId,
    /// the user's status
    pub status: StatusType,
    /// user's platform-dependent status
    pub client_status: ClientStatus,
}

impl Id for PresenceUpdate {
    type Id = UserId;

    open spec fn spec_id(&self) -> UserId {
        self.user.id
    }

    fn id(&self) -> (i: UserId) {
        self.user.id
    }
}

/// A user's connection to a voice channel.
#[derive(Debug, Clone)]
pub struct VoiceState {
    /// the guild id this voice state is for
    pub guild_id: Option<GuildId>,
    /// the channel id this user is connected to
    pub channel_id: Option<ChannelId>,
    /// the user id this voice state is for
    pub user_id: UserId,
    /// the session id for this voice state
    pub session_id: String,
    /// whether this user is deafened by the server
    pub deaf: bool,
    /// whether this user is muted by the server
    pub mute: bool,
    /// whether this user is locally deafened
    pub self_deaf: bool,
    /// whether this user is locally muted
    pub self_mute: bool,
    /// whether this user is muted by the current user
    pub suppress: bool,
}

impl Id for VoiceState {
    type Id = UserId;

    open spec fn spec_id(&self) -> UserId {
        self.user_id
    }

    fn id(&self) -> (i: UserId) {
        self.user_id
    }
}

/// What describes a guild, apart from its id, its owner flag, and the objects in it.
#[derive(Debug, Clone)]
pub struct GuildInfo {
    pub name: Option<String>,
    pub icon: Option<String>,
    pub splash: Option<String>,
    pub discovery_splash: Option<String>,
    pub owner_id: UserId,
    pub permissions: Option<String>,
    pub region: String,
    pub afk_channel_id: Option<ChannelId>,
    pub afk_timeout: u32,
    pub widget_enabled: Option<bool>,
    pub widget_channel_id: Option<ChannelId>,
    pub application_id: Option<ApplicationId>,
    pub system_channel_id: Option<ChannelId>,
    pub rules_channel_id: Option<ChannelId>,
    pub max_presences: Option<u32>,
    pub max_members: Option<u32>,
    pub vanity_url_code: Option<String>,
    pub description: Option<String>,
    pub banner: Option<String>,
    pub premium_subscription_count: Option<u32>,
    pub preferred_locale: Option<String>,
    pub public_updates_id_channel: Option<ChannelId>,
    pub max_video_channel_users: Option<u32>,
    pub approximate_member_count: Option<u32>,
    pub approximate_presence_count: Option<u32>,
}

/// A guild, with what the bot keeps of it.
#[derive(Debug)]
pub struct Guild {
    pub id: GuildId,
    /// whether the bot owns the guild
    pub owner: bool,
    pub info: GuildInfo,
    /// the roles of the guild
    pub roles: IdMap<Role>,
    /// the custom emoji of the guild
    pub emojis: IdMap<CustomEmoji>,
    /// the channels of the guild
    pub channels: IdMap<Channel>,
    /// the members of the guild
    pub members: IdMap<GuildMember>,
    /// the presences of the members
    pub presences: IdMap<PresenceUpdate>,
    /// the members' connections to voice channels
    pub voice_states: IdMap<VoiceState>,
}

/// The parts of a guild that an event changes.
#[derive(Debug, Clone, Copy, PartialEq, Eq, Structural)]
pub enum GuildPart {
    Roles,
    Emojis,
    Channels,
    Members,
    Presences,
    VoiceStates,
}

/// Guild `b` is guild `a` but for the parts named, which may differ.
pub open spec fn guild_same_but(a: Guild, b: Guild, parts: Set<GuildPart>) -> bool {
    &&& b.id == a.id
    &&& b.owner == a.owner
    &&& b.info == a.info
    &&& !parts.contains(GuildPart::Roles) ==> b.roles@ == a.roles@
    &&& !parts.contains(GuildPart::Emojis) ==> b.emojis@ == a.emojis@
    &&& !parts.contains(GuildPart::Channels) ==> b.channels@ == a.channels@
    &&& !parts.contains(GuildPart::Members) ==> b.members@ == a.members@
    &&& !parts.contains(GuildPart::Presences) ==> b.presences@ == a.presences@
    &&& !parts.contains(GuildPart::VoiceStates) ==> b.voice_states@ == a.voice_states@
}

impl Id for Guild {
    type Id = GuildId;

    open spec fn spec_id(&self) -> GuildId {
        self.id
    }

    fn id(&self) -> (i: GuildId) {
        self.id
    }
}

} // verus!
