//! Channels: the kinds Discord has, what the bot keeps of each, and how the kind of a channel
//! is read from its JSON before the rest of it.

use vstd::prelude::*;

use crate::ids::{ApplicationId, ChannelId, GuildId, Id, MessageId, RoleId, UserId, WebhookId};
use crate::model::User;
use crate::text::{is_digit, parse_u64, parsed_u64, utf8_len, utf8_offset};

verus! {

/// A guild or DM channel.
#[derive(Debug)]
pub enum Channel {
    /// a text channel within a server
    Text(TextChannel),
    /// a direct message between users
    Dm(DmChannel),
    /// a voice channel within a server
    Voice(VoiceChannel),
    /// a direct message between multiple users
    GroupDm(GroupDmChannel),
    /// an organizational category that contains up to 50 channels
    Category(CategoryChannel),
    /// a channel that users can follow and crosspost into their own server
    News(NewsChannel),
    /// a channel in which game developers can sell their game on Discord
    Store(StoreChannel),
}

/// The kind of a channel.
#[derive(Debug, Clone, Copy, PartialEq, Eq, Structural)]
pub enum ChannelType {
    /// a text channel within a server
    GuildText,
    /// a direct message between users
    Dm,
    /// a voice channel within a server
    GuildVoice,
    /// a direct message between multiple users
    GroupDm,
    /// an organizational category that contains up to 50 channels
    GuildCategory,
    /// a channel that users can follow and crosspost into their own server
    GuildNews,
    /// a channel in which game developers can sell their game on Discord
    GuildStore,
}

/// The number Discord gives each kind of channel.
pub open spec fn channel_type_code(t: ChannelType) -> u8 {
    match t {
        ChannelType::GuildText => 0,
        ChannelType::Dm => 1,
        ChannelType::GuildVoice => 2,
        ChannelType::GroupDm => 3,
        ChannelType::GuildCategory => 4,
        ChannelType::GuildNews => 5,
        ChannelType::GuildStore => 6,
    }
}

impl ChannelType {
    /// The number Discord gives this kind of channel.
    pub fn code(&self) -> (c: u8)
        ensures
            c == channel_type_code(*self),
    {
        match self {
            ChannelType::GuildText => 0,
            ChannelType::Dm => 1,
            ChannelType::GuildVoice => 2,
            ChannelType::GroupDm => 3,
            ChannelType::GuildCategory => 4,
            ChannelType::GuildNews => 5,
            ChannelType::GuildStore => 6,
        }
    }

    /// The kind of channel Discord numbers `code`, if any.
    pub fn from_code(code: u8) -> (t: Option<Self>)
        ensures
            match t {
                Some(t) => channel_type_code(t) == code,
                None => code > 6,
            },
    {
        if code == 0 {
            Some(ChannelType::GuildText)
        } else if code == 1 {
            Some(ChannelType::Dm)
        } else if code == 2 {
            Some(ChannelType::GuildVoice)
        } else if code == 3 {
            Some(ChannelType::GroupDm)
        } else if code == 4 {
            Some(ChannelType::GuildCategory)
        } else if code == 5 {
            Some(ChannelType::GuildNews)
        } else if code == 6 {
            Some(ChannelType::GuildStore)
        } else {
            None
        }
    }
}

/// The kind of a channel.
pub open spec fn spec_channel_type(c: Channel) -> ChannelType {
    match c {
        Channel::Text(_) => ChannelType::GuildText,
        Channel::Dm(_) => ChannelType::Dm,
        Channel::Voice(_) => ChannelType::GuildVoice,
        Channel::GroupDm(_) => ChannelType::GroupDm,
        Channel::Category(_) => ChannelType::GuildCategory,
        Channel::News(_) => ChannelType::GuildNews,
        Channel::Store(_) => ChannelType::GuildStore,
    }
}

/// The guild a channel belongs to; direct messages belong to none.
pub open spec fn spec_channel_guild(c: Channel) -> Option<GuildId> {
    match c {
        Channel::Text(t) => t.guild_id,
        Channel::Voice(v) => v.guild_id,
        Channel::Category(c) => c.guild_id,
        Channel::News(n) => n.guild_id,
        Channel::Store(s) => s.guild_id,
        Channel::Dm(_) => None,
        Channel::GroupDm(_) => None,
    }
}

/// The id of a channel.
pub open spec fn spec_channel_id(c: Channel) -> ChannelId {
    match c {
        Channel::Text(c) => c.id,
        Channel::Dm(c) => c.id,
        Channel::Voice(c) => c.id,
        Channel::GroupDm(c) => c.id,
        Channel::Category(c) => c.id,
        Channel::News(c) => c.id,
        Channel::Store(c) => c.id,
    }
}

impl Channel {
    /// The kind of this channel.
    pub fn channel_type(&self) -> (t: ChannelType)
        ensures
            t == spec_channel_type(*self),
    {
        match self {
            Channel::Text(_) => ChannelType::GuildText,
            Channel::Dm(_) => ChannelType::Dm,
            Channel::Voice(_) => ChannelType::GuildVoice,
            Channel::GroupDm(_) => ChannelType::GroupDm,
            Channel::Category(_) => ChannelType::GuildCategory,
            Channel::News(_) => ChannelType::GuildNews,
            Channel::Store(_) => ChannelType::GuildStore,
        }
    }

    /// The guild this channel belongs to, if any.
    pub fn guild_id(&self) -> (g: Option<GuildId>)
        ensures
            g == spec_channel_guild(*self),
    {
        match self {
            Channel::Text(t) => t.guild_id,
            Channel::Voice(v) => v.guild_id,
            Channel::Category(c) => c.guild_id,
            Channel::News(n) => n.guild_id,
            Channel::Store(s) => s.guild_id,
            Channel::Dm(_) => None,
            Channel::GroupDm(_) => None,
        }
    }
}

impl Id for Channel {
    type Id = ChannelId;

    open spec fn spec_id(&self) -> ChannelId {
        spec_channel_id(*self)
    }

    fn id(&self) -> (i: ChannelId) {
        match self {
            Channel::Text(c) => c.id,
            Channel::Dm(c) => c.id,
            Channel::Voice(c) => c.id,
            Channel::GroupDm(c) => c.id,
            Channel::Category(c) => c.id,
            Channel::News(c) => c.id,
            Channel::Store(c) => c.id,
        }
    }
}

/// a text channel within a server
#[derive(Debug)]
pub struct TextChannel {
    /// the id of this channel
    pub id: ChannelId,
    /// the id of the guild
    pub guild_id: Option<GuildId>,
    /// sorting position of the channel
    pub position: u32,
    /// explicit permission overwrites for members and roles
    pub permission_overwrites: Vec<Overwrite>,
    /// the name of the channel (2-100 characters)
    pub name: String,
    /// the channel topic (0-1024 characters)
    pub topic: Option<String>,
    /// whether the channel is nsfw
    pub nsfw: bool,
    /// the id of the last message sent in this channel (may not point to an existing or valid message)
    pub last_message_id: Option<MessageId>,
    /// seconds a user has to wait before sending another message (0-21600)
    pub rate_limit_per_user: Option<u32>,
    /// id of the parent category for a channel
    pub parent_id: Option<ChannelId>,
    /// when the last pinned message was pinned, in milliseconds since the Unix epoch
    pub last_pin_timestamp: Option<i64>,
}

/// a direct message between users
#[derive(Debug)]
pub struct DmChannel {
    /// the id of this channel
    pub id: ChannelId,
    /// the id of the last message sent in this channel (may not point to an existing or valid message)
    pub last_message_id: Option<MessageId>,
    /// the other user of the DM
    pub recipient: User,
    /// when the last pinned message was pinned, in milliseconds since the Unix epoch
    pub last_pin_timestamp: Option<i64>,
}

/// a voice channel within a server
#[derive(Debug)]
pub struct VoiceChannel {
    /// the id of this channel
    pub id: ChannelId,
    /// the id of the guild
    pub guild_id: Option<GuildId>,
    /// sorting position of the channel
    pub position: u32,
    /// explicit permission overwrites for members and roles
    pub permission_overwrites: Vec<Overwrite>,
    /// the name of the channel (2-100 characters)
    pub name: String,
    /// the bitrate (in bits) of the voice channel
    pub bitrate: u32,
    /// the user limit of the voice channel
    pub user_limit: u32,
    /// id of the parent category for a channel
    pub parent_id: Option<ChannelId>,
}

/// a direct message between multiple users; bots cannot be in these channels
#[derive(Debug)]
pub struct GroupDmChannel {
    /// the id of this channel
    pub id: ChannelId,
    /// the id of the last message sent in this channel (may not point to an existing or valid message)
    pub last_message_id: Option<MessageId>,
    /// the recipients of the DM
    pub recipients: Vec<User>,
    /// icon hash
    pub icon: Option<String>,
    /// id of the DM creator
    pub owner_id: UserId,
    /// application id of the group DM creator if it is bot-created
    pub application_id: Option<ApplicationId>,
    /// when the last pinned message was pinned, in milliseconds since the Unix epoch
    pub last_pin_timestamp: Option<i64>,
}

/// an organizational category within a server that contains up to 50 channels
#[derive(Debug)]
pub struct CategoryChannel {
    /// the id of this channel
    pub id: ChannelId,
    /// the id of the guild
    pub guild_id: Option<GuildId>,
    /// sorting position of the channel
    pub position: u32,
    /// explicit permission overwrites for members and roles
    pub permission_overwrites: Vec<Overwrite>,
    /// the name of the channel (2-100 characters)
    pub name: Option<String>,
    /// whether the channel is nsfw
    pub nsfw: bool,
}

/// An announcement channel, which users can follow and crosspost into their own server.
#[derive(Debug)]
pub struct NewsChannel {
    /// the id of this channel
    pub id: ChannelId,
    /// the id of the guild
    pub guild_id: Option<GuildId>,
    /// sorting position of the channel
    pub position: u32,
    /// explicit permission overwrites for members and roles
    pub permission_overwrites: Vec<Overwrite>,
    /// the name of the channel (2-100 characters)
    pub name: String,
    /// the channel topic (0-1024 characters)
    pub topic: Option<String>,
    /// whether the channel is nsfw
    pub nsfw: bool,
    /// the id of the last message sent in this channel (may not point to an existing or valid message)
    pub last_message_id: Option<MessageId>,
    /// id of the parent category for a channel
    pub parent_id: Option<ChannelId>,
    /// when the last pinned message was pinned, in milliseconds since the Unix epoch
    pub last_pin_timestamp: Option<i64>,
}

/// A store page, in which bots can neither send nor read messages.
#[derive(Debug)]
pub struct StoreChannel {
    /// the id of this channel
    pub id: ChannelId,
    /// the id of the guild
    pub guild_id: Option<GuildId>,
    /// sorting position of the channel
    pub position: u32,
    /// explicit permission overwrites for members and roles
    pub permission_overwrites: Vec<Overwrite>,
    /// the name of the channel (2-100 characters)
    pub name: String,
    /// whether the channel is nsfw
    pub nsfw: bool,
    /// id of the parent category for a channel
    pub parent_id: Option<ChannelId>,
}

impl Id for TextChannel {
    type Id = ChannelId;

    open spec fn spec_id(&self) -> ChannelId {
        self.id
    }

    fn id(&self) -> (i: ChannelId) {
        self.id
    }
}

impl Id for DmChannel {
    type Id = ChannelId;

    open spec fn spec_id(&self) -> ChannelId {
        self.id
    }

    fn id(&self) -> (i: ChannelId) {
        self.id
    }
}

impl Id for VoiceChannel {
    type Id = ChannelId;

    open spec fn spec_id(&self) -> ChannelId {
        self.id
    }

    fn id(&self) -> (i: ChannelId) {
        self.id
    }
}

impl Id for GroupDmChannel {
    type Id = ChannelId;

    open spec fn spec_id(&self) -> ChannelId {
        self.id
    }

    fn id(&self) -> (i: ChannelId) {
        self.id
    }
}

impl Id for CategoryChannel {
    type Id = ChannelId;

    open spec fn spec_id(&self) -> ChannelId {
        self.id
    }

    fn id(&self) -> (i: ChannelId) {
        self.id
    }
}

impl Id for NewsChannel {
    type Id = ChannelId;

    open spec fn spec_id(&self) -> ChannelId {
        self.id
    }

    fn id(&self) -> (i: ChannelId) {
        self.id
    }
}

impl Id for StoreChannel {
    type Id = ChannelId;

    open spec fn spec_id(&self) -> ChannelId {
        self.id
    }

    fn id(&self) -> (i: ChannelId) {
        self.id
    }
}

/// A copy of a list of overwrites.
pub fn copy_overwrites(v: &Vec<Overwrite>) -> (r: Vec<Overwrite>)
    ensures
        r@ == v@,
{
    let mut r: Vec<Overwrite> = Vec::new();
    for i in 0..v.len()
        invariant
            r@ == v@.take(i as int),
    {
        r.push(v[i]);
        assert(r@ =~= v@.take(i + 1));
    }
    assert(v@.take(v@.len() as int) =~= v@);
    r
}

fn copy_users(v: &Vec<User>) -> (r: Vec<User>)
    ensures
        r@ == v@,
{
    let mut r: Vec<User> = Vec::new();
    for i in 0..v.len()
        invariant
            r@ == v@.take(i as int),
    {
        r.push(v[i].clone());
        assert(r@ =~= v@.take(i + 1));
    }
    assert(v@.take(v@.len() as int) =~= v@);
    r
}

fn copy_text(s: &Option<String>) -> (r: Option<String>)
    ensures
        r == *s,
{
    match s {
        Some(t) => Some(t.clone()),
        None => None,
    }
}

impl Clone for TextChannel {
    fn clone(&self) -> (c: Self)
        ensures
            c.permission_overwrites@ == self.permission_overwrites@,
            c == (TextChannel { permission_overwrites: c.permission_overwrites, ..*self }),
    {
        TextChannel {
            id: self.id,
            guild_id: self.guild_id,
            position: self.position,
            permission_overwrites: copy_overwrites(&self.permission_overwrites),
            name: self.name.clone(),
            topic: copy_text(&self.topic),
            nsfw: self.nsfw,
            last_message_id: self.last_message_id,
            rate_limit_per_user: self.rate_limit_per_user,
            parent_id: self.parent_id,
            last_pin_timestamp: self.last_pin_timestamp,
        }
    }
}

impl Clone for DmChannel {
    fn clone(&self) -> (c: Self)
        ensures
            c == *self,
    {
        DmChannel {
            id: self.id,
            last_message_id: self.last_message_id,
            recipient: self.recipient.clone(),
            last_pin_timestamp: self.last_pin_timestamp,
        }
    }
}

impl Clone for VoiceChannel {
    fn clone(&self) -> (c: Self)
        ensures
            c.permission_overwrites@ == self.permission_overwrites@,
            c == (VoiceChannel { permission_overwrites: c.permission_overwrites, ..*self }),
    {
        VoiceChannel {
            id: self.id,
            guild_id: self.guild_id,
            position: self.position,
            permission_overwrites: copy_overwrites(&self.permission_overwrites),
            name: self.name.clone(),
            bitrate: self.bitrate,
            user_limit: self.user_limit,
            parent_id: self.parent_id,
        }
    }
}

impl Clone for GroupDmChannel {
    fn clone(&self) -> (c: Self)
        ensures
            c.recipients@ == self.recipients@,
            c == (GroupDmChannel { recipients: c.recipients, ..*self }),
    {
        GroupDmChannel {
            id: self.id,
            last_message_id: self.last_message_id,
            recipients: copy_users(&self.recipients),
            icon: copy_text(&self.icon),
            owner_id: self.owner_id,
            application_id: self.application_id,
            last_pin_timestamp: self.last_pin_timestamp,
        }
    }
}

impl Clone for CategoryChannel {
    fn clone(&self) -> (c: Self)
        ensures
            c.permission_overwrites@ == self.permission_overwrites@,
            c == (CategoryChannel { permission_overwrites: c.permission_overwrites, ..*self }),
    {
        CategoryChannel {
            id: self.id,
            guild_id: self.guild_id,
            position: self.position,
            permission_overwrites: copy_overwrites(&self.permission_overwrites),
            name: copy_text(&self.name),
            nsfw: self.nsfw,
        }
    }
}

impl Clone for NewsChannel {
    fn clone(&self) -> (c: Self)
        ensures
            c.permission_overwrites@ == self.permission_overwrites@,
            c == (NewsChannel { permission_overwrites: c.permission_overwrites, ..*self }),
    {
        NewsChannel {
            id: self.id,
            guild_id: self.guild_id,
            position: self.position,
            permission_overwrites: copy_overwrites(&self.permission_overwrites),
            name: self.name.clone(),
            topic: copy_text(&self.topic),
            nsfw: self.nsfw,
            last_message_id: self.last_message_id,
            parent_id: self.parent_id,
            last_pin_timestamp: self.last_pin_timestamp,
        }
    }
}

impl Clone for StoreChannel {
    fn clone(&self) -> (c: Self)
        ensures
            c.permission_overwrites@ == self.permission_overwrites@,
            c == (StoreChannel { permission_overwrites: c.permission_overwrites, ..*self }),
    {
        StoreChannel {
            id: self.id,
            guild_id: self.guild_id,
            position: self.position,
            permission_overwrites: copy_overwrites(&self.permission_overwrites),
            name: self.name.clone(),
            nsfw: self.nsfw,
            parent_id: self.parent_id,
        }
    }
}

/// Channel `b` is a copy of channel `a`: the same kind, with every field equal and the lists
/// in it holding the same elements.
pub open spec fn same_channel(a: Channel, b: Channel) -> bool {
    match (a, b) {
        (Channel::Text(x), Channel::Text(y)) => y.permission_overwrites@ == x.permission_overwrites@
            && y == (TextChannel { permission_overwrites: y.permission_overwrites, ..x }),
        (Channel::Dm(x), Channel::Dm(y)) => y == x,
        (Channel::Voice(x), Channel::Voice(y)) => y.permission_overwrites@ == x.permission_overwrites@
            && y == (VoiceChannel { permission_overwrites: y.permission_overwrites, ..x }),
        (Channel::GroupDm(x), Channel::GroupDm(y)) => y.recipients@ == x.recipients@
            && y == (GroupDmChannel { recipients: y.recipients, ..x }),
        (Channel::Category(x), Channel::Category(y)) => y.permission_overwrites@ == x.permission_overwrites@
            && y == (CategoryChannel { permission_overwrites: y.permission_overwrites, ..x }),
        (Channel::News(x), Channel::News(y)) => y.permission_overwrites@ == x.permission_overwrites@
            && y == (NewsChannel { permission_overwrites: y.permission_overwrites, ..x }),
        (Channel::Store(x), Channel::Store(y)) => y.permission_overwrites@ == x.permission_overwrites@
            && y == (StoreChannel { permission_overwrites: y.permission_overwrites, ..x }),
        _ => false,
    }
}

impl Clone for Channel {
    fn clone(&self) -> (c: Self)
        ensures
            same_channel(*self, c),
    {
        match self {
            Channel::Text(x) => Channel::Text(x.clone()),
            Channel::Dm(x) => Channel::Dm(x.clone()),
            Channel::Voice(x) => Channel::Voice(x.clone()),
            Channel::GroupDm(x) => Channel::GroupDm(x.clone()),
            Channel::Category(x) => Channel::Category(x.clone()),
            Channel::News(x) => Channel::News(x.clone()),
            Channel::Store(x) => Channel::Store(x.clone()),
        }
    }
}

/// Copies keep the id, the kind and the guild of a channel.
pub proof fn lemma_same_channel_keeps(a: Channel, b: Channel)
    requires
        same_channel(a, b),
    ensures
        spec_channel_id(b) == spec_channel_id(a),
        spec_channel_type(b) == spec_channel_type(a),
        spec_channel_guild(b) == spec_channel_guild(a),
{
}

/// Permissions granted and denied in one channel to a role or a member.
#[derive(Debug, Clone, Copy, PartialEq, Eq, Structural)]
pub struct Overwrite {
    /// role or user id
    pub id: OverwriteType,
    /// permission bit set
    pub allow: u64,
    /// permission bit set
    pub deny: u64,
}

/// Whom an overwrite is for.
#[derive(Debug, Clone, Copy, PartialEq, Eq, Structural)]
pub enum OverwriteType {
    Role(RoleId),
    Member(UserId),
}

/// Why an overwrite could not be read.
#[derive(Debug, Clone, Copy, PartialEq, Eq, Structural)]
pub enum OverwriteError {
    /// the `type` was neither 0 (role) nor 1 (member)
    BadType(u8),
    /// the `allow` set was not a number
    BadAllow,
    /// the `deny` set was not a number
    BadDeny,
}

/// What an overwrite that Discord sends as a type code, an id, and its two permission sets in
/// decimal reads as.
pub open spec fn overwrite_of(otype: u8, id: u64, allow: Seq<char>, deny: Seq<char>) -> Result<Overwrite, OverwriteError> {
    if otype > 1 {
        Err(OverwriteError::BadType(otype))
    } else if parsed_u64(allow) is None {
        Err(OverwriteError::BadAllow)
    } else if parsed_u64(deny) is None {
        Err(OverwriteError::BadDeny)
    } else {
        Ok(Overwrite {
            id: if otype == 0 { OverwriteType::Role(RoleId(id)) } else { OverwriteType::Member(UserId(id)) },
            allow: parsed_u64(allow).unwrap(),
            deny: parsed_u64(deny).unwrap(),
        })
    }
}

impl Overwrite {
    /// Reads an overwrite as Discord sends it.
    pub fn from_raw(otype: u8, id: u64, allow: &str, deny: &str) -> (r: Result<Overwrite, OverwriteError>)
        ensures
            r == overwrite_of(otype, id, allow@, deny@),
    {
        let target = if otype == 0 {
            OverwriteType::Role(RoleId(id))
        } else if otype == 1 {
            OverwriteType::Member(UserId(id))
        } else {
            return Err(OverwriteError::BadType(otype));
        };
        let allow = match parse_u64(allow) {
            Some(a) => a,
            None => return Err(OverwriteError::BadAllow),
        };
        let deny = match parse_u64(deny) {
            Some(d) => d,
            None => return Err(OverwriteError::BadDeny),
        };
        Ok(Overwrite { id: target, allow, deny })
    }
}

/// A channel that another one follows, with the webhook that crossposts into it.
#[derive(Debug, Clone, Copy)]
pub struct FollowedChannel {
    /// source channel id
    pub channel_id: ChannelId,
    /// created target webhook id
    pub webhook_id: WebhookId,
}

/// The key `"type":` whose value names the kind of a channel.
pub open spec fn type_key() -> Seq<char> {
    seq!['"', 't', 'y', 'p', 'e', '"', ':']
}

/// One step of the scan for the key at the object's top level: braces change the depth and
/// restart the match, a character that continues the key at depth one advances it, and any
/// other character restarts it.
pub open spec fn scan_step(state: (int, int), c: char) -> (int, int) {
    let (nesting, progress) = state;
    if c == '{' {
        (nesting + 1, 0)
    } else if c == '}' {
        (nesting - 1, 0)
    } else if nesting == 1 && 0 <= progress < 7 && c == type_key()[progress] {
        (nesting, progress + 1)
    } else {
        (nesting, 0)
    }
}

/// The depth and the length of the key matched so far, after reading `s`.
pub open spec fn scan_state(s: Seq<char>) -> (int, int)
    decreases s.len(),
{
    if s.len() == 0 {
        (0, 0)
    } else {
        scan_step(scan_state(s.drop_last()), s.last())
    }
}

/// The whole key has just been matched at character `i`.
pub open spec fn key_found_at(s: Seq<char>, i: int) -> bool {
    0 <= i < s.len() && scan_state(s.take(i + 1)).1 == 7
}

/// The key is matched at `i`, and nowhere before.
pub open spec fn first_key_at(s: Seq<char>, i: int) -> bool {
    key_found_at(s, i) && forall|j: int| 0 <= j < i ==> !key_found_at(s, j)
}

/// What the kind of a channel reads as from its JSON: the first top-level `"type":` is found,
/// and the character that many characters in as the key ends bytes in is taken as the kind's
/// digit (the two counts agree where the text before is ASCII). `Err(Some(c))` when that
/// character is no digit, `Err(None)` when there is no key or no character there.
pub open spec fn raw_channel_type_of(s: Seq<char>) -> Result<u32, Option<char>> {
    if exists|i: int| first_key_at(s, i) {
        let i = choose|i: int| first_key_at(s, i);
        let b = utf8_offset(s, i) + 1;
        if b < s.len() {
            let c = s[b as int];
            if is_digit(c) { Ok((c as u32 - '0' as u32) as u32) } else { Err(Some(c)) }
        } else {
            Err(None)
        }
    } else {
        Err(None)
    }
}

fn char_utf8_len(c: char) -> (n: u128)
    ensures
        n == utf8_len(c),
{
    let v = c as u32;
    if v < 0x80 { 1 } else if v < 0x800 { 2 } else if v < 0x10000 { 3 } else { 4 }
}

fn key_char(progress: i128) -> (c: char)
    requires
        0 <= progress < 7,
    ensures
        c == type_key()[progress as int],
{
    if progress == 0 { '"' } else if progress == 1 { 't' } else if progress == 2 { 'y' }
    else if progress == 3 { 'p' } else if progress == 4 { 'e' } else if progress == 5 { '"' } else { ':' }
}

/// Reads the kind of a channel from its JSON text, before the rest of it is read.
pub fn raw_channel_type(s: &str) -> (r: Result<u32, Option<char>>)
    ensures
        r == raw_channel_type_of(s@),
{
    let len = s.unicode_len();
    let mut nesting: i128 = 0;
    let mut progress: i128 = 0;
    let mut bytes: u128 = 0;
    let mut i: usize = 0;
    while i < len
        invariant
            i <= len,
            len == s@.len(),
            (nesting as int, progress as int) == scan_state(s@.take(i as int)),
            -(i as int) <= nesting <= i,
            0 <= progress <= 7,
            bytes == utf8_offset(s@, i as int),
            bytes <= 4 * i,
            forall|j: int| 0 <= j < i ==> !key_found_at(s@, j),
        decreases len - i,
    {
        let c = s.get_char(i);
        assert(s@.take(i + 1).drop_last() =~= s@.take(i as int));
        if c == '{' {
            nesting = nesting + 1;
            progress = 0;
        } else if c == '}' {
            nesting = nesting - 1;
            progress = 0;
        } else if nesting == 1 && progress < 7 && c == key_char(progress) {
            progress = progress + 1;
        } else {
            progress = 0;
        }
        if progress == 7 {
            assert(key_found_at(s@, i as int));
            assert(first_key_at(s@, i as int));
            proof { lemma_first_key_unique(s@, i as int); }
            let b = bytes + 1;
            if b < len as u128 {
                let d = s.get_char(b as usize);
                if '0' <= d && d <= '9' {
                    return Ok(d as u32 - '0' as u32);
                } else {
                    return Err(Some(d));
                }
            } else {
                return Err(None);
            }
        }
        bytes = bytes + char_utf8_len(c);
        i = i + 1;
    }
    assert(!exists|j: int| first_key_at(s@, j));
    Err(None)
}

proof fn lemma_first_key_unique(s: Seq<char>, i: int)
    requires
        first_key_at(s, i),
    ensures
        (choose|j: int| first_key_at(s, j)) == i,
{
    let j = choose|j: int| first_key_at(s, j);
    assert(first_key_at(s, j));
    if j < i {
        assert(!key_found_at(s, j));
    } else if i < j {
        assert(!key_found_at(s, i));
    }
}

proof fn lemma_scan_progress(s: Seq<char>)
    ensures
        0 <= scan_state(s).1 <= 7,
        s.len() >= scan_state(s).1,
        s.subrange(s.len() - scan_state(s).1, s.len() as int) =~= type_key().take(scan_state(s).1),
    decreases s.len(),
{
    if s.len() > 0 {
        lemma_scan_progress(s.drop_last());
        let p = scan_state(s.drop_last()).1;
        if scan_state(s).1 == p + 1 {
            assert(s.subrange(s.len() - (p + 1), s.len() as int)
                =~= s.drop_last().subrange(s.drop_last().len() - p, s.drop_last().len() as int).push(s.last()));
            assert(type_key().take(p + 1) =~= type_key().take(p).push(type_key()[p]));
        }
    }
}

/// Wherever the scan reports the key, the seven characters that end there are `"type":`.
pub proof fn lemma_key_found_means_key(s: Seq<char>, i: int)
    requires
        key_found_at(s, i),
    ensures
        i >= 6,
        s.subrange(i - 6, i + 1) =~= type_key(),
{
    lemma_scan_progress(s.take(i + 1));
    assert(s.take(i + 1).subrange(i + 1 - 7, i + 1) =~= s.subrange(i - 6, i + 1));
    assert(type_key().take(7) =~= type_key());
}

} // verus!
