//! Events that Discord's gateway sends, and what each changes in the cache.

use vstd::prelude::*;

use crate::cache::{Cache, CachePart, IdMap};
use crate::channel::{
    CategoryChannel, Channel, ChannelType, DmChannel, NewsChannel, StoreChannel, TextChannel, same_channel,
    spec_channel_guild, spec_channel_id, spec_channel_type,
};
use crate::emoji::{CustomEmoji, Emoji};
use crate::guild::{Guild, GuildInfo, GuildPart, PresenceUpdate, Role, UnavailableGuild, VoiceState, guild_same_but};
use crate::ids::{ApplicationId, ChannelId, GuildId, Id, MessageId, RoleId, UserId};
use crate::message::{
    Message, MessageUpdate, add_reaction, message_after, reactions_after_add, reactions_after_remove,
    reactions_without, remove_reaction, retain_other_reactions,
};
use crate::model::{GuildMember, User};
use crate::cache::{cache_same_but, insert_all};

verus! {

/// A map after a change to the value under `k` alone: the same keys, all other values as
/// they were.
pub open spec fn changed_at<V>(a: Map<u64, V>, b: Map<u64, V>, k: u64) -> bool {
    &&& b.dom() =~= a.dom()
    &&& forall|j: u64| j != k && #[trigger] a.contains_key(j) ==> b[j] == a[j]
}

/// Whether the bot's own user is the one with this id.
pub open spec fn is_me(me: Option<User>, id: UserId) -> bool {
    me matches Some(u) && u.id == id
}

fn own_user(cache: &Cache, id: UserId) -> (b: bool)
    ensures
        b == is_me(cache.user, id),
{
    match &cache.user {
        Some(u) => u.id.0 == id.0,
        None => false,
    }
}

/// The id of the last message of a channel once message `id` is gone.
pub open spec fn cleared(last: Option<MessageId>, id: MessageId) -> Option<MessageId> {
    if last == Some(id) { None } else { last }
}

fn clear_last(last: Option<MessageId>, id: MessageId) -> (r: Option<MessageId>)
    ensures
        r == cleared(last, id),
{
    match last {
        Some(l) => if l.0 == id.0 { None } else { Some(l) },
        None => None,
    }
}

/// Sent when a user reacts to a message.
#[derive(Debug)]
pub struct ReactionAdd {
    /// the id of the user
    pub user_id: UserId,
    /// the id of the channel
    pub channel_id: ChannelId,
    /// the id of the message
    pub message_id: MessageId,
    /// the id of the guild
    pub guild_id: Option<GuildId>,
    /// the member who reacted if this happened in a guild
    pub member: Option<GuildMember>,
    /// the emoji used to react
    pub emoji: Emoji,
}

/// Sent when a user removes a reaction from a message.
#[derive(Debug)]
pub struct ReactionRemove {
    /// the id of the user
    pub user_id: UserId,
    /// the id of the channel
    pub channel_id: ChannelId,
    /// the id of the message
    pub message_id: MessageId,
    /// the id of the guild
    pub guild_id: Option<GuildId>,
    /// the emoji used to react
    pub emoji: Emoji,
}

/// Whether a reaction was added or removed.
#[derive(Debug, Clone, Copy, PartialEq, Eq, Structural)]
pub enum ReactionType {
    Add,
    Remove,
}

/// A reaction that was added or removed.
#[derive(Debug)]
pub struct ReactionUpdate {
    /// whether this reaction was added or removed
    pub kind: ReactionType,
    /// the id of the user
    pub user_id: UserId,
    /// the id of the channel
    pub channel_id: ChannelId,
    /// the id of the message
    pub message_id: MessageId,
    /// the id of the guild
    pub guild_id: Option<GuildId>,
    /// the emoji used to react
    pub emoji: Emoji,
}

impl ReactionUpdate {
    /// The update for an added reaction.
    pub fn from_add(add: ReactionAdd) -> (u: Self)
        ensures
            u.kind == ReactionType::Add,
            u.user_id == add.user_id,
            u.channel_id == add.channel_id,
            u.message_id == add.message_id,
            u.guild_id == add.guild_id,
            u.emoji == add.emoji,
    {
        ReactionUpdate {
            kind: ReactionType::Add,
            user_id: add.user_id,
            channel_id: add.channel_id,
            message_id: add.message_id,
            guild_id: add.guild_id,
            emoji: add.emoji,
        }
    }

    /// The update for a removed reaction.
    pub fn from_remove(remove: ReactionRemove) -> (u: Self)
        ensures
            u.kind == ReactionType::Remove,
            u.user_id == remove.user_id,
            u.channel_id == remove.channel_id,
            u.message_id == remove.message_id,
            u.guild_id == remove.guild_id,
            u.emoji == remove.emoji,
    {
        ReactionUpdate {
            kind: ReactionType::Remove,
            user_id: remove.user_id,
            channel_id: remove.channel_id,
            message_id: remove.message_id,
            guild_id: remove.guild_id,
            emoji: remove.emoji,
        }
    }
}


/// Message `id`, if known, has the reactions `rs(old reactions)`; nothing else changed.
pub open spec fn reactions_changed(a: Cache, b: Cache, id: MessageId, rs: spec_fn(Seq<crate::message::Reaction>) -> Seq<crate::message::Reaction>) -> bool {
    &&& cache_same_but(a, b, set![CachePart::Messages])
    &&& changed_at(a.messages@, b.messages@, id.0)
    &&& a.messages@.contains_key(id.0) ==> {
        let m = a.messages@[id.0];
        let n = b.messages@[id.0];
        &&& n.reactions@ == rs(m.reactions@)
        &&& n == (Message { reactions: n.reactions, ..m })
    }
}

impl ReactionAdd {
    /// What adding this reaction does to the cache: the message's count of the emoji goes up.
    pub open spec fn applied(self, a: Cache, b: Cache) -> bool {
        reactions_changed(a, b, self.message_id,
            |rs: Seq<crate::message::Reaction>| reactions_after_add(rs, self.emoji, is_me(a.user, self.user_id)))
    }

    /// Counts the reaction on the cached message.
    pub fn update(self, cache: &mut Cache)
        ensures
            self.applied(*old(cache), *final(cache)),
    {
        let me = own_user(cache, self.user_id);
        let ghost a = *cache;
        if let Some(message) = cache.messages.get_mut(self.message_id) {
            add_reaction(&mut message.reactions, self.emoji, me);
        }
        assert(cache_same_but(a, *cache, set![CachePart::Messages]));
    }
}

impl ReactionRemove {
    /// What taking back this reaction does to the cache: the message's count of the emoji goes
    /// down.
    pub open spec fn applied(self, a: Cache, b: Cache) -> bool {
        reactions_changed(a, b, self.message_id,
            |rs: Seq<crate::message::Reaction>| reactions_after_remove(rs, self.emoji, is_me(a.user, self.user_id)))
    }

    /// Takes the reaction back on the cached message.
    pub fn update(self, cache: &mut Cache)
        ensures
            self.applied(*old(cache), *final(cache)),
    {
        let me = own_user(cache, self.user_id);
        let ghost a = *cache;
        if let Some(message) = cache.messages.get_mut(self.message_id) {
            remove_reaction(&mut message.reactions, &self.emoji, me);
        }
        assert(cache_same_but(a, *cache, set![CachePart::Messages]));
    }
}

/// Sent when a user explicitly removes all reactions from a message.
#[derive(Debug, Clone, Copy)]
pub struct ReactionRemoveAll {
    /// the id of the channel
    pub channel_id: ChannelId,
    /// the id of the message
    pub message_id: MessageId,
    /// the id of the guild
    pub guild_id: Option<GuildId>,
}

impl ReactionRemoveAll {
    /// What this does to the cache: the message has no reactions left.
    pub open spec fn applied(self, a: Cache, b: Cache) -> bool {
        reactions_changed(a, b, self.message_id, |rs: Seq<crate::message::Reaction>| Seq::<crate::message::Reaction>::empty())
    }

    /// Clears the reactions of the cached message.
    pub fn update(self, cache: &mut Cache)
        ensures
            self.applied(*old(cache), *final(cache)),
    {
        let ghost a = *cache;
        if let Some(message) = cache.messages.get_mut(self.message_id) {
            message.reactions.clear();
        }
        assert(cache_same_but(a, *cache, set![CachePart::Messages]));
    }
}

/// Sent when a bot removes all instances of a given emoji from the reactions of a message.
#[derive(Debug)]
pub struct ReactionRemoveEmoji {
    /// the id of the channel
    pub channel_id: ChannelId,
    /// the id of the message
    pub message_id: MessageId,
    /// the id of the guild
    pub guild_id: Option<GuildId>,
    /// the emoji that was removed
    pub emoji: Emoji,
}

impl ReactionRemoveEmoji {
    /// What this does to the cache: the message keeps its reactions of other emoji only.
    pub open spec fn applied(self, a: Cache, b: Cache) -> bool {
        reactions_changed(a, b, self.message_id, |rs: Seq<crate::message::Reaction>| reactions_without(rs, self.emoji))
    }

    /// Drops the emoji from the reactions of the cached message.
    pub fn update(self, cache: &mut Cache)
        ensures
            self.applied(*old(cache), *final(cache)),
    {
        let ghost a = *cache;
        if let Some(message) = cache.messages.get_mut(self.message_id) {
            retain_other_reactions(&mut message.reactions, &self.emoji);
        }
        assert(cache_same_but(a, *cache, set![CachePart::Messages]));
    }
}

// Connection events

/// Sent once the gateway has accepted the bot: the user it is and the guilds it is in, which
/// are not available yet.
#[derive(Debug)]
pub struct Ready {
    /// gateway version
    pub v: u8,
    /// information about the user including email
    pub user: User,
    /// the guilds the user is in
    pub guilds: Vec<UnavailableGuild>,
    /// used for resuming connections
    pub session_id: String,
    /// the shard information associated with this session, if sent when identifying
    pub shard: Option<(u64, u64)>,
}

impl Ready {
    /// What `Ready` does to the cache: the bot's user is known, and its guilds are noted as
    /// unavailable.
    pub open spec fn applied(self, a: Cache, b: Cache) -> bool {
        &&& cache_same_but(a, b, set![CachePart::User, CachePart::UnavailableGuilds])
        &&& b.user == Some(self.user)
        &&& b.unavailable_guilds@ == insert_all(a.unavailable_guilds@, self.guilds@)
    }

    /// Records the bot's user and its guilds.
    pub fn update(self, cache: &mut Cache)
        ensures
            self.applied(*old(cache), *final(cache)),
    {
        cache.user = Some(self.user);
        cache.unavailable_guilds.extend(self.guilds);
    }
}

/// Sent when a session was resumed.
#[derive(Debug, Clone, Copy)]
pub struct Resumed;

/// Sent when the bot's own user changes.
#[derive(Debug)]
pub struct UserUpdate {
    pub user: User,
}

impl UserUpdate {
    /// What this does to the cache: the bot's user is the new one.
    pub open spec fn applied(self, a: Cache, b: Cache) -> bool {
        &&& cache_same_but(a, b, set![CachePart::User])
        &&& b.user == Some(self.user)
    }

    /// Records the bot's new user.
    pub fn update(self, cache: &mut Cache)
        ensures
            self.applied(*old(cache), *final(cache)),
    {
        cache.user = Some(self.user);
    }
}

// Message events

/// Sent when a message is created.
#[derive(Debug)]
pub struct MessageCreate {
    pub message: Message,
}

/// The cache's text, DM and news channels after channel `cid` of kind `kind` got `f` done to it
/// (if it is cached); everything else as it was.
pub open spec fn typed_channel_changed(
    a: Cache,
    b: Cache,
    cid: u64,
    text: spec_fn(crate::channel::TextChannel) -> crate::channel::TextChannel,
    dm: spec_fn(crate::channel::DmChannel) -> crate::channel::DmChannel,
    news: spec_fn(crate::channel::NewsChannel) -> crate::channel::NewsChannel,
) -> bool {
    let kind = if a.channel_types@.contains_key(cid) { Some(a.channel_types@[cid]) } else { None };
    &&& (kind == Some(ChannelType::GuildText) && a.channels@.contains_key(cid))
        ==> b.channels@ == a.channels@.insert(cid, text(a.channels@[cid]))
    &&& !(kind == Some(ChannelType::GuildText) && a.channels@.contains_key(cid)) ==> b.channels@ == a.channels@
    &&& (kind == Some(ChannelType::Dm) && a.dms.1@.contains_key(cid))
        ==> b.dms.1@ == a.dms.1@.insert(cid, dm(a.dms.1@[cid]))
    &&& !(kind == Some(ChannelType::Dm) && a.dms.1@.contains_key(cid)) ==> b.dms.1@ == a.dms.1@
    &&& b.dms.0@ == a.dms.0@
    &&& (kind == Some(ChannelType::GuildNews) && a.news@.contains_key(cid))
        ==> b.news@ == a.news@.insert(cid, news(a.news@[cid]))
    &&& !(kind == Some(ChannelType::GuildNews) && a.news@.contains_key(cid)) ==> b.news@ == a.news@
}

impl MessageCreate {
    /// What a new message does to the cache: it is cached, and it is its channel's last message.
    pub open spec fn applied(self, a: Cache, b: Cache) -> bool {
        let id = self.message.id;
        &&& cache_same_but(a, b, set![CachePart::Channels, CachePart::Dms, CachePart::News, CachePart::Messages])
        &&& typed_channel_changed(a, b, self.message.channel_id.0,
            |t: crate::channel::TextChannel| crate::channel::TextChannel { last_message_id: Some(id), ..t },
            |d: crate::channel::DmChannel| crate::channel::DmChannel { last_message_id: Some(id), ..d },
            |n: crate::channel::NewsChannel| crate::channel::NewsChannel { last_message_id: Some(id), ..n })
        &&& b.messages@ == a.messages@.insert(id.0, self.message)
    }

    /// Caches the message and notes it as its channel's last.
    pub fn update(self, cache: &mut Cache)
        ensures
            self.applied(*old(cache), *final(cache)),
    {
        let cid = self.message.channel_id;
        let id = self.message.id;
        let kind = match cache.channel_types.get(&cid.0) {
            Some(k) => Some(*k),
            None => None,
        };
        match kind {
            Some(ChannelType::GuildText) => {
                if let Some(channel) = cache.channels.get_mut(cid) {
                    channel.last_message_id = Some(id);
                }
            },
            Some(ChannelType::Dm) => {
                if let Some(dm) = cache.dms.1.get_mut(cid) {
                    dm.last_message_id = Some(id);
                }
            },
            Some(ChannelType::GuildNews) => {
                if let Some(news) = cache.news.get_mut(cid) {
                    news.last_message_id = Some(id);
                }
            },
            _ => {},
        }
        cache.messages.insert(self.message);
    }
}

impl MessageUpdate {
    /// What an edit does to the cache: a cached message takes the edit; an unknown one is
    /// cached if the edit spells it out whole.
    pub open spec fn applied(self, a: Cache, b: Cache) -> bool {
        let id = self.id.0;
        &&& cache_same_but(a, b, set![CachePart::Messages])
        &&& if a.messages@.contains_key(id) {
            b.messages@ == a.messages@.insert(id, message_after(a.messages@[id], self))
        } else if crate::message::spells_message(self) {
            &&& b.messages@.dom() =~= a.messages@.dom().insert(id)
            &&& forall|k: u64| k != id && #[trigger] a.messages@.contains_key(k) ==> b.messages@[k] == a.messages@[k]
            &&& crate::message::message_of_update(b.messages@[id], self)
        } else {
            b.messages@ == a.messages@
        }
    }

    /// Applies the edit to the cache.
    pub fn update(self, cache: &mut Cache)
        ensures
            self.applied(*old(cache), *final(cache)),
    {
        let ghost u = self;
        match cache.messages.get_mut(self.id) {
            Some(message) => {
                self.apply(message);
            },
            None => {
                if let Some(message) = self.into_message() {
                    cache.messages.insert(message);
                }
            },
        }
    }
}

/// Sent when a message is deleted.
#[derive(Debug, Clone, Copy)]
pub struct MessageDelete {
    /// the id of the message
    pub id: MessageId,
    /// the id of the channel
    pub channel_id: ChannelId,
    /// the id of the guild
    pub guild_id: Option<GuildId>,
}

/// A guild channel once message `id` is gone: text, DM and news channels forget it as their
/// last message.
pub open spec fn channel_without_message(c: Channel, id: MessageId) -> Channel {
    match c {
        Channel::Text(t) => Channel::Text(crate::channel::TextChannel { last_message_id: cleared(t.last_message_id, id), ..t }),
        Channel::Dm(d) => Channel::Dm(crate::channel::DmChannel { last_message_id: cleared(d.last_message_id, id), ..d }),
        Channel::News(n) => Channel::News(crate::channel::NewsChannel { last_message_id: cleared(n.last_message_id, id), ..n }),
        _ => c,
    }
}

impl MessageDelete {
    /// What a deleted message does to the cache: it is forgotten, and no channel keeps it as
    /// its last message.
    pub open spec fn applied(self, a: Cache, b: Cache) -> bool {
        let id = self.id;
        let cid = self.channel_id.0;
        &&& cache_same_but(a, b, set![CachePart::Channels, CachePart::Dms, CachePart::News, CachePart::Messages, CachePart::Guilds])
        &&& b.messages@ == a.messages@.remove(id.0)
        &&& typed_channel_changed(a, b, cid,
            |t: crate::channel::TextChannel| crate::channel::TextChannel { last_message_id: cleared(t.last_message_id, id), ..t },
            |d: crate::channel::DmChannel| crate::channel::DmChannel { last_message_id: cleared(d.last_message_id, id), ..d },
            |n: crate::channel::NewsChannel| crate::channel::NewsChannel { last_message_id: cleared(n.last_message_id, id), ..n })
        &&& match self.guild_id {
            Some(g) => {
                &&& changed_at(a.guilds@, b.guilds@, g.0)
                &&& a.guilds@.contains_key(g.0) ==> {
                    let before = a.guilds@[g.0];
                    let after = b.guilds@[g.0];
                    &&& guild_same_but(before, after, set![GuildPart::Channels])
                    &&& if before.channels@.contains_key(cid) {
                        after.channels@ == before.channels@.insert(cid, channel_without_message(before.channels@[cid], id))
                    } else {
                        after.channels@ == before.channels@
                    }
                }
            },
            None => b.guilds@ == a.guilds@,
        }
    }

    /// Forgets the message.
    pub fn update(self, cache: &mut Cache)
        ensures
            self.applied(*old(cache), *final(cache)),
    {
        let ghost a = *cache;
        let id = self.id;
        let cid = self.channel_id;
        cache.messages.remove(id);
        let kind = match cache.channel_types.get(&cid.0) {
            Some(k) => Some(*k),
            None => None,
        };
        match kind {
            Some(ChannelType::GuildText) => {
                if let Some(channel) = cache.channels.get_mut(cid) {
                    channel.last_message_id = clear_last(channel.last_message_id, id);
                }
            },
            Some(ChannelType::Dm) => {
                if let Some(dm) = cache.dms.1.get_mut(cid) {
                    dm.last_message_id = clear_last(dm.last_message_id, id);
                }
            },
            Some(ChannelType::GuildNews) => {
                if let Some(news) = cache.news.get_mut(cid) {
                    news.last_message_id = clear_last(news.last_message_id, id);
                }
            },
            _ => {},
        }
        if let Some(g) = self.guild_id {
            if let Some(guild) = cache.guilds.get_mut(g) {
                match guild.channels.get_mut(cid) {
                    Some(Channel::Text(text)) => {
                        text.last_message_id = clear_last(text.last_message_id, id);
                    },
                    Some(Channel::Dm(dm)) => {
                        dm.last_message_id = clear_last(dm.last_message_id, id);
                    },
                    Some(Channel::News(news)) => {
                        news.last_message_id = clear_last(news.last_message_id, id);
                    },
                    _ => {},
                }
            }
        }
    }
}

/// Sent when several messages are deleted at once.
#[derive(Debug)]
pub struct MessageDeleteBulk {
    /// the ids of the messages
    pub ids: Vec<MessageId>,
    /// the id of the channel
    pub channel_id: ChannelId,
    /// the id of the guild
    pub guild_id: Option<GuildId>,
}

impl MessageDeleteBulk {
    /// What this does to the cache: the same as deleting each message in turn.
    pub open spec fn applied(self, a: Cache, b: Cache) -> bool {
        exists|steps: Seq<Cache>| {
            &&& steps.len() == self.ids@.len() + 1
            &&& steps[0] == a
            &&& steps.last() == b
            &&& forall|i: int| 0 <= i < self.ids@.len() ==>
                (MessageDelete { id: self.ids@[i], channel_id: self.channel_id, guild_id: self.guild_id }).applied(
                    #[trigger] steps[i], steps[i + 1])
        }
    }

    /// Forgets each message in turn.
    pub fn update(self, cache: &mut Cache)
        ensures
            self.applied(*old(cache), *final(cache)),
    {
        let ghost mut steps: Seq<Cache> = seq![*cache];
        let n = self.ids.len();
        for k in 0..n
            invariant
                n == self.ids@.len(),
                steps.len() == k + 1,
                steps[0] == *old(cache),
                steps.last() == *cache,
                forall|i: int| 0 <= i < k ==>
                    (MessageDelete { id: self.ids@[i], channel_id: self.channel_id, guild_id: self.guild_id }).applied(
                        #[trigger] steps[i], steps[i + 1]),
        {
            let delete = MessageDelete { id: self.ids[k], channel_id: self.channel_id, guild_id: self.guild_id };
            delete.update(cache);
            proof { steps = steps.push(*cache); }
        }
        assert(self.applied(*old(cache), *cache)) by {
            assert(steps.len() == self.ids@.len() + 1);
        }
    }
}

// Guild events

/// Guild `g`, if cached, changed in `part` alone, as `ok` says; the other guilds and the rest
/// of the cache as they were, but for `parts`.
pub open spec fn guild_changed(a: Cache, b: Cache, g: GuildId, parts: Set<GuildPart>, ok: spec_fn(Guild, Guild) -> bool) -> bool {
    &&& changed_at(a.guilds@, b.guilds@, g.0)
    &&& a.guilds@.contains_key(g.0) ==> {
        &&& guild_same_but(a.guilds@[g.0], b.guilds@[g.0], parts)
        &&& ok(a.guilds@[g.0], b.guilds@[g.0])
    }
}

/// Sent when a guild role is created.
#[derive(Debug)]
pub struct GuildRoleCreate {
    /// the id of the guild
    pub guild_id: GuildId,
    /// the role created
    pub role: Role,
}

impl GuildRoleCreate {
    /// What this does to the cache: the guild has the role.
    pub open spec fn applied(self, a: Cache, b: Cache) -> bool {
        &&& cache_same_but(a, b, set![CachePart::Guilds])
        &&& guild_changed(a, b, self.guild_id, set![GuildPart::Roles],
            |x: Guild, y: Guild| y.roles@ == x.roles@.insert(self.role.id.0, self.role))
    }

    /// Adds the role to the cached guild.
    pub fn update(self, cache: &mut Cache)
        ensures
            self.applied(*old(cache), *final(cache)),
    {
        if let Some(guild) = cache.guilds.get_mut(self.guild_id) {
            guild.roles.insert(self.role);
        }
    }
}

/// Sent when a guild role is updated.
#[derive(Debug)]
pub struct GuildRoleUpdate {
    /// the id of the guild
    pub guild_id: GuildId,
    /// the role updated
    pub role: Role,
}

impl GuildRoleUpdate {
    /// What this does to the cache: the guild has the new role in place of the old one.
    pub open spec fn applied(self, a: Cache, b: Cache) -> bool {
        &&& cache_same_but(a, b, set![CachePart::Guilds])
        &&& guild_changed(a, b, self.guild_id, set![GuildPart::Roles],
            |x: Guild, y: Guild| y.roles@ == x.roles@.insert(self.role.id.0, self.role))
    }

    /// Replaces the role in the cached guild.
    pub fn update(self, cache: &mut Cache)
        ensures
            self.applied(*old(cache), *final(cache)),
    {
        if let Some(guild) = cache.guilds.get_mut(self.guild_id) {
            guild.roles.insert(self.role);
        }
    }
}

/// Sent when a guild role is deleted.
#[derive(Debug, Clone, Copy)]
pub struct GuildRoleDelete {
    /// the id of the guild
    pub guild_id: GuildId,
    /// the role deleted
    pub role_id: RoleId,
}

impl GuildRoleDelete {
    /// What this does to the cache: the guild no longer has the role.
    pub open spec fn applied(self, a: Cache, b: Cache) -> bool {
        &&& cache_same_but(a, b, set![CachePart::Guilds])
        &&& guild_changed(a, b, self.guild_id, set![GuildPart::Roles],
            |x: Guild, y: Guild| y.roles@ == x.roles@.remove(self.role_id.0))
    }

    /// Removes the role from the cached guild.
    pub fn update(self, cache: &mut Cache)
        ensures
            self.applied(*old(cache), *final(cache)),
    {
        if let Some(guild) = cache.guilds.get_mut(self.guild_id) {
            guild.roles.remove(self.role_id);
        }
    }
}

impl PresenceUpdate {
    /// What this does to the cache: the guild keeps this as the user's presence.
    pub open spec fn applied(self, a: Cache, b: Cache) -> bool {
        &&& cache_same_but(a, b, set![CachePart::Guilds])
        &&& guild_changed(a, b, self.guild_id, set![GuildPart::Presences],
            |x: Guild, y: Guild| y.presences@ == x.presences@.insert(self.user.id.0, self))
    }

    /// Records the presence in the cached guild.
    pub fn update(self, cache: &mut Cache)
        ensures
            self.applied(*old(cache), *final(cache)),
    {
        let ghost p = self;
        if let Some(guild) = cache.guilds.get_mut(self.guild_id) {
            guild.presences.insert(self);
        }
    }
}

/// Sent when a guild's emoji change.
#[derive(Debug)]
pub struct EmojiUpdate {
    /// id of the guild
    pub guild_id: GuildId,
    /// the guild's emoji
    pub emojis: IdMap<CustomEmoji>,
}

impl EmojiUpdate {
    /// What this does to the cache: the guild has each of these emoji, in place of any with
    /// the same id (when the update keeps each emoji under its own id).
    pub open spec fn applied(self, a: Cache, b: Cache) -> bool {
        &&& cache_same_but(a, b, set![CachePart::Guilds])
        &&& guild_changed(a, b, self.guild_id, set![GuildPart::Emojis],
            |x: Guild, y: Guild| crate::cache::keyed_by_id(self.emojis@) ==> y.emojis@ == x.emojis@.union_prefer_right(self.emojis@))
    }

    /// Puts the emoji into the cached guild.
    pub fn update(self, cache: &mut Cache)
        ensures
            self.applied(*old(cache), *final(cache)),
    {
        if let Some(guild) = cache.guilds.get_mut(self.guild_id) {
            guild.emojis.merge(self.emojis);
        }
    }
}

/// Sent when a guild is updated.
#[derive(Debug)]
pub struct GuildUpdate {
    pub id: GuildId,
    /// whether the bot owns the guild, if said
    pub owner: Option<bool>,
    pub info: GuildInfo,
    pub roles: IdMap<Role>,
    pub emojis: IdMap<CustomEmoji>,
}

impl GuildUpdate {
    /// What this does to the cache: the guild takes the new description, roles and emoji,
    /// and keeps its owner flag unless a new one is given; its channels, members, presences
    /// and voice states stay.
    pub open spec fn applied(self, a: Cache, b: Cache) -> bool {
        let g = self.id.0;
        &&& cache_same_but(a, b, set![CachePart::Guilds])
        &&& changed_at(a.guilds@, b.guilds@, g)
        &&& a.guilds@.contains_key(g) ==> {
            let x = a.guilds@[g];
            let y = b.guilds@[g];
            &&& y.id == self.id
            &&& y.owner == match self.owner { Some(o) => o, None => x.owner }
            &&& y.info == self.info
            &&& y.roles@ == self.roles@
            &&& y.emojis@ == self.emojis@
            &&& y.channels@ == x.channels@
            &&& y.members@ == x.members@
            &&& y.presences@ == x.presences@
            &&& y.voice_states@ == x.voice_states@
        }
    }

    /// Updates the cached guild.
    pub fn update(self, cache: &mut Cache)
        ensures
            self.applied(*old(cache), *final(cache)),
    {
        if let Some(guild) = cache.guilds.get_mut(self.id) {
            guild.id = self.id;
            if let Some(o) = self.owner {
                guild.owner = o;
            }
            guild.info = self.info;
            guild.roles = self.roles;
            guild.emojis = self.emojis;
        }
    }
}

/// The members map after member `m` of guild `g` was replaced by `f(m)` where the user has a
/// map of guilds holding `g`; all else as it was.
pub open spec fn member_changed(
    a: Map<u64, std::collections::HashMap<u64, GuildMember>>,
    b: Map<u64, std::collections::HashMap<u64, GuildMember>>,
    user: u64,
    g: u64,
    ok: spec_fn(GuildMember, GuildMember) -> bool,
) -> bool {
    &&& changed_at(a, b, user)
    &&& a.contains_key(user) ==> {
        &&& changed_at(a[user]@, b[user]@, g)
        &&& a[user]@.contains_key(g) ==> ok(a[user]@[g], b[user]@[g])
    }
}

fn member_get_mut<'a>(
    members: &'a mut std::collections::HashMap<u64, std::collections::HashMap<u64, GuildMember>>,
    user: u64,
    g: u64,
) -> (r: Option<&'a mut GuildMember>)
    ensures
        match r {
            Some(m) => {
                &&& old(members)@.contains_key(user) && old(members)@[user]@.contains_key(g)
                &&& *m == old(members)@[user]@[g]
                &&& changed_at(old(members)@, final(members)@, user)
                &&& final(members)@[user]@ == old(members)@[user]@.insert(g, *final(m))
            },
            None => {
                &&& !(old(members)@.contains_key(user) && old(members)@[user]@.contains_key(g))
                &&& changed_at(old(members)@, final(members)@, user)
                &&& old(members)@.contains_key(user) ==> final(members)@[user]@ == old(members)@[user]@
            },
        },
{
    match crate::cache::map_get_mut(members, user) {
        Some(map) => crate::cache::map_get_mut(map, g),
        None => None,
    }
}

/// Sent when a new user joins a guild.
#[derive(Debug)]
pub struct GuildMemberAdd {
    /// id of the guild
    pub guild_id: GuildId,
    pub member: GuildMember,
}

impl GuildMemberAdd {
    /// What this does to the cache: where the user already has guild memberships cached,
    /// this one joins them; the guild, if cached, has the member.
    pub open spec fn applied(self, a: Cache, b: Cache) -> bool {
        let u = self.member.user.id.0;
        let g = self.guild_id.0;
        &&& cache_same_but(a, b, set![CachePart::Members, CachePart::Guilds])
        &&& changed_at(a.members@, b.members@, u)
        &&& a.members@.contains_key(u) ==> {
            &&& b.members@[u]@.dom() =~= a.members@[u]@.dom().insert(g)
            &&& forall|k: u64| k != g && #[trigger] a.members@[u]@.contains_key(k) ==> b.members@[u]@[k] == a.members@[u]@[k]
            &&& crate::model::same_member(b.members@[u]@[g], self.member)
        }
        &&& guild_changed(a, b, self.guild_id, set![GuildPart::Members], |x: Guild, y: Guild| {
            &&& y.members@.dom() =~= x.members@.dom().insert(u)
            &&& forall|k: u64| k != u && #[trigger] x.members@.contains_key(k) ==> y.members@[k] == x.members@[k]
            &&& crate::model::same_member(y.members@[u], self.member)
        })
    }

    /// Records the membership.
    pub fn update(self, cache: &mut Cache)
        ensures
            self.applied(*old(cache), *final(cache)),
    {
        let u = self.member.user.id.0;
        let g = self.guild_id.0;
        if let Some(map) = crate::cache::map_get_mut(&mut cache.members, u) {
            let _ = map.insert(g, self.member.clone());
        }
        if let Some(guild) = cache.guilds.get_mut(self.guild_id) {
            guild.members.insert(self.member.clone());
        }
    }
}

/// Sent when a user is removed from a guild (leave/kick/ban).
#[derive(Debug)]
pub struct GuildMemberRemove {
    /// the id of the guild
    pub guild_id: GuildId,
    /// the user who was removed
    pub user: User,
}

impl GuildMemberRemove {
    /// What this does to the cache: the user's membership of the guild is forgotten.
    pub open spec fn applied(self, a: Cache, b: Cache) -> bool {
        let u = self.user.id.0;
        let g = self.guild_id.0;
        &&& cache_same_but(a, b, set![CachePart::Members, CachePart::Guilds])
        &&& changed_at(a.members@, b.members@, u)
        &&& a.members@.contains_key(u) ==> b.members@[u]@ == a.members@[u]@.remove(g)
        &&& guild_changed(a, b, self.guild_id, set![GuildPart::Members], |x: Guild, y: Guild| y.members@ == x.members@.remove(u))
    }

    /// Forgets the membership.
    pub fn update(self, cache: &mut Cache)
        ensures
            self.applied(*old(cache), *final(cache)),
    {
        let u = self.user.id.0;
        let g = self.guild_id.0;
        if let Some(map) = crate::cache::map_get_mut(&mut cache.members, u) {
            let _ = map.remove(&g);
        }
        if let Some(guild) = cache.guilds.get_mut(self.guild_id) {
            guild.members.remove(self.user.id);
        }
    }
}

/// Sent when a guild member is updated.
#[derive(Debug)]
pub struct GuildMemberUpdate {
    /// the id of the guild
    pub guild_id: GuildId,
    /// user role ids
    pub roles: Vec<RoleId>,
    /// the user
    pub user: User,
    /// nickname of the user in the guild
    pub nick: Option<String>,
    /// when the user joined the guild, in milliseconds since the Unix epoch
    pub joined_at: i64,
    /// when the user started boosting the guild, in milliseconds since the Unix epoch
    pub premium_since: Option<i64>,
}

/// Member `y` is member `x` with the user, nickname, roles and dates of an update.
pub open spec fn member_updated(x: GuildMember, y: GuildMember, u: GuildMemberUpdate) -> bool {
    &&& y.user == u.user
    &&& y.nick == u.nick
    &&& y.roles@ == u.roles@
    &&& y.joined_at == u.joined_at
    &&& y.premium_since == u.premium_since
    &&& y.deaf == x.deaf
    &&& y.mute == x.mute
}

impl GuildMemberUpdate {
    /// What this does to the cache: the member, where cached, takes the new user, nickname,
    /// roles and dates.
    pub open spec fn applied(self, a: Cache, b: Cache) -> bool {
        let u = self.user.id.0;
        let g = self.guild_id.0;
        &&& cache_same_but(a, b, set![CachePart::Members, CachePart::Guilds])
        &&& member_changed(a.members@, b.members@, u, g, |x: GuildMember, y: GuildMember| member_updated(x, y, self))
        &&& guild_changed(a, b, self.guild_id, set![GuildPart::Members], |x: Guild, y: Guild| {
            &&& changed_at(x.members@, y.members@, u)
            &&& x.members@.contains_key(u) ==> member_updated(x.members@[u], y.members@[u], self)
        })
    }

    /// Updates the cached member.
    pub fn update(self, cache: &mut Cache)
        ensures
            self.applied(*old(cache), *final(cache)),
    {
        let u = self.user.id.0;
        let g = self.guild_id.0;
        if let Some(member) = member_get_mut(&mut cache.members, u, g) {
            member.user = self.user.clone();
            member.nick = match &self.nick {
                Some(n) => Some(n.clone()),
                None => None,
            };
            member.roles = crate::model::copy_roles(&self.roles);
            member.joined_at = self.joined_at;
            member.premium_since = self.premium_since;
        }
        if let Some(guild) = cache.guilds.get_mut(self.guild_id) {
            if let Some(member) = guild.members.get_mut(self.user.id) {
                member.user = self.user;
                member.nick = self.nick;
                member.roles = self.roles;
                member.joined_at = self.joined_at;
                member.premium_since = self.premium_since;
            }
        }
    }
}

/// Sent when someone joins, leaves or moves between voice channels.
#[derive(Debug)]
pub struct VoiceStateUpdate {
    pub state: VoiceState,
}

impl VoiceStateUpdate {
    /// What this does to the cache: in a guild, the member's deafness and muting follow their
    /// own settings, and the guild keeps this voice state.
    pub open spec fn applied(self, a: Cache, b: Cache) -> bool {
        match self.state.guild_id {
            Some(g) => {
                let u = self.state.user_id.0;
                &&& cache_same_but(a, b, set![CachePart::Members, CachePart::Guilds])
                &&& member_changed(a.members@, b.members@, u, g.0, |x: GuildMember, y: GuildMember|
                    y == (GuildMember { deaf: self.state.self_deaf, mute: self.state.self_mute, ..x }))
                &&& guild_changed(a, b, g, set![GuildPart::VoiceStates],
                    |x: Guild, y: Guild| y.voice_states@ == x.voice_states@.insert(u, self.state))
            },
            None => cache_same_but(a, b, Set::empty()),
        }
    }

    /// Records the voice state.
    pub fn update(self, cache: &mut Cache)
        ensures
            self.applied(*old(cache), *final(cache)),
    {
        if let Some(g) = self.state.guild_id {
            if let Some(member) = member_get_mut(&mut cache.members, self.state.user_id.0, g.0) {
                member.deaf = self.state.self_deaf;
                member.mute = self.state.self_mute;
            }
            if let Some(guild) = cache.guilds.get_mut(g) {
                guild.voice_states.insert(self.state);
            }
        }
    }
}

/// Sent in answer to a request for a guild's members, in chunks.
#[derive(Debug)]
pub struct GuildMembersChunk {
    /// the id of the guild
    pub guild_id: GuildId,
    /// set of guild members
    pub members: IdMap<GuildMember>,
    /// the chunk index in the expected chunks for this response (0 <= chunk_index < chunk_count)
    pub chunk_index: u32,
    /// the total number of expected chunks for this response
    pub chunk_count: u32,
    /// if passing an invalid id to the request, it will be returned here
    pub not_found: Vec<UserId>,
    /// if passing true to the request, presences of the returned members will be here
    pub presences: IdMap<PresenceUpdate>,
    /// the nonce used in the request
    pub nonce: Option<String>,
}

/// The membership of user `u` in guild `k` after a chunk for guild `g` whose members `done`
/// were handled: a copy of the chunk's member where it was cached and handled, else as it was.
pub open spec fn chunk_cell(
    a: Map<u64, std::collections::HashMap<u64, GuildMember>>,
    b: Map<u64, std::collections::HashMap<u64, GuildMember>>,
    u: u64,
    k: u64,
    g: u64,
    chunk: Map<u64, GuildMember>,
    done: Set<u64>,
) -> bool {
    if k == g && done.contains(u) {
        crate::model::same_member(b[u]@[k], chunk[u])
    } else {
        b[u]@[k] == a[u]@[k]
    }
}

/// Every membership in `a` is as `chunk_cell` says in `b`, and the same ones are there.
pub open spec fn chunk_members(
    a: Map<u64, std::collections::HashMap<u64, GuildMember>>,
    b: Map<u64, std::collections::HashMap<u64, GuildMember>>,
    g: u64,
    chunk: Map<u64, GuildMember>,
    done: Set<u64>,
) -> bool {
    &&& b.dom() =~= a.dom()
    &&& forall|u: u64| #[trigger] a.contains_key(u) ==> b[u]@.dom() =~= a[u]@.dom()
    &&& forall|u: u64, k: u64| a.contains_key(u) && #[trigger] a[u]@.contains_key(k) ==> chunk_cell(a, b, u, k, g, chunk, done)
}

impl GuildMembersChunk {
    /// What this does to the cache: each cached membership in the guild of a member of the
    /// chunk is replaced by a copy of the chunk's; the guild, if cached, gets the members and
    /// presences put over its own (when the chunk keeps each under its own id).
    pub open spec fn applied(self, a: Cache, b: Cache) -> bool {
        let g = self.guild_id.0;
        &&& cache_same_but(a, b, set![CachePart::Members, CachePart::Guilds])
        &&& chunk_members(a.members@, b.members@, g, self.members@, self.members@.dom())
        &&& guild_changed(a, b, self.guild_id, set![GuildPart::Members, GuildPart::Presences], |x: Guild, y: Guild| {
            &&& crate::cache::keyed_by_id(self.members@) ==> y.members@ == x.members@.union_prefer_right(self.members@)
            &&& crate::cache::keyed_by_id(self.presences@) ==> y.presences@ == x.presences@.union_prefer_right(self.presences@)
        })
    }

    /// Updates the cached memberships (each member by the id the chunk keeps it under) and
    /// the guild.
    pub fn update(self, cache: &mut Cache)
        ensures
            self.applied(*old(cache), *final(cache)),
    {
        let g = self.guild_id.0;
        let ids = self.members.ids();
        let ghost a = *cache;
        for i in 0..ids.len()
            invariant
                ids@.to_set() == self.members@.dom(),
                ids@.no_duplicates(),
                cache_same_but(a, *cache, set![CachePart::Members]),
                chunk_members(a.members@, cache.members@, g, self.members@, ids@.take(i as int).to_set()),
        {
            let key = ids[i];
            assert(ids@.to_set().contains(key));
            let ghost before = *cache;
            let ghost done = ids@.take(i as int).to_set();
            assert(ids@.take(i + 1).to_set() =~= done.insert(key)) by {
                assert(ids@.take(i + 1) =~= ids@.take(i as int).push(key));
                ids@.take(i as int).lemma_push_to_set_commute(key);
            }
            assert(!done.contains(key)) by {
                if done.contains(key) {
                    let j = choose|j: int| 0 <= j < i && ids@.take(i as int)[j] == key;
                    assert(ids@[j] == ids@[i as int]);
                }
            }
            match self.members.get(crate::ids::UserId(key)) {
                Some(member) => {
                    if let Some(cached) = member_get_mut(&mut cache.members, key, g) {
                        *cached = member.clone();
                    }
                },
                None => {
                    proof { assert(false); }
                },
            }
            proof {
                assert forall|u: u64, k: u64| a.members@.contains_key(u) && #[trigger] a.members@[u]@.contains_key(k)
                    implies chunk_cell(a.members@, cache.members@, u, k, g, self.members@, ids@.take(i + 1).to_set()) by {
                    assert(chunk_cell(a.members@, before.members@, u, k, g, self.members@, done));
                    if u != key {
                        assert(cache.members@[u] == before.members@[u]);
                    }
                }
            }
        }
        proof {
            assert(ids@.take(ids@.len() as int) =~= ids@);
        }
        if let Some(guild) = cache.guilds.get_mut(self.guild_id) {
            guild.members.merge(self.members);
            guild.presences.merge(self.presences);
        }
    }
}

// Channel events

/// Sent when a channel is created.
#[derive(Debug)]
pub struct ChannelCreate {
    pub channel: Channel,
}

/// Sent when a channel is updated.
#[derive(Debug)]
pub struct ChannelUpdate {
    pub channel: Channel,
}

/// Sent when a channel is deleted.
#[derive(Debug)]
pub struct ChannelDelete {
    pub channel: Channel,
}

/// The guild map after channel `c` was put in its guild, if it has one and it is cached:
/// a copy of `c` under its id, if `fresh` whether or not it was there before, else only in
/// place of the channel already there.
pub open spec fn guild_channel_stored(a: Cache, b: Cache, c: Channel, fresh: bool) -> bool {
    let cid = spec_channel_id(c).0;
    match spec_channel_guild(c) {
        Some(g) => guild_changed(a, b, g, set![GuildPart::Channels], |x: Guild, y: Guild|
            if fresh || x.channels@.contains_key(cid) {
                &&& y.channels@.dom() =~= x.channels@.dom().insert(cid)
                &&& forall|k: u64| k != cid && #[trigger] x.channels@.contains_key(k) ==> y.channels@[k] == x.channels@[k]
                &&& same_channel(c, y.channels@[cid])
            } else {
                y.channels@ == x.channels@
            }),
        None => b.guilds@ == a.guilds@,
    }
}

/// A typed channel map after channel `c` was put into it: under its id, if `fresh` whether
/// or not it was there before, else only in place of the one already there.
pub open spec fn stored<T>(a: Map<u64, T>, b: Map<u64, T>, cid: u64, c: T, fresh: bool) -> bool {
    if fresh || a.contains_key(cid) {
        b == a.insert(cid, c)
    } else {
        b == a
    }
}

/// The cache's typed channel maps after channel `c` was put into the one of its kind.
pub open spec fn typed_stored(a: Cache, b: Cache, c: Channel, fresh: bool) -> bool {
    let cid = spec_channel_id(c).0;
    match c {
        Channel::Text(t) => cache_same_but(a, b, set![CachePart::Guilds, CachePart::ChannelTypes, CachePart::Channels])
            && stored(a.channels@, b.channels@, cid, t, fresh),
        Channel::Dm(d) => cache_same_but(a, b, set![CachePart::Guilds, CachePart::ChannelTypes, CachePart::Dms])
            && stored(a.dms.1@, b.dms.1@, cid, d, fresh)
            && (if fresh { b.dms.0@ == a.dms.0@.insert(d.recipient.id.0, d.id) } else { b.dms.0@ == a.dms.0@ }),
        Channel::Category(k) => cache_same_but(a, b, set![CachePart::Guilds, CachePart::ChannelTypes, CachePart::Categories])
            && stored(a.categories@, b.categories@, cid, k, fresh),
        Channel::News(n) => cache_same_but(a, b, set![CachePart::Guilds, CachePart::ChannelTypes, CachePart::News])
            && stored(a.news@, b.news@, cid, n, fresh),
        Channel::Store(st) => cache_same_but(a, b, set![CachePart::Guilds, CachePart::ChannelTypes, CachePart::Stores])
            && stored(a.stores@, b.stores@, cid, st, fresh),
        _ => cache_same_but(a, b, set![CachePart::Guilds, CachePart::ChannelTypes]),
    }
}

impl ChannelCreate {
    /// What a new channel does to the cache: its guild (if cached) and the map of its kind
    /// hold it, and its kind is noted; a DM channel is also noted as the one with its user.
    /// Voice channels are kept only in their guild.
    pub open spec fn applied(self, a: Cache, b: Cache) -> bool {
        let c = self.channel;
        &&& guild_channel_stored(a, b, c, true)
        &&& b.channel_types@ == a.channel_types@.insert(spec_channel_id(c).0, spec_channel_type(c))
        &&& typed_stored(a, b, c, true)
    }

    /// Caches the channel. Bots are never in group DMs, so none is created for them.
    pub fn update(self, cache: &mut Cache)
        requires
            !(self.channel is GroupDm),
        ensures
            self.applied(*old(cache), *final(cache)),
    {
        let channel = self.channel;
        let cid = channel.id();
        if let Some(g) = channel.guild_id() {
            if let Some(guild) = cache.guilds.get_mut(g) {
                guild.channels.insert(channel.clone());
            }
        }
        let _ = cache.channel_types.insert(cid.0, channel.channel_type());
        match channel {
            Channel::Text(text) => cache.channels.insert(text),
            Channel::Dm(dm) => {
                let _ = cache.dms.0.insert(dm.recipient.id.0, dm.id);
                cache.dms.1.insert(dm);
            },
            Channel::Voice(_) => {},
            Channel::GroupDm(_) => {},
            Channel::Category(category) => cache.categories.insert(category),
            Channel::News(news) => cache.news.insert(news),
            Channel::Store(store) => cache.stores.insert(store),
        }
    }
}

impl ChannelUpdate {
    /// What an updated channel does to the cache: it takes the place of the cached one in its
    /// guild and in the map of its kind, where there is one.
    pub open spec fn applied(self, a: Cache, b: Cache) -> bool {
        let c = self.channel;
        &&& guild_channel_stored(a, b, c, false)
        &&& b.channel_types@ == a.channel_types@
        &&& typed_stored(a, b, c, false)
    }

    /// Replaces the cached channel. Bots are never in group DMs, so none is updated for them.
    pub fn update(self, cache: &mut Cache)
        requires
            !(self.channel is GroupDm),
        ensures
            self.applied(*old(cache), *final(cache)),
    {
        let channel = self.channel;
        let cid = channel.id();
        if let Some(g) = channel.guild_id() {
            if let Some(guild) = cache.guilds.get_mut(g) {
                if let Some(old) = guild.channels.get_mut(cid) {
                    *old = channel.clone();
                }
            }
        }
        match channel {
            Channel::Text(channel) => {
                if let Some(text) = cache.channels.get_mut(cid) {
                    *text = channel;
                }
            },
            Channel::Dm(channel) => {
                if let Some(dm) = cache.dms.1.get_mut(cid) {
                    *dm = channel;
                }
            },
            Channel::Voice(_) => {},
            Channel::GroupDm(_) => {},
            Channel::Category(channel) => {
                if let Some(category) = cache.categories.get_mut(cid) {
                    *category = channel;
                }
            },
            Channel::News(channel) => {
                if let Some(news) = cache.news.get_mut(cid) {
                    *news = channel;
                }
            },
            Channel::Store(channel) => {
                if let Some(store) = cache.stores.get_mut(cid) {
                    *store = channel;
                }
            },
        }
    }
}

impl ChannelDelete {
    /// What a deleted channel does to the cache: its kind and the map of its kind forget it; a
    /// DM channel is also forgotten as the one with its user.
    pub open spec fn applied(self, a: Cache, b: Cache) -> bool {
        let c = self.channel;
        let cid = spec_channel_id(c).0;
        &&& b.channel_types@ == a.channel_types@.remove(cid)
        &&& match c {
            Channel::Text(_) => cache_same_but(a, b, set![CachePart::ChannelTypes, CachePart::Channels])
                && b.channels@ == a.channels@.remove(cid),
            Channel::Dm(d) => cache_same_but(a, b, set![CachePart::ChannelTypes, CachePart::Dms])
                && b.dms.0@ == a.dms.0@.remove(d.recipient.id.0) && b.dms.1@ == a.dms.1@.remove(cid),
            Channel::Category(_) => cache_same_but(a, b, set![CachePart::ChannelTypes, CachePart::Categories])
                && b.categories@ == a.categories@.remove(cid),
            Channel::News(_) => cache_same_but(a, b, set![CachePart::ChannelTypes, CachePart::News])
                && b.news@ == a.news@.remove(cid),
            Channel::Store(_) => cache_same_but(a, b, set![CachePart::ChannelTypes, CachePart::Stores])
                && b.stores@ == a.stores@.remove(cid),
            _ => cache_same_but(a, b, set![CachePart::ChannelTypes]),
        }
    }

    /// Forgets the channel.
    pub fn update(self, cache: &mut Cache)
        ensures
            self.applied(*old(cache), *final(cache)),
    {
        let cid = self.channel.id();
        let _ = cache.channel_types.remove(&cid.0);
        match self.channel {
            Channel::Text(_) => cache.channels.remove(cid),
            Channel::Dm(dm) => {
                let _ = cache.dms.0.remove(&dm.recipient.id.0);
                cache.dms.1.remove(cid);
            },
            Channel::Category(_) => cache.categories.remove(cid),
            Channel::News(_) => cache.news.remove(cid),
            Channel::Store(_) => cache.stores.remove(cid),
            Channel::Voice(_) => {},
            Channel::GroupDm(_) => {},
        }
    }
}

/// Sent when a message is pinned or unpinned in a channel.
#[derive(Debug, Clone, Copy)]
pub struct ChannelPinsUpdate {
    /// the id of the guild
    pub guild_id: Option<GuildId>,
    /// the id of the channel
    pub channel_id: ChannelId,
    /// the time at which the most recent pinned message was pinned, in milliseconds since the
    /// Unix epoch
    pub last_pin_timestamp: Option<i64>,
}

/// A guild channel with a new last pin time; only text and news channels keep one.
pub open spec fn channel_with_pin(c: Channel, t: Option<i64>) -> Channel {
    match c {
        Channel::Text(x) => Channel::Text(TextChannel { last_pin_timestamp: t, ..x }),
        Channel::News(x) => Channel::News(NewsChannel { last_pin_timestamp: t, ..x }),
        _ => c,
    }
}

impl ChannelPinsUpdate {
    /// What this does to the cache: the channel, where cached, has the new last pin time.
    pub open spec fn applied(self, a: Cache, b: Cache) -> bool {
        let cid = self.channel_id.0;
        let t = self.last_pin_timestamp;
        &&& cache_same_but(a, b, set![CachePart::Channels, CachePart::Dms, CachePart::News, CachePart::Guilds])
        &&& typed_channel_changed(a, b, cid,
            |x: TextChannel| TextChannel { last_pin_timestamp: t, ..x },
            |x: DmChannel| DmChannel { last_pin_timestamp: t, ..x },
            |x: NewsChannel| NewsChannel { last_pin_timestamp: t, ..x })
        &&& match self.guild_id {
            Some(g) => guild_changed(a, b, g, set![GuildPart::Channels], |x: Guild, y: Guild|
                if x.channels@.contains_key(cid) {
                    y.channels@ == x.channels@.insert(cid, channel_with_pin(x.channels@[cid], t))
                } else {
                    y.channels@ == x.channels@
                }),
            None => b.guilds@ == a.guilds@,
        }
    }

    /// Records the pin time.
    pub fn update(self, cache: &mut Cache)
        ensures
            self.applied(*old(cache), *final(cache)),
    {
        let cid = self.channel_id;
        let t = self.last_pin_timestamp;
        let kind = match cache.channel_types.get(&cid.0) {
            Some(k) => Some(*k),
            None => None,
        };
        match kind {
            Some(ChannelType::GuildText) => {
                if let Some(channel) = cache.channels.get_mut(cid) {
                    channel.last_pin_timestamp = t;
                }
            },
            Some(ChannelType::Dm) => {
                if let Some(channel) = cache.dms.1.get_mut(cid) {
                    channel.last_pin_timestamp = t;
                }
            },
            Some(ChannelType::GuildNews) => {
                if let Some(channel) = cache.news.get_mut(cid) {
                    channel.last_pin_timestamp = t;
                }
            },
            _ => {},
        }
        if let Some(g) = self.guild_id {
            if let Some(guild) = cache.guilds.get_mut(g) {
                match guild.channels.get_mut(cid) {
                    Some(Channel::Text(channel)) => channel.last_pin_timestamp = t,
                    Some(Channel::News(channel)) => channel.last_pin_timestamp = t,
                    _ => {},
                }
            }
        }
    }
}

// Guild creation and deletion

/// Sent when a guild becomes available to the bot: while connecting, when it is back after an
/// outage, and when the bot joins it.
#[derive(Debug)]
pub struct GuildCreate {
    pub guild: Guild,
}

/// A typed channel map after it got a copy of each channel of `chans` that `kind` picks, under
/// its id.
pub open spec fn gained_copies<T>(
    a: Map<u64, T>,
    b: Map<u64, T>,
    chans: Map<u64, Channel>,
    kind: spec_fn(Channel) -> bool,
    copy: spec_fn(Channel, T) -> bool,
) -> bool {
    &&& b.dom() =~= a.dom().union(chans.dom().filter(|k: u64| kind(chans[k])))
    &&& forall|k: u64| #[trigger] b.contains_key(k) ==>
        if chans.contains_key(k) && kind(chans[k]) { copy(chans[k], b[k]) } else { b[k] == a[k] }
}

/// The members map after each member of `ms` was noted as a member of guild `g`, by a copy.
pub open spec fn joined(
    a: Map<u64, std::collections::HashMap<u64, GuildMember>>,
    b: Map<u64, std::collections::HashMap<u64, GuildMember>>,
    g: u64,
    ms: Map<u64, GuildMember>,
) -> bool {
    &&& b.dom() =~= a.dom().union(ms.dom())
    &&& forall|u: u64| #[trigger] b.contains_key(u) ==>
        if ms.contains_key(u) {
            &&& b[u]@.dom() =~= (if a.contains_key(u) { a[u]@.dom() } else { Set::empty() }).insert(g)
            &&& forall|k: u64| k != g && a.contains_key(u) && #[trigger] a[u]@.contains_key(k) ==> b[u]@[k] == a[u]@[k]
            &&& crate::model::same_member(b[u]@[g], ms[u])
        } else {
            b[u] == a[u]
        }
}

/// Whether a channel is of each kind the cache keeps a map of.
pub open spec fn is_text(c: Channel) -> bool { c is Text }
pub open spec fn is_category(c: Channel) -> bool { c is Category }
pub open spec fn is_news(c: Channel) -> bool { c is News }
pub open spec fn is_store(c: Channel) -> bool { c is Store }

/// The cache's channel maps after the channels `chans` of a new guild came in: each one's kind
/// is noted, and a copy of each text, category, news and store channel is in the map of its
/// kind.
pub open spec fn channels_gained(a: Cache, b: Cache, chans: Map<u64, Channel>) -> bool {
    &&& b.channel_types@ == a.channel_types@.union_prefer_right(chans.map_values(|c: Channel| spec_channel_type(c)))
    &&& gained_copies(a.channels@, b.channels@, chans, |c: Channel| is_text(c),
        |c: Channel, t: TextChannel| same_channel(c, Channel::Text(t)))
    &&& gained_copies(a.categories@, b.categories@, chans, |c: Channel| is_category(c),
        |c: Channel, t: CategoryChannel| same_channel(c, Channel::Category(t)))
    &&& gained_copies(a.news@, b.news@, chans, |c: Channel| is_news(c),
        |c: Channel, t: NewsChannel| same_channel(c, Channel::News(t)))
    &&& gained_copies(a.stores@, b.stores@, chans, |c: Channel| is_store(c),
        |c: Channel, t: StoreChannel| same_channel(c, Channel::Store(t)))
}


impl GuildCreate {
    /// What this does to the cache: the guild is cached and no longer unavailable; the kind of
    /// each of its channels is noted, and a copy of each text, category, news and store channel
    /// goes into the map of its kind; each member is noted as a member of the guild (where the
    /// guild keeps each channel and member under its own id, as its maps do when filled through
    /// `insert`).
    pub open spec fn applied(self, a: Cache, b: Cache) -> bool {
        let gd = self.guild;
        let chans = gd.channels@;
        &&& cache_same_but(a, b, set![CachePart::UnavailableGuilds, CachePart::Guilds, CachePart::Members,
            CachePart::ChannelTypes, CachePart::Channels, CachePart::Categories, CachePart::News, CachePart::Stores])
        &&& b.guilds@ == a.guilds@.insert(gd.id.0, gd)
        &&& b.unavailable_guilds@ == a.unavailable_guilds@.remove(gd.id.0)
        &&& crate::cache::keyed_by_id(chans) ==> channels_gained(a, b, chans)
        &&& crate::cache::keyed_by_id(gd.members@) ==> joined(a.members@, b.members@, gd.id.0, gd.members@)
    }

    /// Caches the guild and what is in it.
    pub fn update(self, cache: &mut Cache)
        ensures
            self.applied(*old(cache), *final(cache)),
    {
        let ghost a = *cache;
        let guild = self.guild;
        let g = guild.id.0;
        let ghost chans = guild.channels@;
        let ids = guild.channels.ids();
        proof {
            let none = chans.restrict(ids@.take(0).to_set());
            assert(none =~= Map::<u64, Channel>::empty());
            assert(a.channel_types@ =~= a.channel_types@.union_prefer_right(none.map_values(|c: Channel| spec_channel_type(c))));
            assert(a.channels@.dom() =~= a.channels@.dom().union(none.dom().filter(|k: u64| is_text(none[k]))));
            assert(a.categories@.dom() =~= a.categories@.dom().union(none.dom().filter(|k: u64| is_category(none[k]))));
            assert(a.news@.dom() =~= a.news@.dom().union(none.dom().filter(|k: u64| is_news(none[k]))));
            assert(a.stores@.dom() =~= a.stores@.dom().union(none.dom().filter(|k: u64| is_store(none[k]))));
        }
        for i in 0..ids.len()
            invariant
                ids@.to_set() == chans.dom(),
                ids@.no_duplicates(),
                chans == guild.channels@,
                cache_same_but(a, *cache, set![CachePart::ChannelTypes, CachePart::Channels, CachePart::Categories,
                    CachePart::News, CachePart::Stores]),
                crate::cache::keyed_by_id(chans) ==> channels_gained(a, *cache, chans.restrict(ids@.take(i as int).to_set())),
        {
            let key = ids[i];
            assert(ids@.to_set().contains(key));
            let ghost done = ids@.take(i as int).to_set();
            let ghost next = ids@.take(i + 1).to_set();
            assert(next =~= done.insert(key)) by {
                assert(ids@.take(i + 1) =~= ids@.take(i as int).push(key));
                ids@.take(i as int).lemma_push_to_set_commute(key);
            }
            let ghost before = *cache;
            match guild.channels.get(crate::ids::ChannelId(key)) {
                Some(channel) => {
                    let cid = channel.id();
                    let _ = cache.channel_types.insert(cid.0, channel.channel_type());
                    match channel {
                        Channel::Text(text) => cache.channels.insert(text.clone()),
                        Channel::Category(category) => cache.categories.insert(category.clone()),
                        Channel::News(news) => cache.news.insert(news.clone()),
                        Channel::Store(store) => cache.stores.insert(store.clone()),
                        _ => {},
                    }
                    proof {
                        if crate::cache::keyed_by_id(chans) {
                            assert(cid.0 == key);
                            assert(chans.restrict(next) =~= chans.restrict(done).insert(key, chans[key]));
                            assert(cache.channel_types@ =~= a.channel_types@.union_prefer_right(
                                chans.restrict(next).map_values(|c: Channel| spec_channel_type(c))));
                            assert(chans.restrict(next).dom().filter(|k: u64| is_text(chans.restrict(next)[k]))
                                =~= chans.restrict(done).dom().filter(|k: u64| is_text(chans.restrict(done)[k]))
                                    .union(if is_text(chans[key]) { set![key] } else { Set::empty() }));
                            assert(chans.restrict(next).dom().filter(|k: u64| is_category(chans.restrict(next)[k]))
                                =~= chans.restrict(done).dom().filter(|k: u64| is_category(chans.restrict(done)[k]))
                                    .union(if is_category(chans[key]) { set![key] } else { Set::empty() }));
                            assert(chans.restrict(next).dom().filter(|k: u64| is_news(chans.restrict(next)[k]))
                                =~= chans.restrict(done).dom().filter(|k: u64| is_news(chans.restrict(done)[k]))
                                    .union(if is_news(chans[key]) { set![key] } else { Set::empty() }));
                            assert(chans.restrict(next).dom().filter(|k: u64| is_store(chans.restrict(next)[k]))
                                =~= chans.restrict(done).dom().filter(|k: u64| is_store(chans.restrict(done)[k]))
                                    .union(if is_store(chans[key]) { set![key] } else { Set::empty() }));
                        }
                    }
                },
                None => {
                    proof { assert(false); }
                },
            }
        }
        proof {
            assert(ids@.take(ids@.len() as int) =~= ids@);
            assert(chans.restrict(ids@.to_set()) =~= chans);
        }
        let ghost mid = *cache;
        let ghost ms = guild.members@;
        let member_ids = guild.members.ids();
        proof {
            let none = ms.restrict(member_ids@.take(0).to_set());
            assert(none =~= Map::<u64, GuildMember>::empty());
            assert(a.members@.dom() =~= a.members@.dom().union(none.dom()));
        }
        for i in 0..member_ids.len()
            invariant
                member_ids@.to_set() == ms.dom(),
                member_ids@.no_duplicates(),
                ms == guild.members@,
                g == guild.id.0,
                cache_same_but(mid, *cache, set![CachePart::Members]),
                crate::cache::keyed_by_id(ms) ==> joined(a.members@, cache.members@, g, ms.restrict(member_ids@.take(i as int).to_set())),
        {
            let key = member_ids[i];
            assert(member_ids@.to_set().contains(key));
            let ghost done = member_ids@.take(i as int).to_set();
            let ghost next = member_ids@.take(i + 1).to_set();
            assert(next =~= done.insert(key)) by {
                assert(member_ids@.take(i + 1) =~= member_ids@.take(i as int).push(key));
                member_ids@.take(i as int).lemma_push_to_set_commute(key);
            }
            assert(!done.contains(key)) by {
                if done.contains(key) {
                    let j = choose|j: int| 0 <= j < i && member_ids@.take(i as int)[j] == key;
                    assert(member_ids@[j] == member_ids@[i as int]);
                }
            }
            let ghost before = cache.members@;
            match guild.members.get(crate::ids::UserId(key)) {
                Some(member) => {
                    let uid = member.user.id.0;
                    let copy = member.clone();
                    match crate::cache::map_get_mut(&mut cache.members, uid) {
                        Some(map) => {
                            let _ = map.insert(g, copy);
                        },
                        None => {
                            let mut map: std::collections::HashMap<u64, GuildMember> = std::collections::HashMap::new();
                            let _ = map.insert(g, copy);
                            let _ = cache.members.insert(uid, map);
                        },
                    }
                    proof {
                        if crate::cache::keyed_by_id(ms) {
                            assert(uid == key);
                            assert(ms.restrict(next) =~= ms.restrict(done).insert(key, ms[key]));
                            assert(cache.members@.dom() =~= a.members@.dom().union(ms.restrict(next).dom()));
                            assert forall|u: u64| #[trigger] cache.members@.contains_key(u) implies
                                if ms.restrict(next).contains_key(u) {
                                    &&& cache.members@[u]@.dom() =~= (if a.members@.contains_key(u) { a.members@[u]@.dom() } else { Set::empty() }).insert(g)
                                    &&& forall|k: u64| k != g && a.members@.contains_key(u) && #[trigger] a.members@[u]@.contains_key(k) ==> cache.members@[u]@[k] == a.members@[u]@[k]
                                    &&& crate::model::same_member(cache.members@[u]@[g], ms.restrict(next)[u])
                                } else {
                                    cache.members@[u] == a.members@[u]
                                } by {
                                if u != key {
                                    assert(cache.members@[u] == before[u]);
                                }
                            }
                        }
                    }
                },
                None => {
                    proof { assert(false); }
                },
            }
        }
        proof {
            assert(member_ids@.take(member_ids@.len() as int) =~= member_ids@);
            assert(ms.restrict(member_ids@.to_set()) =~= ms);
        }
        cache.unavailable_guilds.remove(guild.id);
        cache.guilds.insert(guild);
    }
}

/// Sent when a guild becomes unavailable because of an outage, or when the bot leaves it or is
/// removed from it (then `unavailable` is not set).
#[derive(Debug, Clone, Copy)]
pub struct GuildDelete {
    pub guild: UnavailableGuild,
}

impl GuildDelete {
    /// What this does to the cache: the guild is forgotten, with the kinds of its channels and
    /// its members' membership of it; if it is only unavailable, it is noted as such.
    pub open spec fn applied(self, a: Cache, b: Cache) -> bool {
        let g = self.guild.id.0;
        &&& cache_same_but(a, b, set![CachePart::UnavailableGuilds, CachePart::Guilds, CachePart::Members, CachePart::ChannelTypes])
        &&& b.guilds@ == a.guilds@.remove(g)
        &&& b.unavailable_guilds@ == if self.guild.unavailable {
            a.unavailable_guilds@.insert(g, self.guild)
        } else {
            a.unavailable_guilds@
        }
        &&& if a.guilds@.contains_key(g) {
            let cached = a.guilds@[g];
            &&& b.channel_types@ == a.channel_types@.remove_keys(cached.channels@.dom())
            &&& b.members@.dom() =~= a.members@.dom()
            &&& forall|u: u64| #[trigger] a.members@.contains_key(u) ==>
                if cached.members@.contains_key(u) {
                    b.members@[u]@ == a.members@[u]@.remove(cached.id.0)
                } else {
                    b.members@[u] == a.members@[u]
                }
        } else {
            &&& b.channel_types@ == a.channel_types@
            &&& b.members@ == a.members@
        }
    }

    /// Forgets the guild.
    pub fn update(self, cache: &mut Cache)
        ensures
            self.applied(*old(cache), *final(cache)),
    {
        let ghost a = *cache;
        if let Some(cached) = cache.guilds.get(self.guild.id) {
            let gid = cached.id.0;
            let ghost chans = cached.channels@;
            let ghost ms = cached.members@;
            let ids = cached.channels.ids();
            for i in 0..ids.len()
                invariant
                    ids@.to_set() == chans.dom(),
                    cache.channel_types@ == a.channel_types@.remove_keys(ids@.take(i as int).to_set()),
                    cache_same_but(a, *cache, set![CachePart::ChannelTypes]),
            {
                let key = ids[i];
                let _ = cache.channel_types.remove(&key);
                proof {
                    assert(ids@.take(i + 1) =~= ids@.take(i as int).push(key));
                    ids@.take(i as int).lemma_push_to_set_commute(key);
                    assert(cache.channel_types@ =~= a.channel_types@.remove_keys(ids@.take(i + 1).to_set()));
                }
            }
            proof { assert(ids@.take(ids@.len() as int) =~= ids@); }
            assert(cache.members@ == a.members@);
            let member_ids = cached.members.ids();
            for i in 0..member_ids.len()
                invariant
                    member_ids@.to_set() == ms.dom(),
                    member_ids@.no_duplicates(),
                    cache.channel_types@ == a.channel_types@.remove_keys(chans.dom()),
                    cache_same_but(a, *cache, set![CachePart::ChannelTypes, CachePart::Members]),
                    cache.members@.dom() =~= a.members@.dom(),
                    forall|u: u64| #[trigger] a.members@.contains_key(u) ==>
                        if member_ids@.take(i as int).contains(u) {
                            cache.members@[u]@ == a.members@[u]@.remove(gid)
                        } else {
                            cache.members@[u] == a.members@[u]
                        },
            {
                let key = member_ids[i];
                assert(!member_ids@.take(i as int).contains(key)) by {
                    if member_ids@.take(i as int).contains(key) {
                        let j = choose|j: int| 0 <= j < i && member_ids@.take(i as int)[j] == key;
                        assert(member_ids@[j] == member_ids@[i as int]);
                    }
                }
                let ghost before = cache.members@;
                if let Some(map) = crate::cache::map_get_mut(&mut cache.members, key) {
                    let _ = map.remove(&gid);
                }
                proof {
                    assert(member_ids@.take(i + 1) =~= member_ids@.take(i as int).push(key));
                    assert(member_ids@.take(i + 1)[i as int] == key);
                    assert(member_ids@.take(i + 1).contains(key));
                    assert forall|u: u64| #[trigger] a.members@.contains_key(u) implies
                        if member_ids@.take(i + 1).contains(u) {
                            cache.members@[u]@ == a.members@[u]@.remove(gid)
                        } else {
                            cache.members@[u] == a.members@[u]
                        } by {
                        if u != key {
                            assert(cache.members@[u] == before[u]);
                            if member_ids@.take(i + 1).contains(u) {
                                let j = choose|j: int| 0 <= j < i + 1 && #[trigger] member_ids@.take(i + 1)[j] == u;
                                assert(j != i);
                                assert(member_ids@.take(i as int)[j] == u);
                            }
                            if member_ids@.take(i as int).contains(u) {
                                let j = choose|j: int| 0 <= j < i && #[trigger] member_ids@.take(i as int)[j] == u;
                                assert(member_ids@.take(i + 1)[j] == u);
                            }
                        } else {
                            assert(before[u] == a.members@[u]);
                        }
                    }
                }
            }
            proof {
                assert(member_ids@.take(member_ids@.len() as int) =~= member_ids@);
                assert forall|u: u64| member_ids@.contains(u) == ms.contains_key(u) by {
                    assert(member_ids@.to_set().contains(u) == member_ids@.contains(u));
                }
            }
        }
        cache.guilds.remove(self.guild.id);
        if self.guild.unavailable {
            cache.unavailable_guilds.insert(self.guild);
        }
    }
}

// Events that change nothing in the cache

/// Sent when a user is banned from a guild.
#[derive(Debug)]
pub struct BanAdd {
    /// id of the guild
    pub guild_id: GuildId,
    /// the banned user
    pub user: User,
}

/// Sent when a user is unbanned from a guild.
#[derive(Debug)]
pub struct BanRemove {
    /// id of the guild
    pub guild_id: GuildId,
    /// the unbanned user
    pub user: User,
}

/// Sent when an integration of a guild is updated.
#[derive(Debug)]
pub struct IntegrationUpdate {
    /// the user of the integration
    pub owner: User,
    /// the kind of integration
    pub kind: String,
    pub name: String,
    pub id: ApplicationId,
    pub enabled: bool,
    pub application: ApplicationInfo,
    pub account: Account,
    pub guild_id: GuildId,
}

/// The application of an integration.
#[derive(Debug)]
pub struct ApplicationInfo {
    pub summary: String,
    pub name: String,
    pub id: ApplicationId,
    pub icon: Option<String>,
    pub description: String,
    pub bot: User,
}

/// The account of an integration.
#[derive(Debug)]
pub struct Account {
    pub name: String,
    pub id: ApplicationId,
}

/// Sent when a guild's integrations are updated.
#[derive(Debug, Clone, Copy)]
pub struct IntegrationsUpdate {
    /// id of the guild whose integrations were updated
    pub guild_id: GuildId,
}

/// Sent when an invite is created.
#[derive(Debug)]
pub struct InviteCreate {
    /// the channel the invite is for
    pub channel_id: ChannelId,
    /// the unique invite code
    pub code: String,
    /// the time at which the invite was created, in milliseconds since the Unix epoch
    pub created_at: i64,
    /// the guild of the invite
    pub guild_id: Option<GuildId>,
    /// the user that created the invite
    pub inviter: Option<User>,
    /// how long the invite is valid for (in seconds)
    pub max_age: i32,
    /// the maximum number of times the invite can be used
    pub max_uses: u32,
    /// the target user for this invite
    pub target_user: Option<User>,
    /// the type of user target for this invite
    pub target_user_type: Option<u8>,
    /// whether or not the invite is temporary
    pub temporary: bool,
    /// how many times the invite has been used (always will be 0)
    pub uses: u8,
}

/// Sent when an invite is deleted.
#[derive(Debug)]
pub struct InviteDelete {
    /// the channel of the invite
    pub channel_id: ChannelId,
    /// the guild of the invite
    pub guild_id: Option<GuildId>,
    /// the unique invite code
    pub code: String,
}

/// Sent when a user starts typing in a channel.
#[derive(Debug)]
pub struct TypingStart {
    /// id of the channel
    pub channel_id: ChannelId,
    /// id of the guild
    pub guild_id: Option<GuildId>,
    /// id of the user
    pub user_id: UserId,
    /// unix time (in seconds) of when the user started typing
    pub timestamp: u64,
    /// the member who started typing if this happened in a guild
    pub member: Option<GuildMember>,
}

/// Sent when a guild's voice server is updated.
#[derive(Debug)]
pub struct VoiceServerUpdate {
    /// voice connection token
    pub token: String,
    /// the guild this voice server update is for
    pub guild_id: GuildId,
    /// the voice server host
    pub endpoint: String,
}

/// Sent when a guild channel's webhook is created, updated, or deleted.
#[derive(Debug, Clone, Copy)]
pub struct WebhookUpdate {
    /// id of the guild
    pub guild_id: GuildId,
    /// id of the channel
    pub channel_id: ChannelId,
}

/// Sent when a user invokes a command.
#[derive(Debug)]
pub struct InteractionCreate {
    pub interaction: crate::interaction::Interaction,
}

/// Sent when a command is created.
#[derive(Debug)]
pub struct ApplicationCommandCreate {
    pub guild_id: GuildId,
    pub command: crate::interaction::ApplicationCommand,
}

/// Sent when a command is updated.
#[derive(Debug)]
pub struct ApplicationCommandUpdate {
    pub guild_id: GuildId,
    pub command: crate::interaction::ApplicationCommand,
}

/// Sent when a command is deleted.
#[derive(Debug)]
pub struct ApplicationCommandDelete {
    pub guild_id: GuildId,
    pub command: crate::interaction::ApplicationCommand,
}

/// An event from the gateway.
#[derive(Debug)]
pub enum DispatchPayload {
    // Connection
    Ready(Ready),
    Resumed(Resumed),

    // Channels
    ChannelCreate(ChannelCreate),
    ChannelUpdate(ChannelUpdate),
    ChannelDelete(ChannelDelete),
    ChannelPinsUpdate(ChannelPinsUpdate),

    // Guilds
    GuildCreate(GuildCreate),
    GuildUpdate(GuildUpdate),
    GuildDelete(GuildDelete),
    GuildBanAdd(BanAdd),
    GuildBanRemove(BanRemove),
    GuildEmojisUpdate(EmojiUpdate),
    GuildIntegrationsUpdate(IntegrationsUpdate),
    IntegrationUpdate(IntegrationUpdate),
    GuildMemberAdd(GuildMemberAdd),
    GuildMemberRemove(GuildMemberRemove),
    GuildMemberUpdate(GuildMemberUpdate),
    GuildMembersChunk(GuildMembersChunk),
    GuildRoleCreate(GuildRoleCreate),
    GuildRoleUpdate(GuildRoleUpdate),
    GuildRoleRemove(GuildRoleDelete),

    // Invites
    InviteCreate(InviteCreate),
    InviteDelete(InviteDelete),

    // Messages
    MessageCreate(MessageCreate),
    MessageUpdate(MessageUpdate),
    MessageDelete(MessageDelete),
    MessageDeleteBulk(MessageDeleteBulk),
    MessageReactionAdd(ReactionAdd),
    MessageReactionRemove(ReactionRemove),
    MessageReactionRemoveAll(ReactionRemoveAll),
    MessageReactionRemoveEmoji(ReactionRemoveEmoji),

    // Presence
    PresenceUpdate(PresenceUpdate),
    TypingStart(TypingStart),
    UserUpdate(UserUpdate),

    // Voice
    VoiceStateUpdate(VoiceStateUpdate),
    VoiceServerUpdate(VoiceServerUpdate),

    // Webhooks
    WebhooksUpdate(WebhookUpdate),

    // Commands
    InteractionCreate(InteractionCreate),
    ApplicationCommandCreate(ApplicationCommandCreate),
    ApplicationCommandUpdate(ApplicationCommandUpdate),
    ApplicationCommandDelete(ApplicationCommandDelete),
}

/// Whether the cache can take an event: bots are never in group DMs, so no group DM channel
/// is created or updated for them.
pub open spec fn acceptable(e: DispatchPayload) -> bool {
    match e {
        DispatchPayload::ChannelCreate(c) => !(c.channel is GroupDm),
        DispatchPayload::ChannelUpdate(c) => !(c.channel is GroupDm),
        _ => true,
    }
}

impl DispatchPayload {
    /// Whether the cache can take this event (see `acceptable`).
    pub fn is_acceptable(&self) -> (b: bool)
        ensures
            b == acceptable(*self),
    {
        match self {
            DispatchPayload::ChannelCreate(c) => !matches!(c.channel, Channel::GroupDm(_)),
            DispatchPayload::ChannelUpdate(c) => !matches!(c.channel, Channel::GroupDm(_)),
            _ => true,
        }
    }

    /// What the event does to the cache; the events not named change nothing.
    pub open spec fn applied(self, a: Cache, b: Cache) -> bool {
        match self {
            DispatchPayload::Ready(e) => e.applied(a, b),
            DispatchPayload::ChannelCreate(e) => e.applied(a, b),
            DispatchPayload::ChannelUpdate(e) => e.applied(a, b),
            DispatchPayload::ChannelDelete(e) => e.applied(a, b),
            DispatchPayload::ChannelPinsUpdate(e) => e.applied(a, b),
            DispatchPayload::GuildCreate(e) => e.applied(a, b),
            DispatchPayload::GuildUpdate(e) => e.applied(a, b),
            DispatchPayload::GuildDelete(e) => e.applied(a, b),
            DispatchPayload::GuildEmojisUpdate(e) => e.applied(a, b),
            DispatchPayload::GuildMemberAdd(e) => e.applied(a, b),
            DispatchPayload::GuildMemberRemove(e) => e.applied(a, b),
            DispatchPayload::GuildMemberUpdate(e) => e.applied(a, b),
            DispatchPayload::GuildMembersChunk(e) => e.applied(a, b),
            DispatchPayload::GuildRoleCreate(e) => e.applied(a, b),
            DispatchPayload::GuildRoleUpdate(e) => e.applied(a, b),
            DispatchPayload::GuildRoleRemove(e) => e.applied(a, b),
            DispatchPayload::MessageCreate(e) => e.applied(a, b),
            DispatchPayload::MessageUpdate(e) => e.applied(a, b),
            DispatchPayload::MessageDelete(e) => e.applied(a, b),
            DispatchPayload::MessageDeleteBulk(e) => e.applied(a, b),
            DispatchPayload::MessageReactionAdd(e) => e.applied(a, b),
            DispatchPayload::MessageReactionRemove(e) => e.applied(a, b),
            DispatchPayload::MessageReactionRemoveAll(e) => e.applied(a, b),
            DispatchPayload::MessageReactionRemoveEmoji(e) => e.applied(a, b),
            DispatchPayload::PresenceUpdate(e) => e.applied(a, b),
            DispatchPayload::UserUpdate(e) => e.applied(a, b),
            DispatchPayload::VoiceStateUpdate(e) => e.applied(a, b),
            _ => cache_same_but(a, b, Set::empty()),
        }
    }

    /// Brings the cache up to date with the event.
    pub fn update(self, cache: &mut Cache)
        requires
            acceptable(self),
        ensures
            self.applied(*old(cache), *final(cache)),
    {
        match self {
            DispatchPayload::Ready(e) => e.update(cache),
            DispatchPayload::ChannelCreate(e) => e.update(cache),
            DispatchPayload::ChannelUpdate(e) => e.update(cache),
            DispatchPayload::ChannelDelete(e) => e.update(cache),
            DispatchPayload::ChannelPinsUpdate(e) => e.update(cache),
            DispatchPayload::GuildCreate(e) => e.update(cache),
            DispatchPayload::GuildUpdate(e) => e.update(cache),
            DispatchPayload::GuildDelete(e) => e.update(cache),
            DispatchPayload::GuildEmojisUpdate(e) => e.update(cache),
            DispatchPayload::GuildMemberAdd(e) => e.update(cache),
            DispatchPayload::GuildMemberRemove(e) => e.update(cache),
            DispatchPayload::GuildMemberUpdate(e) => e.update(cache),
            DispatchPayload::GuildMembersChunk(e) => e.update(cache),
            DispatchPayload::GuildRoleCreate(e) => e.update(cache),
            DispatchPayload::GuildRoleUpdate(e) => e.update(cache),
            DispatchPayload::GuildRoleRemove(e) => e.update(cache),
            DispatchPayload::MessageCreate(e) => e.update(cache),
            DispatchPayload::MessageUpdate(e) => e.update(cache),
            DispatchPayload::MessageDelete(e) => e.update(cache),
            DispatchPayload::MessageDeleteBulk(e) => e.update(cache),
            DispatchPayload::MessageReactionAdd(e) => e.update(cache),
            DispatchPayload::MessageReactionRemove(e) => e.update(cache),
            DispatchPayload::MessageReactionRemoveAll(e) => e.update(cache),
            DispatchPayload::MessageReactionRemoveEmoji(e) => e.update(cache),
            DispatchPayload::PresenceUpdate(e) => e.update(cache),
            DispatchPayload::UserUpdate(e) => e.update(cache),
            DispatchPayload::VoiceStateUpdate(e) => e.update(cache),
            _ => {},
        }
    }
}

/// A message that was just created is in the cache under its id, as it was created.
pub proof fn lemma_created_message_cached(e: MessageCreate, a: Cache, b: Cache)
    requires
        e.applied(a, b),
    ensures
        b.messages@.contains_key(e.message.id.0),
        b.messages@[e.message.id.0] == e.message,
{
}

/// Deleting a message right after it was created leaves the cached messages as they were
/// before, less any older message with that id.
pub proof fn lemma_create_then_delete_message(c: MessageCreate, d: MessageDelete, a: Cache, b: Cache, z: Cache)
    requires
        c.applied(a, b),
        d.applied(b, z),
        d.id == c.message.id,
    ensures
        z.messages@ == a.messages@.remove(d.id.0),
        !z.messages@.contains_key(d.id.0),
{
    assert(a.messages@.insert(d.id.0, c.message).remove(d.id.0) =~= a.messages@.remove(d.id.0));
}

/// A text channel that was just created is in the cache under its id, noted as a text
/// channel.
pub proof fn lemma_created_text_channel_cached(e: ChannelCreate, a: Cache, b: Cache)
    requires
        e.applied(a, b),
        e.channel is Text,
    ensures
        b.channels@.contains_key(spec_channel_id(e.channel).0),
        Channel::Text(b.channels@[spec_channel_id(e.channel).0]) == e.channel,
        b.channel_types@[spec_channel_id(e.channel).0] == ChannelType::GuildText,
{
}

/// An edit of a cached message changes only the fields it gives and never the message's id,
/// channel or time; an edit of an unknown message caches it exactly when it spells out a whole
/// message; other messages and the rest of the cache are untouched.
pub proof fn lemma_message_update_law(u: MessageUpdate, a: Cache, b: Cache)
    requires
        u.applied(a, b),
    ensures
        a.messages@.contains_key(u.id.0) ==> {
            let before = a.messages@[u.id.0];
            let after = b.messages@[u.id.0];
            &&& b.messages@.contains_key(u.id.0)
            &&& after.id == before.id && after.channel_id == before.channel_id
                && after.timestamp == before.timestamp
            &&& after.content == crate::message::updated(before.content, u.content)
            &&& after.author == crate::message::updated(before.author, u.author)
            &&& after.message_type == crate::message::updated(before.message_type, u.message_type)
            &&& after.pinned == crate::message::updated(before.pinned, u.pinned)
            &&& after == message_after(before, u)
        },
        !a.messages@.contains_key(u.id.0) ==>
            (b.messages@.contains_key(u.id.0) <==> crate::message::spells_message(u)),
        forall|k: u64| k != u.id.0 ==> (#[trigger] b.messages@.contains_key(k) <==> a.messages@.contains_key(k)),
        forall|k: u64| k != u.id.0 && #[trigger] a.messages@.contains_key(k) ==> b.messages@[k] == a.messages@[k],
        cache_same_but(a, b, set![CachePart::Messages]),
{
}

/// A deleted message is forgotten, and a cached channel (by the kind the cache knows it as,
/// and in its guild) that had it as its last message has none; other messages and channels
/// are untouched.
pub proof fn lemma_message_delete_law(d: MessageDelete, a: Cache, b: Cache)
    requires
        d.applied(a, b),
    ensures
        !b.messages@.contains_key(d.id.0),
        forall|k: u64| k != d.id.0 ==> (#[trigger] b.messages@.contains_key(k) <==> a.messages@.contains_key(k)),
        forall|k: u64| k != d.id.0 && #[trigger] a.messages@.contains_key(k) ==> b.messages@[k] == a.messages@[k],
        b.channels@.dom() == a.channels@.dom(),
        forall|k: u64| k != d.channel_id.0 && #[trigger] a.channels@.contains_key(k) ==> b.channels@[k] == a.channels@[k],
        a.channels@.contains_key(d.channel_id.0) ==> {
            let before = a.channels@[d.channel_id.0];
            let after = b.channels@[d.channel_id.0];
            &&& after.last_message_id == before.last_message_id || after.last_message_id.is_none()
            &&& after.last_message_id.is_none() ==> before.last_message_id == Some(d.id)
                || before.last_message_id.is_none()
            &&& after == (crate::channel::TextChannel { last_message_id: after.last_message_id, ..before })
        },
        b.dms.1@.dom() == a.dms.1@.dom(),
        b.news@.dom() == a.news@.dom(),
        b.guilds@.dom() == a.guilds@.dom(),
{
    let cid = d.channel_id.0;
    if a.channels@.contains_key(cid) {
        assert(b.channels@.contains_key(cid));
    }
    assert(b.channels@.dom() =~= a.channels@.dom());
    assert(b.dms.1@.dom() =~= a.dms.1@.dom());
    assert(b.news@.dom() =~= a.news@.dom());
}

/// An updated channel inserts nothing: it takes the place of the cached channel with its id in
/// the map of its kind and in its guild, where those hold it, and changes nothing else.
pub proof fn lemma_channel_update_law(u: ChannelUpdate, a: Cache, b: Cache)
    requires
        u.applied(a, b),
    ensures
        b.channels@.dom() == a.channels@.dom(),
        b.dms.1@.dom() == a.dms.1@.dom(),
        b.categories@.dom() == a.categories@.dom(),
        b.news@.dom() == a.news@.dom(),
        b.stores@.dom() == a.stores@.dom(),
        b.guilds@.dom() == a.guilds@.dom(),
        b.channel_types@ == a.channel_types@,
        b.messages@ == a.messages@,
        u.channel matches Channel::Text(t) ==> (a.channels@.contains_key(t.id.0) ==> b.channels@[t.id.0] == t),
        u.channel matches Channel::Dm(dm) ==> (a.dms.1@.contains_key(dm.id.0) ==> b.dms.1@[dm.id.0] == dm),
        u.channel matches Channel::News(n) ==> (a.news@.contains_key(n.id.0) ==> b.news@[n.id.0] == n),
        u.channel matches Channel::Category(k) ==> (a.categories@.contains_key(k.id.0) ==> b.categories@[k.id.0] == k),
        u.channel matches Channel::Store(st) ==> (a.stores@.contains_key(st.id.0) ==> b.stores@[st.id.0] == st),
        u.channel is Voice ==> b.channels@ == a.channels@ && b.dms.1@ == a.dms.1@ && b.news@ == a.news@
            && b.categories@ == a.categories@ && b.stores@ == a.stores@,
        match spec_channel_guild(u.channel) {
            Some(g) => a.guilds@.contains_key(g.0) ==> {
                let cid = spec_channel_id(u.channel).0;
                &&& b.guilds@[g.0].channels@.dom() == a.guilds@[g.0].channels@.dom()
                &&& a.guilds@[g.0].channels@.contains_key(cid) ==> same_channel(u.channel, b.guilds@[g.0].channels@[cid])
            },
            None => b.guilds@ == a.guilds@,
        },
{
    let c = u.channel;
    let cid = spec_channel_id(c).0;
    assert(b.channels@.dom() =~= a.channels@.dom());
    assert(b.dms.1@.dom() =~= a.dms.1@.dom());
    assert(b.categories@.dom() =~= a.categories@.dom());
    assert(b.news@.dom() =~= a.news@.dom());
    assert(b.stores@.dom() =~= a.stores@.dom());
    assert(b.guilds@.dom() =~= a.guilds@.dom());
    match spec_channel_guild(c) {
        Some(g) => {
            if a.guilds@.contains_key(g.0) {
                assert(b.guilds@[g.0].channels@.dom() =~= a.guilds@[g.0].channels@.dom());
            }
        },
        None => {},
    }
}

} // verus!
