//! Messages and their reactions, and the partial messages that an edit sends.

use vstd::prelude::*;

use crate::emoji::{Emoji, same_emoji};
use crate::ids::{ChannelId, GuildId, Id, MessageId, RoleId, WebhookId};
use crate::model::User;

verus! {

/// A message sent in a channel.
#[derive(Debug)]
pub struct Message {
    /// id of the message
    pub id: MessageId,
    /// id of the channel the message was sent in
    pub channel_id: ChannelId,
    /// id of the guild the message was sent in
    pub guild_id: Option<GuildId>,
    /// the author of this message
    pub author: User,
    /// contents of the message
    pub content: String,
    /// when this message was sent, in milliseconds since the Unix epoch
    pub timestamp: i64,
    /// when this message was edited, in milliseconds since the Unix epoch
    pub edited_timestamp: Option<i64>,
    /// whether this was a TTS message
    pub tts: bool,
    /// whether this message mentions everyone
    pub mention_everyone: bool,
    /// users specifically mentioned in the message
    pub mentions: Vec<User>,
    /// roles specifically mentioned in this message
    pub mention_roles: Vec<RoleId>,
    /// reactions to the message
    pub reactions: Vec<Reaction>,
    /// used for validating a message was sent
    pub nonce: Option<String>,
    /// whether this message is pinned
    pub pinned: bool,
    /// if the message is generated by a webhook, this is the webhook's id
    pub webhook_id: Option<WebhookId>,
    /// the kind of message, by Discord's number for it
    pub message_type: u8,
}

impl Id for Message {
    type Id = MessageId;

    open spec fn spec_id(&self) -> MessageId {
        self.id
    }

    fn id(&self) -> (i: MessageId) {
        self.id
    }
}

/// The reactions of one emoji to a message.
#[derive(Debug)]
pub struct Reaction {
    /// times this emoji has been used to react
    pub count: u32,
    /// whether the current user reacted using this emoji
    pub me: bool,
    /// emoji information
    pub emoji: Emoji,
}

/// Where the first reaction with emoji `e` stands, if any.
pub open spec fn reaction_position(rs: Seq<Reaction>, e: Emoji) -> Option<int>
    decreases rs.len(),
{
    if rs.len() == 0 {
        None
    } else {
        match reaction_position(rs.drop_last(), e) {
            Some(i) => Some(i),
            None => if same_emoji(rs.last().emoji, e) { Some(rs.len() - 1) } else { None },
        }
    }
}

/// The reactions after someone reacted with `e`: the count of that emoji goes up by one
/// (wrapping, as `u32` addition in release builds), and `me` is set if the current user did
/// it; an emoji not yet there is added with a count of one.
pub open spec fn reactions_after_add(rs: Seq<Reaction>, e: Emoji, me: bool) -> Seq<Reaction> {
    match reaction_position(rs, e) {
        Some(i) => rs.update(i, Reaction {
            count: ((rs[i].count + 1) % 0x1_0000_0000) as u32,
            me: rs[i].me || me,
            ..rs[i]
        }),
        None => rs.push(Reaction { count: 1, me, emoji: e }),
    }
}

/// The reactions after someone took back a reaction with `e`: the count of that emoji goes
/// down by one (wrapping), and `me` is cleared if the current user did it; nothing changes if
/// the emoji is not there.
pub open spec fn reactions_after_remove(rs: Seq<Reaction>, e: Emoji, me: bool) -> Seq<Reaction> {
    match reaction_position(rs, e) {
        Some(i) => rs.update(i, Reaction {
            count: (if rs[i].count == 0 { u32::MAX as int } else { rs[i].count - 1 }) as u32,
            me: rs[i].me && !me,
            ..rs[i]
        }),
        None => rs,
    }
}

/// The reactions with every reaction of emoji `e` taken out.
pub open spec fn reactions_without(rs: Seq<Reaction>, e: Emoji) -> Seq<Reaction> {
    rs.filter(|r: Reaction| !same_emoji(r.emoji, e))
}

proof fn lemma_position_of_prefix(rs: Seq<Reaction>, e: Emoji, k: int)
    requires
        0 <= k <= rs.len(),
        reaction_position(rs.take(k), e) is Some,
    ensures
        reaction_position(rs, e) == reaction_position(rs.take(k), e),
    decreases rs.len() - k,
{
    if k < rs.len() {
        assert(rs.take(k + 1).drop_last() =~= rs.take(k));
        lemma_position_of_prefix(rs, e, k + 1);
    } else {
        assert(rs.take(k) =~= rs);
    }
}

proof fn lemma_position_bounds(rs: Seq<Reaction>, e: Emoji)
    ensures
        reaction_position(rs, e) matches Some(i) ==> 0 <= i < rs.len() && same_emoji(rs[i].emoji, e),
    decreases rs.len(),
{
    if rs.len() > 0 {
        lemma_position_bounds(rs.drop_last(), e);
    }
}

proof fn lemma_position_after_update(rs: Seq<Reaction>, e: Emoji, i: int, r: Reaction)
    requires
        0 <= i < rs.len(),
        r.emoji == rs[i].emoji,
    ensures
        reaction_position(rs.update(i, r), e) == reaction_position(rs, e),
    decreases rs.len(),
{
    if i < rs.len() - 1 {
        assert(rs.update(i, r).drop_last() =~= rs.drop_last().update(i, r));
        lemma_position_after_update(rs.drop_last(), e, i, r);
    } else {
        assert(rs.update(i, r).drop_last() =~= rs.drop_last());
    }
}

/// Reacting with an emoji that the message already shows and then taking that reaction back
/// leaves the reactions as they were, unless it is the current user who takes back a reaction
/// of theirs that was there before.
pub proof fn lemma_add_then_remove(rs: Seq<Reaction>, e: Emoji, me: bool)
    requires
        reaction_position(rs, e) matches Some(i) && (!me || !rs[i].me),
    ensures
        reactions_after_remove(reactions_after_add(rs, e, me), e, me) == rs,
{
    lemma_position_bounds(rs, e);
    let i = reaction_position(rs, e).unwrap();
    let added = reactions_after_add(rs, e, me);
    lemma_position_after_update(rs, e, i, added[i]);
    assert(reactions_after_remove(added, e, me) =~= rs);
}

/// Where the first reaction with emoji `e` stands.
fn find_reaction(rs: &Vec<Reaction>, e: &Emoji) -> (r: Option<usize>)
    ensures
        match r {
            Some(i) => reaction_position(rs@, *e) == Some(i as int),
            None => reaction_position(rs@, *e) is None,
        },
{
    let mut i: usize = 0;
    while i < rs.len()
        invariant
            i <= rs@.len(),
            reaction_position(rs@.take(i as int), *e) is None,
        decreases rs.len() - i,
    {
        assert(rs@.take(i + 1).drop_last() =~= rs@.take(i as int));
        if rs[i].emoji.same_as(e) {
            proof {
                lemma_position_of_prefix(rs@, *e, i + 1);
            }
            return Some(i);
        }
        i = i + 1;
    }
    assert(rs@.take(rs@.len() as int) =~= rs@);
    None
}

/// Counts a reaction with `e`, by the current user if `me`.
pub fn add_reaction(rs: &mut Vec<Reaction>, e: Emoji, me: bool)
    ensures
        final(rs)@ == reactions_after_add(old(rs)@, e, me),
{
    proof { lemma_position_bounds(rs@, e); }
    match find_reaction(rs, &e) {
        Some(i) => {
            let r = &mut rs[i];
            r.count = r.count.wrapping_add(1);
            r.me = r.me || me;
        },
        None => {
            rs.push(Reaction { count: 1, me, emoji: e });
        },
    }
}

/// Takes back a reaction with `e`, by the current user if `me`.
pub fn remove_reaction(rs: &mut Vec<Reaction>, e: &Emoji, me: bool)
    ensures
        final(rs)@ == reactions_after_remove(old(rs)@, *e, me),
{
    proof { lemma_position_bounds(rs@, *e); }
    match find_reaction(rs, e) {
        Some(i) => {
            let r = &mut rs[i];
            r.count = r.count.wrapping_sub(1);
            r.me = r.me && !me;
        },
        None => {},
    }
}

/// Takes out every reaction with emoji `e`.
pub fn retain_other_reactions(rs: &mut Vec<Reaction>, e: &Emoji)
    ensures
        final(rs)@ == reactions_without(old(rs)@, *e),
{
    let mut rest: Vec<Reaction> = Vec::new();
    std::mem::swap(&mut rest, rs);
    let ghost all = rest@;
    let n = rest.len();
    let mut k: usize = 0;
    while k < n
        invariant
            n == all.len(),
            k <= n,
            rest@ == all.skip(k as int),
            rs@ == reactions_without(all.take(k as int), *e),
        decreases n - k,
    {
        let r = rest.remove(0);
        assert(all.skip(k as int)[0] == all[k as int]);
        assert(all.take(k + 1).drop_last() =~= all.take(k as int));
        assert(all.take(k + 1).last() == all[k as int]);
        proof { reveal(Seq::filter); }
        if !r.emoji.same_as(e) {
            rs.push(r);
        }
        assert(rest@ =~= all.skip(k + 1));
        k = k + 1;
    }
    assert(all.take(n as int) =~= all);
}

/// An edit of a message: its id and channel, and whichever fields changed.
#[derive(Debug)]
pub struct MessageUpdate {
    pub id: MessageId,
    pub channel_id: ChannelId,
    pub guild_id: Option<Option<GuildId>>,
    pub author: Option<User>,
    pub content: Option<String>,
    pub timestamp: Option<i64>,
    pub edited_timestamp: Option<Option<i64>>,
    pub tts: Option<bool>,
    pub mention_everyone: Option<bool>,
    pub mentions: Option<Vec<User>>,
    pub mention_roles: Option<Vec<RoleId>>,
    pub reactions: Option<Vec<Reaction>>,
    pub nonce: Option<Option<String>>,
    pub pinned: Option<bool>,
    pub webhook_id: Option<Option<WebhookId>>,
    pub message_type: Option<u8>,
}

/// The new value where an edit gives one, else the old one.
pub open spec fn updated<T>(old: T, new: Option<T>) -> T {
    match new {
        Some(n) => n,
        None => old,
    }
}

/// A message after an edit: every field the edit gives is replaced, the others kept.
pub open spec fn message_after(m: Message, u: MessageUpdate) -> Message {
    Message {
        id: m.id,
        channel_id: m.channel_id,
        guild_id: updated(m.guild_id, u.guild_id),
        author: updated(m.author, u.author),
        content: updated(m.content, u.content),
        timestamp: m.timestamp,
        edited_timestamp: updated(m.edited_timestamp, u.edited_timestamp),
        tts: updated(m.tts, u.tts),
        mention_everyone: updated(m.mention_everyone, u.mention_everyone),
        mentions: updated(m.mentions, u.mentions),
        mention_roles: updated(m.mention_roles, u.mention_roles),
        reactions: updated(m.reactions, u.reactions),
        nonce: updated(m.nonce, u.nonce),
        pinned: updated(m.pinned, u.pinned),
        webhook_id: updated(m.webhook_id, u.webhook_id),
        message_type: updated(m.message_type, u.message_type),
    }
}

/// The empty sequence where an edit gives no list, else the list it gives.
pub open spec fn listed<T>(new: Option<Vec<T>>) -> Seq<T> {
    match new {
        Some(v) => v@,
        None => Seq::empty(),
    }
}

/// `m` is the whole message that an edit spells out (it gives an author, contents, a time and
/// a type): what the edit leaves out of the rest is empty, false or none.
pub open spec fn message_of_update(m: Message, u: MessageUpdate) -> bool {
    &&& u.author == Some(m.author)
    &&& u.content == Some(m.content)
    &&& u.timestamp == Some(m.timestamp)
    &&& u.message_type == Some(m.message_type)
    &&& m.id == u.id
    &&& m.channel_id == u.channel_id
    &&& m.guild_id == updated(None, u.guild_id)
    &&& m.edited_timestamp == updated(None, u.edited_timestamp)
    &&& m.tts == updated(false, u.tts)
    &&& m.mention_everyone == updated(false, u.mention_everyone)
    &&& m.mentions@ == listed(u.mentions)
    &&& m.mention_roles@ == listed(u.mention_roles)
    &&& m.reactions@ == listed(u.reactions)
    &&& m.nonce == updated(None, u.nonce)
    &&& m.pinned == updated(false, u.pinned)
    &&& m.webhook_id == updated(None, u.webhook_id)
}

/// An edit spells out a whole message when it gives an author, contents, a time and a type.
pub open spec fn spells_message(u: MessageUpdate) -> bool {
    u.author is Some && u.content is Some && u.timestamp is Some && u.message_type is Some
}

fn update_field<T>(field: &mut T, new: Option<T>)
    ensures
        *final(field) == updated(*old(field), new),
{
    if let Some(n) = new {
        *field = n;
    }
}

impl MessageUpdate {
    /// Applies this edit to the message it is for.
    pub fn apply(self, message: &mut Message)
        ensures
            *final(message) == message_after(*old(message), self),
    {
        update_field(&mut message.guild_id, self.guild_id);
        update_field(&mut message.author, self.author);
        update_field(&mut message.content, self.content);
        update_field(&mut message.edited_timestamp, self.edited_timestamp);
        update_field(&mut message.tts, self.tts);
        update_field(&mut message.mention_everyone, self.mention_everyone);
        update_field(&mut message.mentions, self.mentions);
        update_field(&mut message.mention_roles, self.mention_roles);
        update_field(&mut message.reactions, self.reactions);
        update_field(&mut message.nonce, self.nonce);
        update_field(&mut message.pinned, self.pinned);
        update_field(&mut message.webhook_id, self.webhook_id);
        update_field(&mut message.message_type, self.message_type);
    }

    /// The whole message this edit spells out, if it gives an author, contents, a time and a
    /// type.
    pub fn into_message(self) -> (m: Option<Message>)
        ensures
            match m {
                Some(m) => spells_message(self) && message_of_update(m, self),
                None => !spells_message(self),
            },
    {
        match (self.author, self.content, self.timestamp, self.message_type) {
            (Some(author), Some(content), Some(timestamp), Some(message_type)) => Some(Message {
                id: self.id,
                channel_id: self.channel_id,
                guild_id: match self.guild_id { Some(g) => g, None => None },
                author,
                content,
                timestamp,
                edited_timestamp: match self.edited_timestamp { Some(t) => t, None => None },
                tts: match self.tts { Some(t) => t, None => false },
                mention_everyone: match self.mention_everyone { Some(t) => t, None => false },
                mentions: match self.mentions { Some(t) => t, None => Vec::new() },
                mention_roles: match self.mention_roles { Some(t) => t, None => Vec::new() },
                reactions: match self.reactions { Some(t) => t, None => Vec::new() },
                nonce: match self.nonce { Some(t) => t, None => None },
                pinned: match self.pinned { Some(t) => t, None => false },
                webhook_id: match self.webhook_id { Some(t) => t, None => None },
                message_type,
            }),
            _ => None,
        }
    }
}

} // verus!
