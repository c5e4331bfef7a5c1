//! The Discord objects that the games read: users, guild members, messages and embeds.

use vstd::prelude::*;

use crate::ids::{Id, MessageId, ChannelId, RoleId, UserId};
use crate::text::decimal;

verus! {

/// A Discord user.
#[derive(Debug)]
pub struct User {
    /// the user's id
    pub id: UserId,
    /// the user's name, not unique across the platform
    pub username: String,
    /// the user's 4-digit discord-tag
    pub discriminator: String,
    /// whether the user belongs to an OAuth2 application
    pub bot: bool,
}

impl Clone for User {
    fn clone(&self) -> (u: Self)
        ensures
            u == *self,
    {
        User {
            id: self.id,
            username: self.username.clone(),
            discriminator: self.discriminator.clone(),
            bot: self.bot,
        }
    }
}

impl Id for User {
    type Id = UserId;

    open spec fn spec_id(&self) -> UserId {
        self.id
    }

    fn id(&self) -> (i: UserId) {
        self.id
    }
}

/// A user's membership in one guild.
#[derive(Debug)]
pub struct GuildMember {
    /// the user this guild member represents
    pub user: User,
    /// this user's guild nickname
    pub nick: Option<String>,
    /// the roles this member has
    pub roles: Vec<RoleId>,
    /// when the user joined the guild, in milliseconds since the Unix epoch
    pub joined_at: i64,
    /// when the user started boosting the guild, in milliseconds since the Unix epoch
    pub premium_since: Option<i64>,
    /// whether the user is deafened in voice channels
    pub deaf: bool,
    /// whether the user is muted in voice channels
    pub mute: bool,
}

/// Two members are alike: the same user with the same nickname, roles and voice state.
pub open spec fn same_member(a: GuildMember, b: GuildMember) -> bool {
    &&& a.user == b.user
    &&& a.nick == b.nick
    &&& a.roles@ == b.roles@
    &&& a.joined_at == b.joined_at
    &&& a.premium_since == b.premium_since
    &&& a.deaf == b.deaf
    &&& a.mute == b.mute
}

/// A copy of a list of roles.
pub fn copy_roles(roles: &Vec<RoleId>) -> (r: Vec<RoleId>)
    ensures
        r@ == roles@,
{
    let mut r: Vec<RoleId> = Vec::new();
    for i in 0..roles.len()
        invariant
            r@ == roles@.take(i as int),
    {
        r.push(roles[i]);
        assert(r@ =~= roles@.take(i + 1));
    }
    assert(roles@.take(roles@.len() as int) =~= roles@);
    r
}

impl Clone for GuildMember {
    fn clone(&self) -> (m: Self)
        ensures
            same_member(m, *self),
    {
        GuildMember {
            user: self.user.clone(),
            nick: match &self.nick {
                Some(n) => Some(n.clone()),
                None => None,
            },
            roles: copy_roles(&self.roles),
            joined_at: self.joined_at,
            premium_since: self.premium_since,
            deaf: self.deaf,
            mute: self.mute,
        }
    }
}

/// The name a member is shown by: the nickname if there is one, else the username.
pub open spec fn display_name(nick: Option<Seq<char>>, username: Seq<char>) -> Seq<char> {
    match nick {
        Some(n) => n,
        None => username,
    }
}

impl GuildMember {
    /// The view of the member's optional nickname.
    pub open spec fn nick_view(&self) -> Option<Seq<char>> {
        match self.nick {
            Some(n) => Some(n@),
            None => None,
        }
    }

    /// The member's nickname, or their username if they have none.
    pub fn nick_or_name(&self) -> (s: String)
        ensures
            s@ == display_name(self.nick_view(), self.user.username@),
    {
        match &self.nick {
            Some(n) => n.clone(),
            None => self.user.username.clone(),
        }
    }
}

impl Id for GuildMember {
    type Id = UserId;

    open spec fn spec_id(&self) -> UserId {
        self.user.id
    }

    fn id(&self) -> (i: UserId) {
        self.user.id
    }
}

/// The continuation token of an interaction, used to answer it and to send followups.
#[derive(Debug, Clone)]
pub struct Token(pub String);

/// A message, named by its channel and its own id.
#[derive(Debug, Clone, Copy, PartialEq, Eq, Structural)]
pub struct ChannelMessageId {
    pub channel: ChannelId,
    pub message: MessageId,
}

/// The colours that the games give their embeds.
#[derive(Debug, Clone, Copy, PartialEq, Eq, Structural)]
pub enum Color {
    Gold,
    Red,
    Blue,
}

/// One titled field of an embed.
#[derive(Debug, Clone)]
pub struct EmbedField {
    pub name: String,
    pub value: String,
    pub inline: bool,
}

impl EmbedField {
    /// A field that is shown on its own line.
    pub fn new(name: String, value: String) -> (f: Self)
        ensures
            f.name == name,
            f.value == value,
            !f.inline,
    {
        EmbedField { name, value, inline: false }
    }

    /// A field that is shown beside its neighbours.
    pub fn new_inline(name: String, value: String) -> (f: Self)
        ensures
            f.name == name,
            f.value == value,
            f.inline,
    {
        EmbedField { name, value, inline: true }
    }
}

/// The parts of a rich embed that the games fill in.
#[derive(Debug, Clone)]
pub struct Embed {
    pub title: Option<String>,
    pub description: Option<String>,
    pub color: Option<Color>,
    pub fields: Vec<EmbedField>,
    /// path of an image file to attach and show
    pub image: Option<String>,
    /// the text at the bottom
    pub footer: Option<String>,
    /// the link of the title
    pub url: Option<String>,
    /// the user shown as the embed's author, by name and avatar
    pub author: Option<User>,
}

impl Embed {
    /// An embed with nothing set.
    pub fn new() -> (e: Self)
        ensures
            e.title.is_none(),
            e.description.is_none(),
            e.color.is_none(),
            e.fields@.len() == 0,
            e.image.is_none(),
            e.footer.is_none(),
            e.url.is_none(),
            e.author.is_none(),
    {
        Embed {
            title: None,
            description: None,
            color: None,
            fields: Vec::new(),
            image: None,
            footer: None,
            url: None,
            author: None,
        }
    }
}

/// `<@id>`
pub open spec fn ping_text(id: u64) -> Seq<char> {
    seq!['<', '@'] + decimal(id as nat) + seq!['>']
}

/// `<@!id>`
pub open spec fn ping_nick_text(id: u64) -> Seq<char> {
    seq!['<', '@', '!'] + decimal(id as nat) + seq!['>']
}

} // verus!
