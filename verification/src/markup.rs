//! Discord markdown for mentioning users, channels and roles.

use vstd::prelude::*;

use crate::ids::{ChannelId, RoleId, UserId};
use crate::model::{GuildMember, User, ping_nick_text, ping_text};
use crate::text::{decimal, format_wrapped};

verus! {

/// `<@id>`, which Discord shows as a mention of the user.
pub fn ping_user(id: UserId) -> (s: String)
    ensures
        s@ == ping_text(id.0),
{
    proof { reveal_strlit("<@"); reveal_strlit(">"); }
    format_wrapped("<@", id.0, ">")
}

/// `<@!id>`, a mention of the user by their nickname.
pub fn ping_nick_user(id: UserId) -> (s: String)
    ensures
        s@ == ping_nick_text(id.0),
{
    proof { reveal_strlit("<@!"); reveal_strlit(">"); }
    format_wrapped("<@!", id.0, ">")
}

/// `<#id>`
pub open spec fn channel_mention_text(id: u64) -> Seq<char> {
    seq!['<', '#'] + decimal(id as nat) + seq!['>']
}

/// `<@&id>`
pub open spec fn role_mention_text(id: u64) -> Seq<char> {
    seq!['<', '@', '&'] + decimal(id as nat) + seq!['>']
}

/// `__text__`
pub open spec fn underline_text(t: Seq<char>) -> Seq<char> {
    seq!['_', '_'] + t + seq!['_', '_']
}

/// Underlining for any text.
pub trait MarkupExt {
    spec fn markup_text(&self) -> Seq<char>;

    /// The text between double underscores.
    fn underline(&self) -> (s: String)
        ensures
            s@ == underline_text(self.markup_text());
}

impl MarkupExt for String {
    open spec fn markup_text(&self) -> Seq<char> {
        self@
    }

    fn underline(&self) -> (s: String) {
        proof { reveal_strlit("__"); }
        let mut s = String::from_str("__");
        s.append(self.as_str());
        s.append("__");
        s
    }
}

/// Mentions of things that stand for a user.
pub trait UserMarkupExt {
    spec fn markup_user(&self) -> UserId;

    /// `<@id>`
    fn ping(&self) -> (s: String)
        ensures
            s@ == ping_text(self.markup_user().0);

    /// `<@!id>`
    fn ping_nick(&self) -> (s: String)
        ensures
            s@ == ping_nick_text(self.markup_user().0);
}

impl UserMarkupExt for UserId {
    open spec fn markup_user(&self) -> UserId {
        *self
    }

    fn ping(&self) -> (s: String) {
        ping_user(*self)
    }

    fn ping_nick(&self) -> (s: String) {
        ping_nick_user(*self)
    }
}

impl UserMarkupExt for User {
    open spec fn markup_user(&self) -> UserId {
        self.id
    }

    fn ping(&self) -> (s: String) {
        ping_user(self.id)
    }

    fn ping_nick(&self) -> (s: String) {
        ping_nick_user(self.id)
    }
}

impl UserMarkupExt for GuildMember {
    open spec fn markup_user(&self) -> UserId {
        self.user.id
    }

    fn ping(&self) -> (s: String) {
        ping_user(self.user.id)
    }

    fn ping_nick(&self) -> (s: String) {
        ping_nick_user(self.user.id)
    }
}

/// Mentions of things that stand for a channel.
pub trait ChannelMarkupExt {
    spec fn markup_channel(&self) -> ChannelId;

    /// `<#id>`
    fn mention(&self) -> (s: String)
        ensures
            s@ == channel_mention_text(self.markup_channel().0);
}

impl ChannelMarkupExt for ChannelId {
    open spec fn markup_channel(&self) -> ChannelId {
        *self
    }

    fn mention(&self) -> (s: String) {
        proof { reveal_strlit("<#"); reveal_strlit(">"); }
        format_wrapped("<#", self.0, ">")
    }
}

/// Mentions of things that stand for a role.
pub trait RoleMarkupExt {
    spec fn markup_role(&self) -> RoleId;

    /// `<@&id>`
    fn mention(&self) -> (s: String)
        ensures
            s@ == role_mention_text(self.markup_role().0);
}

impl RoleMarkupExt for RoleId {
    open spec fn markup_role(&self) -> RoleId {
        *self
    }

    fn mention(&self) -> (s: String) {
        proof { reveal_strlit("<@&"); reveal_strlit(">"); }
        format_wrapped("<@&", self.0, ">")
    }
}

} // verus!
