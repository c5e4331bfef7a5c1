//! Emoji: Discord's own unicode ones, and the custom ones a guild uploads.

use vstd::prelude::*;

use crate::ids::{EmojiId, Id, RoleId};
use crate::model::User;
use crate::text::{decimal, push_char, u64_to_string};

verus! {

/// An emoji as used in a reaction or a message.
#[derive(Debug, Clone)]
pub enum Emoji {
    Custom(CustomEmoji),
    Unicode { name: String },
}

/// An emoji uploaded to a guild.
#[derive(Debug, Clone)]
pub struct CustomEmoji {
    /// emoji id
    pub id: EmojiId,
    /// emoji name
    pub name: String,
    /// roles this emoji is whitelisted to
    pub roles: Vec<RoleId>,
    /// user that created this emoji
    pub user: Option<User>,
    /// whether this emoji must be wrapped in colons
    pub require_colons: bool,
    /// whether this emoji is managed
    pub managed: bool,
    /// whether this emoji is animated
    pub animated: bool,
    /// whether this emoji can be used, may be false due to loss of Server Boosts
    pub available: bool,
}

/// `<a:name:id>` for an animated emoji, `<:name:id>` otherwise: how a message writes it.
pub open spec fn custom_markup(animated: bool, name: Seq<char>, id: u64) -> Seq<char> {
    seq!['<'] + (if animated { seq!['a'] } else { Seq::empty() }) + seq![':'] + name + seq![':']
        + decimal(id as nat) + seq!['>']
}

/// Where Discord serves the picture of a custom emoji.
pub open spec fn custom_url(animated: bool, id: u64) -> Seq<char> {
    "https://cdn.discordapp.com/emojis/"@ + decimal(id as nat) + seq!['.']
        + (if animated { "gif"@ } else { "png"@ })
}

/// How an emoji is written in a reaction request and in a message.
pub open spec fn reaction_text(e: Emoji) -> Seq<char> {
    match e {
        Emoji::Custom(c) => custom_markup(c.animated, c.name@, c.id.0),
        Emoji::Unicode { name } => name@,
    }
}

impl CustomEmoji {
    /// A custom emoji with nothing but its id and name set.
    pub fn new(id: EmojiId, name: String) -> (e: Self)
        ensures
            e.id == id,
            e.name == name,
            e.roles@.len() == 0,
            e.user.is_none(),
            !e.require_colons,
            !e.managed,
            !e.animated,
            !e.available,
    {
        CustomEmoji {
            id,
            name,
            roles: Vec::new(),
            user: None,
            require_colons: false,
            managed: false,
            animated: false,
            available: false,
        }
    }

    /// The url of the picture: a `.gif` when animated, else a `.png`.
    pub fn url(&self) -> (s: String)
        ensures
            s@ == custom_url(self.animated, self.id.0),
    {
        let mut s = String::from_str("https://cdn.discordapp.com/emojis/");
        let id = u64_to_string(self.id.0);
        s.append(id.as_str());
        push_char(&mut s, '.');
        if self.animated {
            s.append("gif");
        } else {
            s.append("png");
        }
        s
    }

    /// How a message writes this emoji.
    pub fn to_string(&self) -> (s: String)
        ensures
            s@ == custom_markup(self.animated, self.name@, self.id.0),
    {
        let mut s = String::new();
        push_char(&mut s, '<');
        if self.animated {
            push_char(&mut s, 'a');
        }
        push_char(&mut s, ':');
        s.append(self.name.as_str());
        push_char(&mut s, ':');
        let id = u64_to_string(self.id.0);
        s.append(id.as_str());
        push_char(&mut s, '>');
        proof {
            if self.animated {
                assert(s@ =~= custom_markup(self.animated, self.name@, self.id.0));
            } else {
                assert(s@ =~= custom_markup(self.animated, self.name@, self.id.0));
            }
        }
        s
    }
}

impl Id for CustomEmoji {
    type Id = EmojiId;

    open spec fn spec_id(&self) -> EmojiId {
        self.id
    }

    fn id(&self) -> (i: EmojiId) {
        self.id
    }
}

impl Emoji {
    /// The url of the picture of a custom emoji; `None` for a unicode emoji.
    pub fn url(&self) -> (s: Option<String>)
        ensures
            match self {
                Emoji::Custom(c) => s matches Some(u) && u@ == custom_url(c.animated, c.id.0),
                Emoji::Unicode { .. } => s.is_none(),
            },
    {
        match self {
            Emoji::Custom(custom) => Some(custom.url()),
            Emoji::Unicode { .. } => None,
        }
    }

    /// How a reaction request names this emoji.
    pub fn as_reaction(&self) -> (s: String)
        ensures
            s@ == reaction_text(*self),
    {
        match self {
            Emoji::Custom(c) => c.to_string(),
            Emoji::Unicode { name } => name.clone(),
        }
    }

    /// The custom emoji, if this is one.
    pub fn as_custom(&self) -> (c: Option<&CustomEmoji>)
        ensures
            match self {
                Emoji::Custom(e) => c matches Some(r) && *r == e,
                Emoji::Unicode { .. } => c.is_none(),
            },
    {
        match self {
            Emoji::Custom(c) => Some(c),
            Emoji::Unicode { .. } => None,
        }
    }

    /// The name of a unicode emoji; `None` for a custom one.
    pub fn as_unicode(&self) -> (s: Option<&str>)
        ensures
            match self {
                Emoji::Custom(_) => s.is_none(),
                Emoji::Unicode { name } => s matches Some(r) && r@ == name@,
            },
    {
        match self {
            Emoji::Custom(_) => None,
            Emoji::Unicode { name } => Some(name.as_str()),
        }
    }

    /// How a message writes this emoji.
    pub fn to_string(&self) -> (s: String)
        ensures
            s@ == reaction_text(*self),
    {
        self.as_reaction()
    }

    /// Whether two emoji are the same one: custom emoji by their id, unicode ones by their
    /// text.
    pub fn same_as(&self, other: &Emoji) -> (b: bool)
        ensures
            b == same_emoji(*self, *other),
    {
        match (self, other) {
            (Emoji::Custom(a), Emoji::Custom(b)) => a.id.0 == b.id.0,
            (Emoji::Unicode { name: a }, Emoji::Unicode { name: b }) => a.eq(b),
            _ => false,
        }
    }
}

/// Two emoji are the same one: custom emoji by their id, unicode ones by their text.
pub open spec fn same_emoji(a: Emoji, b: Emoji) -> bool {
    match (a, b) {
        (Emoji::Custom(x), Emoji::Custom(y)) => x.id == y.id,
        (Emoji::Unicode { name: x }, Emoji::Unicode { name: y }) => x@ == y@,
        _ => false,
    }
}

} // verus!
