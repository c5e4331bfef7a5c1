//! The messages the bot sends: as the answer to an interaction, and through an interaction's
//! webhook. Discord takes at most ten embeds in one message.

use vstd::prelude::*;

use crate::model::Embed;

verus! {

/// The most embeds one message may carry.
pub const MAX_EMBEDS: usize = 10;

/// A message that answers an interaction.
#[derive(Debug, Clone)]
pub struct InteractionMessage {
    /// whether the message is read aloud
    pub tts: bool,
    /// the message's text
    pub content: String,
    /// up to ten embeds
    pub embeds: Vec<Embed>,
    /// whether only the user of the interaction sees the message
    pub ephemeral: bool,
}

impl InteractionMessage {
    /// A message with this text and nothing else.
    pub fn new(content: String) -> (m: Self)
        ensures
            m.content == content,
            !m.tts,
            m.embeds@.len() == 0,
            !m.ephemeral,
    {
        InteractionMessage { tts: false, content, embeds: Vec::new(), ephemeral: false }
    }

    /// Adds these embeds after those the message has; there may be no more than ten in all.
    pub fn embeds(&mut self, embeds: Vec<Embed>)
        requires
            old(self).embeds@.len() + embeds@.len() <= MAX_EMBEDS,
        ensures
            *final(self) == (InteractionMessage { embeds: final(self).embeds, ..*old(self) }),
            final(self).embeds@ == old(self).embeds@ + embeds@,
    {
        let mut embeds = embeds;
        self.embeds.append(&mut embeds);
    }

    /// Adds an embed, which must not be the eleventh.
    pub fn embed(&mut self, embed: Embed)
        requires
            old(self).embeds@.len() < MAX_EMBEDS,
        ensures
            *final(self) == (InteractionMessage { embeds: final(self).embeds, ..*old(self) }),
            final(self).embeds@ == old(self).embeds@.push(embed),
    {
        self.embeds.push(embed);
    }

    /// Adds an embed if the message has room for it; hands it back, the message unchanged,
    /// when it already has ten.
    pub fn try_embed(&mut self, embed: Embed) -> (r: Result<(), Embed>)
        ensures
            old(self).embeds@.len() < MAX_EMBEDS ==> r is Ok
                && *final(self) == (InteractionMessage { embeds: final(self).embeds, ..*old(self) })
                && final(self).embeds@ == old(self).embeds@.push(embed),
            old(self).embeds@.len() >= MAX_EMBEDS ==> r == Err::<(), Embed>(embed) && *final(self) == *old(self),
    {
        if self.embeds.len() >= MAX_EMBEDS {
            Err(embed)
        } else {
            self.embeds.push(embed);
            Ok(())
        }
    }

    /// Sets the message's text.
    pub fn content(&mut self, content: String)
        ensures
            *final(self) == (InteractionMessage { content, ..*old(self) }),
    {
        self.content = content;
    }

    /// Makes the message seen only by the user of the interaction.
    pub fn ephemeral(&mut self)
        ensures
            *final(self) == (InteractionMessage { ephemeral: true, ..*old(self) }),
    {
        self.ephemeral = true;
    }
}

/// A message sent through an interaction's webhook, as its followups are.
#[derive(Debug, Clone)]
pub struct WebhookMessage {
    /// the message's text
    pub content: String,
    /// the name shown in place of the webhook's
    pub username: Option<String>,
    /// the avatar shown in place of the webhook's
    pub avatar_url: Option<String>,
    /// whether the message is read aloud
    pub tts: bool,
    /// up to ten embeds
    pub embeds: Vec<Embed>,
    /// whether only the user of the interaction sees the message
    pub ephemeral: bool,
}

impl WebhookMessage {
    /// A message with nothing set.
    pub fn new() -> (m: Self)
        ensures
            m.content@.len() == 0,
            m.username.is_none(),
            m.avatar_url.is_none(),
            !m.tts,
            m.embeds@.len() == 0,
            !m.ephemeral,
    {
        WebhookMessage {
            content: String::new(),
            username: None,
            avatar_url: None,
            tts: false,
            embeds: Vec::new(),
            ephemeral: false,
        }
    }

    /// Sets the message's text.
    pub fn content(&mut self, content: String)
        ensures
            *final(self) == (WebhookMessage { content, ..*old(self) }),
    {
        self.content = content;
    }

    /// Shows this name in place of the webhook's.
    pub fn username(&mut self, username: String)
        ensures
            *final(self) == (WebhookMessage { username: Some(username), ..*old(self) }),
    {
        self.username = Some(username);
    }

    /// Shows this avatar in place of the webhook's.
    pub fn avatar_url(&mut self, avatar_url: String)
        ensures
            *final(self) == (WebhookMessage { avatar_url: Some(avatar_url), ..*old(self) }),
    {
        self.avatar_url = Some(avatar_url);
    }

    /// Makes the message seen only by the user of the interaction.
    pub fn ephemeral(&mut self)
        ensures
            *final(self) == (WebhookMessage { ephemeral: true, ..*old(self) }),
    {
        self.ephemeral = true;
    }

    /// Adds these embeds after those the message has; there may be no more than ten in all.
    pub fn embeds(&mut self, embeds: Vec<Embed>)
        requires
            old(self).embeds@.len() + embeds@.len() <= MAX_EMBEDS,
        ensures
            *final(self) == (WebhookMessage { embeds: final(self).embeds, ..*old(self) }),
            final(self).embeds@ == old(self).embeds@ + embeds@,
    {
        let mut embeds = embeds;
        self.embeds.append(&mut embeds);
    }

    /// Adds an embed, which must not be the eleventh.
    pub fn embed(&mut self, embed: Embed)
        requires
            old(self).embeds@.len() < MAX_EMBEDS,
        ensures
            *final(self) == (WebhookMessage { embeds: final(self).embeds, ..*old(self) }),
            final(self).embeds@ == old(self).embeds@.push(embed),
    {
        self.embeds.push(embed);
    }

    /// Adds an embed if the message has room for it; hands it back, the message unchanged,
    /// when it already has ten.
    pub fn try_embed(&mut self, embed: Embed) -> (r: Result<(), Embed>)
        ensures
            old(self).embeds@.len() < MAX_EMBEDS ==> r is Ok
                && *final(self) == (WebhookMessage { embeds: final(self).embeds, ..*old(self) })
                && final(self).embeds@ == old(self).embeds@.push(embed),
            old(self).embeds@.len() >= MAX_EMBEDS ==> r == Err::<(), Embed>(embed) && *final(self) == *old(self),
    {
        if self.embeds.len() >= MAX_EMBEDS {
            Err(embed)
        } else {
            self.embeds.push(embed);
            Ok(())
        }
    }
}

} // verus!
