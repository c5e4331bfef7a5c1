use discorsd_games::cache::Cache;
use discorsd_games::channel::{Channel, ChannelType, TextChannel};
use discorsd_games::dispatch::{
    ChannelCreate, ChannelDelete, MessageCreate, MessageDelete, ReactionAdd, ReactionRemove, Ready, UserUpdate,
};
use discorsd_games::emoji::Emoji;
use discorsd_games::ids::{ChannelId, GuildId, MessageId, UserId};
use discorsd_games::message::{add_reaction, remove_reaction, retain_other_reactions, Message, MessageUpdate, Reaction};
use discorsd_games::model::User;
use discorsd_games::routes::Route;

fn user(id: u64, name: &str) -> User {
    User { id: UserId(id), username: name.to_string(), discriminator: "0001".to_string(), bot: false }
}

fn message(id: u64, channel: u64) -> Message {
    Message {
        id: MessageId(id),
        channel_id: ChannelId(channel),
        guild_id: None,
        author: user(2, "someone"),
        content: "hello".to_string(),
        timestamp: 0,
        edited_timestamp: None,
        tts: false,
        mention_everyone: false,
        mentions: vec![],
        mention_roles: vec![],
        reactions: vec![],
        nonce: None,
        pinned: false,
        webhook_id: None,
        message_type: 0,
    }
}

fn text_channel(id: u64, name: &str) -> TextChannel {
    TextChannel {
        id: ChannelId(id),
        guild_id: None,
        position: 0,
        permission_overwrites: vec![],
        name: name.to_string(),
        topic: None,
        nsfw: false,
        last_message_id: None,
        rate_limit_per_user: None,
        parent_id: None,
        last_pin_timestamp: None,
    }
}

fn emoji(name: &str) -> Emoji {
    Emoji::Unicode { name: name.to_string() }
}

#[test]
fn ready_and_user_update_set_the_bot_user() {
    let mut cache = Cache::new();
    Ready { v: 8, user: user(1, "bot"), guilds: vec![], session_id: "s".to_string(), shard: None }.update(&mut cache);
    assert_eq!(cache.user().username, "bot");
    UserUpdate { user: user(1, "renamed") }.update(&mut cache);
    assert_eq!(cache.user().username, "renamed");
    assert_eq!(Route::GetUser(UserId(1)).url(), "https://discord.com/api/v8/users/1");
}

#[test]
fn a_created_message_is_cached_until_deleted() {
    let mut cache = Cache::new();
    assert!(cache.message(MessageId(10)).is_none());
    MessageCreate { message: message(10, 3) }.update(&mut cache);
    assert_eq!(cache.message(MessageId(10)).unwrap().content, "hello");
    MessageDelete { id: MessageId(10), channel_id: ChannelId(3), guild_id: None }.update(&mut cache);
    assert!(cache.message(MessageId(10)).is_none());
}

#[test]
fn reactions_are_counted_on_cached_messages() {
    let mut cache = Cache::new();
    MessageCreate { message: message(10, 3) }.update(&mut cache);
    let add = |cache: &mut Cache, who: u64| ReactionAdd {
        user_id: UserId(who),
        channel_id: ChannelId(3),
        message_id: MessageId(10),
        guild_id: None,
        member: None,
        emoji: emoji("👍"),
    }
    .update(cache);
    add(&mut cache, 5);
    add(&mut cache, 6);
    let r = &cache.message(MessageId(10)).unwrap().reactions;
    assert_eq!(r.len(), 1);
    assert_eq!(r[0].count, 2);
    ReactionRemove {
        user_id: UserId(5),
        channel_id: ChannelId(3),
        message_id: MessageId(10),
        guild_id: None,
        emoji: emoji("👍"),
    }
    .update(&mut cache);
    assert_eq!(cache.message(MessageId(10)).unwrap().reactions[0].count, 1);
}

#[test]
fn created_channels_are_named_in_logs() {
    let mut cache = Cache::new();
    ChannelCreate { channel: Channel::Text(text_channel(3, "general")) }.update(&mut cache);
    assert_eq!(cache.channel(ChannelId(3)).unwrap().name, "general");
    assert_eq!(Route::PostMessage(ChannelId(3)).debug_with_cache(&cache), "Post Message `general`");
    assert_eq!(Channel::Text(text_channel(3, "general")).channel_type(), ChannelType::GuildText);
    ChannelDelete { channel: Channel::Text(text_channel(3, "general")) }.update(&mut cache);
    assert!(cache.channel(ChannelId(3)).is_none());
    assert_eq!(Route::PostMessage(ChannelId(3)).debug_with_cache(&cache), "Post Message `3`");
}

#[test]
fn the_bot_is_named_in_logs() {
    let mut cache = Cache::new();
    Ready { v: 8, user: user(1, "bot"), guilds: vec![], session_id: "s".to_string(), shard: None }.update(&mut cache);
    let r = Route::DeleteUserReaction(ChannelId(4), MessageId(5), emoji("x"), UserId(1));
    assert_eq!(r.debug_with_cache(&cache), "Delete User Reaction `4/5/x/bot`");
    let _ = GuildId(1);
}

#[test]
fn adding_then_removing_a_reaction_restores_it() {
    let mut rs = vec![Reaction { count: 3, me: false, emoji: emoji("a") }, Reaction { count: 1, me: true, emoji: emoji("b") }];
    add_reaction(&mut rs, emoji("a"), false);
    assert_eq!(rs[0].count, 4);
    remove_reaction(&mut rs, &emoji("a"), false);
    assert_eq!((rs[0].count, rs[0].me), (3, false));
    add_reaction(&mut rs, emoji("a"), true);
    assert!(rs[0].me);
    remove_reaction(&mut rs, &emoji("a"), true);
    assert_eq!((rs[0].count, rs[0].me), (3, false));
    // a new emoji is added with a count of one, and taking it back leaves it at zero
    add_reaction(&mut rs, emoji("c"), false);
    assert_eq!((rs.len(), rs[2].count), (3, 1));
    remove_reaction(&mut rs, &emoji("c"), false);
    assert_eq!((rs.len(), rs[2].count), (3, 0));
    retain_other_reactions(&mut rs, &emoji("c"));
    assert_eq!(rs.len(), 2);
    assert_eq!(rs[1].emoji.to_string(), "b");
}

fn full_update(message_type: Option<u8>) -> MessageUpdate {
    MessageUpdate {
        id: MessageId(7),
        channel_id: ChannelId(3),
        guild_id: None,
        author: Some(user(2, "someone")),
        content: Some("hi".to_string()),
        timestamp: Some(5),
        edited_timestamp: None,
        tts: None,
        mention_everyone: None,
        mentions: None,
        mention_roles: None,
        reactions: None,
        nonce: None,
        pinned: Some(true),
        webhook_id: None,
        message_type,
    }
}

#[test]
fn update_without_type_is_no_message() {
    assert!(full_update(None).into_message().is_none());
    let m = full_update(Some(19)).into_message().unwrap();
    assert_eq!(m.message_type, 19);
    assert_eq!(m.content, "hi");
    assert!(m.pinned);
    assert!(!m.tts);
    assert_eq!(m.id, MessageId(7));
}
