use discorsd_games::cache::Cache;
use discorsd_games::emoji::Emoji;
use discorsd_games::ids::{ApplicationId, ChannelId, CommandId, GuildId, InteractionId, MessageId, UserId};
use discorsd_games::rate_limit::{
    parse_u32, response_failure, warns_on_retry, BucketKey, Failure, RateLimit, RateLimiter,
};
use discorsd_games::routes::Route;

fn thumbs() -> Emoji {
    Emoji::Unicode { name: "👍".to_string() }
}

#[test]
fn urls() {
    assert_eq!(Route::GetGateway.url(), "https://discord.com/api/v8/gateway/bot");
    assert_eq!(Route::GetChannel(ChannelId(5)).url(), "https://discord.com/api/v8/channels/5");
    assert_eq!(
        Route::CreateReaction(ChannelId(1), MessageId(2), thumbs()).url(),
        "https://discord.com/api/v8/channels/1/messages/2/reactions/👍/@me"
    );
    assert_eq!(
        Route::EditGuildCommand(ApplicationId(1), GuildId(2), CommandId(3)).url(),
        "https://discord.com/api/v8/applications/1/guilds/2/commands/3"
    );
    assert_eq!(
        Route::CreateInteractionResponse(InteractionId(9), "tok".to_string()).url(),
        "https://discord.com/api/v8/interactions/9/tok/callback"
    );
    assert_eq!(
        Route::EditInteractionResponse(ApplicationId(4), "tok".to_string()).url(),
        "https://discord.com/api/v8/webhooks/4/tok/messages/@original"
    );
    assert_eq!(Route::CreateDm.url(), "https://discord.com/api/v8/users/@me/channels");
}

#[test]
fn debug_names_from_an_empty_cache() {
    let cache = Cache::new();
    assert_eq!(Route::GetGateway.debug_with_cache(&cache), "Get Gateway");
    assert_eq!(Route::PostMessage(ChannelId(7)).debug_with_cache(&cache), "Post Message `7`");
    assert_eq!(
        Route::DeleteUserReaction(ChannelId(7), MessageId(8), thumbs(), UserId(9)).debug_with_cache(&cache),
        "Delete User Reaction `7/8/👍/9`"
    );
    assert_eq!(
        Route::GetGuildCommands(ApplicationId(1), GuildId(3)).debug_with_cache(&cache),
        "Get Guild Commands `3`"
    );
}

#[test]
fn buckets() {
    assert_eq!(BucketKey::of(&Route::PinMessage(ChannelId(1), MessageId(2))), BucketKey::PinMessage(ChannelId(1)));
    assert_eq!(
        BucketKey::of(&Route::PinMessage(ChannelId(1), MessageId(3))),
        BucketKey::of(&Route::PinMessage(ChannelId(1), MessageId(2)))
    );
    assert_ne!(BucketKey::of(&Route::GetMessage(ChannelId(1), MessageId(2))), BucketKey::GetMessage(ChannelId(2)));
    assert_eq!(BucketKey::of(&Route::GetUser(UserId(5))), BucketKey::GetUser);
}

#[test]
fn limits() {
    assert_eq!(RateLimit { remaining: Some(2), reset: Some(100) }.limit(50), None);
    assert_eq!(RateLimit { remaining: Some(0), reset: Some(100) }.limit(50), Some(50));
    assert_eq!(RateLimit { remaining: Some(0), reset: Some(100) }.limit(150), Some(0));
    assert_eq!(RateLimit { remaining: Some(0), reset: None }.limit(150), Some(0));
    assert_eq!(RateLimit { remaining: None, reset: Some(100) }.limit(50), None);
}

#[test]
fn a_spent_bucket_waits_for_its_reset() {
    let key = BucketKey::PostMessage(ChannelId(1));
    let mut limiter = RateLimiter::new();
    assert_eq!(limiter.rate_limit(&key, 0), None);
    limiter.update(key, Some("3"), Some(1000), 10);
    assert_eq!(limiter.rate_limit(&key, 10), None);
    limiter.update(key, Some("0"), Some(500), 20);
    assert_eq!(limiter.rate_limit(&key, 20), Some(500));
    assert_eq!(limiter.rate_limit(&key, 520), Some(0));
    assert_eq!(limiter.rate_limit(&BucketKey::PostMessage(ChannelId(2)), 20), None);
    // a report without numbers keeps what was known
    limiter.update(key, None, None, 30);
    assert_eq!(limiter.rate_limit(&key, 20), Some(500));
}

#[test]
fn failures() {
    assert_eq!(response_failure(200), None);
    assert_eq!(response_failure(404), Some(Failure::Permanent));
    assert_eq!(response_failure(429), Some(Failure::Transient));
    assert_eq!(response_failure(503), Some(Failure::Permanent));
    assert!(!warns_on_retry(Some(429), &Route::CreateReaction(ChannelId(1), MessageId(2), thumbs())));
    assert!(warns_on_retry(Some(429), &Route::GetGateway));
    assert!(warns_on_retry(Some(500), &Route::CreateReaction(ChannelId(1), MessageId(2), thumbs())));
    assert_eq!(parse_u32("4294967295"), Some(u32::MAX));
    assert_eq!(parse_u32("4294967296"), None);
}

#[test]
fn urls_name_their_arguments_and_share_objects() {
    let e = Emoji::Unicode { name: "✅".to_string() };
    let r = Route::DeleteUserReaction(ChannelId(11), MessageId(22), e.clone(), UserId(33));
    let u = r.url();
    assert!(u.starts_with("https://discord.com/api/v8/"));
    assert!(u.contains("11") && u.contains("22") && u.contains("33") && u.contains(&e.as_reaction()));
    let c = ChannelId(1);
    let m = MessageId(2);
    assert_eq!(Route::PinMessage(c, m).url(), Route::UnpinMessage(c, m).url());
    assert_eq!(Route::GetMessage(c, m).url(), Route::DeleteMessage(c, m).url());
    assert_eq!(Route::CreateReaction(c, m, e.clone()).url(), Route::DeleteOwnReaction(c, m, e).url());
    assert_eq!(
        Route::EditInteractionResponse(ApplicationId(5), "tok".to_string()).url(),
        Route::DeleteInteractionResponse(ApplicationId(5), "tok".to_string()).url()
    );
}

#[test]
fn buckets_ignore_minor_parameters() {
    assert_eq!(BucketKey::of(&Route::PinMessage(ChannelId(1), MessageId(2))), BucketKey::of(&Route::PinMessage(ChannelId(1), MessageId(3))));
    assert_ne!(BucketKey::of(&Route::PinMessage(ChannelId(1), MessageId(2))), BucketKey::of(&Route::PinMessage(ChannelId(4), MessageId(2))));
    assert_ne!(BucketKey::of(&Route::PinMessage(ChannelId(1), MessageId(2))), BucketKey::of(&Route::UnpinMessage(ChannelId(1), MessageId(2))));
    assert_eq!(
        BucketKey::of(&Route::EditGuildCommand(ApplicationId(1), GuildId(2), CommandId(3))),
        BucketKey::of(&Route::EditGuildCommand(ApplicationId(9), GuildId(2), CommandId(8)))
    );
    assert_eq!(BucketKey::of(&Route::GetUser(UserId(1))), BucketKey::of(&Route::GetUser(UserId(2))));
}
