use discorsd_games::channel::{raw_channel_type, ChannelType, Overwrite, OverwriteError, OverwriteType};
use discorsd_games::commands::{InfoCommand, LowLevelCommand, PingCommand, Reply, UnpinCommand, UnpinData, UptimeCommand};
use discorsd_games::emoji::{CustomEmoji, Emoji};
use discorsd_games::errors::{CommandParseError, CommandParseErrorInfo};
use discorsd_games::games::{AvalonError, GameError, GameType, HangmanError};
use discorsd_games::guild::{Permissions, PermissionsError, ADD_REACTIONS, SEND_MESSAGES};
use discorsd_games::ids::{ChannelId, CommandId, EmojiId, GuildId, MessageId, RoleId, UserId};
use discorsd_games::interaction::{
    is_valid_command_name, is_valid_description, is_valid_option_name, ApplicationCommandOptionType,
    CommandDataOption, DataOption, OptionValue, TopLevelOption,
};
use discorsd_games::utils::{hash_image, image_data_url, image_type_of, ImageHashError};
use discorsd_games::model::Embed;
use discorsd_games::outgoing::{InteractionMessage, WebhookMessage};

#[test]
fn uptime() {
    assert_eq!(UptimeCommand::duration(0), "0.0 seconds");
    assert_eq!(UptimeCommand::duration(1_500), "1.500 seconds");
    assert_eq!(UptimeCommand::duration(61_005), "1 minute, 1.5 seconds");
    assert_eq!(UptimeCommand::duration(2 * 86_400_000 + 3_600_000 + 2 * 60_000 + 7_042), "2 days, 1 hour, 2 minutes, 7.42 seconds");
    assert_eq!(UptimeCommand::duration(-1_500), "-1.-500 seconds");
}

#[test]
fn unpinning() {
    let pins = vec![MessageId(5), MessageId(4), MessageId(3), MessageId(2), MessageId(1)];
    assert_eq!(UnpinCommand::select(&pins, &UnpinData::All), pins);
    assert_eq!(UnpinCommand::select(&pins, &UnpinData::Recent { number: 2 }), vec![MessageId(5), MessageId(4)]);
    assert_eq!(UnpinCommand::select(&pins, &UnpinData::Recent { number: -2 }), vec![MessageId(3), MessageId(2), MessageId(1)]);
    assert_eq!(UnpinCommand::select(&pins, &UnpinData::Old { number: 2 }), vec![MessageId(2), MessageId(1)]);
    assert_eq!(UnpinCommand::select(&pins, &UnpinData::Old { number: -2 }), vec![MessageId(5), MessageId(4)]);
    assert_eq!(
        UnpinCommand::select(&pins, &UnpinData::Messages(vec![MessageId(4), MessageId(9)])),
        vec![MessageId(4)]
    );
    assert_eq!(
        UnpinCommand::select(&pins, &UnpinData::Exclude(vec![MessageId(4)])),
        vec![MessageId(5), MessageId(3), MessageId(2), MessageId(1)]
    );
    assert!(UnpinCommand::fits(&UnpinData::Recent { number: 5 }, 5));
    assert!(!UnpinCommand::fits(&UnpinData::Recent { number: 6 }, 5));
    assert!(!UnpinCommand::fits(&UnpinData::Old { number: -6 }, 5));
    assert_eq!(UnpinCommand::report(3, 0, "2s"), "\u{2705} Unpinned 3 messages in 2s \u{2705}");
    assert_eq!(UnpinCommand::report(0, 2, "2s"), "\u{274c} Failed to unpin 2 messages in 2s \u{274c}");
    assert_eq!(UnpinCommand::report(1, 2, "2s"), "Unpinned 1 of 3 messages in 2s");
}

#[test]
fn info() {
    assert_eq!(InfoCommand::permissions(), 0x1005_ac40);
    let url = InfoCommand::invite_url(UserId(99));
    assert!(url.starts_with("https://discord.com/oauth2/authorize?scope=applications.commands%20bot&client_id=99"));
    let e = InfoCommand::embed(UserId(99));
    assert_eq!(e.title.as_deref(), Some("Avalon Bot"));
}

#[test]
fn game_errors() {
    assert_eq!(GameType::Kittens.name(), "Exploding Kittens");
    assert_eq!(GameType::Coup.name(), "Coup");
    assert_eq!(
        AvalonError::TooManyPlayers(12).message(),
        "Too many players! 12 is more than the maximum number of players (10)."
    );
    assert_eq!(GameError::Avalon(AvalonError::Stopped).message(), "Game Already Over");
    assert_eq!(
        HangmanError::NoWords(ChannelId(2), Some(GuildId(1))).message(),
        "No suitable words found in https://discord.com/channels/1/2"
    );
    assert_eq!(
        GameError::Hangman(HangmanError::NoWords(ChannelId(2), None)).message(),
        "No suitable words found in https://discord.com/channels/@me/2"
    );
}

#[test]
fn images() {
    assert_eq!(image_type_of(Some("jpg")), Some("jpeg"));
    assert_eq!(image_type_of(Some("png")), Some("png"));
    assert_eq!(image_type_of(Some("bmp")), None);
    assert_eq!(image_type_of(None), None);
    assert_eq!(image_data_url("png", "AAAA"), "data:image/png;base64,AAAA");
    assert_eq!(hash_image(Some("gif"), &b"hello".to_vec()).unwrap(), "data:image/gif;base64,aGVsbG8=");
    assert!(matches!(hash_image(Some("txt"), &vec![1]), Err(ImageHashError::FileType)));
}

#[test]
fn permissions() {
    let p = Permissions::from_decimal("2112").unwrap();
    assert_eq!(p.bits, SEND_MESSAGES | ADD_REACTIONS);
    assert!(p.contains(Permissions::from_bits(ADD_REACTIONS).unwrap()));
    assert!(!Permissions::from_bits(ADD_REACTIONS).unwrap().contains(p));
    assert_eq!(Permissions::from_bits(ADD_REACTIONS).unwrap().union(Permissions::from_bits(SEND_MESSAGES).unwrap()), p);
    assert_eq!(Permissions::from_bits(1 << 40), None);
    assert_eq!(Permissions::from_decimal("abc"), Err(PermissionsError::NotANumber));
    assert_eq!(Permissions::from_decimal("1099511627776"), Err(PermissionsError::UnknownBits(1 << 40)));
}

#[test]
fn channels_from_raw_parts() {
    assert_eq!(raw_channel_type(r#"{"id":"1","type":4,"name":"x"}"#), Ok(4));
    assert_eq!(raw_channel_type(r#"{"nested":{"type":9},"type":1}"#), Ok(1));
    assert_eq!(raw_channel_type(r#"{"id":"1"}"#), Err(None));
    assert_eq!(raw_channel_type(r#"{"type":"x"}"#), Err(Some('"')));
    assert_eq!(ChannelType::from_code(5), Some(ChannelType::GuildNews));
    assert_eq!(ChannelType::from_code(7), None);
    assert_eq!(ChannelType::GuildStore.code(), 6);
    let o = Overwrite::from_raw(1, 7, "1024", "0").unwrap();
    assert_eq!(o.id, OverwriteType::Member(UserId(7)));
    assert_eq!((o.allow, o.deny), (1024, 0));
    assert_eq!(Overwrite::from_raw(0, 7, "1", "2").unwrap().id, OverwriteType::Role(RoleId(7)));
    assert_eq!(Overwrite::from_raw(2, 7, "1", "2").unwrap_err(), OverwriteError::BadType(2));
    assert_eq!(Overwrite::from_raw(0, 7, "x", "2").unwrap_err(), OverwriteError::BadAllow);
    assert_eq!(Overwrite::from_raw(0, 7, "1", "-2").unwrap_err(), OverwriteError::BadDeny);
}

#[test]
fn emoji_texts() {
    let custom = CustomEmoji::new(EmojiId(42), "blob".to_string());
    assert_eq!(custom.to_string(), "<:blob:42>");
    assert_eq!(custom.url(), "https://cdn.discordapp.com/emojis/42.png");
    let e = Emoji::Custom(custom);
    assert!(e.same_as(&Emoji::Custom(CustomEmoji::new(EmojiId(42), "other".to_string()))));
    let u = Emoji::Unicode { name: "🎉".to_string() };
    assert_eq!(u.as_reaction(), "🎉");
    assert!(u.url().is_none());
    assert!(!u.same_as(&e));
}

#[test]
fn command_names_and_options() {
    assert!(is_valid_command_name("start_game"));
    assert!(!is_valid_command_name("go"));
    assert!(!is_valid_command_name("has space"));
    assert!(is_valid_option_name("x"));
    assert!(!is_valid_description(""));
    assert!(is_valid_description("Does a thing"));
    let ok = vec![
        DataOption::User(CommandDataOption::new("who", "Who").required()),
        DataOption::Boolean(CommandDataOption::new("loud", "Loud").default()),
    ];
    assert!(TopLevelOption::are_valid_options(&ok));
    let late_required = vec![
        DataOption::Boolean(CommandDataOption::new("loud", "Loud")),
        DataOption::User(CommandDataOption::new("who", "Who").required()),
    ];
    assert!(!TopLevelOption::are_valid_options(&late_required));
    let repeated = vec![
        DataOption::Boolean(CommandDataOption::new("x", "X")),
        DataOption::User(CommandDataOption::new("x", "Y")),
    ];
    assert!(!TopLevelOption::are_valid_options(&repeated));
    let two_defaults = vec![
        DataOption::Boolean(CommandDataOption::new("a", "A").default()),
        DataOption::Boolean(CommandDataOption::new("b", "B").default()),
    ];
    assert!(!TopLevelOption::are_valid_options(&two_defaults));
}

#[test]
fn option_values() {
    assert_eq!(OptionValue::String("hi".to_string()).unwrap_string(), "hi");
    assert_eq!(OptionValue::Integer(-3).unwrap_int(), -3);
    assert!(OptionValue::Bool(true).unwrap_bool());
    assert_eq!(OptionValue::String("77".to_string()).unwrap_user(), UserId(77));
    assert_eq!(OptionValue::String("78".to_string()).unwrap_channel(), ChannelId(78));
    let e = OptionValue::Integer(1).parse_error(ApplicationCommandOptionType::Boolean);
    assert_eq!(e.desired, ApplicationCommandOptionType::Boolean);
    assert_eq!(ApplicationCommandOptionType::Role.code(), 8);
    assert_eq!(ApplicationCommandOptionType::from_code(1), Some(ApplicationCommandOptionType::SubCommand));
}

#[test]
fn parse_error_log_lines() {
    let info = CommandParseErrorInfo { id: CommandId(5), guild: GuildId(6), error: CommandParseError::MissingOption("x".to_string()) };
    assert_eq!(
        info.describe(Some(Some("Home")), Some(Some("start")), "MissingOption(\"x\")"),
        "Failed to parse command `start` (5) in guild `Home` (6): MissingOption(\"x\")"
    );
    assert_eq!(
        info.describe(Some(None), Some(None), "E"),
        "Failed to parse unknown command `5` in guild `null` (6): E"
    );
    assert_eq!(
        info.describe(None, None, "E"),
        "Failed to parse command `5` in unknown guild `6`, which has no commands: E"
    );
}

#[test]
fn low_level_replies_fit_in_messages() {
    assert_eq!(LowLevelCommand::reply_messages("a`b"), vec!["```rs\na\\`b```".to_string()]);
    assert!(LowLevelCommand::reply_messages("").is_empty());
    let long = "a".repeat(3000);
    let replies = LowLevelCommand::reply_messages(&long);
    assert_eq!(replies.len(), 2);
    assert_eq!(replies[0], format!("```rs\n{}```", "a".repeat(1991)));
    assert_eq!(replies[1], format!("```rs\n{}```", "a".repeat(1009)));
    let wide = format!("{}é", "a".repeat(1990));
    let replies = LowLevelCommand::reply_messages(&wide);
    assert_eq!(replies, vec![format!("```rs\n{}```", "a".repeat(1990)), "```rs\né```".to_string()]);
    for r in LowLevelCommand::reply_messages(&"é".repeat(2500)) {
        assert!(r.len() <= 2000);
    }
}

#[test]
fn uptime_and_ping_replies() {
    assert!(matches!(UptimeCommand::reply(None, None), Reply::Text(t) if t == "Not yet connected, somehow :/"));
    match UptimeCommand::reply(Some(90_061_001), Some(2_000)) {
        Reply::Card(e) => {
            assert_eq!(e.title.as_deref(), Some("1 day, 1 hour, 1 minute, 1.1 seconds"));
            assert_eq!(e.fields.len(), 1);
            assert_eq!(e.fields[0].name, "Time since last reconnect");
            assert_eq!(e.fields[0].value, "2.0 seconds");
        }
        Reply::Text(t) => panic!("{t}"),
    }
    match UptimeCommand::reply(Some(5), None) {
        Reply::Card(e) => assert!(e.fields.is_empty()),
        Reply::Text(t) => panic!("{t}"),
    }
    assert_eq!(PingCommand::pong().title.as_deref(), Some("Pong!"));
}

#[test]
fn messages_take_at_most_ten_embeds() {
    let mut m = InteractionMessage::new("hi".to_string());
    m.embeds((0..9).map(|_| Embed::new()).collect());
    assert!(m.try_embed(Embed::new()).is_ok());
    assert_eq!(m.embeds.len(), 10);
    let mut e = Embed::new();
    e.title = Some("eleventh".to_string());
    let back = m.try_embed(e).unwrap_err();
    assert_eq!(back.title.as_deref(), Some("eleventh"));
    assert_eq!(m.embeds.len(), 10);
    m.ephemeral();
    assert!(m.ephemeral);
    assert_eq!(m.content, "hi");

    let mut w = WebhookMessage::new();
    w.content("hello".to_string());
    w.username("bot".to_string());
    w.embed(Embed::new());
    assert_eq!(w.embeds.len(), 1);
    assert!(w.try_embed(Embed::new()).is_ok());
    assert_eq!((w.content.as_str(), w.username.as_deref()), ("hello", Some("bot")));
}

#[test]
fn base64_of_images() {
    assert_eq!(hash_image(Some("png"), &vec![255, 0, 62]).unwrap(), "data:image/png;base64,/wA+");
    assert_eq!(hash_image(Some("jpg"), &vec![]).unwrap(), "data:image/jpeg;base64,");
    assert_eq!(hash_image(Some("jpeg"), &b"hi".to_vec()).unwrap(), "data:image/jpeg;base64,aGk=");
}
