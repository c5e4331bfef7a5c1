use discorsd_games::dispatch::{ReactionType, ReactionUpdate};
use discorsd_games::emoji::Emoji;
use discorsd_games::cache::IdMap;
use discorsd_games::channel::{Channel, TextChannel};
use discorsd_games::games::HangmanError;
use discorsd_games::guild::{Guild, GuildInfo};
use discorsd_games::ids::snowflake_timestamp_millis;
use discorsd_games::hangman::{
    already_running, history_channel, history_probe, letters_only, no_game, pick_wordnik, start_error, word_error,
    word_from_messages, wordnik_url,
    ascii_art, letter_of, pick_word, regional_indicator, to_lowercase, word_candidates, word_source_link,
    wordnik_source, EndState, GuessCommand, GuessModal, Hangman, ART_LEN,
};
use discorsd_games::ids::{ChannelId, GuildId, MessageId, UserId};
use discorsd_games::model::{ChannelMessageId, Color, Token};

fn game(word: &str) -> Hangman {
    Hangman::new(ChannelId(5), word.to_string(), "https://www.wordnik.com/words/x".to_string())
}

#[test]
fn new_game_shows_blanks() {
    let g = game("tiger");
    assert_eq!(g.masked_word(), "_____");
    assert_eq!(g.revealed(), "_ _ _ _ _");
    let e = g.embed();
    assert_eq!(e.title.as_deref(), Some("The hangman is hungry!\n5 letter word."));
    assert_eq!(e.footer.as_deref(), Some("_ _ _ _ _\nReact with a letter to guess!"));
    let description = e.description.unwrap();
    assert!(description.starts_with("```\n+-------------+"));
    assert!(description.ends_with("\n```"));
}

#[test]
fn letter_guesses() {
    let mut g = game("letter");
    assert_eq!(g.guess_letter('t'), Some(EndState { win: false, lose: false }));
    assert_eq!(g.feedback, "Correct! There are 2 t's in the word.");
    assert_eq!(g.masked_word(), "__tt__");
    assert_eq!(g.guess_letter('l'), Some(EndState { win: false, lose: false }));
    assert_eq!(g.feedback, "Correct! There is 1 l in the word.");
    assert_eq!(g.guess_letter('z'), Some(EndState { win: false, lose: false }));
    assert_eq!(g.feedback, "There are no z's in the word.");
    assert_eq!(g.wrong, 1);
}

#[test]
fn guessing_a_guessed_letter_changes_nothing() {
    let mut g = game("apple");
    g.guess_letter('p');
    let before = (g.masked_word(), g.wrong, g.feedback.clone(), g.guesses.clone());
    assert_eq!(g.guess_letter('p'), None);
    assert_eq!((g.masked_word(), g.wrong, g.feedback.clone(), g.guesses.clone()), before);
}

#[test]
fn winning_and_losing_by_letters() {
    let mut g = game("aaa");
    assert_eq!(g.guess_letter('a'), Some(EndState { win: true, lose: false }));
    let mut g = game("abc");
    for (i, c) in ['q', 'w', 'e', 'r'].into_iter().enumerate() {
        assert_eq!(g.guess_letter(c), Some(EndState { win: false, lose: false }));
        assert_eq!(g.wrong, i + 1);
    }
    assert_eq!(g.guess_letter('t'), Some(EndState { win: false, lose: true }));
    assert_eq!(g.wrong, ART_LEN - 1);
}

#[test]
fn word_guesses() {
    let mut g = game("house");
    let r = g.guess_word("mouse");
    assert!(!r.win);
    assert_eq!(g.feedback, "Incorrect! \"mouse\" is not the word!");
    assert_eq!(g.wrong, 1);
    let r = g.guess_word("house");
    assert!(r.win);
    assert_eq!(g.feedback, "Correct! \"house\" is the word!");
    assert_eq!(g.masked_word(), "house");
}

#[test]
fn end_embeds() {
    let g = game("house");
    assert!(g.end_embed(EndState { win: false, lose: false }).is_none());
    let win = g.end_embed(EndState { win: true, lose: false }).unwrap();
    assert_eq!(win.title.as_deref(), Some("You win!"));
    assert_eq!(win.color, Some(Color::Gold));
    assert_eq!(win.description.as_deref(), Some("The word was house.\nhttps://www.wordnik.com/words/x"));
    let lose = g.end_embed(EndState { win: false, lose: true }).unwrap();
    assert_eq!(lose.title.as_deref(), Some("You lose and the hangman gets to eat"));
    assert_eq!(lose.color, Some(Color::Red));
}

#[test]
fn art_has_a_frame_per_wrong_guess() {
    let frames: Vec<&str> = (0..ART_LEN).map(ascii_art).collect();
    for i in 0..ART_LEN {
        assert!(frames[i].starts_with("+-------------+"));
        for j in 0..i {
            assert_ne!(frames[i], frames[j]);
        }
    }
    assert!(frames[ART_LEN - 1].contains('X'));
}

#[test]
fn regional_indicators() {
    assert_eq!(regional_indicator('a'), '\u{1F1E6}');
    assert_eq!(letter_of('\u{1F1E6}'), Some('a'));
    assert_eq!(letter_of(regional_indicator('q')), Some('q'));
    assert_eq!(letter_of('a'), None);
}

#[test]
fn questions_are_remembered_per_player() {
    let mut g = game("house");
    g.question_asked(UserId(1), MessageId(10));
    g.question_asked(UserId(2), MessageId(20));
    assert_eq!(g.question_withdrawn(UserId(1)), Some(MessageId(10)));
    assert_eq!(g.question_withdrawn(UserId(1)), None);
    assert_eq!(g.question_withdrawn(UserId(2)), Some(MessageId(20)));
}

#[test]
fn guess_reactions() {
    let command = GuessCommand(ChannelMessageId { channel: ChannelId(5), message: MessageId(9) }, Token(String::new()));
    let reaction = |kind, message, name: &str| ReactionUpdate {
        kind,
        user_id: UserId(1),
        channel_id: ChannelId(5),
        message_id: MessageId(message),
        guild_id: None,
        emoji: Emoji::Unicode { name: name.to_string() },
    };
    assert!(command.applies(&reaction(ReactionType::Add, 9, "\u{1F1E6}")));
    assert!(!command.applies(&reaction(ReactionType::Add, 8, "\u{1F1E6}")));
    assert!(!command.applies(&reaction(ReactionType::Add, 9, "x")));
    assert!(command.applies(&reaction(ReactionType::Add, 9, "\u{2753}")));
    assert!(command.applies(&reaction(ReactionType::Remove, 8, "\u{2753}")));
}

#[test]
fn illegal_characters_are_highlighted() {
    assert_eq!(GuessModal::illegal_characters("hello"), None);
    assert_eq!(
        GuessModal::illegal_characters("he11o!"),
        Some("Illegal characters highlighted: he**11**o**!**".to_string())
    );
}

#[test]
fn word_picking() {
    let content = "Hello there, a Wonderful day\tindeed\nok";
    assert_eq!(word_candidates(content), vec!["Hello".to_string(), "Wonderful".to_string(), "indeed".to_string()]);
    assert_eq!(to_lowercase("WonDerFul"), "wonderful");
    let w = pick_word(content).unwrap();
    assert!(["hello", "wonderful", "indeed"].contains(&w.as_str()));
    assert_eq!(pick_word("a bb ccc dddd"), None);
}

#[test]
fn sources() {
    assert_eq!(word_source_link(Some(GuildId(1)), ChannelId(2), MessageId(3)), "https://discord.com/channels/1/2/3");
    assert_eq!(word_source_link(None, ChannelId(2), MessageId(3)), "https://discord.com/channels/@me/2/3");
    assert_eq!(wordnik_source("tiger"), "https://www.wordnik.com/words/tiger");
}

#[test]
fn words_come_from_the_first_message_that_has_one() {
    let messages = vec![
        (MessageId(1), "hi all".to_string()),
        (MessageId(2), "Spectacular stuff".to_string()),
        (MessageId(3), "another message".to_string()),
    ];
    let (word, link) = word_from_messages(&messages, ChannelId(7), Some(GuildId(8))).unwrap();
    assert!(word == "spectacular" || word == "stuff");
    assert_eq!(link, "https://discord.com/channels/8/7/2");
    let none = vec![(MessageId(1), "hi".to_string())];
    assert_eq!(word_from_messages(&none, ChannelId(7), None).unwrap_err(), HangmanError::NoWords(ChannelId(7), None));
}

#[test]
fn history_probes_fall_in_the_channels_life() {
    let channel = ChannelId(175928847299117063);
    let created = snowflake_timestamp_millis(channel.0) / 1000;
    for _ in 0..20 {
        let m = history_probe(channel, created + 10);
        let at = snowflake_timestamp_millis(m.0) / 1000;
        assert!(created <= at && at < created + 10);
        assert_eq!(snowflake_timestamp_millis(m.0) % 1000, 0);
    }
    assert_eq!(snowflake_timestamp_millis(history_probe(channel, created + 1).0) / 1000, created);
}

#[test]
fn wordnik_words() {
    let words = vec!["co-op".to_string(), "apple".to_string(), "pear".to_string()];
    assert_eq!(pick_wordnik(&words), Some(("apple".to_string(), "https://www.wordnik.com/words/apple".to_string())));
    assert_eq!(pick_wordnik(&vec!["x1".to_string()]), None);
    assert_eq!(
        wordnik_url("KEY"),
        "https://api.wordnik.com/v4/words.json/randomWords?hasDictionaryDef=true&includePartOfSpeech=noun,adjective,verb,adverb,preposition&minLength=5&limit=100&api_key=KEY"
    );
}

fn info() -> GuildInfo {
    GuildInfo {
        name: Some("home".to_string()),
        icon: None,
        splash: None,
        discovery_splash: None,
        owner_id: UserId(1),
        permissions: None,
        region: "us".to_string(),
        afk_channel_id: None,
        afk_timeout: 0,
        widget_enabled: None,
        widget_channel_id: None,
        application_id: None,
        system_channel_id: None,
        rules_channel_id: None,
        max_presences: None,
        max_members: None,
        vanity_url_code: None,
        description: None,
        banner: None,
        premium_subscription_count: None,
        preferred_locale: None,
        public_updates_id_channel: None,
        max_video_channel_users: None,
        approximate_member_count: None,
        approximate_presence_count: None,
    }
}

fn text(id: u64) -> Channel {
    Channel::Text(TextChannel {
        id: ChannelId(id),
        guild_id: Some(GuildId(1)),
        position: 0,
        permission_overwrites: vec![],
        name: "general".to_string(),
        topic: None,
        nsfw: false,
        last_message_id: None,
        rate_limit_per_user: None,
        parent_id: None,
        last_pin_timestamp: None,
    })
}

#[test]
fn history_channels_are_text_channels() {
    let mut guild = Guild {
        id: GuildId(1),
        owner: false,
        info: info(),
        roles: IdMap::new(),
        emojis: IdMap::new(),
        channels: IdMap::new(),
        members: IdMap::new(),
        presences: IdMap::new(),
        voice_states: IdMap::new(),
    };
    assert_eq!(history_channel(&guild), None);
    guild.channels.insert(text(10));
    guild.channels.insert(text(11));
    for _ in 0..10 {
        let c = history_channel(&guild).unwrap();
        assert!(c == ChannelId(10) || c == ChannelId(11));
    }
}

#[test]
fn notices() {
    let e = already_running();
    assert_eq!(e.title.as_deref(), Some("Hangman is already running in this channel"));
    assert_eq!(e.description.as_deref(), Some("If the Hangman message has been deleted, press the button to re-start the game"));
    assert_eq!(e.color, Some(Color::Red));
    assert_eq!(word_error("boom").description.as_deref(), Some("boom"));
    assert_eq!(word_error("boom").title.as_deref(), Some("Error getting word!"));
    assert_eq!(start_error("x").title.as_deref(), Some("Error starting Hangman!"));
    assert_eq!(no_game().title.as_deref(), Some("No Hangman in this channel :("));
    assert!(no_game().description.is_none());
    assert!(letters_only("abc").is_none());
    let e = letters_only("a b").unwrap();
    assert_eq!(e.title.as_deref(), Some("You can only guess letters"));
    assert_eq!(e.description.as_deref(), Some("Illegal characters highlighted: a** **b"));
}
