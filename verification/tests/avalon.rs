use discorsd_games::avalon::boards::{all_pictures, quest_position, reject_position, BoardImage, Placement, TokenKind};
use discorsd_games::avalon::game::board_fname;
use discorsd_games::avalon::characters::{max_evil, AvalonPlayer, Character, Loyalty, Round, Rounds};
use discorsd_games::avalon::config::AvalonConfig;
use discorsd_games::avalon::game::{AvalonGame, AvalonState, EndRound, Vote};
use discorsd_games::avalon::assassinate::{AssassinateCommand, AssassinateData, Assassination};
use discorsd_games::avalon::quest::{errors_message, list_party, not_leader, party_vote_dm, QuestData, QuestUserError};
use discorsd_games::avalon::roles::{apply_roles, RoleData};
use discorsd_games::avalon::setup::Role;
use discorsd_games::avalon::vote::{
    party_result_embed, quest_dm, quest_result_embed, recount_votes, record_vote, vote_delta, PartyResult, QuestResult,
};
use discorsd_games::dispatch::ReactionType;
use discorsd_games::emoji::Emoji;
use discorsd_games::ids::{ChannelId, MessageId, UserId};
use discorsd_games::model::{Color, GuildMember, User};

fn member(id: u64) -> GuildMember {
    GuildMember {
        user: User { id: UserId(id), username: format!("p{id}"), discriminator: "0001".to_string(), bot: false },
        nick: None,
        roles: vec![],
        joined_at: 0,
        premium_since: None,
        deaf: false,
        mute: false,
    }
}

fn players(n: u64) -> Vec<AvalonPlayer> {
    (1..=n).map(|i| AvalonPlayer { member: member(i), role: Character::LoyalServant }).collect()
}

#[test]
fn evil_limits() {
    assert_eq!(max_evil(4), None);
    assert_eq!(max_evil(5), Some(2));
    assert_eq!(max_evil(6), Some(2));
    assert_eq!(max_evil(7), Some(3));
    assert_eq!(max_evil(9), Some(3));
    assert_eq!(max_evil(10), Some(4));
    assert_eq!(max_evil(11), None);
}

#[test]
fn quest_sizes() {
    assert_eq!(Rounds(5).get(1), Round { players: 2, fails: 1 });
    assert_eq!(Rounds(6).get(3), Round { players: 4, fails: 1 });
    assert_eq!(Rounds(7).get(4), Round { players: 4, fails: 2 });
    assert_eq!(Rounds(10).get(5), Round { players: 5, fails: 1 });
    assert_eq!(Rounds(5).get(4), Round { players: 3, fails: 1 });
}

#[test]
fn characters() {
    assert_eq!(Character::Merlin.loyalty(), Loyalty::Good);
    assert_eq!(Character::Percival.loyalty(), Loyalty::Good);
    assert_eq!(Character::Mordred.loyalty(), Loyalty::Evil);
    assert_eq!(Character::MinionOfMordred.name(), "Minion of Mordred");
    assert_eq!(Role::Merlin.character(), Character::Merlin);
    assert_eq!(Role::characters(&vec![Role::Assassin, Role::Mordred]), vec![Character::Assassin, Character::Mordred]);
}

#[test]
fn setup_checks_the_evil_count() {
    let mut config = AvalonConfig { players: (1..=5).map(member).collect(), roles: vec![], lotl: false, message: None };
    config.roles = vec![Character::Merlin, Character::Assassin, Character::Morgana];
    assert_eq!(config.num_evil(), 2);
    assert_eq!(config.max_evil(), Some(2));
    assert!(config.startable());
    config.roles.push(Character::Mordred);
    assert!(!config.startable());
    config.players.truncate(3);
    assert!(!config.startable());
}

#[test]
fn roles_are_added_once_and_removed() {
    let mut roles = vec![Character::Merlin];
    assert!(apply_roles(&mut roles, RoleData::Add(vec![Character::Merlin, Character::Percival])));
    assert_eq!(roles, vec![Character::Merlin, Character::Percival]);
    assert!(!apply_roles(&mut roles, RoleData::Add(vec![Character::Percival])));
    assert!(apply_roles(&mut roles, RoleData::Remove(vec![Character::Merlin])));
    assert_eq!(roles, vec![Character::Percival]);
    assert!(!apply_roles(&mut roles, RoleData::Remove(vec![Character::Merlin])));
    assert!(apply_roles(&mut roles, RoleData::Clear));
    assert!(roles.is_empty());
}

#[test]
fn games_start_with_the_first_leader() {
    let g = AvalonGame::new(ChannelId(1), players(5), None);
    assert_eq!(g.leader, 0);
    assert_eq!(g.round, 1);
    assert_eq!(g.round(), Round { players: 2, fails: 1 });
    assert_eq!(g.position(UserId(3)), Some(2));
    assert_eq!(g.position(UserId(9)), None);
    let mut leader = 4;
    AvalonGame::advance_leader(&mut leader, 5);
    assert_eq!(leader, 0);
}

#[test]
fn parties_are_validated() {
    let ps = players(5);
    assert_eq!(QuestData(vec![UserId(2), UserId(1)]).validate(&ps).unwrap(), vec![UserId(2), UserId(1)]);
    let errs = QuestData(vec![UserId(2), UserId(9)]).validate(&ps).unwrap_err();
    assert_eq!(errs, vec![(UserId(9), QuestUserError::NotPlaying)]);
    let errs = QuestData(vec![UserId(2), UserId(2)]).validate(&ps).unwrap_err();
    assert_eq!(errs, vec![(UserId(2), QuestUserError::Duplicate)]);
    assert_eq!(
        errors_message(2, &vec![(UserId(9), QuestUserError::NotPlaying)]),
        "__You must choose 2 different people__\n<@9> is not playing Avalon."
    );
    assert_eq!(list_party(&vec![UserId(1), UserId(2), UserId(3)]), "<@1>, <@2>, and <@3>");
}

#[test]
fn votes_are_counted() {
    let yes = Emoji::Unicode { name: "✅".to_string() };
    assert_eq!(vote_delta(&yes, ReactionType::Add, '✅', '❌'), Some(1));
    assert_eq!(vote_delta(&yes, ReactionType::Remove, '✅', '❌'), Some(-1));
    assert_eq!(vote_delta(&Emoji::Unicode { name: "x".to_string() }, ReactionType::Add, '✅', '❌'), Some(0));
    let mut votes = vec![
        Vote { message: MessageId(1), user: UserId(1), vote: 0 },
        Vote { message: MessageId(2), user: UserId(2), vote: 0 },
    ];
    assert!(!record_vote(&mut votes, MessageId(1), UserId(1), 1));
    assert!(record_vote(&mut votes, MessageId(2), UserId(2), -1));
    assert_eq!((votes[0].vote, votes[1].vote), (1, -1));
    assert!(!record_vote(&mut votes, MessageId(2), UserId(2), 1));
}

#[test]
fn board_pictures() {
    let pictures = all_pictures(5);
    assert_eq!(pictures.len(), 134);
    assert_eq!(board_fname(pictures[0].players, &pictures[0].rounds, pictures[0].rejects), "5");
    assert_eq!(board_fname(pictures[3].players, &pictures[3].rounds, pictures[3].rejects), "5RRR");
    let mut names: Vec<String> = pictures.iter().map(|p| board_fname(p.players, &p.rounds, p.rejects)).collect();
    names.sort();
    names.dedup();
    assert_eq!(names.len(), 134);
    assert!(names.contains(&"5GGEER".to_string()));
    assert!(names.contains(&"5EEGGE".to_string()));
    assert!(!names.contains(&"5GGGR".to_string()));
    assert_eq!(quest_position(5, 1), (45, 583));
    assert_eq!(reject_position(10, 5), (1174, 1098));
    let p = BoardImage { players: 6, rounds: vec![true, false], rejects: 2 };
    assert_eq!(
        p.tokens(),
        vec![
            Placement { kind: TokenKind::Good, x: 68, y: 540 },
            Placement { kind: TokenKind::Evil, x: 440, y: 540 },
            Placement { kind: TokenKind::Reject, x: 376, y: 1091 },
        ]
    );
}

#[test]
fn end_of_round_announcements() {
    let roles = [Character::Merlin, Character::Assassin, Character::LoyalServant, Character::Morgana, Character::Percival];
    let ps: Vec<AvalonPlayer> = (1..=5u64)
        .zip(roles)
        .map(|(i, role)| AvalonPlayer { member: member(i), role })
        .collect();
    let mut g = AvalonGame::new(ChannelId(1), ps, Some(2));
    let a = g.announcement(EndRound::Assassinate(1)).unwrap();
    assert_eq!(a.content.as_deref(), Some("<@!2>"));
    assert_eq!(
        a.embed.title.as_deref(),
        Some("The good guys have succeeded three quests, but the Assassin can still try to kill Merlin")
    );
    let fields: Vec<(String, String, bool)> = a.embed.fields.iter().map(|f| (f.name.clone(), f.value.clone(), f.inline)).collect();
    assert_eq!(fields, vec![("p2".to_string(), "Assassin".to_string(), true), ("p4".to_string(), "Morgana".to_string(), true)]);
    let good = g.announcement(EndRound::GoodWin).unwrap();
    assert_eq!((good.embed.title.as_deref(), good.embed.color), (Some("The good guys win!"), Some(Color::Blue)));
    let evil = g.announcement(EndRound::EvilWin).unwrap();
    assert_eq!((evil.embed.title.as_deref(), evil.embed.color), (Some("The bad guys win!"), Some(Color::Red)));
    let lady = g.announcement(EndRound::Lotl(2)).unwrap();
    assert_eq!(lady.content.as_deref(), Some("<@!3>"));
    assert_eq!(lady.embed.title.as_deref(), Some("Now p3 will use the Lady of the Lake to find someone's alignment"));
    assert!(g.announcement(EndRound::NextRound).is_none());

    // the rounds: two for good, then the Lady of the Lake after round two
    g.good_won = vec![true];
    assert_eq!(g.end_round(), EndRound::NextRound);
    assert_eq!((g.round, g.leader), (2, 1));
    g.good_won = vec![true, true];
    assert_eq!(g.end_round(), EndRound::Lotl(2));
    g.good_won = vec![true, true, true];
    assert_eq!(g.end_round(), EndRound::Assassinate(1));
    g.good_won = vec![false, false, true, false];
    assert_eq!(g.end_round(), EndRound::EvilWin);
}

#[test]
fn quest_announcements() {
    let g = AvalonGame::new(ChannelId(1), players(5), None);
    let e = g.proposal_embed(&vec![UserId(2), UserId(3)]);
    assert_eq!(e.title.as_deref(), Some("p1 has proposed a party to go on this quest"));
    assert_eq!(e.description.as_deref(), Some("<@2> and <@3>"));
    assert_eq!(
        party_vote_dm(&vec![UserId(2), UserId(3)]),
        "React ✅ to vote to approve the quest, or ❌ to reject it.\nThe proposed party is <@2> and <@3>"
    );
    assert_eq!(not_leader(UserId(1)), "Only the current leader (<@1>) can choose who goes on the quest");
    assert_eq!(quest_dm(Loyalty::Good), "React ✅ to succeed the quest");
    assert_eq!(quest_dm(Loyalty::Evil), "React ✅ to succeed the quest, or ❌ to fail it");
}

#[test]
fn vote_announcements() {
    assert!(party_result_embed(PartyResult::NotVoting, None).is_none());
    let e = party_result_embed(PartyResult::TooManyRejects(vec![]), Some("5RRRRR".to_string())).unwrap();
    assert_eq!(e.title.as_deref(), Some("With 5 rejected parties in a row, the bad guys win"));
    assert_eq!(e.color, Some(Color::Red));
    assert_eq!(e.image.as_deref(), Some("5RRRRR"));
    let e = party_result_embed(PartyResult::Rejected(1, vec![]), None).unwrap();
    assert_eq!(e.title.as_deref(), Some("There is now 1 reject"));
    let e = party_result_embed(PartyResult::Rejected(3, vec![]), None).unwrap();
    assert_eq!(e.title.as_deref(), Some("There are now 3 rejects in a row"));
    let e = party_result_embed(PartyResult::Accepted(vec![UserId(1)], vec![]), Some("5".to_string())).unwrap();
    assert_eq!(e.title.as_deref(), Some("The party has been accepted!"));
    assert!(e.image.is_none());

    let questers = vec![UserId(1), UserId(2)];
    let failed = QuestResult { fails: 1, votes: 2, failed: true, end: EndRound::NextRound };
    let e = quest_result_embed(failed, 1, &questers, None);
    assert_eq!(e.title.as_deref(), Some("There was 1 fail"));
    assert_eq!(e.color, Some(Color::Red));
    assert_eq!(e.description.as_deref(), Some("Reminder: <@1> and <@2> were on this quest"));
    let failed2 = QuestResult { fails: 2, votes: 4, failed: true, end: EndRound::NextRound };
    assert_eq!(quest_result_embed(failed2, 2, &questers, None).title.as_deref(), Some("There were 2 fails"));
    let clean = QuestResult { fails: 0, votes: 3, failed: false, end: EndRound::NextRound };
    let e = quest_result_embed(clean, 1, &questers, Some("7G".to_string()));
    assert_eq!(e.title.as_deref(), Some("All 3 were successes"));
    assert_eq!(e.color, Some(Color::Blue));
    assert_eq!(e.image.as_deref(), Some("7G"));
    let close = QuestResult { fails: 1, votes: 4, failed: false, end: EndRound::NextRound };
    assert_eq!(
        quest_result_embed(close, 2, &questers, None).title.as_deref(),
        Some("There were 1 fails, but 2 were required this quest")
    );
}

#[test]
fn votes_are_recounted_from_reactions() {
    let mut votes = vec![
        Vote { message: MessageId(1), user: UserId(1), vote: 0 },
        Vote { message: MessageId(2), user: UserId(2), vote: 1 },
        Vote { message: MessageId(3), user: UserId(3), vote: 0 },
    ];
    assert!(!recount_votes(&mut votes, &vec![Some((1, 0)), Some((1, 1)), None]));
    assert_eq!(votes.iter().map(|v| v.vote).collect::<Vec<_>>(), vec![1, 0, 0]);
    assert!(recount_votes(&mut votes, &vec![Some((1, 0)), Some((0, 1)), None]));
    assert_eq!(votes.iter().map(|v| v.vote).collect::<Vec<_>>(), vec![1, -1, 0]);
}

#[test]
fn setup_embed_of_an_empty_setup() {
    let config = AvalonConfig { players: vec![], roles: vec![], lotl: false, message: None };
    let e = config.embed();
    assert_eq!(e.title.as_deref(), Some("__Avalon Setup__"));
    assert!(e.author.is_none());
    let fields: Vec<(String, String, bool)> = e.fields.iter().map(|f| (f.name.clone(), f.value.clone(), f.inline)).collect();
    assert_eq!(
        fields,
        vec![
            ("Players (0)".to_string(), "None yet".to_string(), true),
            ("\u{200b}".to_string(), "\u{200b}".to_string(), true),
            ("Roles".to_string(), "\n3x Loyal Servant\n2x Minion of Mordred".to_string(), true),
            ("Lady of the Lake".to_string(), "disabled".to_string(), true),
        ]
    );
    let config = AvalonConfig { players: (1..=6).map(member).collect(), roles: vec![Character::Merlin], lotl: true, message: None };
    let e = config.embed();
    assert_eq!(e.fields[0].name, "Players (6)");
    assert_eq!(e.fields[0].value, "<@1>\n<@2>\n<@3>\n<@4>\n<@5>\n<@6>");
    assert_eq!(e.fields[2].value, "Merlin\n3x Loyal Servant\n2x Minion of Mordred");
    assert_eq!(e.fields[3].value, "enabled");
}

#[test]
fn assassination_ends_the_game() {
    let mut ps = players(5);
    ps[0].role = Character::Merlin;
    ps[1].role = Character::Assassin;
    ps[2].role = Character::Percival;
    let g = AvalonGame::new(ChannelId(1), ps, None);
    let cmd = AssassinateCommand(UserId(2));
    let refused = g.assassinate(&cmd, UserId(3), AssassinateData { target: UserId(1) });
    assert_eq!(refused, Assassination::NotAssassin(UserId(2)));
    assert!(g.game_over_embed(refused).is_none());
    let evil = g.assassinate(&cmd, UserId(2), AssassinateData { target: UserId(2) });
    assert_eq!(evil, Assassination::TargetEvil(UserId(2)));
    assert!(g.game_over_embed(evil).is_none());
    let killed = g.assassinate(&cmd, UserId(2), AssassinateData { target: UserId(1) });
    let e = g.game_over_embed(killed).unwrap();
    assert_eq!(e.title.as_deref(), Some("Correct! p1 was Merlin! The bad guys win!"));
    assert_eq!(e.color, Some(Color::Red));
    let missed = g.assassinate(&cmd, UserId(2), AssassinateData { target: UserId(3) });
    let e = g.game_over_embed(missed).unwrap();
    assert_eq!(e.title.as_deref(), Some("Incorrect! p3 was actually Percival, and p1 was Merlin! The good guys win!"));
    assert_eq!(e.color, Some(Color::Blue));
}

#[test]
fn quest_votes_start_undecided_and_end_the_round() {
    let mut g = AvalonGame::new(ChannelId(1), players(5), None);
    g.begin_quest(&vec![UserId(2), UserId(3)], &vec![MessageId(20), MessageId(30)]);
    match &mut g.state {
        AvalonState::Questing(votes) => {
            assert_eq!(
                votes,
                &vec![
                    Vote { message: MessageId(20), user: UserId(2), vote: 0 },
                    Vote { message: MessageId(30), user: UserId(3), vote: 0 },
                ]
            );
            votes[0].vote = 1;
            votes[1].vote = -1;
        }
        _ => panic!("not questing"),
    }
    let q = g.quest_vote_results().unwrap();
    assert_eq!((q.fails, q.votes, q.failed, q.end), (1, 2, true, EndRound::NextRound));
    assert_eq!(g.good_won, vec![false]);
    assert_eq!((g.round, g.leader), (2, 1));
    assert!(matches!(g.state, AvalonState::RoundStart));
}

#[test]
fn every_player_votes_on_a_party() {
    let mut g = AvalonGame::new(ChannelId(1), players(5), None);
    let messages: Vec<MessageId> = (10..15).map(MessageId).collect();
    g.start_party_vote(&messages, vec![UserId(1), UserId(2)]);
    match &g.state {
        AvalonState::PartyVote(votes, party) => {
            assert_eq!(party, &vec![UserId(1), UserId(2)]);
            assert_eq!(votes.len(), 5);
            for (i, v) in votes.iter().enumerate() {
                assert_eq!(*v, Vote { message: MessageId(10 + i as u64), user: UserId(1 + i as u64), vote: 0 });
            }
        }
        _ => panic!("no party vote"),
    }
}
