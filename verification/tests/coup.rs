use discorsd_games::coup::cards::{Ability, AbilityResolved, AbilityTargeted, Card, FullAbility, StartingCoins};
use discorsd_games::coup::config::{Coup, CoupConfig};
use discorsd_games::coup::game::{
    contest_outcome, CoupGame, ContestOutcome, ResolveOutcome, TurnOutcome, WaitState, TOTAL_COINS,
};
use discorsd_games::coup::texts::{
    contest_label, contest_result, countdown_message, exchange_label, exchanging_message, keep_prompt,
    lose_influence_prompt, paused_message, revealed_message, turn_prompt, CoupNotice,
};
use discorsd_games::ids::UserId;
use discorsd_games::model::{Color, GuildMember, Token, User};

fn member(id: u64, name: &str, nick: Option<&str>) -> GuildMember {
    GuildMember {
        user: User { id: UserId(id), username: name.to_string(), discriminator: "0001".to_string(), bot: false },
        nick: nick.map(|n| n.to_string()),
        roles: vec![],
        joined_at: 0,
        premium_since: None,
        deaf: false,
        mute: false,
    }
}

fn config(n: u64) -> CoupConfig {
    let mut c = CoupConfig::new();
    for i in 1..=n {
        c.insert_player(member(i, &format!("p{i}"), None), Token(format!("t{i}")));
    }
    c
}

fn total_coins(g: &CoupGame) -> usize {
    g.coins + g.players.iter().map(|p| p.coins).sum::<usize>()
}

fn card_counts(g: &CoupGame) -> [usize; 5] {
    let mut counts = [0; 5];
    let all = g.card_pile.iter().chain(g.players.iter().flat_map(|p| p.cards.iter().chain(p.lost_cards.iter())));
    for c in all {
        counts[*c as usize] += 1;
    }
    counts
}

fn game(n: u64) -> CoupGame {
    config(n).start_game()
}

fn use_ability(user: u64, ability: AbilityTargeted) -> FullAbility {
    FullAbility::Use(AbilityResolved { user: UserId(user), ability })
}

#[test]
fn setup_joins_and_leaves() {
    let mut c = CoupConfig::new();
    assert_eq!(c.starting_coins, StartingCoins::Two);
    assert!(!c.can_start());
    c.insert_player(member(1, "a", None), Token("x".into()));
    c.insert_player(member(1, "a", Some("A")), Token("y".into()));
    assert_eq!(c.players.len(), 1);
    assert_eq!(c.players[0].1 .0, "y");
    c.insert_player(member(2, "b", None), Token("z".into()));
    assert!(c.can_start());
    assert_eq!(c.position(UserId(2)), Some(1));
    assert!(c.remove_player(UserId(1)));
    assert!(!c.remove_player(UserId(1)));
    assert_eq!(c.position(UserId(2)), Some(0));
}

#[test]
fn dealing_keeps_every_card_and_coin() {
    for n in 2..=6 {
        let mut c = config(n);
        let g = c.start_game();
        assert!(c.players.is_empty());
        assert_eq!(g.players.len(), n as usize);
        assert_eq!(total_coins(&g), TOTAL_COINS);
        assert_eq!(card_counts(&g), [3; 5]);
        for (i, p) in g.players.iter().enumerate() {
            assert_eq!(p.cards.len(), 2);
            assert!(p.lost_cards.is_empty());
            let expected = if n == 2 && i == 0 { 1 } else { 2 };
            assert_eq!(p.coins, expected);
        }
    }
}

#[test]
fn income_tax_and_aid_take_from_the_bank() {
    let mut g = game(3);
    let cur = g.current_index();
    let before = g.players[cur].coins;
    let me = g.players[cur].id().0;
    let out = g.resolve_ability(use_ability(me, AbilityTargeted::Tax));
    assert!(matches!(out, ResolveOutcome::Turn(TurnOutcome::NextPlayer(_))));
    assert_eq!(g.players[cur].coins, before + 3);
    assert_eq!(total_coins(&g), TOTAL_COINS);
    assert_ne!(g.current_index(), cur);
}

#[test]
fn the_bank_gives_what_it_has() {
    let mut g = game(2);
    let cur = g.current_index();
    let me = g.players[cur].id().0;
    let before = g.players[cur].coins;
    let moved = g.coins - 1;
    g.coins = 1;
    g.players[cur].coins += moved;
    g.resolve_ability(use_ability(me, AbilityTargeted::ForeignAid));
    assert_eq!(g.coins, 0);
    assert_eq!(g.players[cur].coins, before + moved + 1);
}

#[test]
fn coup_costs_seven_and_names_the_loser() {
    let mut g = game(3);
    let cur = g.current_index();
    let me = g.players[cur].id().0;
    let target = g.players[(cur + 1) % 3].id();
    g.players[cur].coins = 7;
    g.coins -= 5;
    let out = g.resolve_ability(use_ability(me, AbilityTargeted::Coup(target)));
    assert!(matches!(out, ResolveOutcome::LoseInfluence(t) if t == target));
    assert_eq!(g.players[cur].coins, 0);
    assert_eq!(g.current_index(), cur);
    assert_eq!(total_coins(&g), TOTAL_COINS - 7);
}

#[test]
fn steal_takes_at_most_two() {
    let mut g = game(3);
    let cur = g.current_index();
    let me = g.players[cur].id().0;
    let victim = (cur + 1) % 3;
    let target = g.players[victim].id();
    g.players[victim].coins = 1;
    g.coins += 1;
    let mine = g.players[cur].coins;
    g.resolve_ability(use_ability(me, AbilityTargeted::Steal(target)));
    assert_eq!(g.players[victim].coins, 0);
    assert_eq!(g.players[cur].coins, mine + 1);
    assert_eq!(total_coins(&g), TOTAL_COINS);
}

#[test]
fn exchange_offers_hand_and_two_from_the_deck() {
    let mut g = game(2);
    let cur = g.current_index();
    let me = g.players[cur].id().0;
    let hand = g.players[cur].cards.clone();
    let top = g.card_pile[..2].to_vec();
    let out = g.resolve_ability(use_ability(me, AbilityTargeted::Exchange));
    let offered = match out {
        ResolveOutcome::Exchange(v) => v,
        other => panic!("{other:?}"),
    };
    assert_eq!(offered, [hand, top].concat());
    assert!(g.players[cur].cards.is_empty());
    let outcome = g.finish_exchange(offered.clone(), &vec![0, 3]);
    assert!(matches!(outcome, TurnOutcome::NextPlayer(_)));
    assert_eq!(g.players[cur].cards, vec![offered[0], offered[3]]);
    assert_eq!(card_counts(&g), [3; 5]);
}

#[test]
fn losing_influence_reveals_the_card() {
    let mut g = game(2);
    let loser = g.players[1].id();
    let card = g.players[1].cards[0];
    assert!(!g.lose_influence(loser, card));
    assert_eq!(g.players[1].lost_cards, vec![card]);
    assert_eq!(g.players[1].cards.len(), 1);
    let last = g.players[1].cards[0];
    assert!(g.lose_influence(loser, last));
    assert_eq!(card_counts(&g), [3; 5]);
}

#[test]
fn last_player_standing_wins() {
    let mut g = game(2);
    let cur = g.current_index();
    let other = (cur + 1) % 2;
    let id = g.players[other].id();
    let (a, b) = (g.players[other].cards[0], g.players[other].cards[1]);
    g.lose_influence(id, a);
    g.lose_influence(id, b);
    assert_eq!(g.alive_players(), 1);
    assert_eq!(g.next_turn(), TurnOutcome::Winner(cur));
}

#[test]
fn contests_swap_a_shown_card() {
    let mut g = game(2);
    let claimer = g.players[0].id();
    let held = g.players[0].cards[0];
    assert!(g.contest(claimer, held));
    assert_eq!(g.players[0].cards.len(), 2);
    assert_eq!(card_counts(&g), [3; 5]);
    let missing = [Card::Duke, Card::Assassin, Card::Ambassador, Card::Captain, Card::Contessa]
        .into_iter()
        .find(|c| !g.players[0].cards.contains(c))
        .unwrap();
    let hand = g.players[0].cards.clone();
    assert!(!g.contest(claimer, missing));
    assert_eq!(g.players[0].cards, hand);
}

#[test]
fn contest_outcomes() {
    let tax = use_ability(1, AbilityTargeted::Tax);
    assert_eq!(contest_outcome(tax, true), ContestOutcome { contester_loses: true, then: Some(tax) });
    assert_eq!(contest_outcome(tax, false), ContestOutcome { contester_loses: false, then: None });
    let used = AbilityResolved { user: UserId(1), ability: AbilityTargeted::ForeignAid };
    let block = FullAbility::Block(used, UserId(2), Card::Duke);
    assert_eq!(contest_outcome(block, true), ContestOutcome { contester_loses: true, then: None });
    assert_eq!(contest_outcome(block, false), ContestOutcome { contester_loses: false, then: Some(FullAbility::Use(used)) });
}

#[test]
fn countdowns() {
    let mut g = game(2);
    assert!(matches!(g.wait_state, WaitState::NotWaiting));
    let n = g.wait(vec![]);
    assert!(!g.pause() || matches!(g.wait_state, WaitState::Paused(_)));
    assert!(matches!(g.countdown_elapsed(n + 1), discorsd_games::coup::game::Countdown::Stale));
    let pending = g.stop_waiting();
    assert!(pending.is_empty());
    assert!(matches!(g.wait_state, WaitState::NotWaiting));
}

#[test]
fn abilities() {
    assert_eq!(Ability::all().len(), 7);
    assert_eq!(Ability::Coup.needed_coins(), 7);
    assert_eq!(Ability::Assassinate.needed_coins(), 3);
    assert_eq!(Ability::Tax.needed_coins(), 0);
    assert_eq!(Ability::affordable(2).len(), 5);
    assert_eq!(Ability::affordable(7).len(), 7);
    assert_eq!(Ability::Coup.target(None), None);
    assert_eq!(Ability::Coup.target(Some(UserId(3))), Some(AbilityTargeted::Coup(UserId(3))));
    assert_eq!(Ability::ForeignAid.label(), "Foreign Aid");
    assert_eq!(Ability::Income.description(), "Take 1 coin");
    assert_eq!(Card::from_int(3), Card::Captain);
    assert_eq!(Card::Ambassador.name(), "Ambassador");
    assert_eq!(Card::Duke.image(), "images/coup/DukeSmall.jpg");
}

#[test]
fn ability_texts() {
    let coup = AbilityResolved { user: UserId(1), ability: AbilityTargeted::Coup(UserId(2)) };
    assert_eq!(coup.text(), "<@1> Couped <@2>");
    let aid = AbilityResolved { user: UserId(1), ability: AbilityTargeted::ForeignAid };
    assert_eq!(FullAbility::Use(aid).text(), "<@1> took Foreign Aid");
    assert_eq!(FullAbility::Block(aid, UserId(3), Card::Duke).text(), "<@1> took Foreign Aid\n<@3> blocks with Duke");
    assert_eq!(
        AbilityResolved { user: UserId(4), ability: AbilityTargeted::Exchange }.text(),
        "<@4> Exchanged with the court deck"
    );
}

#[test]
fn announcements() {
    assert_eq!(turn_prompt(3), "Take an action! You have **3** coins.");
    assert_eq!(countdown_message("<@1> Taxed", 1700000000), "<@1> Taxed. The action will go through <t:1700000000:R>");
    assert_eq!(paused_message("<@1> Taxed", UserId(2)), "<@1> Taxed. <@2> paused the countdown");
    assert_eq!(contest_label("Bob", Card::Captain), "Contest that Bob has Captain");
    assert_eq!(
        contest_result(UserId(1), UserId(2), Card::Duke, true),
        "<@1> contested that <@2> had Duke, but they did!\n<@1> will now lose an influence."
    );
    assert_eq!(
        contest_result(UserId(1), UserId(2), Card::Duke, false),
        "<@1> contested that <@2> had Duke, and they didn't!\n<@2> will now lose an influence."
    );
    assert_eq!(revealed_message(UserId(5), Card::Contessa, 0), "<@5> has revealed Contessa. They have no influence and are out of the game!");
    assert_eq!(revealed_message(UserId(5), Card::Contessa, 1), "<@5> has revealed Contessa. They have one influence left!");
    assert_eq!(exchanging_message(UserId(5)), "<@5> is choosing cards to Exchange...");
    assert_eq!(keep_prompt(2), "Choose 2 roles to **keep**:");
    assert_eq!(exchange_label(1, "Duke"), "1: Duke");
}

#[test]
fn settings_embed() {
    let c = CoupConfig::new();
    let e = c.settings_embed();
    assert_eq!(e.title.as_deref(), Some("__Coup Setup__"));
    assert_eq!(e.color, Some(Color::Gold));
    assert_eq!(e.fields[0].name, "Players (0)");
    assert_eq!(e.fields[0].value, "None yet");
    assert_eq!(e.fields[1].name, "Starting Coins");
    assert_eq!(e.fields[1].value, "Two");
    let e = config(2).settings_embed();
    assert_eq!(e.fields[0].name, "Players (2)");
    assert_eq!(e.fields[0].value, "<@1>\n<@2>");
}

#[test]
fn board_embed() {
    let mut g = game(2);
    g.players[0].coins = 1;
    g.players[1].coins = 3;
    g.players[1].cards = vec![Card::Duke];
    g.players[1].lost_cards = vec![Card::Captain];
    let e = g.board_embed();
    assert_eq!(e.title.as_deref(), Some("Coup!"));
    assert_eq!(e.fields.len(), 4);
    assert_eq!(e.fields[0].name, "Turn order");
    let (a, b) = (g.players[0].id().0, g.players[1].id().0);
    assert_eq!(e.fields[0].value, format!("1: <@{a}>    1 coin\n2: <@{b}>    3 coins    Revealed: Captain"));
    assert_eq!(e.fields[1].value, g.card_pile.len().to_string());
    assert!(e.fields[1].inline && e.fields[2].inline && e.fields[3].inline);
    assert_eq!(e.fields[3].name, "Coins left");
    let cur = g.current_index();
    assert_eq!(e.description, Some(format!("<@{}>, take your turn!", g.players[cur].id().0)));
    g.players[1].cards.clear();
    let e = g.board_embed();
    assert_eq!(e.fields[0].value, format!("1: <@{a}>    1 coin\n~~2: <@{b}>    3 coins    Revealed: Captain~~"));
}

#[test]
fn player_views() {
    let mut g = game(2);
    g.players[0].cards = vec![Card::Duke, Card::Captain];
    g.players[0].coins = 4;
    assert_eq!(g.players[0].influence(), "Your influence: **Duke** and **Captain**. You have **4** coins.");
    let e = g.players[0].win_embed();
    assert_eq!(e.title, Some(format!("🎉 p{} Wins! 🎉", g.players[0].id().0)));
    assert_eq!(e.description.as_deref(), Some("They had Duke and Captain left."));
    assert_eq!(e.author.as_ref().map(|u| u.id), Some(g.players[0].id()));
}

#[test]
fn refusals() {
    let e = CoupNotice::GameStarted.embed();
    assert_eq!(e.title.as_deref(), Some("Coup has already started in this server!"));
    assert_eq!(e.description.as_deref(), Some("Each server can only have one game of Coup at a time"));
    assert_eq!(e.color, Some(Color::Red));
    assert_eq!(CoupNotice::NotStarted.embed().title.as_deref(), Some("Coup has not yet started in this server!"));
    let e = CoupNotice::NotInGame(UserId(4)).embed();
    assert_eq!((e.title.as_deref(), e.description.as_deref()), (Some("Invalid target"), Some("<@4> is not in the game!")));
    assert_eq!(CoupNotice::WasNotIn.embed().title.as_deref(), Some("You weren't in the game, so you weren't removed"));
    assert!(CoupNotice::WasNotIn.embed().description.is_none());
    assert_eq!(CoupNotice::CannotStart(1).embed().title.as_deref(), Some("Not enough players to start"));
    assert_eq!(CoupNotice::CannotStart(7).embed().title.as_deref(), Some("Too many players to start"));
    assert_eq!(CoupNotice::AlreadyStarted.embed().title.as_deref(), Some("Coup has already started!"));
    assert_eq!(lose_influence_prompt(), "Choose an influence to lose");
    let g = game(3);
    let cur = g.current_index();
    let me = g.players[cur].id();
    let other = g.players[(cur + 1) % 3].id();
    assert_eq!(g.check_target(me), Err(CoupNotice::TargetSelf));
    assert_eq!(g.check_target(UserId(99)), Err(CoupNotice::TargetNotInGame));
    assert_eq!(g.check_target(other), Ok(()));
    assert_eq!(CoupNotice::TargetSelf.embed().title.as_deref(), Some("You can't target yourself!"));
    assert_eq!(CoupNotice::TargetNotInGame.embed().title.as_deref(), Some("Choose someone in the game!"));
}

#[test]
fn dealing_seats_each_joined_player_once_with_their_token() {
    let g = config(4).start_game();
    let mut seats: Vec<(u64, String)> = g.players.iter().map(|p| (p.member.user.id.0, p.token.0.clone())).collect();
    seats.sort();
    assert_eq!(
        seats,
        vec![(1, "t1".to_string()), (2, "t2".to_string()), (3, "t3".to_string()), (4, "t4".to_string())]
    );
}

#[test]
fn coup_starts_and_restarts() {
    let mut coup = Coup::default();
    assert!(matches!(&coup, Coup::Config(c) if c.players.is_empty()));
    assert_eq!(coup.start(), Err(CoupNotice::CannotStart(0)));
    assert_eq!(coup.restart(), Err(CoupNotice::NotStarted));
    coup = Coup::Config(config(3));
    assert_eq!(coup.start(), Ok(()));
    match &coup {
        Coup::Game(g) => {
            assert_eq!(g.players.len(), 3);
            assert_eq!(total_coins(g), TOTAL_COINS);
        }
        Coup::Config(_) => panic!("the game did not start"),
    }
    assert_eq!(coup.start(), Err(CoupNotice::AlreadyStarted));
    assert_eq!(coup.restart(), Ok(()));
    match &coup {
        Coup::Config(c) => assert_eq!(c.players.len(), 3),
        Coup::Game(_) => panic!("the game did not end"),
    }
}
