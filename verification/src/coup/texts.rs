//! What the Coup table says: the abilities in words, the prompts and announcements, and the
//! embeds that show the setup, the table and the winner.

use vstd::prelude::*;

use crate::coup::cards::{Ability, AbilityResolved, AbilityTargeted, Card, FullAbility, StartingCoins, card_name};
use crate::coup::config::{CoupConfig, entry_id};
use crate::coup::game::{CoupGame, CoupPlayer, has_id};
use crate::ids::UserId;
use crate::markup::ping_user;
use crate::model::{Color, Embed, EmbedField, GuildMember, Token, display_name, ping_text};
use crate::text::{
    bold, bold_text, decimal, grammatical_list, join, join_seq, list_grammatically, signed_decimal,
    strikethrough, strikethrough_text, u64_to_string, i64_to_string,
};

verus! {

/// The names of the cards, in order.
pub open spec fn card_names(cards: Seq<Card>) -> Seq<Seq<char>> {
    cards.map_values(|c: Card| card_name(c))
}

/// The cards read out as a list: `Duke`, `Duke and Captain`.
pub open spec fn card_list_text(cards: Seq<Card>) -> Seq<char> {
    grammatical_list(card_names(cards), "and"@)
}

/// The names of the cards, each as a string of its own.
pub fn card_name_strings(cards: &Vec<Card>) -> (v: Vec<String>)
    ensures
        v.deep_view() == card_names(cards@),
{
    let mut v: Vec<String> = Vec::new();
    for i in 0..cards.len()
        invariant
            v@.len() == i,
            forall|j: int| 0 <= j < i ==> (#[trigger] v@[j])@ == card_name(cards@[j]),
    {
        v.push(String::from_str(cards[i].name()));
    }
    assert(v.deep_view() =~= card_names(cards@));
    v
}

/// Lists the cards: `Duke`, `Duke and Captain`.
pub fn card_list(cards: &Vec<Card>) -> (s: String)
    ensures
        s@ == card_list_text(cards@),
{
    let names = card_name_strings(cards);
    list_grammatically(&names, "and")
}

/// An ability that was used, as the table reads it: `<@user> Couped <@target>`.
pub open spec fn ability_text(a: AbilityResolved) -> Seq<char> {
    ping_text(a.user.0) + match a.ability {
        AbilityTargeted::Income => " took Income"@,
        AbilityTargeted::ForeignAid => " took Foreign Aid"@,
        AbilityTargeted::Coup(t) => " Couped "@ + ping_text(t.0),
        AbilityTargeted::Tax => " Taxed"@,
        AbilityTargeted::Assassinate(t) => " Assassinated "@ + ping_text(t.0),
        AbilityTargeted::Exchange => " Exchanged with the court deck"@,
        AbilityTargeted::Steal(t) => " Stole from "@ + ping_text(t.0),
    }
}

/// An ability as it stands: used, or used and then blocked with a claimed card.
pub open spec fn full_ability_text(a: FullAbility) -> Seq<char> {
    match a {
        FullAbility::Use(used) => ability_text(used),
        FullAbility::Block(used, blocker, claim) =>
            ability_text(used) + "\n"@ + ping_text(blocker.0) + " blocks with "@ + card_name(claim),
    }
}

impl AbilityResolved {
    /// The ability in words.
    pub fn text(&self) -> (s: String)
        ensures
            s@ == ability_text(*self),
    {
        let mut s = ping_user(self.user);
        match self.ability {
            AbilityTargeted::Income => s.append(" took Income"),
            AbilityTargeted::ForeignAid => s.append(" took Foreign Aid"),
            AbilityTargeted::Coup(t) => {
                s.append(" Couped ");
                let p = ping_user(t);
                s.append(p.as_str());
            },
            AbilityTargeted::Tax => s.append(" Taxed"),
            AbilityTargeted::Assassinate(t) => {
                s.append(" Assassinated ");
                let p = ping_user(t);
                s.append(p.as_str());
            },
            AbilityTargeted::Exchange => s.append(" Exchanged with the court deck"),
            AbilityTargeted::Steal(t) => {
                s.append(" Stole from ");
                let p = ping_user(t);
                s.append(p.as_str());
            },
        }
        s
    }
}

impl FullAbility {
    /// The ability in words, with the block on a second line.
    pub fn text(&self) -> (s: String)
        ensures
            s@ == full_ability_text(*self),
    {
        match self {
            FullAbility::Use(used) => used.text(),
            FullAbility::Block(used, blocker, claim) => {
                let mut s = used.text();
                s.append("\n");
                let p = ping_user(*blocker);
                s.append(p.as_str());
                s.append(" blocks with ");
                s.append(claim.name());
                s
            },
        }
    }
}

/// The name of an ability in the menu.
pub open spec fn ability_label(a: Ability) -> Seq<char> {
    match a {
        Ability::Income => "Income"@,
        Ability::ForeignAid => "Foreign Aid"@,
        Ability::Coup => "Coup"@,
        Ability::Tax => "Tax"@,
        Ability::Assassinate => "Assassinate"@,
        Ability::Exchange => "Exchange"@,
        Ability::Steal => "Steal"@,
    }
}

/// What an ability does, as the menu explains it.
pub open spec fn ability_description(a: Ability) -> Seq<char> {
    match a {
        Ability::Income => "Take 1 coin"@,
        Ability::ForeignAid => "Take 2 coins. Can be blocked by Duke"@,
        Ability::Coup => "Pay 7 coins. Choose player to lose influence"@,
        Ability::Tax => "Take 3 coins"@,
        Ability::Assassinate => "Pay 3 coins. Choose player to lose influence. Can be blocked by Contessa"@,
        Ability::Exchange => "Exchange cards with Court Deck"@,
        Ability::Steal => "Take 2 coins from another player. Can be blocked by Ambassador or Captain"@,
    }
}

impl Ability {
    /// The name of the ability in the menu.
    pub fn label(self) -> (s: &'static str)
        ensures
            s@ == ability_label(self),
    {
        match self {
            Ability::Income => "Income",
            Ability::ForeignAid => "Foreign Aid",
            Ability::Coup => "Coup",
            Ability::Tax => "Tax",
            Ability::Assassinate => "Assassinate",
            Ability::Exchange => "Exchange",
            Ability::Steal => "Steal",
        }
    }

    /// What the ability does, as the menu explains it.
    pub fn description(self) -> (s: &'static str)
        ensures
            s@ == ability_description(self),
    {
        match self {
            Ability::Income => "Take 1 coin",
            Ability::ForeignAid => "Take 2 coins. Can be blocked by Duke",
            Ability::Coup => "Pay 7 coins. Choose player to lose influence",
            Ability::Tax => "Take 3 coins",
            Ability::Assassinate => "Pay 3 coins. Choose player to lose influence. Can be blocked by Contessa",
            Ability::Exchange => "Exchange cards with Court Deck",
            Ability::Steal => "Take 2 coins from another player. Can be blocked by Ambassador or Captain",
        }
    }
}

/// The prompt a player gets at the start of their turn.
pub open spec fn turn_prompt_text(coins: nat) -> Seq<char> {
    "Take an action! You have "@ + bold_text(decimal(coins)) + " coins."@
}

/// The prompt a player gets at the start of their turn.
pub fn turn_prompt(coins: usize) -> (s: String)
    ensures
        s@ == turn_prompt_text(coins as nat),
{
    let digits = u64_to_string(coins as u64);
    let b = bold(digits.as_str());
    let mut s = String::from_str("Take an action! You have ");
    s.append(b.as_str());
    s.append(" coins.");
    s
}

/// `<t:secs:R>`, which Discord shows as the time from now until `secs` (seconds since the epoch).
pub open spec fn relative_time_text(secs: int) -> Seq<char> {
    "<t:"@ + signed_decimal(secs) + ":R>"@
}

/// The note under an ability while the others may still respond to it.
pub open spec fn countdown_text(ability: Seq<char>, expires_at: int) -> Seq<char> {
    ability + ". The action will go through "@ + relative_time_text(expires_at)
}

/// The note under an ability once someone paused the countdown.
pub open spec fn paused_text(ability: Seq<char>, pauser: UserId) -> Seq<char> {
    ability + ". "@ + ping_text(pauser.0) + " paused the countdown"@
}

/// The note under an ability while the others may still respond to it; `expires_at` is in
/// seconds since the epoch.
pub fn countdown_message(ability: &str, expires_at: i64) -> (s: String)
    ensures
        s@ == countdown_text(ability@, expires_at as int),
{
    let secs = i64_to_string(expires_at);
    let mut s = String::from_str(ability);
    s.append(". The action will go through ");
    s.append("<t:");
    s.append(secs.as_str());
    s.append(":R>");
    s
}

/// The note under an ability once someone paused the countdown.
pub fn paused_message(ability: &str, pauser: UserId) -> (s: String)
    ensures
        s@ == paused_text(ability@, pauser),
{
    let p = ping_user(pauser);
    let mut s = String::from_str(ability);
    s.append(". ");
    s.append(p.as_str());
    s.append(" paused the countdown");
    s
}

/// The label of the button that contests a claim.
pub open spec fn contest_label_text(claimer_name: Seq<char>, claim: Card) -> Seq<char> {
    "Contest that "@ + claimer_name + " has "@ + card_name(claim)
}

/// The label of the button that contests a claim.
pub fn contest_label(claimer_name: &str, claim: Card) -> (s: String)
    ensures
        s@ == contest_label_text(claimer_name@, claim),
{
    let mut s = String::from_str("Contest that ");
    s.append(claimer_name);
    s.append(" has ");
    s.append(claim.name());
    s
}

/// The announcement of a contest: whoever was wrong loses an influence.
pub open spec fn contest_result_text(contester: UserId, claimer: UserId, claim: Card, had_card: bool) -> Seq<char> {
    if had_card {
        ping_text(contester.0) + " contested that "@ + ping_text(claimer.0) + " had "@ + card_name(claim)
            + ", but they did!\n"@ + ping_text(contester.0) + " will now lose an influence."@
    } else {
        ping_text(contester.0) + " contested that "@ + ping_text(claimer.0) + " had "@ + card_name(claim)
            + ", and they didn't!\n"@ + ping_text(claimer.0) + " will now lose an influence."@
    }
}

/// The announcement of a contest: whoever was wrong loses an influence.
pub fn contest_result(contester: UserId, claimer: UserId, claim: Card, had_card: bool) -> (s: String)
    ensures
        s@ == contest_result_text(contester, claimer, claim, had_card),
{
    let c = ping_user(contester);
    let k = ping_user(claimer);
    let mut s = c.clone();
    s.append(" contested that ");
    s.append(k.as_str());
    s.append(" had ");
    s.append(claim.name());
    if had_card {
        s.append(", but they did!\n");
        s.append(c.as_str());
    } else {
        s.append(", and they didn't!\n");
        s.append(k.as_str());
    }
    s.append(" will now lose an influence.");
    s
}

/// The announcement of a lost influence.
pub open spec fn revealed_text(loser: UserId, card: Card, remaining: nat) -> Seq<char> {
    ping_text(loser.0) + " has revealed "@ + card_name(card) + ". "@
        + if remaining == 0 {
            "They have no influence and are out of the game!"@
        } else {
            "They have one influence left!"@
        }
}

/// The announcement of a lost influence, given the cards the loser still holds.
pub fn revealed_message(loser: UserId, card: Card, remaining: usize) -> (s: String)
    ensures
        s@ == revealed_text(loser, card, remaining as nat),
{
    let mut s = ping_user(loser);
    s.append(" has revealed ");
    s.append(card.name());
    s.append(". ");
    if remaining == 0 {
        s.append("They have no influence and are out of the game!");
    } else {
        s.append("They have one influence left!");
    }
    s
}

/// The note that a player is exchanging with the court deck.
pub open spec fn exchanging_text(player: UserId) -> Seq<char> {
    ping_text(player.0) + " is choosing cards to Exchange..."@
}

/// The note that a player is exchanging with the court deck.
pub fn exchanging_message(player: UserId) -> (s: String)
    ensures
        s@ == exchanging_text(player),
{
    let mut s = ping_user(player);
    s.append(" is choosing cards to Exchange...");
    s
}

/// The prompt of the exchange menu.
pub open spec fn keep_prompt_text(n_keep: nat) -> Seq<char> {
    "Choose "@ + decimal(n_keep) + " roles to **keep**:"@
}

/// The prompt of the exchange menu.
pub fn keep_prompt(n_keep: usize) -> (s: String)
    ensures
        s@ == keep_prompt_text(n_keep as nat),
{
    let digits = u64_to_string(n_keep as u64);
    let mut s = String::from_str("Choose ");
    s.append(digits.as_str());
    s.append(" roles to **keep**:");
    s
}

/// A card in the exchange menu, numbered so that two equal cards can be told apart.
pub open spec fn exchange_label_text(i: nat, label: Seq<char>) -> Seq<char> {
    decimal(i) + ": "@ + label
}

/// A card in the exchange menu, numbered so that two equal cards can be told apart.
pub fn exchange_label(i: usize, label: &str) -> (s: String)
    ensures
        s@ == exchange_label_text(i as nat, label@),
{
    let mut s = u64_to_string(i as u64);
    s.append(": ");
    s.append(label);
    s
}

/// The name a setting of the starting coins is shown by.
pub open spec fn starting_coins_text(c: StartingCoins) -> Seq<char> {
    match c {
        StartingCoins::Zero => "Zero"@,
        StartingCoins::One => "One"@,
        StartingCoins::Two => "Two"@,
    }
}

impl StartingCoins {
    /// The name the setting is shown by.
    pub fn label(self) -> (s: &'static str)
        ensures
            s@ == starting_coins_text(self),
    {
        match self {
            StartingCoins::Zero => "Zero",
            StartingCoins::One => "One",
            StartingCoins::Two => "Two",
        }
    }
}

/// The players of a setup, one ping per line, or `None yet`.
pub open spec fn players_field_text(ps: Seq<(GuildMember, Token)>) -> Seq<char> {
    if ps.len() == 0 {
        "None yet"@
    } else {
        join_seq(ps.map_values(|e: (GuildMember, Token)| ping_text(entry_id(e).0)), "\n"@)
    }
}

/// The heading of the players field: `Players (n)`.
pub open spec fn players_heading_text(n: nat) -> Seq<char> {
    "Players ("@ + decimal(n) + ")"@
}

/// A field as the embed shows it: name, value, and whether it stands beside its neighbours.
pub open spec fn field_is(f: EmbedField, name: Seq<char>, value: Seq<char>, inline: bool) -> bool {
    f.name@ == name && f.value@ == value && f.inline == inline
}

/// The empty text that Discord accepts in a field that only makes room.
pub open spec fn blank_text() -> Seq<char> {
    "\u{200b}"@
}

impl CoupConfig {
    /// The embed that shows the setup: who has joined and how many coins everyone starts with.
    pub fn settings_embed(&self) -> (e: Embed)
        ensures
            e.title matches Some(t) && t@ == "__Coup Setup__"@,
            e.color == Some(Color::Gold),
            e.description.is_none(),
            e.fields@.len() == 2,
            field_is(e.fields@[0], players_heading_text(self.players@.len()), players_field_text(self.players@), false),
            field_is(e.fields@[1], "Starting Coins"@, starting_coins_text(self.starting_coins), false),
    {
        let mut pings: Vec<String> = Vec::new();
        for i in 0..self.players.len()
            invariant
                pings@.len() == i,
                forall|j: int| 0 <= j < i ==> (#[trigger] pings@[j])@ == ping_text(entry_id(self.players@[j]).0),
        {
            pings.push(ping_user(self.players[i].0.user.id));
        }
        assert(pings.deep_view() =~= self.players@.map_values(|e: (GuildMember, Token)| ping_text(entry_id(e).0)));
        let value = if self.players.len() == 0 {
            String::from_str("None yet")
        } else {
            join(&pings, "\n")
        };
        let count = u64_to_string(self.players.len() as u64);
        let mut heading = String::from_str("Players (");
        heading.append(count.as_str());
        heading.append(")");
        let mut e = Embed::new();
        e.title = Some(String::from_str("__Coup Setup__"));
        e.color = Some(Color::Gold);
        e.fields.push(EmbedField::new(heading, value));
        e.fields.push(EmbedField::new(String::from_str("Starting Coins"), String::from_str(self.starting_coins.label())));
        e
    }
}

/// A player's line in the turn order, before it is struck through for a player who is out:
/// `2: <@id>    3 coins    Revealed: Duke`.
pub open spec fn turn_line_core(i: nat, p: CoupPlayer) -> Seq<char> {
    decimal(i + 1) + ": "@ + ping_text(p.uid().0) + "    "@ + decimal(p.coins as nat) + " coin"@
        + (if p.coins == 1 { Seq::empty() } else { "s"@ })
        + (if p.lost_cards@.len() == 0 { Seq::empty() } else { "    Revealed: "@ + card_list_text(p.lost_cards@) })
}

/// A player's line in the turn order; struck through once they hold no influence.
pub open spec fn turn_line_text(i: nat, p: CoupPlayer) -> Seq<char> {
    if p.cards@.len() == 0 { strikethrough_text(turn_line_core(i, p)) } else { turn_line_core(i, p) }
}

/// The turn order, one line per player.
pub open spec fn turn_order_text(ps: Seq<CoupPlayer>) -> Seq<char> {
    join_seq(Seq::new(ps.len(), |i: int| turn_line_text(i as nat, ps[i])), "\n"@)
}

fn turn_line(i: usize, p: &CoupPlayer) -> (s: String)
    requires
        i < usize::MAX,
    ensures
        s@ == turn_line_text(i as nat, *p),
{
    let number = u64_to_string((i + 1) as u64);
    let ping = ping_user(p.id());
    let coins = u64_to_string(p.coins as u64);
    let mut s = number;
    s.append(": ");
    s.append(ping.as_str());
    s.append("    ");
    s.append(coins.as_str());
    s.append(" coin");
    if p.coins != 1 {
        s.append("s");
    }
    if p.lost_cards.len() > 0 {
        let lost = card_list(&p.lost_cards);
        s.append("    Revealed: ");
        s.append(lost.as_str());
    }
    if p.cards.len() == 0 {
        strikethrough(s.as_str())
    } else {
        s
    }
}

impl CoupGame {
    /// The embed that shows the table: the turn order with everyone's coins and revealed cards,
    /// the size of the court deck, the bank, and whose turn it is.
    pub fn board_embed(&self) -> (e: Embed)
        requires
            self.players@.len() > 0,
        ensures
            e.title matches Some(t) && t@ == "Coup!"@,
            e.color == Some(Color::Gold),
            e.description matches Some(d) && d@ == ping_text(self.players@[self.cur()].uid().0) + ", take your turn!"@,
            e.fields@.len() == 4,
            field_is(e.fields@[0], "Turn order"@, turn_order_text(self.players@), false),
            field_is(e.fields@[1], "Cards in Court Deck"@, decimal(self.card_pile@.len()), true),
            field_is(e.fields@[2], blank_text(), blank_text(), true),
            field_is(e.fields@[3], "Coins left"@, decimal(self.coins as nat), true),
    {
        let n = self.players.len();
        let mut lines: Vec<String> = Vec::new();
        for i in 0..n
            invariant
                n == self.players@.len(),
                lines@.len() == i,
                forall|j: int| 0 <= j < i ==> (#[trigger] lines@[j])@ == turn_line_text(j as nat, self.players@[j]),
        {
            lines.push(turn_line(i, &self.players[i]));
        }
        assert(lines.deep_view() =~= Seq::new(n as nat, |i: int| turn_line_text(i as nat, self.players@[i])));
        let order = join(&lines, "\n");
        let current = self.current_player();
        let mut description = ping_user(current.id());
        description.append(", take your turn!");
        let deck = u64_to_string(self.card_pile.len() as u64);
        let bank = u64_to_string(self.coins as u64);
        let mut e = Embed::new();
        e.title = Some(String::from_str("Coup!"));
        e.color = Some(Color::Gold);
        e.fields.push(EmbedField::new(String::from_str("Turn order"), order));
        e.fields.push(EmbedField::new_inline(String::from_str("Cards in Court Deck"), deck));
        e.fields.push(EmbedField::new_inline(String::from_str("\u{200b}"), String::from_str("\u{200b}")));
        e.fields.push(EmbedField::new_inline(String::from_str("Coins left"), bank));
        e.description = Some(description);
        e
    }
}

/// A player's own view of their hand: `Your influence: **Duke** and **Captain**. You have **2** coins.`
pub open spec fn influence_text(cards: Seq<Card>, coins: nat) -> Seq<char> {
    "Your influence: "@ + grammatical_list(cards.map_values(|c: Card| bold_text(card_name(c))), "and"@)
        + ". You have "@ + bold_text(decimal(coins)) + " coins."@
}

/// The heading of the winner's embed.
pub open spec fn win_title_text(name: Seq<char>) -> Seq<char> {
    "🎉 "@ + name + " Wins! 🎉"@
}

/// What the winner had left.
pub open spec fn win_description_text(cards: Seq<Card>) -> Seq<char> {
    "They had "@ + card_list_text(cards) + " left."@
}

impl CoupPlayer {
    /// The player's own view of their hand and purse.
    pub fn influence(&self) -> (s: String)
        ensures
            s@ == influence_text(self.cards@, self.coins as nat),
    {
        let mut names: Vec<String> = Vec::new();
        for i in 0..self.cards.len()
            invariant
                names@.len() == i,
                forall|j: int| 0 <= j < i ==> (#[trigger] names@[j])@ == bold_text(card_name(self.cards@[j])),
        {
            names.push(bold(self.cards[i].name()));
        }
        assert(names.deep_view() =~= self.cards@.map_values(|c: Card| bold_text(card_name(c))));
        let roles = list_grammatically(&names, "and");
        let digits = u64_to_string(self.coins as u64);
        let coins = bold(digits.as_str());
        let mut s = String::from_str("Your influence: ");
        s.append(roles.as_str());
        s.append(". You have ");
        s.append(coins.as_str());
        s.append(" coins.");
        s
    }

    /// The embed that announces this player as the winner.
    pub fn win_embed(&self) -> (e: Embed)
        ensures
            e.title matches Some(t) && t@ == win_title_text(display_name(self.member.nick_view(), self.member.user.username@)),
            e.description matches Some(d) && d@ == win_description_text(self.cards@),
            e.color == Some(Color::Gold),
            e.fields@.len() == 0,
            e.author == Some(self.member.user),
    {
        let name = self.name();
        let mut title = String::from_str("🎉 ");
        title.append(name.as_str());
        title.append(" Wins! 🎉");
        let list = card_list(&self.cards);
        let mut description = String::from_str("They had ");
        description.append(list.as_str());
        description.append(" left.");
        let mut e = Embed::new();
        e.title = Some(title);
        e.description = Some(description);
        e.color = Some(Color::Gold);
        e.author = Some(self.member.user.clone());
        e
    }
}

/// What a player did that the table refuses.
#[derive(Debug, Clone, Copy, PartialEq, Eq, Structural)]
pub enum CoupNotice {
    /// a setup button or menu was used after the game started
    GameStarted,
    /// a game action was used before the game started
    NotStarted,
    /// someone who does not play tried to act
    NotInGame(UserId),
    /// someone left a setup they had not joined
    WasNotIn,
    /// the start button was pressed again
    AlreadyStarted,
    /// the game cannot start with this many players
    CannotStart(usize),
    /// an ability was aimed at someone who does not play
    TargetNotInGame,
    /// an ability was aimed at its own user
    TargetSelf,
}

/// The red embed that answers a refused action: its title, and its description if it has one.
pub open spec fn notice_text(n: CoupNotice) -> (Seq<char>, Option<Seq<char>>) {
    match n {
        CoupNotice::GameStarted => ("Coup has already started in this server!"@,
            Some("Each server can only have one game of Coup at a time"@)),
        CoupNotice::NotStarted => ("Coup has not yet started in this server!"@,
            Some("Each server can only have one game of Coup at a time"@)),
        CoupNotice::NotInGame(u) => ("Invalid target"@, Some(ping_text(u.0) + " is not in the game!"@)),
        CoupNotice::WasNotIn => ("You weren't in the game, so you weren't removed"@, None),
        CoupNotice::AlreadyStarted => ("Coup has already started!"@, None),
        CoupNotice::CannotStart(n) => (if n < 2 { "Not enough players to start"@ } else { "Too many players to start"@ }, None),
        CoupNotice::TargetNotInGame => ("Choose someone in the game!"@, None),
        CoupNotice::TargetSelf => ("You can't target yourself!"@, None),
    }
}

impl CoupNotice {
    /// The red embed that answers the refused action.
    pub fn embed(&self) -> (e: Embed)
        ensures
            e.title matches Some(t) && t@ == notice_text(*self).0,
            match notice_text(*self).1 {
                Some(d) => e.description matches Some(x) && x@ == d,
                None => e.description.is_none(),
            },
            e.color == Some(Color::Red),
            e.fields@.len() == 0,
    {
        let mut e = Embed::new();
        e.color = Some(Color::Red);
        match self {
            CoupNotice::GameStarted => {
                e.title = Some(String::from_str("Coup has already started in this server!"));
                e.description = Some(String::from_str("Each server can only have one game of Coup at a time"));
            },
            CoupNotice::NotStarted => {
                e.title = Some(String::from_str("Coup has not yet started in this server!"));
                e.description = Some(String::from_str("Each server can only have one game of Coup at a time"));
            },
            CoupNotice::NotInGame(u) => {
                e.title = Some(String::from_str("Invalid target"));
                let mut d = ping_user(*u);
                d.append(" is not in the game!");
                e.description = Some(d);
            },
            CoupNotice::WasNotIn => {
                e.title = Some(String::from_str("You weren't in the game, so you weren't removed"));
            },
            CoupNotice::AlreadyStarted => {
                e.title = Some(String::from_str("Coup has already started!"));
            },
            CoupNotice::CannotStart(n) => {
                e.title = Some(String::from_str(if *n < 2 { "Not enough players to start" } else { "Too many players to start" }));
            },
            CoupNotice::TargetNotInGame => {
                e.title = Some(String::from_str("Choose someone in the game!"));
            },
            CoupNotice::TargetSelf => {
                e.title = Some(String::from_str("You can't target yourself!"));
            },
        }
        e
    }
}

impl CoupGame {
    /// Whether the current player may aim an ability at `target`: only at someone else who
    /// plays.
    pub fn check_target(&self, target: UserId) -> (r: Result<(), CoupNotice>)
        requires
            self.players@.len() > 0,
        ensures
            r == if !has_id(self.players@, target) {
                Err(CoupNotice::TargetNotInGame)
            } else if target == self.players@[self.cur()].uid() {
                Err(CoupNotice::TargetSelf)
            } else {
                Ok(())
            },
    {
        match self.position(target) {
            None => Err(CoupNotice::TargetNotInGame),
            Some(_) => {
                if target == self.current_player().id() {
                    Err(CoupNotice::TargetSelf)
                } else {
                    Ok(())
                }
            },
        }
    }
}

/// The prompt of the menu in which a player gives up an influence.
pub fn lose_influence_prompt() -> (s: String)
    ensures
        s@ == "Choose an influence to lose"@,
{
    String::from_str("Choose an influence to lose")
}

} // verus!
