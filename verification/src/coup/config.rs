//! Setting up a game of Coup: who joins, how many coins they start with, and the deal.

use vstd::prelude::*;

use crate::coup::cards::{Card, StartingCoins, card_of, standard_deck};
use crate::coup::game::{CoupGame, CoupPlayer, TOTAL_COINS, WaitState, coins_sum, hand, hands};
use crate::random::shuffle;
use crate::ids::UserId;
use crate::model::{ChannelMessageId, GuildMember, Token};
use crate::coup::texts::CoupNotice;

verus! {

broadcast use {vstd::multiset::group_multiset_axioms, vstd::seq_lib::group_to_multiset_ensures};

/// The user an entry of the setup belongs to.
pub open spec fn entry_id(e: (GuildMember, Token)) -> UserId {
    e.0.user.id
}

/// No user joined twice.
pub open spec fn ids_unique(ps: Seq<(GuildMember, Token)>) -> bool {
    forall|i: int, j: int| 0 <= i < ps.len() && 0 <= j < ps.len() && i != j
        ==> #[trigger] entry_id(ps[i]) != #[trigger] entry_id(ps[j])
}

/// Some entry belongs to user `u`.
pub open spec fn config_has(ps: Seq<(GuildMember, Token)>, u: UserId) -> bool {
    exists|i: int| 0 <= i < ps.len() && #[trigger] entry_id(ps[i]) == u
}

/// A game of Coup that is still gathering players.
#[derive(Debug)]
pub struct CoupConfig {
    /// who joined, with the token of the interaction they joined with
    pub players: Vec<(GuildMember, Token)>,
    pub starting_coins: StartingCoins,
    /// the message that shows the setup
    pub settings_display: Option<ChannelMessageId>,
}

/// `game` is a deal of setup `c`: each player seated with the member and token of one entry
/// (every entry seated once), two cards, no lost cards and the starting coins (in a game of two,
/// the first player one coin fewer); the fifteen cards and the fifty coins are all there; the
/// first player's turn, with nobody being waited on.
pub open spec fn dealt(c: CoupConfig, game: CoupGame) -> bool {
    &&& game.players@.len() == c.players@.len()
    &&& forall|i: int| 0 <= i < game.players@.len() ==> {
        &&& (#[trigger] game.players@[i]).cards@.len() == 2
        &&& game.players@[i].lost_cards@.len() == 0
        &&& game.players@[i].coins == if c.players@.len() == 2 && i == 0 {
            c.starting_coins.spec_count() - 1
        } else {
            c.starting_coins.spec_count() as int
        }
        &&& exists|j: int| 0 <= j < c.players@.len()
            && game.players@[i].member == (#[trigger] c.players@[j]).0
    }
    &&& game.players@.map_values(|p: CoupPlayer| (p.member, p.token)).to_multiset()
        == c.players@.to_multiset()
    &&& game.card_total() == standard_deck().to_multiset()
    &&& game.coin_total() == TOTAL_COINS
    &&& game.idx == 0
    &&& game.wait_idx == 0
    &&& game.wait_state is NotWaiting
    &&& game.starting_coins == c.starting_coins
}

impl CoupConfig {
    /// A setup with nobody in it yet, where everyone starts with two coins.
    pub fn new() -> (c: Self)
        ensures
            c.players@.len() == 0,
            c.starting_coins == StartingCoins::Two,
            c.settings_display.is_none(),
    {
        CoupConfig { players: Vec::new(), starting_coins: StartingCoins::default(), settings_display: None }
    }

    /// Coup is played by two to six players.
    pub fn can_start(&self) -> (b: bool)
        ensures
            b == (2 <= self.players@.len() <= 6),
    {
        let n_players = self.players.len();
        2 <= n_players && n_players <= 6
    }

    /// The position of user `u` in the setup.
    pub fn position(&self, u: UserId) -> (r: Option<usize>)
        ensures
            match r {
                Some(i) => i < self.players@.len() && entry_id(self.players@[i as int]) == u,
                None => !config_has(self.players@, u),
            },
    {
        for i in 0..self.players.len()
            invariant
                forall|j: int| 0 <= j < i ==> entry_id(self.players@[j]) != u,
        {
            if self.players[i].0.user.id == u {
                return Some(i);
            }
        }
        None
    }

    /// The member joins; if they had joined already, their entry is replaced.
    pub fn insert_player(&mut self, member: GuildMember, token: Token)
        requires
            ids_unique(old(self).players@),
        ensures
            ids_unique(final(self).players@),
            match old(self).position_spec(member.user.id) {
                Some(i) => final(self).players@ == old(self).players@.update(i, (member, token)),
                None => final(self).players@ == old(self).players@.push((member, token)),
            },
            final(self).starting_coins == old(self).starting_coins,
    {
        let id = member.user.id;
        match self.position(id) {
            Some(i) => {
                self.players.set(i, (member, token));
            },
            None => {
                self.players.push((member, token));
            },
        }
    }

    /// The index of user `u`, as a spec: their only position, if they joined.
    pub open spec fn position_spec(&self, u: UserId) -> Option<int> {
        if config_has(self.players@, u) {
            Some(choose|i: int| 0 <= i < self.players@.len() && #[trigger] entry_id(self.players@[i]) == u)
        } else {
            None
        }
    }

    /// The user leaves the setup; returns whether they had joined.
    pub fn remove_player(&mut self, u: UserId) -> (was_in: bool)
        requires
            ids_unique(old(self).players@),
        ensures
            ids_unique(final(self).players@),
            was_in == config_has(old(self).players@, u),
            match old(self).position_spec(u) {
                Some(i) => final(self).players@ == old(self).players@.remove(i),
                None => final(self).players@ == old(self).players@,
            },
            !config_has(final(self).players@, u),
            final(self).starting_coins == old(self).starting_coins,
    {
        match self.position(u) {
            Some(i) => {
                let _ = self.players.remove(i);
                proof {
                    assert forall|j: int| 0 <= j < self.players@.len() implies
                        #[trigger] entry_id(self.players@[j]) != u by {
                        if j < i {
                            assert(self.players@[j] == old(self).players@[j]);
                        } else {
                            assert(self.players@[j] == old(self).players@[j + 1]);
                        }
                    }
                }
                true
            },
            None => false,
        }
    }

    /// Deals a game: the court deck is shuffled, the seating order is shuffled, each player
    /// gets two cards and the starting coins (in a game of two, the first player one coin
    /// fewer), and the bank keeps the rest of the fifty coins.
    pub fn start_game(&mut self) -> (game: CoupGame)
        requires
            old(self).players@.len() <= 6,
            old(self).players@.len() == 2 ==> old(self).starting_coins != StartingCoins::Zero,
        ensures
            final(self).players@.len() == 0,
            final(self).starting_coins == old(self).starting_coins,
            dealt(*old(self), game),
    {
        let mut deck: Vec<Card> = Vec::new();
        for i in 0..15usize
            invariant
                deck@ == standard_deck().take(i as int),
        {
            deck.push(Card::from_int(i % 5));
            assert(deck@ =~= standard_deck().take(i + 1));
        }
        assert(deck@ =~= standard_deck());
        shuffle(&mut deck);
        let mut entries: Vec<(GuildMember, Token)> = Vec::new();
        std::mem::swap(&mut entries, &mut self.players);
        let ghost joined = entries@;
        shuffle(&mut entries);
        let ghost seated = entries@;
        let n = entries.len();
        let start = self.starting_coins.count();
        let mut players: Vec<CoupPlayer> = Vec::new();
        let mut k: usize = 0;
        while k < n
            invariant
                n == seated.len(),
                n <= 6,
                deck@.len() == 15,
                k <= n,
                entries@ == seated.skip(k as int),
                players@.len() == k,
                start == self.starting_coins.spec_count(),
                start <= 2,
                forall|i: int| 0 <= i < k ==> {
                    &&& (#[trigger] players@[i]).cards@.len() == 2
                    &&& players@[i].lost_cards@.len() == 0
                    &&& players@[i].coins == start
                    &&& players@[i].member == seated[i].0
                    &&& players@[i].token == seated[i].1
                },
                hands(players@) == deck@.take(2 * k).to_multiset(),
                coins_sum(players@) == k * start,
            decreases n - k,
        {
            let (member, token) = entries.remove(0);
            let a = deck[2 * k];
            let b = deck[2 * k + 1];
            let mut cards: Vec<Card> = Vec::new();
            cards.push(a);
            cards.push(b);
            let p = CoupPlayer {
                member,
                token,
                coins: start,
                cards,
                lost_cards: Vec::new(),
                cards_display: None,
                is_exchanging: None,
            };
            let ghost before = players@;
            players.push(p);
            proof {
                assert(players@.drop_last() =~= before);
                assert(deck@.take(2 * k + 2) =~= deck@.take(2 * k) + seq![a, b]);
                vstd::seq_lib::lemma_multiset_commutative(deck@.take(2 * k), seq![a, b]);
                assert(p.cards@ =~= seq![a, b]);
                assert(p.lost_cards@.to_multiset() =~= vstd::multiset::Multiset::empty());
                assert(hand(p) =~= seq![a, b].to_multiset());
                assert(seated.skip(k as int)[0] == seated[k as int]);
                assert(entries@ =~= seated.skip(k + 1));
                assert(coins_sum(players@) == k * start + start) by (nonlinear_arith)
                    requires coins_sum(players@) == coins_sum(before) + start, coins_sum(before) == k * start;
                assert(k * start + start == (k + 1) * start) by (nonlinear_arith);
            }
            k = k + 1;
        }
        let ghost before_dec = players@;
        if n == 2 {
            let p = &mut players[0];
            p.coins = p.coins - 1;
            proof {
                crate::coup::game::lemma_coins_sum_update(before_dec, 0, players@[0]);
                crate::coup::game::lemma_hands_same_hand(before_dec, 0, players@[0]);
                assert(players@ == before_dec.update(0, players@[0]));
            }
        }
        proof {
            assert(players@.map_values(|p: CoupPlayer| (p.member, p.token)) =~= seated);
        }
        let ghost before_pile = players@;
        let mut pile: Vec<Card> = Vec::new();
        for i in (2 * n)..15
            invariant
                pile@ == deck@.subrange(2 * n as int, i as int),
                2 * n <= i <= 15,
                deck@.len() == 15,
        {
            pile.push(deck[i]);
            assert(pile@ =~= deck@.subrange(2 * n as int, i + 1));
        }
        proof {
            assert(deck@ =~= deck@.take(2 * n as int) + pile@);
            vstd::seq_lib::lemma_multiset_commutative(deck@.take(2 * n as int), pile@);
            assert(hands(before_pile) == deck@.take(2 * n as int).to_multiset());
            assert(hands(players@) == hands(before_pile));
            assert(pile@.to_multiset().add(hands(players@)) =~= standard_deck().to_multiset());
            assert(coins_sum(players@) <= n * start);
            assert(coins_sum(players@) <= 12) by (nonlinear_arith)
                requires coins_sum(players@) <= n * start, n <= 6, start <= 2;

            assert forall|j: int| 0 <= j < n implies exists|i: int| 0 <= i < joined.len()
                && #[trigger] seated[j] == joined[i] by {
                assert(seated.to_multiset().count(seated[j]) > 0);
            }
        }
        let coins = TOTAL_COINS - sum_coins(&players);
        CoupGame {
            players,
            starting_coins: self.starting_coins,
            card_pile: pile,
            coins,
            idx: 0,
            wait_state: WaitState::NotWaiting,
            wait_idx: 0,
            start_game: None,
            start_turn: None,
            contest: None,
            block: None,
            contest_block: None,
            lose_influence: None,
            lost_influence: None,
            influence_pic: None,
            exchange_menu: None,
            ability_use: None,
        }
    }
}

/// Coup in one server: a setup that gathers players, or a game under way.
#[derive(Debug)]
pub enum Coup {
    Config(CoupConfig),
    Game(Box<CoupGame>),
}

impl Default for Coup {
    /// A fresh setup.
    fn default() -> (c: Self)
        ensures
            c matches Coup::Config(cfg) && cfg.players@.len() == 0
                && cfg.starting_coins == StartingCoins::Two && cfg.settings_display.is_none(),
    {
        Coup::Config(CoupConfig::new())
    }
}

impl Coup {
    /// The start button: a setup of two to six players is dealt into a game; a game under way,
    /// or a setup of too few or too many, stays as it is and the press is refused.
    pub fn start(&mut self) -> (r: Result<(), CoupNotice>)
        requires
            *old(self) matches Coup::Config(c) ==> (c.players@.len() == 2
                ==> c.starting_coins != StartingCoins::Zero),
        ensures
            match *old(self) {
                Coup::Game(_) => r == Err::<(), CoupNotice>(CoupNotice::AlreadyStarted) && *final(self) == *old(self),
                Coup::Config(c) => if 2 <= c.players@.len() <= 6 {
                    r is Ok && (*final(self) matches Coup::Game(g) && dealt(c, *g))
                } else {
                    r == Err::<(), CoupNotice>(CoupNotice::CannotStart(c.players@.len() as usize))
                        && *final(self) == *old(self)
                },
            },
    {
        let mut current = Coup::Config(CoupConfig::new());
        std::mem::swap(&mut current, self);
        match current {
            Coup::Game(g) => {
                *self = Coup::Game(g);
                Err(CoupNotice::AlreadyStarted)
            },
            Coup::Config(mut c) => {
                if !c.can_start() {
                    let n = c.players.len();
                    *self = Coup::Config(c);
                    Err(CoupNotice::CannotStart(n))
                } else {
                    let g = c.start_game();
                    *self = Coup::Game(Box::new(g));
                    Ok(())
                }
            },
        }
    }

    /// The restart button: a game goes back to a setup with the same players and setting; a
    /// setup stays as it is and the press is refused.
    pub fn restart(&mut self) -> (r: Result<(), CoupNotice>)
        ensures
            match *old(self) {
                Coup::Config(_) => r == Err::<(), CoupNotice>(CoupNotice::NotStarted) && *final(self) == *old(self),
                Coup::Game(g) => r is Ok && (*final(self) matches Coup::Config(c) && {
                    &&& c.players@.len() == g.players@.len()
                    &&& forall|i: int| 0 <= i < c.players@.len() ==>
                        (#[trigger] c.players@[i]).0 == g.players@[i].member && c.players@[i].1 == g.players@[i].token
                    &&& c.starting_coins == g.starting_coins
                    &&& c.settings_display.is_none()
                }),
            },
    {
        let mut current = Coup::Config(CoupConfig::new());
        std::mem::swap(&mut current, self);
        match current {
            Coup::Config(c) => {
                *self = Coup::Config(c);
                Err(CoupNotice::NotStarted)
            },
            Coup::Game(mut g) => {
                let c = g.take_into_setup();
                *self = Coup::Config(c);
                Ok(())
            },
        }
    }
}

/// The coins in all the purses.
pub fn sum_coins(players: &Vec<CoupPlayer>) -> (total: usize)
    requires
        coins_sum(players@) <= TOTAL_COINS,
    ensures
        total == coins_sum(players@),
{
    let mut total: usize = 0;
    for i in 0..players.len()
        invariant
            total == coins_sum(players@.take(i as int)),
            coins_sum(players@) <= TOTAL_COINS,
    {
        proof {
            assert(players@.take(i + 1).drop_last() =~= players@.take(i as int));
            lemma_prefix_sum_le(players@, i + 1);
        }
        total = total + players[i].coins;
    }
    assert(players@.take(players@.len() as int) =~= players@);
    total
}

proof fn lemma_prefix_sum_le(ps: Seq<CoupPlayer>, k: int)
    requires
        0 <= k <= ps.len(),
    ensures
        coins_sum(ps.take(k)) <= coins_sum(ps),
    decreases ps.len(),
{
    if k < ps.len() {
        lemma_prefix_sum_le(ps.drop_last(), k);
        assert(ps.drop_last().take(k) =~= ps.take(k));
        crate::coup::game::lemma_coins_sum_nonneg(ps.drop_last());
    } else {
        assert(ps.take(k) =~= ps);
    }
}

impl CoupGame {
    /// Ends the game and goes back to setup with the same players and setting.
    pub fn take_into_setup(&mut self) -> (config: CoupConfig)
        ensures
            final(self).players@.len() == 0,
            config.players@.len() == old(self).players@.len(),
            forall|i: int| 0 <= i < config.players@.len() ==>
                (#[trigger] config.players@[i]).0 == old(self).players@[i].member
                && config.players@[i].1 == old(self).players@[i].token,
            config.starting_coins == old(self).starting_coins,
            config.settings_display.is_none(),
    {
        let mut ps: Vec<CoupPlayer> = Vec::new();
        std::mem::swap(&mut ps, &mut self.players);
        let ghost all = ps@;
        let mut entries: Vec<(GuildMember, Token)> = Vec::new();
        let n = ps.len();
        let mut k: usize = 0;
        while k < n
            invariant
                n == all.len(),
                k <= n,
                ps@ == all.skip(k as int),
                entries@.len() == k,
                forall|i: int| 0 <= i < k ==>
                    (#[trigger] entries@[i]).0 == all[i].member && entries@[i].1 == all[i].token,
            decreases n - k,
        {
            let p = ps.remove(0);
            assert(all.skip(k as int)[0] == all[k as int]);
            entries.push((p.member, p.token));
            assert(ps@ =~= all.skip(k + 1));
            k = k + 1;
        }
        CoupConfig { players: entries, starting_coins: self.starting_coins, settings_display: None }
    }
}

} // verus!
