//! The state of a game of Coup: the players, the bank, the court deck and whose turn it is.

use vstd::prelude::*;
use vstd::multiset::Multiset;

use crate::coup::cards::{AbilityResolved, AbilityTargeted, Card, FullAbility};
use crate::ids::{MessageId, UserId};
use crate::coup::cards::{StartingCoins, card_of, standard_deck};
use crate::random::shuffle;
use crate::model::{ChannelMessageId, GuildMember, Token, display_name};

verus! {

broadcast use {vstd::multiset::group_multiset_axioms, vstd::seq_lib::group_to_multiset_ensures};

/// The coins a game of Coup has in all: the bank and every player's purse together.
pub const TOTAL_COINS: usize = 50;

/// A player's message that asks them whether to wait, block or contest.
#[derive(Debug, Clone)]
pub struct Pending {
    pub token: Token,
    pub message: MessageId,
    pub user: UserId,
}

/// One seat at the table.
#[derive(Debug, Clone)]
pub struct CoupPlayer {
    pub member: GuildMember,
    /// the token of the player's latest interaction, which messages to them go through
    pub token: Token,
    pub coins: usize,
    /// the influence the player still holds, hidden from the others
    pub cards: Vec<Card>,
    /// the influence the player has lost, shown to everyone
    pub lost_cards: Vec<Card>,
    pub cards_display: Option<(Token, MessageId)>,
    pub is_exchanging: Option<(Token, MessageId)>,
}

impl CoupPlayer {
    /// The player's user id.
    pub open spec fn uid(&self) -> UserId {
        self.member.user.id
    }

    /// The player's user id.
    pub fn id(&self) -> (u: UserId)
        ensures
            u == self.uid(),
    {
        self.member.user.id
    }

    /// Whether the player still holds some influence.
    pub open spec fn alive(&self) -> bool {
        self.cards@.len() > 0
    }

    /// The name the player is shown by.
    pub fn name(&self) -> (s: String)
        ensures
            s@ == display_name(self.member.nick_view(), self.member.user.username@),
    {
        self.member.nick_or_name()
    }
}

/// Where the table is in waiting for the other players to react to an ability.
#[derive(Debug)]
pub enum WaitState {
    /// Not waiting. Starts like this, and when a contest/block happens, gets reset to this
    NotWaiting,
    /// Counting down, players have a button to pause
    Waiting(Vec<Pending>),
    /// Someone pressed the pause button
    Paused(Vec<Pending>),
    /// The countdown is done, and if unpaused, don't have to keep waiting
    PausedDone(Vec<Pending>),
}

/// The coins in the players' purses.
pub open spec fn coins_sum(ps: Seq<CoupPlayer>) -> int
    decreases ps.len(),
{
    if ps.len() == 0 { 0 } else { coins_sum(ps.drop_last()) + ps.last().coins }
}

/// The cards a player holds and has lost.
pub open spec fn hand(p: CoupPlayer) -> Multiset<Card> {
    p.cards@.to_multiset().add(p.lost_cards@.to_multiset())
}

/// The cards all the players hold and have lost.
pub open spec fn hands(ps: Seq<CoupPlayer>) -> Multiset<Card>
    decreases ps.len(),
{
    if ps.len() == 0 { Multiset::empty() } else { hands(ps.drop_last()).add(hand(ps.last())) }
}

/// The number of players who still hold influence.
pub open spec fn alive_count(ps: Seq<CoupPlayer>) -> nat
    decreases ps.len(),
{
    if ps.len() == 0 {
        0
    } else {
        alive_count(ps.drop_last()) + if ps.last().alive() { 1nat } else { 0nat }
    }
}

/// The index of the first player with user id `u`, if any.
pub open spec fn first_with_id(ps: Seq<CoupPlayer>, u: UserId, i: int) -> bool {
    0 <= i < ps.len() && ps[i].uid() == u && forall|j: int| 0 <= j < i ==> ps[j].uid() != u
}

/// Whether some player has user id `u`.
pub open spec fn has_id(ps: Seq<CoupPlayer>, u: UserId) -> bool {
    exists|i: int| 0 <= i < ps.len() && #[trigger] ps[i].uid() == u
}

/// Turn counter `to` is the first counter after `from` that lands on a player with influence.
pub open spec fn is_next_turn(ps: Seq<CoupPlayer>, from: int, to: int) -> bool {
    &&& from < to
    &&& ps[to % (ps.len() as int)].alive()
    &&& forall|t: int| from < t < to ==> !#[trigger] ps[t % (ps.len() as int)].alive()
}

pub proof fn lemma_coins_sum_update(ps: Seq<CoupPlayer>, i: int, p: CoupPlayer)
    requires
        0 <= i < ps.len(),
    ensures
        coins_sum(ps.update(i, p)) == coins_sum(ps) - ps[i].coins + p.coins,
    decreases ps.len(),
{
    if i < ps.len() - 1 {
        lemma_coins_sum_update(ps.drop_last(), i, p);
        assert(ps.update(i, p).drop_last() =~= ps.drop_last().update(i, p));
    } else {
        assert(ps.update(i, p).drop_last() =~= ps.drop_last());
    }
}

pub proof fn lemma_coins_sum_bounds(ps: Seq<CoupPlayer>, i: int)
    requires
        0 <= i < ps.len(),
    ensures
        0 <= ps[i].coins <= coins_sum(ps),
        coins_sum(ps) >= 0,
    decreases ps.len(),
{
    lemma_coins_sum_nonneg(ps.drop_last());
    if i < ps.len() - 1 {
        lemma_coins_sum_bounds(ps.drop_last(), i);
    }
}

pub proof fn lemma_coins_sum_nonneg(ps: Seq<CoupPlayer>)
    ensures
        coins_sum(ps) >= 0,
    decreases ps.len(),
{
    if ps.len() > 0 {
        lemma_coins_sum_nonneg(ps.drop_last());
    }
}

pub proof fn lemma_hands_update(ps: Seq<CoupPlayer>, i: int, p: CoupPlayer)
    requires
        0 <= i < ps.len(),
    ensures
        hands(ps.update(i, p)).add(hand(ps[i])) =~= hands(ps).add(hand(p)),
    decreases ps.len(),
{
    let q = ps.update(i, p);
    if i < ps.len() - 1 {
        lemma_hands_update(ps.drop_last(), i, p);
        assert(q.drop_last() =~= ps.drop_last().update(i, p));
        assert(q.last() == ps.last());
        assert forall|c: Card| #[trigger] hands(q).add(hand(ps[i])).count(c) == hands(ps).add(hand(p)).count(c) by {
            assert(hands(ps.drop_last().update(i, p)).add(hand(ps.drop_last()[i])).count(c)
                == hands(ps.drop_last()).add(hand(p)).count(c));
        }
    } else {
        assert(q.drop_last() =~= ps.drop_last());
        assert(q.last() == p);
    }
}

pub proof fn lemma_alive_count_positive(ps: Seq<CoupPlayer>, i: int)
    requires
        0 <= i < ps.len(),
        ps[i].alive(),
    ensures
        alive_count(ps) >= 1,
    decreases ps.len(),
{
    if i < ps.len() - 1 {
        lemma_alive_count_positive(ps.drop_last(), i);
    }
}

/// Every residue modulo `len` is met by one of the `len` counters after `from`.
pub proof fn lemma_residue_reached(from: int, len: int, j: int)
    requires
        len > 0,
        from >= 0,
        0 <= j < len,
    ensures
        exists|t: int| from < t <= from + len && #[trigger] (t % len) == j,
{
    let r = (from + 1) % len;
    let q = (from + 1) / len;
    vstd::arithmetic::div_mod::lemma_fundamental_div_mod(from + 1, len);
    vstd::arithmetic::div_mod::lemma_mod_bound(from + 1, len);
    if j >= r {
        let t = from + 1 + (j - r);
        assert(t == len * q + j);
        vstd::arithmetic::div_mod::lemma_mod_multiples_vanish(q, j, len);
        vstd::arithmetic::div_mod::lemma_small_mod(j as nat, len as nat);
        assert(t % len == j);
    } else {
        let t = from + 1 + (j - r + len);
        assert(t == len * (q + 1) + j) by (nonlinear_arith)
            requires t == from + 1 + (j - r + len), from + 1 == len * q + r;
        vstd::arithmetic::div_mod::lemma_mod_multiples_vanish(q + 1, j, len);
        vstd::arithmetic::div_mod::lemma_small_mod(j as nat, len as nat);
        assert(t % len == j);
    }
}

/// What a turn ends in.
#[derive(Debug, Clone, Copy, PartialEq, Eq, Structural)]
pub enum TurnOutcome {
    /// only the player at this seat still has influence, and has won
    Winner(usize),
    /// it is now the turn of the player at this seat
    NextPlayer(usize),
}

/// A game of Coup.
#[derive(Debug)]
pub struct CoupGame {
    pub players: Vec<CoupPlayer>,
    pub starting_coins: crate::coup::cards::StartingCoins,
    /// the court deck
    pub card_pile: Vec<Card>,
    /// the bank
    pub coins: usize,
    /// the turn counter; the current player sits at `idx % players.len()`
    pub idx: usize,
    pub wait_state: WaitState,
    pub wait_idx: usize,
    pub start_game: Option<(Token, MessageId)>,
    pub start_turn: Option<(Token, MessageId)>,
    pub contest: Option<(Token, MessageId)>,
    pub block: Option<(Token, MessageId)>,
    pub contest_block: Option<Token>,
    pub lose_influence: Option<(Token, MessageId)>,
    pub lost_influence: Option<Token>,
    pub influence_pic: Option<Token>,
    pub exchange_menu: Option<(Token, MessageId)>,
    pub ability_use: Option<(Token, MessageId)>,
}

impl CoupGame {
    /// All the coins in play: the bank and the purses.
    pub open spec fn coin_total(&self) -> int {
        self.coins + coins_sum(self.players@)
    }

    /// All the cards in play: the court deck and every player's influence, held or lost.
    pub open spec fn card_total(&self) -> Multiset<Card> {
        self.card_pile@.to_multiset().add(hands(self.players@))
    }

    /// The seat of the player whose turn it is.
    pub open spec fn cur(&self) -> int {
        self.idx as int % (self.players@.len() as int)
    }

    /// What `next_turn` needs: a table with someone still in the game, and room to count turns.
    pub open spec fn can_advance(&self) -> bool {
        &&& self.players@.len() > 0
        &&& exists|i: int| 0 <= i < self.players@.len() && #[trigger] self.players@[i].alive()
        &&& self.idx + 2 * self.players@.len() < usize::MAX
    }

    /// The seat of the player whose turn it is.
    pub fn current_index(&self) -> (i: usize)
        requires
            self.players@.len() > 0,
        ensures
            i == self.cur(),
    {
        self.idx % self.players.len()
    }

    /// The player whose turn it is.
    pub fn current_player(&self) -> (p: &CoupPlayer)
        requires
            self.players@.len() > 0,
        ensures
            *p == self.players@[self.cur()],
    {
        &self.players[self.idx % self.players.len()]
    }

    /// The player whose turn it is, to change.
    pub fn current_player_mut(&mut self) -> (p: &mut CoupPlayer)
        requires
            old(self).players@.len() > 0,
        ensures
            *p == old(self).players@[old(self).cur()],
            final(self).players@ == old(self).players@.update(old(self).cur(), *final(p)),
            final(self).idx == old(self).idx,
            final(self).coins == old(self).coins,
            final(self).card_pile == old(self).card_pile,
    {
        let len = self.players.len();
        &mut self.players[self.idx % len]
    }

    /// The seat of the first player with this user id.
    pub fn position(&self, user: UserId) -> (r: Option<usize>)
        ensures
            match r {
                Some(i) => first_with_id(self.players@, user, i as int),
                None => !has_id(self.players@, user),
            },
    {
        let n = self.players.len();
        for i in 0..n
            invariant
                n == self.players@.len(),
                forall|j: int| 0 <= j < i ==> self.players@[j].uid() != user,
        {
            if self.players[i].id() == user {
                return Some(i);
            }
        }
        None
    }

    /// The first player with this user id.
    pub fn get_player(&self, user: UserId) -> (r: Option<&CoupPlayer>)
        ensures
            match r {
                Some(p) => exists|i: int| first_with_id(self.players@, user, i) && *p == self.players@[i],
                None => !has_id(self.players@, user),
            },
    {
        match self.position(user) {
            Some(i) => Some(&self.players[i]),
            None => None,
        }
    }

    /// The first player with this user id, to change.
    pub fn get_player_mut(&mut self, user: UserId) -> (r: Option<&mut CoupPlayer>)
        ensures
            match r {
                Some(p) => exists|i: int| {
                    &&& first_with_id(old(self).players@, user, i)
                    &&& *p == old(self).players@[i]
                    &&& final(self).players@ == old(self).players@.update(i, *final(p))
                },
                None => !has_id(old(self).players@, user) && final(self).players@ == old(self).players@,
            },
    {
        match self.position(user) {
            Some(i) => Some(&mut self.players[i]),
            None => None,
        }
    }

    /// Starts a countdown for the other players to react; returns the countdown's number.
    pub fn wait(&mut self, interactions: Vec<Pending>) -> (n: usize)
        requires
            old(self).wait_idx < usize::MAX,
        ensures
            final(self).wait_state == WaitState::Waiting(interactions),
            n == old(self).wait_idx + 1,
            final(self).wait_idx == n,
            final(self).players == old(self).players,
            final(self).idx == old(self).idx,
            final(self).coins == old(self).coins,
            final(self).card_pile == old(self).card_pile,
    {
        self.wait_state = WaitState::Waiting(interactions);
        self.wait_idx = self.wait_idx + 1;
        self.wait_idx
    }

    /// Remembers the token of the player's latest interaction.
    pub fn update_token(&mut self, user: UserId, token: Token)
        requires
            has_id(old(self).players@, user),
        ensures
            exists|i: int| {
                &&& first_with_id(old(self).players@, user, i)
                &&& final(self).players@ == old(self).players@.update(i, CoupPlayer {
                    token: token,
                    ..old(self).players@[i]
                })
            },
            final(self).idx == old(self).idx,
            final(self).coins == old(self).coins,
            final(self).card_pile == old(self).card_pile,
    {
        let i = match self.position(user) {
            Some(i) => i,
            None => { return; },
        };
        let p = &mut self.players[i];
        p.token = token;
    }

    /// Passes the turn to the next player who still holds influence, and says whether they have
    /// won because nobody else does.
    pub fn next_turn(&mut self) -> (outcome: TurnOutcome)
        requires
            old(self).can_advance(),
        ensures
            is_next_turn(old(self).players@, old(self).idx as int, final(self).idx as int),
            final(self).idx <= old(self).idx + old(self).players@.len(),
            final(self).players == old(self).players,
            final(self).coins == old(self).coins,
            final(self).card_pile == old(self).card_pile,
            final(self).wait_idx == old(self).wait_idx,
            outcome == if alive_count(old(self).players@) == 1 {
                TurnOutcome::Winner(final(self).cur() as usize)
            } else {
                TurnOutcome::NextPlayer(final(self).cur() as usize)
            },
    {
        let n = self.players.len();
        let ghost from = self.idx as int;
        let ghost ps = self.players@;
        let ghost snap = *self;
        let start: usize = self.idx;
        self.idx = self.idx + 1;
        while !self.players[self.idx % n].alive_exec()
            invariant
                n == self.players@.len(),
                n > 0,
                start == from,
                ps == self.players@,
                self.players == snap.players,
                self.coins == snap.coins,
                self.card_pile == snap.card_pile,
                self.wait_idx == snap.wait_idx,
                exists|i: int| 0 <= i < n && #[trigger] ps[i].alive(),
                from < self.idx <= from + n,
                from + 2 * n < usize::MAX,
                forall|t: int| from < t < self.idx ==> !#[trigger] ps[t % (n as int)].alive(),
            decreases from + n - self.idx,
        {
            if self.idx == start + n {
                proof {
                    let i = choose|i: int| 0 <= i < n && #[trigger] ps[i].alive();
                    lemma_residue_reached(from, n as int, i);
                    let t = choose|t: int| from < t <= from + n && #[trigger] (t % (n as int)) == i;
                    assert(ps[t % (n as int)].alive());
                    assert(false);
                }
            }
            self.idx = self.idx + 1;
        }
        let count = self.alive_players();
        let cur = self.idx % n;
        if count == 1 {
            TurnOutcome::Winner(cur)
        } else {
            TurnOutcome::NextPlayer(cur)
        }
    }

    /// The number of players who still hold influence.
    pub fn alive_players(&self) -> (count: usize)
        ensures
            count == alive_count(self.players@),
    {
        let n = self.players.len();
        let mut count: usize = 0;
        for i in 0..n
            invariant
                n == self.players@.len(),
                count == alive_count(self.players@.take(i as int)),
                count <= i,
        {
            proof {
                assert(self.players@.take(i + 1).drop_last() =~= self.players@.take(i as int));
            }
            if self.players[i].alive_exec() {
                count = count + 1;
            }
        }
        assert(self.players@.take(n as int) =~= self.players@);
        count
    }
}

impl CoupPlayer {
    /// Whether the player still holds some influence.
    pub fn alive_exec(&self) -> (b: bool)
        ensures
            b == self.alive(),
    {
        self.cards.len() > 0
    }
}


/// The player with their purse set to `coins`.
pub open spec fn with_coins(p: CoupPlayer, coins: int) -> CoupPlayer {
    CoupPlayer { coins: coins as usize, ..p }
}

/// The two seats hold the same player, except perhaps for the cards in hand.
pub open spec fn same_but_cards(p: CoupPlayer, q: CoupPlayer) -> bool {
    &&& p.member == q.member
    &&& p.token == q.token
    &&& p.coins == q.coins
    &&& p.lost_cards == q.lost_cards
    &&& p.cards_display == q.cards_display
    &&& p.is_exchanging == q.is_exchanging
}

/// The coins a player gets from a bank holding `bank` when they take `want`: what is there.
pub open spec fn bank_gives(bank: int, want: int) -> int {
    if bank >= want { want } else { bank }
}

/// Whether resolving this ability passes the turn (rather than waiting on a choice of cards).
pub open spec fn ends_turn(a: FullAbility) -> bool {
    match a {
        FullAbility::Use(r) => match r.ability {
            AbilityTargeted::Coup(_) | AbilityTargeted::Assassinate(_) | AbilityTargeted::Exchange => false,
            _ => true,
        },
        FullAbility::Block(_, _, _) => true,
    }
}

/// The first seat of user `u`.
pub open spec fn seat_of(ps: Seq<CoupPlayer>, u: UserId) -> int {
    choose|i: int| first_with_id(ps, u, i)
}

/// What resolving an ability leads to.
#[derive(Debug)]
pub enum ResolveOutcome {
    /// the turn passed on
    Turn(TurnOutcome),
    /// this player must now choose an influence to lose
    LoseInfluence(UserId),
    /// the current player must choose which of these cards to keep
    Exchange(Vec<Card>),
}

pub proof fn lemma_hands_same_hand(ps: Seq<CoupPlayer>, i: int, p: CoupPlayer)
    requires
        0 <= i < ps.len(),
        p.cards == ps[i].cards,
        p.lost_cards == ps[i].lost_cards,
    ensures
        hands(ps.update(i, p)) =~= hands(ps),
{
    lemma_hands_update(ps, i, p);
    assert forall|c: Card| #[trigger] hands(ps.update(i, p)).count(c) == hands(ps).count(c) by {
        assert(hands(ps.update(i, p)).add(hand(ps[i])).count(c) == hands(ps).add(hand(p)).count(c));
    }
}

pub proof fn lemma_alive_kept(ps: Seq<CoupPlayer>, i: int, p: CoupPlayer)
    requires
        0 <= i < ps.len(),
        p.cards == ps[i].cards,
        exists|j: int| 0 <= j < ps.len() && #[trigger] ps[j].alive(),
    ensures
        exists|j: int| 0 <= j < ps.len() && #[trigger] ps.update(i, p)[j].alive(),
{
    let j = choose|j: int| 0 <= j < ps.len() && #[trigger] ps[j].alive();
    assert(ps.update(i, p)[j].alive());
}

pub proof fn lemma_seat_of(ps: Seq<CoupPlayer>, u: UserId)
    requires
        has_id(ps, u),
    ensures
        first_with_id(ps, u, seat_of(ps, u)),
        forall|i: int| first_with_id(ps, u, i) ==> i == seat_of(ps, u),
{
    let k = choose|k: int| 0 <= k < ps.len() && #[trigger] ps[k].uid() == u;
    lemma_first_exists(ps, u, k);
    let s = seat_of(ps, u);
    assert forall|i: int| first_with_id(ps, u, i) implies i == s by {
        if i < s {
            assert(ps[i].uid() != u);
        } else if i > s {
            assert(ps[s].uid() != u);
        }
    }
}

proof fn lemma_first_exists(ps: Seq<CoupPlayer>, u: UserId, k: int)
    requires
        0 <= k < ps.len(),
        ps[k].uid() == u,
    ensures
        exists|i: int| first_with_id(ps, u, i),
    decreases k,
{
    if exists|j: int| 0 <= j < k && ps[j].uid() == u {
        let j = choose|j: int| 0 <= j < k && ps[j].uid() == u;
        lemma_first_exists(ps, u, j);
    } else {
        assert(first_with_id(ps, u, k));
    }
}

impl CoupGame {
    /// Moves up to `want` coins from the bank to the current player's purse.
    fn take_from_bank(&mut self, want: usize)
        requires
            old(self).players@.len() > 0,
            old(self).coin_total() <= TOTAL_COINS,
            want <= 3,
        ensures
            final(self).coins == old(self).coins - bank_gives(old(self).coins as int, want as int),
            final(self).players@ == old(self).players@.update(old(self).cur(), with_coins(
                old(self).players@[old(self).cur()],
                old(self).players@[old(self).cur()].coins + bank_gives(old(self).coins as int, want as int),
            )),
            final(self).idx == old(self).idx,
            final(self).card_pile == old(self).card_pile,
            final(self).wait_idx == old(self).wait_idx,
            final(self).coin_total() == old(self).coin_total(),
            final(self).card_total() == old(self).card_total(),
    {
        let n = self.players.len();
        let cur = self.idx % n;
        let ghost ps = self.players@;
        proof { lemma_coins_sum_bounds(ps, cur as int); }
        let got = if self.coins >= want { want } else { self.coins };
        self.coins = self.coins - got;
        let p = &mut self.players[cur];
        p.coins = p.coins + got;
        proof {
            lemma_coins_sum_update(ps, cur as int, self.players@[cur as int]);
            lemma_hands_same_hand(ps, cur as int, self.players@[cur as int]);
            assert(self.players@ == ps.update(cur as int, self.players@[cur as int]));
        }
    }

    /// Carries out an ability that nobody blocked or successfully contested.
    pub fn resolve_ability(&mut self, ability: FullAbility) -> (outcome: ResolveOutcome)
        requires
            old(self).players@.len() > 0,
            old(self).coin_total() <= TOTAL_COINS,
            ends_turn(ability) ==> old(self).can_advance(),
            ability matches FullAbility::Use(r) ==> match r.ability {
                AbilityTargeted::Coup(t) =>
                    old(self).players@[old(self).cur()].coins >= 7 && has_id(old(self).players@, t),
                AbilityTargeted::Assassinate(t) =>
                    old(self).players@[old(self).cur()].coins >= 3 && has_id(old(self).players@, t),
                AbilityTargeted::Steal(t) => has_id(old(self).players@, t),
                AbilityTargeted::Exchange => old(self).card_pile@.len() >= 2,
                _ => true,
            },
        ensures
            // the bank and the purses
            ({
                let ps = old(self).players@;
                let cur = old(self).cur();
                let me = ps[cur];
                match ability {
                    FullAbility::Use(r) => match r.ability {
                        AbilityTargeted::Income => {
                            &&& final(self).coins == old(self).coins - bank_gives(old(self).coins as int, 1)
                            &&& final(self).players@ == ps.update(cur, with_coins(me, me.coins + bank_gives(old(self).coins as int, 1)))
                        },
                        AbilityTargeted::ForeignAid => {
                            &&& final(self).coins == old(self).coins - bank_gives(old(self).coins as int, 2)
                            &&& final(self).players@ == ps.update(cur, with_coins(me, me.coins + bank_gives(old(self).coins as int, 2)))
                        },
                        AbilityTargeted::Tax => {
                            &&& final(self).coins == old(self).coins - bank_gives(old(self).coins as int, 3)
                            &&& final(self).players@ == ps.update(cur, with_coins(me, me.coins + bank_gives(old(self).coins as int, 3)))
                        },
                        AbilityTargeted::Coup(t) => {
                            &&& final(self).coins == old(self).coins
                            &&& final(self).players@ == ps.update(cur, with_coins(me, me.coins - 7))
                            &&& outcome == ResolveOutcome::LoseInfluence(t)
                        },
                        AbilityTargeted::Assassinate(t) => {
                            &&& final(self).coins == old(self).coins
                            &&& final(self).players@ == ps.update(cur, with_coins(me, me.coins - 3))
                            &&& outcome == ResolveOutcome::LoseInfluence(t)
                        },
                        AbilityTargeted::Steal(t) => {
                            let ti = seat_of(ps, t);
                            let stolen = bank_gives(ps[ti].coins as int, 2);
                            let robbed = ps.update(ti, with_coins(ps[ti], ps[ti].coins - stolen));
                            &&& final(self).coins == old(self).coins
                            &&& final(self).players@ == robbed.update(cur, with_coins(robbed[cur], robbed[cur].coins + stolen))
                        },
                        AbilityTargeted::Exchange => {
                            &&& final(self).coins == old(self).coins
                            &&& final(self).players@ == ps.update(cur, final(self).players@[cur])
                            &&& same_but_cards(final(self).players@[cur], me)
                            &&& final(self).players@[cur].cards@ == Seq::<Card>::empty()
                            &&& final(self).card_pile@ == old(self).card_pile@.subrange(2, old(self).card_pile@.len() as int)
                            &&& outcome matches ResolveOutcome::Exchange(v)
                                && v@ == me.cards@ + old(self).card_pile@.subrange(0, 2)
                        },
                    },
                    FullAbility::Block(_, _, _) => {
                        &&& final(self).coins == old(self).coins
                        &&& final(self).players@ == ps
                    },
                }
            }),
            // the turn passes on exactly when the ability is done with
            ends_turn(ability) ==> {
                &&& is_next_turn(final(self).players@, old(self).idx as int, final(self).idx as int)
                &&& outcome == ResolveOutcome::Turn(if alive_count(final(self).players@) == 1 {
                    TurnOutcome::Winner(final(self).cur() as usize)
                } else {
                    TurnOutcome::NextPlayer(final(self).cur() as usize)
                })
            },
            !ends_turn(ability) ==> final(self).idx == old(self).idx,
            !(ability matches FullAbility::Use(AbilityResolved { ability: AbilityTargeted::Exchange, .. }))
                ==> final(self).card_pile == old(self).card_pile,
            // no coin is made: only a Coup (seven) or an Assassination (three) takes coins out
            final(self).coin_total() == old(self).coin_total() - match ability {
                FullAbility::Use(r) => match r.ability {
                    AbilityTargeted::Coup(_) => 7int,
                    AbilityTargeted::Assassinate(_) => 3int,
                    _ => 0int,
                },
                _ => 0int,
            },
            // no card is made or lost: an Exchange only puts cards in the current player's hands
            match outcome {
                ResolveOutcome::Exchange(v) => final(self).card_total().add(v@.to_multiset()) == old(self).card_total(),
                _ => final(self).card_total() == old(self).card_total(),
            },
            final(self).wait_idx == old(self).wait_idx,
    {
        let n = self.players.len();
        let cur = self.idx % n;
        let ghost ps = self.players@;
        match ability {
            FullAbility::Use(r) => match r.ability {
                AbilityTargeted::Income => {
                    self.take_from_bank(1);
                    proof { lemma_alive_kept(ps, cur as int, self.players@[cur as int]); }
                    ResolveOutcome::Turn(self.next_turn())
                },
                AbilityTargeted::ForeignAid => {
                    self.take_from_bank(2);
                    proof { lemma_alive_kept(ps, cur as int, self.players@[cur as int]); }
                    ResolveOutcome::Turn(self.next_turn())
                },
                AbilityTargeted::Tax => {
                    self.take_from_bank(3);
                    proof { lemma_alive_kept(ps, cur as int, self.players@[cur as int]); }
                    ResolveOutcome::Turn(self.next_turn())
                },
                AbilityTargeted::Coup(t) => {
                    let p = &mut self.players[cur];
                    p.coins = p.coins - 7;
                    proof {
                        lemma_coins_sum_update(ps, cur as int, self.players@[cur as int]);
                        lemma_hands_same_hand(ps, cur as int, self.players@[cur as int]);
                    }
                    ResolveOutcome::LoseInfluence(t)
                },
                AbilityTargeted::Assassinate(t) => {
                    let p = &mut self.players[cur];
                    p.coins = p.coins - 3;
                    proof {
                        lemma_coins_sum_update(ps, cur as int, self.players@[cur as int]);
                        lemma_hands_same_hand(ps, cur as int, self.players@[cur as int]);
                    }
                    ResolveOutcome::LoseInfluence(t)
                },
                AbilityTargeted::Steal(t) => {
                    proof { lemma_seat_of(ps, t); }
                    let ti = match self.position(t) {
                        Some(ti) => ti,
                        None => { return ResolveOutcome::Turn(self.next_turn()); },
                    };
                    proof { lemma_coins_sum_bounds(ps, ti as int); lemma_coins_sum_bounds(ps, cur as int); }
                    let target = &mut self.players[ti];
                    let stolen = if target.coins >= 2 { 2 } else { target.coins };
                    target.coins = target.coins - stolen;
                    let ghost robbed = self.players@;
                    proof {
                        lemma_coins_sum_update(ps, ti as int, robbed[ti as int]);
                        lemma_hands_same_hand(ps, ti as int, robbed[ti as int]);
                        lemma_coins_sum_bounds(robbed, cur as int);
                    }
                    let me = &mut self.players[cur];
                    me.coins = me.coins + stolen;
                    proof {
                        lemma_alive_kept(ps, ti as int, robbed[ti as int]);
                        assert(robbed == ps.update(ti as int, robbed[ti as int]));
                        lemma_alive_kept(robbed, cur as int, self.players@[cur as int]);
                        lemma_coins_sum_update(robbed, cur as int, self.players@[cur as int]);
                        lemma_hands_same_hand(robbed, cur as int, self.players@[cur as int]);
                        assert(self.players@ == robbed.update(cur as int, self.players@[cur as int]));
                    }
                    ResolveOutcome::Turn(self.next_turn())
                },
                AbilityTargeted::Exchange => {
                    let mut cards: Vec<Card> = Vec::new();
                    let p = &mut self.players[cur];
                    std::mem::swap(&mut cards, &mut p.cards);
                    let ghost emptied = self.players@;
                    let a = self.card_pile.remove(0);
                    let b = self.card_pile.remove(0);
                    let ghost mine = cards@;
                    cards.push(a);
                    cards.push(b);
                    proof {
                        let pile = old(self).card_pile@;
                        assert(self.card_pile@ =~= pile.subrange(2, pile.len() as int));
                        assert(pile =~= seq![a, b] + self.card_pile@);
                        assert(cards@ =~= mine + pile.subrange(0, 2));
                        lemma_hands_update(ps, cur as int, emptied[cur as int]);
                        assert(emptied == ps.update(cur as int, emptied[cur as int]));
                        vstd::seq_lib::lemma_multiset_commutative(seq![a, b], self.card_pile@);
                        vstd::seq_lib::lemma_multiset_commutative(mine, seq![a, b]);
                        assert(seq![a, b] =~= seq![a].push(b));
                        assert(emptied[cur as int].cards@ =~= Seq::<Card>::empty());
                        assert(hand(emptied[cur as int]).add(mine.to_multiset()) =~= hand(ps[cur as int]));
                        lemma_coins_sum_update(ps, cur as int, emptied[cur as int]);
                        let pile = old(self).card_pile@;
                        assert forall|c: Card| #[trigger] self.card_total().add(cards@.to_multiset()).count(c)
                            == old(self).card_total().count(c) by {
                            assert(hands(emptied).add(hand(ps[cur as int])).count(c)
                                == hands(ps).add(hand(emptied[cur as int])).count(c));
                            assert(cards@.to_multiset().count(c) == mine.to_multiset().count(c) + seq![a, b].to_multiset().count(c));
                            assert(pile.to_multiset().count(c) == seq![a, b].to_multiset().count(c) + self.card_pile@.to_multiset().count(c));
                        }
                        assert(self.card_total().add(cards@.to_multiset()) =~= old(self).card_total());
                    }
                    ResolveOutcome::Exchange(cards)
                },
            },
            FullAbility::Block(_, _, _) => {
                ResolveOutcome::Turn(self.next_turn())
            },
        }
    }
}


/// The cards of `offered` whose positions among the first `k` are chosen.
pub open spec fn kept_upto(offered: Seq<Card>, chosen: Seq<usize>, k: int) -> Seq<Card>
    decreases k,
{
    if k <= 0 {
        Seq::empty()
    } else {
        let rest = kept_upto(offered, chosen, k - 1);
        if chosen.contains((k - 1) as usize) { rest.push(offered[k - 1]) } else { rest }
    }
}

/// The cards of `offered` whose positions among the first `k` are not chosen.
pub open spec fn returned_upto(offered: Seq<Card>, chosen: Seq<usize>, k: int) -> Seq<Card>
    decreases k,
{
    if k <= 0 {
        Seq::empty()
    } else {
        let rest = returned_upto(offered, chosen, k - 1);
        if chosen.contains((k - 1) as usize) { rest } else { rest.push(offered[k - 1]) }
    }
}

/// The seat keeps its player, who has lost the card at position `k` of their hand.
pub open spec fn lost_card_at(p: CoupPlayer, q: CoupPlayer, k: int) -> bool {
    &&& q.member == p.member
    &&& q.token == p.token
    &&& q.coins == p.coins
    &&& q.cards_display == p.cards_display
    &&& q.is_exchanging == p.is_exchanging
    &&& q.cards@ == p.cards@.remove(k)
    &&& q.lost_cards@ == p.lost_cards@.push(p.cards@[k])
}

/// The first position of `c` in `s`.
pub open spec fn first_position(s: Seq<Card>, c: Card, k: int) -> bool {
    0 <= k < s.len() && s[k] == c && forall|j: int| 0 <= j < k ==> s[j] != c
}

/// Where a countdown stands when its time runs out.
#[derive(Debug)]
pub enum Countdown {
    /// a newer countdown has started since; nothing to do
    Stale,
    /// someone already acted; nothing to do
    Nothing,
    /// the wait is over: delete these messages and carry out the ability
    Expired(Vec<Pending>),
    /// the countdown is paused; it is marked done, for whoever unpauses it
    MarkedDone,
}

/// What unpausing a countdown leads to.
#[derive(Debug)]
pub enum Unpause {
    /// the countdown runs on
    Resumed,
    /// the countdown had already run out: delete these messages and carry out the ability
    Expired(Vec<Pending>),
}

/// Who loses an influence after a contest, and what happens once they have.
#[derive(Debug, Clone, Copy, PartialEq, Eq, Structural)]
pub struct ContestOutcome {
    /// true if the contester loses an influence, false if the claimer does
    pub contester_loses: bool,
    /// the ability that resolves after the influence is lost, if any
    pub then: Option<FullAbility>,
}

/// The outcome of contesting `ability` when the claimer did, or did not, hold the card.
pub open spec fn spec_contest_outcome(ability: FullAbility, had_card: bool) -> ContestOutcome {
    if had_card {
        ContestOutcome {
            contester_loses: true,
            then: if ability is Use { Some(ability) } else { None },
        }
    } else {
        ContestOutcome {
            contester_loses: false,
            then: match ability {
                FullAbility::Block(a, _, _) => Some(FullAbility::Use(a)),
                FullAbility::Use(_) => None,
            },
        }
    }
}

/// Decides a contest: a claimer who held the card keeps the ability going and the contester
/// loses an influence; a claimer caught bluffing loses an influence, and a blocked ability goes
/// through after all.
pub fn contest_outcome(ability: FullAbility, had_card: bool) -> (o: ContestOutcome)
    ensures
        o == spec_contest_outcome(ability, had_card),
{
    if had_card {
        ContestOutcome {
            contester_loses: true,
            then: if ability.is_use() { Some(ability) } else { None },
        }
    } else {
        ContestOutcome {
            contester_loses: false,
            then: if ability.is_block() { Some(FullAbility::Use(ability.ability())) } else { None },
        }
    }
}

proof fn lemma_kept_returned(offered: Seq<Card>, chosen: Seq<usize>, k: int)
    requires
        0 <= k <= offered.len(),
    ensures
        kept_upto(offered, chosen, k).to_multiset().add(returned_upto(offered, chosen, k).to_multiset())
            =~= offered.take(k).to_multiset(),
    decreases k,
{
    if k > 0 {
        lemma_kept_returned(offered, chosen, k - 1);
        assert(offered.take(k) =~= offered.take(k - 1).push(offered[k - 1]));
    }
}

impl CoupGame {
    /// The current player keeps the offered cards whose positions they chose and puts the
    /// others back at the bottom of the court deck; then the turn passes on.
    pub fn finish_exchange(&mut self, offered: Vec<Card>, chosen: &Vec<usize>) -> (outcome: TurnOutcome)
        requires
            old(self).players@.len() > 0,
            old(self).idx + 2 * old(self).players@.len() < usize::MAX,
            exists|i: int| 0 <= i < offered@.len() && #[trigger] chosen@.contains(i as usize),
        ensures
            ({
                let cur = old(self).cur();
                let me = old(self).players@[cur];
                let kept = kept_upto(offered@, chosen@, offered@.len() as int);
                &&& final(self).players@ == old(self).players@.update(cur, final(self).players@[cur])
                &&& same_but_cards(final(self).players@[cur], me)
                &&& final(self).players@[cur].cards@ == kept
                &&& final(self).card_pile@ == old(self).card_pile@ + returned_upto(offered@, chosen@, offered@.len() as int)
                &&& final(self).card_total().add(me.cards@.to_multiset()) == old(self).card_total().add(offered@.to_multiset())
            }),
            final(self).coins == old(self).coins,
            final(self).coin_total() == old(self).coin_total(),
            is_next_turn(final(self).players@, old(self).idx as int, final(self).idx as int),
            outcome == if alive_count(final(self).players@) == 1 {
                TurnOutcome::Winner(final(self).cur() as usize)
            } else {
                TurnOutcome::NextPlayer(final(self).cur() as usize)
            },
    {
        let ghost ps = self.players@;
        let n = self.players.len();
        let cur = self.idx % n;
        let mut keep: Vec<Card> = Vec::new();
        let mut back: Vec<Card> = Vec::new();
        let m = offered.len();
        for i in 0..m
            invariant
                m == offered@.len(),
                keep@ == kept_upto(offered@, chosen@, i as int),
                back@ == returned_upto(offered@, chosen@, i as int),
        {
            if contains_index(chosen, i) {
                keep.push(offered[i]);
            } else {
                back.push(offered[i]);
            }
        }
        proof {
            lemma_kept_returned(offered@, chosen@, m as int);
            assert(offered@.take(m as int) =~= offered@);
            let w = choose|i: int| 0 <= i < offered@.len() && #[trigger] chosen@.contains(i as usize);
            lemma_kept_has(offered@, chosen@, m as int, w);
        }
        let ghost old_pile = self.card_pile@;
        let ghost back_seq = back@;
        self.card_pile.append(&mut back);
        let ghost kept = keep@;
        let p = &mut self.players[cur];
        p.cards = keep;
        proof {
            let me = ps[cur as int];
            let now = self.players@;
            assert(now == ps.update(cur as int, now[cur as int]));
            lemma_hands_update(ps, cur as int, now[cur as int]);
            lemma_coins_sum_update(ps, cur as int, now[cur as int]);
            vstd::seq_lib::lemma_multiset_commutative(old_pile, back_seq);
            assert forall|c: Card| #[trigger] self.card_total().add(me.cards@.to_multiset()).count(c)
                == old(self).card_total().add(offered@.to_multiset()).count(c) by {
                assert(hands(now).add(hand(me)).count(c) == hands(ps).add(hand(now[cur as int])).count(c));
            }
            assert(self.card_total().add(me.cards@.to_multiset()) =~= old(self).card_total().add(offered@.to_multiset()));
            assert(now[cur as int].alive());
        }
        self.next_turn()
    }

    /// The player gives up the influence `lost`, which is then shown to everyone; returns
    /// whether they are out of the game.
    pub fn lose_influence(&mut self, loser: UserId, lost: Card) -> (out: bool)
        requires
            has_id(old(self).players@, loser),
            old(self).players@[seat_of(old(self).players@, loser)].cards@.contains(lost),
        ensures
            ({
                let s = seat_of(old(self).players@, loser);
                let p = old(self).players@[s];
                exists|k: int| first_position(p.cards@, lost, k)
                    && lost_card_at(p, final(self).players@[s], k)
                    && final(self).players@ == old(self).players@.update(s, final(self).players@[s])
                    && out == (final(self).players@[s].cards@.len() == 0)
            }),
            final(self).coins == old(self).coins,
            final(self).idx == old(self).idx,
            final(self).card_pile == old(self).card_pile,
            final(self).coin_total() == old(self).coin_total(),
            final(self).card_total() == old(self).card_total(),
    {
        let ghost ps = self.players@;
        proof { lemma_seat_of(ps, loser); }
        let s = match self.position(loser) {
            Some(s) => s,
            None => { return false; },
        };
        let k = match card_position(&self.players[s].cards, lost) {
            Some(k) => k,
            None => { return false; },
        };
        let p = &mut self.players[s];
        let card = p.cards.remove(k);
        p.lost_cards.push(card);
        let out = p.cards.len() == 0;
        proof {
            let now = self.players@;
            let old_p = ps[s as int];
            assert(now == ps.update(s as int, now[s as int]));
            lemma_coins_sum_update(ps, s as int, now[s as int]);
            lemma_hands_update(ps, s as int, now[s as int]);
            assert(old_p.cards@ =~= old_p.cards@.take(k as int) + seq![lost] + old_p.cards@.skip(k + 1));
            assert(now[s as int].cards@ =~= old_p.cards@.take(k as int) + old_p.cards@.skip(k + 1));
            vstd::seq_lib::lemma_multiset_commutative(old_p.cards@.take(k as int) + seq![lost], old_p.cards@.skip(k + 1));
            vstd::seq_lib::lemma_multiset_commutative(old_p.cards@.take(k as int), seq![lost]);
            vstd::seq_lib::lemma_multiset_commutative(old_p.cards@.take(k as int), old_p.cards@.skip(k + 1));
            assert(hand(now[s as int]) =~= hand(old_p));
            assert forall|c: Card| #[trigger] hands(now).count(c) == hands(ps).count(c) by {
                assert(hands(now).add(hand(old_p)).count(c) == hands(ps).add(hand(now[s as int])).count(c));
            }
            assert(hands(now) =~= hands(ps));
            assert(lost_card_at(old_p, now[s as int], k as int));
        }
        out
    }

    /// Settles a contest of `claimer`'s claim to hold `claim`: if they hold it, they show it,
    /// shuffle it back into the court deck and draw a new card. Returns whether they held it.
    pub fn contest(&mut self, claimer: UserId, claim: Card) -> (had_card: bool)
        requires
            has_id(old(self).players@, claimer),
        ensures
            ({
                let s = seat_of(old(self).players@, claimer);
                let p = old(self).players@[s];
                &&& had_card == p.cards@.contains(claim)
                &&& !had_card ==> final(self).players@ == old(self).players@
                    && final(self).card_pile == old(self).card_pile
                &&& had_card ==> {
                    let q = final(self).players@[s];
                    &&& final(self).players@ == old(self).players@.update(s, q)
                    &&& same_but_cards(q, p)
                    &&& q.cards@.len() == p.cards@.len()
                    &&& exists|k: int| #![trigger p.cards@[k]] first_position(p.cards@, claim, k)
                        && q.cards@.drop_last() == p.cards@.remove(k)
                    &&& final(self).card_pile@.to_multiset().insert(q.cards@.last())
                        == old(self).card_pile@.to_multiset().insert(claim)
                }
            }),
            final(self).coins == old(self).coins,
            final(self).idx == old(self).idx,
            final(self).coin_total() == old(self).coin_total(),
            final(self).card_total() == old(self).card_total(),
    {
        let ghost ps = self.players@;
        proof { lemma_seat_of(ps, claimer); }
        let s = match self.position(claimer) {
            Some(s) => s,
            None => { return false; },
        };
        let k = match card_position(&self.players[s].cards, claim) {
            Some(k) => k,
            None => { return false; },
        };
        let ghost old_pile = self.card_pile@;
        let p = &mut self.players[s];
        let card = p.cards.remove(k);
        self.card_pile.push(card);
        shuffle(&mut self.card_pile);
        let ghost shuffled = self.card_pile@;
        let new_card = self.card_pile.swap_remove(0);
        let p = &mut self.players[s];
        p.cards.push(new_card);
        proof {
            let now = self.players@;
            let old_p = ps[s as int];
            assert(now == ps.update(s as int, now[s as int]));
            lemma_coins_sum_update(ps, s as int, now[s as int]);
            lemma_hands_update(ps, s as int, now[s as int]);
            assert(now[s as int].cards@.drop_last() =~= old_p.cards@.remove(k as int));
            assert(old_p.cards@ =~= old_p.cards@.take(k as int) + seq![claim] + old_p.cards@.skip(k + 1));
            assert(old_p.cards@.remove(k as int) =~= old_p.cards@.take(k as int) + old_p.cards@.skip(k + 1));
            vstd::seq_lib::lemma_multiset_commutative(old_p.cards@.take(k as int) + seq![claim], old_p.cards@.skip(k + 1));
            vstd::seq_lib::lemma_multiset_commutative(old_p.cards@.take(k as int), seq![claim]);
            vstd::seq_lib::lemma_multiset_commutative(old_p.cards@.take(k as int), old_p.cards@.skip(k + 1));
            assert(now[s as int].cards@ =~= old_p.cards@.remove(k as int).push(new_card));
            assert(shuffled.to_multiset() =~= self.card_pile@.to_multiset().insert(new_card)) by {
                lemma_swap_remove_front(shuffled, self.card_pile@);
            }
            assert(shuffled.to_multiset() =~= old_pile.to_multiset().insert(claim));
            let rem = old_p.cards@.remove(k as int);
            assert(hand(now[s as int]).add(seq![claim].to_multiset()) =~= hand(old_p).add(seq![new_card].to_multiset())) by {
                vstd::seq_lib::lemma_multiset_commutative(rem, seq![new_card]);
                assert(rem + seq![new_card] =~= rem.push(new_card));
                assert(old_p.cards@.to_multiset() =~= rem.to_multiset().add(seq![claim].to_multiset()));
            }
            assert forall|c: Card| #[trigger] hands(now).add(seq![claim].to_multiset()).count(c)
                == hands(ps).add(seq![new_card].to_multiset()).count(c) by {
                assert(hands(now).add(hand(old_p)).count(c) == hands(ps).add(hand(now[s as int])).count(c));
                assert(hand(now[s as int]).add(seq![claim].to_multiset()).count(c)
                    == hand(old_p).add(seq![new_card].to_multiset()).count(c));
            }
            assert forall|c: Card| #[trigger] self.card_total().count(c) == old(self).card_total().count(c) by {
                assert(hands(now).add(seq![claim].to_multiset()).count(c)
                    == hands(ps).add(seq![new_card].to_multiset()).count(c));
                assert(shuffled.to_multiset().count(c) == self.card_pile@.to_multiset().count(c) + seq![new_card].to_multiset().count(c));
                assert(shuffled.to_multiset().count(c) == old_pile.to_multiset().count(c) + seq![claim].to_multiset().count(c));
            }
            assert(self.card_total() =~= old(self).card_total());
            assert(first_position(old_p.cards@, claim, k as int));
            assert(old_p.cards@.contains(claim));
        }
        true
    }

    /// Where the current countdown stands now that its time has run out.
    pub fn countdown_elapsed(&mut self, wait_idx: usize) -> (c: Countdown)
        requires
            old(self).wait_idx == wait_idx ==> !(old(self).wait_state is PausedDone),
        ensures
            old(self).wait_idx != wait_idx ==> c is Stale && final(self).wait_state == old(self).wait_state,
            old(self).wait_idx == wait_idx ==> match old(self).wait_state {
                WaitState::NotWaiting => c is Nothing && final(self).wait_state is NotWaiting,
                WaitState::Waiting(v) => c == Countdown::Expired(v) && final(self).wait_state is NotWaiting,
                WaitState::Paused(v) => c is MarkedDone && final(self).wait_state == WaitState::PausedDone(v),
                WaitState::PausedDone(_) => false,
            },
            final(self).players == old(self).players,
            final(self).idx == old(self).idx,
            final(self).coins == old(self).coins,
            final(self).card_pile == old(self).card_pile,
            final(self).wait_idx == old(self).wait_idx,
    {
        if self.wait_idx != wait_idx {
            return Countdown::Stale;
        }
        let mut state = WaitState::NotWaiting;
        std::mem::swap(&mut state, &mut self.wait_state);
        match state {
            WaitState::NotWaiting => Countdown::Nothing,
            WaitState::Waiting(v) => Countdown::Expired(v),
            WaitState::Paused(v) => {
                self.wait_state = WaitState::PausedDone(v);
                Countdown::MarkedDone
            },
            WaitState::PausedDone(v) => {
                self.wait_state = WaitState::PausedDone(v);
                Countdown::Nothing
            },
        }
    }

    /// A player asks everyone to wait: a running countdown is paused. Returns whether it was.
    pub fn pause(&mut self) -> (paused: bool)
        requires
            old(self).wait_state is NotWaiting || old(self).wait_state is Waiting,
        ensures
            match old(self).wait_state {
                WaitState::Waiting(v) => paused && final(self).wait_state == WaitState::Paused(v),
                _ => !paused && final(self).wait_state is NotWaiting,
            },
            final(self).players == old(self).players,
            final(self).idx == old(self).idx,
            final(self).coins == old(self).coins,
            final(self).card_pile == old(self).card_pile,
            final(self).wait_idx == old(self).wait_idx,
    {
        let mut state = WaitState::NotWaiting;
        std::mem::swap(&mut state, &mut self.wait_state);
        match state {
            WaitState::Waiting(v) => {
                self.wait_state = WaitState::Paused(v);
                true
            },
            _ => false,
        }
    }

    /// The paused countdown goes on; if its time already ran out, the wait is over.
    pub fn unpause(&mut self) -> (u: Unpause)
        requires
            old(self).wait_state is Paused || old(self).wait_state is PausedDone,
        ensures
            match old(self).wait_state {
                WaitState::Paused(v) => u is Resumed && final(self).wait_state == WaitState::Waiting(v),
                WaitState::PausedDone(v) => u == Unpause::Expired(v) && final(self).wait_state is NotWaiting,
                _ => false,
            },
            final(self).players == old(self).players,
            final(self).idx == old(self).idx,
            final(self).coins == old(self).coins,
            final(self).card_pile == old(self).card_pile,
            final(self).wait_idx == old(self).wait_idx,
    {
        let mut state = WaitState::NotWaiting;
        std::mem::swap(&mut state, &mut self.wait_state);
        match state {
            WaitState::Paused(v) => {
                self.wait_state = WaitState::Waiting(v);
                Unpause::Resumed
            },
            WaitState::PausedDone(v) => Unpause::Expired(v),
            WaitState::Waiting(v) => {
                self.wait_state = WaitState::Waiting(v);
                Unpause::Resumed
            },
            WaitState::NotWaiting => Unpause::Resumed,
        }
    }

    /// Stops waiting; returns the messages that were shown while waiting, to be deleted.
    pub fn stop_waiting(&mut self) -> (pending: Vec<Pending>)
        ensures
            final(self).wait_state is NotWaiting,
            match old(self).wait_state {
                WaitState::NotWaiting => pending@.len() == 0,
                WaitState::Waiting(v) => pending == v,
                WaitState::Paused(v) => pending == v,
                WaitState::PausedDone(v) => pending == v,
            },
            final(self).players == old(self).players,
            final(self).idx == old(self).idx,
            final(self).coins == old(self).coins,
            final(self).card_pile == old(self).card_pile,
            final(self).wait_idx == old(self).wait_idx,
    {
        let mut state = WaitState::NotWaiting;
        std::mem::swap(&mut state, &mut self.wait_state);
        match state {
            WaitState::NotWaiting => Vec::new(),
            WaitState::Waiting(v) => v,
            WaitState::Paused(v) => v,
            WaitState::PausedDone(v) => v,
        }
    }
}

/// Whether `i` is among the chosen positions.
pub fn contains_index(chosen: &Vec<usize>, i: usize) -> (b: bool)
    ensures
        b == chosen@.contains(i),
{
    for j in 0..chosen.len()
        invariant
            forall|k: int| 0 <= k < j ==> chosen@[k] != i,
    {
        if chosen[j] == i {
            return true;
        }
    }
    false
}

/// The first position of `c` in the cards.
pub fn card_position(cards: &Vec<Card>, c: Card) -> (r: Option<usize>)
    ensures
        match r {
            Some(k) => first_position(cards@, c, k as int),
            None => !cards@.contains(c),
        },
{
    for j in 0..cards.len()
        invariant
            forall|k: int| 0 <= k < j ==> cards@[k] != c,
    {
        if cards[j] == c {
            return Some(j);
        }
    }
    None
}

proof fn lemma_kept_has(offered: Seq<Card>, chosen: Seq<usize>, k: int, w: int)
    requires
        0 <= w < k <= offered.len(),
        chosen.contains(w as usize),
    ensures
        kept_upto(offered, chosen, k).len() > 0,
    decreases k,
{
    if w < k - 1 {
        lemma_kept_has(offered, chosen, k - 1, w);
    }
}

proof fn lemma_swap_remove_front(before: Seq<Card>, after: Seq<Card>)
    requires
        before.len() > 0,
        after == before.update(0, before.last()).drop_last(),
    ensures
        before.to_multiset() =~= after.to_multiset().insert(before[0]),
{
    let n = before.len();
    if n == 1 {
        assert(after =~= Seq::<Card>::empty());
        assert(before =~= seq![before[0]]);
    } else {
        let mid = before.subrange(1, n - 1);
        assert(before =~= seq![before[0]] + mid.push(before.last()));
        assert(after =~= seq![before.last()] + mid);
        vstd::seq_lib::lemma_multiset_commutative(seq![before[0]], mid.push(before.last()));
        vstd::seq_lib::lemma_multiset_commutative(seq![before.last()], mid);
    }
}

} // verus!
