//! A running game of Avalon: the table, the leader, the quests won and lost, and the votes.

use vstd::prelude::*;

use crate::avalon::characters::{AvalonPlayer, Character, Loyalty, Round, Rounds, character_name, spec_loyalty, spec_round};
use crate::ids::{ChannelId, Id, MessageId, UserId};
use crate::markup::ping_nick_user;
use crate::model::{ChannelMessageId, Color, Embed, EmbedField, display_name, ping_nick_text};
use crate::text::{decimal, push_char, u64_to_string};

verus! {

/// A player's vote, sent to them as a direct message they react to.
#[derive(Debug, Clone, Copy, PartialEq, Eq, Structural)]
pub struct Vote {
    pub message: MessageId,
    pub user: UserId,
    /// positive to approve or succeed, negative to reject or fail, zero while undecided
    pub vote: i32,
}

/// What the game is waiting for.
#[derive(Debug)]
pub enum AvalonState {
    GameStart,
    RoundStart,
    /// everyone votes on the party the leader proposed
    PartyVote(Vec<Vote>, Vec<UserId>),
    /// the party votes whether the quest succeeds
    Questing(Vec<Vote>),
    Assassinate,
    Lotl,
}

impl AvalonState {
    /// The votes on the proposed party, while those are being cast.
    pub fn party_vote_mut(&mut self) -> (v: Option<&mut Vec<Vote>>)
        ensures
            match *old(self) {
                AvalonState::PartyVote(votes, party) => v matches Some(r) && *r == votes
                    && *final(self) == AvalonState::PartyVote(*final(r), party),
                _ => v.is_none() && *final(self) == *old(self),
            },
    {
        match self {
            AvalonState::PartyVote(votes, _) => Some(votes),
            _ => None,
        }
    }

    /// The votes on the quest, while those are being cast.
    pub fn questing_vote_mut(&mut self) -> (v: Option<&mut Vec<Vote>>)
        ensures
            match *old(self) {
                AvalonState::Questing(votes) => v matches Some(r) && *r == votes
                    && *final(self) == AvalonState::Questing(*final(r)),
                _ => v.is_none() && *final(self) == *old(self),
            },
    {
        match self {
            AvalonState::Questing(votes) => Some(votes),
            _ => None,
        }
    }
}

/// The number of `true` in `s`.
pub open spec fn count_true(s: Seq<bool>) -> nat
    decreases s.len(),
{
    if s.len() == 0 { 0 } else { count_true(s.drop_last()) + if s.last() { 1nat } else { 0nat } }
}

/// The number of `false` in `s`.
pub open spec fn count_false(s: Seq<bool>) -> nat
    decreases s.len(),
{
    if s.len() == 0 { 0 } else { count_false(s.drop_last()) + if s.last() { 0nat } else { 1nat } }
}

/// The seat of the first player dealt `c`.
pub open spec fn first_role(ps: Seq<AvalonPlayer>, c: Character, i: int) -> bool {
    0 <= i < ps.len() && ps[i].role == c && forall|j: int| 0 <= j < i ==> ps[j].role != c
}

/// Some player was dealt `c`.
pub open spec fn has_role(ps: Seq<AvalonPlayer>, c: Character) -> bool {
    exists|i: int| 0 <= i < ps.len() && #[trigger] ps[i].role == c
}

/// The seat of the first player with user id `u`.
pub open spec fn first_player(ps: Seq<AvalonPlayer>, u: UserId, i: int) -> bool {
    0 <= i < ps.len() && ps[i].member.user.id == u && forall|j: int| 0 <= j < i ==> ps[j].member.user.id != u
}

/// Some player has user id `u`.
pub open spec fn has_player(ps: Seq<AvalonPlayer>, u: UserId) -> bool {
    exists|i: int| 0 <= i < ps.len() && #[trigger] ps[i].member.user.id == u
}

/// What ending a quest round leads to.
#[derive(Debug, Clone, Copy, PartialEq, Eq, Structural)]
pub enum EndRound {
    /// good won three quests, but the assassin at this seat may still kill Merlin
    Assassinate(usize),
    /// good won three quests and there is no Merlin to kill, or no assassin
    GoodWin,
    /// evil won three quests
    EvilWin,
    /// the Lady of the Lake (at this seat) now looks at someone's loyalty
    Lotl(usize),
    /// the next quest begins
    NextRound,
}

/// A game of Avalon.
#[derive(Debug)]
pub struct AvalonGame {
    pub state: AvalonState,
    pub channel: ChannelId,
    pub players: Vec<AvalonPlayer>,
    pub rounds: Rounds,
    /// the seat of the player holding the Lady of the Lake, if she is in the game
    pub lotl: Option<usize>,
    /// the seat of the leader
    pub leader: usize,
    /// the quest being played, from one to five
    pub round: usize,
    /// for each finished quest, whether good won it
    pub good_won: Vec<bool>,
    /// parties rejected in a row
    pub rejected_quests: usize,
    pub prev_ladies: Vec<UserId>,
    pub pins: Vec<ChannelMessageId>,
    pub stop_votes: (i8, i8),
}

/// What ending a quest round does to the game, with `won` the quests finished so far (whether
/// good won each): three for good lead to the assassination (or to good's victory if there is
/// no Assassin or no Merlin); three for evil to evil's victory; after quests two to four the Lady
/// of the Lake is used; otherwise the next quest begins with the next leader. A game that is
/// over keeps its state.
pub open spec fn round_ended(before: AvalonGame, won: Seq<bool>, after: AvalonGame, e: EndRound) -> bool {
    let ps = before.players@;
    let goods = count_true(won);
    let evils = count_false(won);
    &&& if goods == 3 {
        &&& (if has_role(ps, Character::Assassin) && has_role(ps, Character::Merlin) {
            &&& e matches EndRound::Assassinate(a) && first_role(ps, Character::Assassin, a as int)
            &&& after.state is Assassinate
        } else {
            &&& e is GoodWin
            &&& after.state == before.state
        })
        &&& after.round == before.round
        &&& after.leader == before.leader
    } else if evils == 3 {
        &&& e is EvilWin
        &&& after.state == before.state
        &&& after.round == before.round
        &&& after.leader == before.leader
    } else if before.lotl.is_some() && 2 <= before.round <= 4 {
        &&& e == EndRound::Lotl(before.lotl.unwrap())
        &&& after.state is Lotl
        &&& after.round == before.round
        &&& after.leader == before.leader
    } else {
        &&& e is NextRound
        &&& after.state is RoundStart
        &&& after.round == before.round + 1
        &&& after.leader == (before.leader + 1) % (ps.len() as int)
    }
    &&& after.players == before.players
    &&& after.rejected_quests == before.rejected_quests
    &&& after.lotl == before.lotl
    &&& after.rounds == before.rounds
}

impl AvalonGame {
    /// A game about to start: the first quest, led by the first player.
    pub fn new(channel: ChannelId, players: Vec<AvalonPlayer>, lotl: Option<usize>) -> (g: Self)
        ensures
            g.state is GameStart,
            g.channel == channel,
            g.players == players,
            g.rounds == Rounds(players@.len() as usize),
            g.lotl == lotl,
            g.leader == 0,
            g.round == 1,
            g.good_won@.len() == 0,
            g.rejected_quests == 0,
            g.prev_ladies@.len() == 0,
            g.pins@.len() == 0,
            g.stop_votes == (0i8, 0i8),
    {
        let rounds = Rounds(players.len());
        AvalonGame {
            state: AvalonState::GameStart,
            channel,
            players,
            rounds,
            lotl,
            leader: 0,
            round: 1,
            good_won: Vec::new(),
            rejected_quests: 0,
            prev_ladies: Vec::new(),
            pins: Vec::new(),
            stop_votes: (0, 0),
        }
    }

    /// Passes leadership to the next seat.
    pub fn advance_leader(leader: &mut usize, num_players: usize)
        requires
            num_players > 0,
            *old(leader) < usize::MAX,
        ensures
            *final(leader) == (*old(leader) + 1) % (num_players as int),
    {
        *leader = *leader + 1;
        *leader = *leader % num_players;
    }

    /// The leader.
    pub fn leader(&self) -> (p: &AvalonPlayer)
        requires
            self.leader < self.players@.len(),
        ensures
            *p == self.players@[self.leader as int],
    {
        &self.players[self.leader]
    }

    /// The holder of the Lady of the Lake, if she is in the game.
    pub fn lotl(&self) -> (p: Option<&AvalonPlayer>)
        requires
            self.lotl matches Some(l) ==> l < self.players@.len(),
        ensures
            match self.lotl {
                Some(l) => p matches Some(q) && *q == self.players@[l as int],
                None => p.is_none(),
            },
    {
        match self.lotl {
            Some(l) => Some(&self.players[l]),
            None => None,
        }
    }

    /// The seat of the first player with user id `id`.
    pub fn position(&self, id: UserId) -> (r: Option<usize>)
        ensures
            match r {
                Some(i) => first_player(self.players@, id, i as int),
                None => !has_player(self.players@, id),
            },
    {
        for i in 0..self.players.len()
            invariant
                forall|j: int| 0 <= j < i ==> self.players@[j].member.user.id != id,
        {
            if self.players[i].id() == id {
                return Some(i);
            }
        }
        None
    }

    /// The player with user id `id`, if they are playing.
    pub fn player_ref(&self, id: UserId) -> (p: Option<&AvalonPlayer>)
        ensures
            match p {
                Some(q) => exists|i: int| first_player(self.players@, id, i) && *q == self.players@[i],
                None => !has_player(self.players@, id),
            },
    {
        match self.position(id) {
            Some(i) => Some(&self.players[i]),
            None => None,
        }
    }

    /// The quest being played.
    pub fn round(&self) -> (r: Round)
        requires
            5 <= self.rounds.0 <= 10,
            1 <= self.round <= 5,
        ensures
            r == spec_round(self.rounds.0 as nat, self.round as nat),
    {
        self.rounds.get(self.round)
    }

    /// The seat of the first player dealt `c`.
    pub fn role_position(&self, c: Character) -> (r: Option<usize>)
        ensures
            match r {
                Some(i) => first_role(self.players@, c, i as int),
                None => !has_role(self.players@, c),
            },
    {
        for i in 0..self.players.len()
            invariant
                forall|j: int| 0 <= j < i ==> self.players@[j].role != c,
        {
            if self.players[i].role == c {
                return Some(i);
            }
        }
        None
    }

    /// Ends a quest round: three quests for good lead to the assassination (or to good's
    /// victory if there is no Assassin or no Merlin); three for evil to evil's victory; after
    /// quests two to four the Lady of the Lake is used; otherwise the next quest begins with
    /// the next leader. A game that is over keeps its state.
    pub fn end_round(&mut self) -> (e: EndRound)
        requires
            old(self).players@.len() > 0,
            old(self).leader < usize::MAX,
            old(self).round < usize::MAX,
            old(self).lotl matches Some(l) ==> l < old(self).players@.len(),
        ensures
            round_ended(*old(self), old(self).good_won@, *final(self), e),
            final(self).good_won == old(self).good_won,
    {
        let goods = count_bools(&self.good_won, true);
        let evils = count_bools(&self.good_won, false);
        if goods == 3 {
            let assassin = self.role_position(Character::Assassin);
            let merlin = self.role_position(Character::Merlin);
            match (assassin, merlin) {
                (Some(a), Some(_)) => {
                    self.state = AvalonState::Assassinate;
                    EndRound::Assassinate(a)
                },
                _ => EndRound::GoodWin,
            }
        } else if evils == 3 {
            EndRound::EvilWin
        } else if self.lotl.is_some() && 2 <= self.round && self.round <= 4 {
            self.state = AvalonState::Lotl;
            match self.lotl {
                Some(l) => EndRound::Lotl(l),
                None => EndRound::NextRound,
            }
        } else {
            self.round = self.round + 1;
            let n = self.players.len();
            AvalonGame::advance_leader(&mut self.leader, n);
            self.state = AvalonState::RoundStart;
            EndRound::NextRound
        }
    }
}

/// How many entries of `s` equal `b`.
pub fn count_bools(s: &Vec<bool>, b: bool) -> (n: usize)
    ensures
        n == if b { count_true(s@) } else { count_false(s@) },
{
    let mut n: usize = 0;
    for i in 0..s.len()
        invariant
            n == if b { count_true(s@.take(i as int)) } else { count_false(s@.take(i as int)) },
            n <= i,
    {
        proof {
            assert(s@.take(i + 1).drop_last() =~= s@.take(i as int));
        }
        if s[i] == b {
            n = n + 1;
        }
    }
    assert(s@.take(s@.len() as int) =~= s@);
    n
}

/// The name of the picture of the board after the quests `wins` (good's wins as `G`, evil's
/// as `E`) and `rejects` rejected parties in a row, for `players` players.
pub open spec fn board_name(players: nat, wins: Seq<bool>, rejects: nat) -> Seq<char> {
    decimal(players) + wins.map_values(|g: bool| if g { 'G' } else { 'E' }) + Seq::new(rejects, |i: int| 'R')
}

/// The name of the picture of the board after these quests and rejected parties.
pub fn board_fname(players: usize, wins: &Vec<bool>, rejects: usize) -> (s: String)
    ensures
        s@ == board_name(players as nat, wins@, rejects as nat),
{
    let mut s = u64_to_string(players as u64);
    let ghost start = s@;
    for i in 0..wins.len()
        invariant
            s@ == start + wins@.take(i as int).map_values(|g: bool| if g { 'G' } else { 'E' }),
    {
        push_char(&mut s, if wins[i] { 'G' } else { 'E' });
        assert(wins@.take(i + 1).map_values(|g: bool| if g { 'G' } else { 'E' })
            =~= wins@.take(i as int).map_values(|g: bool| if g { 'G' } else { 'E' }).push(if wins@[i as int] { 'G' } else { 'E' }));
    }
    assert(wins@.take(wins@.len() as int) =~= wins@);
    let ghost mid = s@;
    for j in 0..rejects
        invariant
            s@ == mid + Seq::new(j as nat, |i: int| 'R'),
    {
        push_char(&mut s, 'R');
        assert(Seq::new((j + 1) as nat, |i: int| 'R') =~= Seq::new(j as nat, |i: int| 'R').push('R'));
    }
    assert(s@ =~= board_name(players as nat, wins@, rejects as nat));
    s
}

/// What starts a quest: the leader is pinged, and told how big a party to send.
#[derive(Debug)]
pub struct RoundStart {
    /// the message's text: the leader, pinged
    pub content: String,
    pub embed: Embed,
    /// how many players the quest command takes
    pub quest_size: usize,
}

/// The name a player is shown by.
pub open spec fn shown_name(p: AvalonPlayer) -> Seq<char> {
    display_name(p.member.nick_view(), p.member.user.username@)
}

/// The title of a quest: its number and its leader.
pub open spec fn round_title(round: nat, leader: AvalonPlayer) -> Seq<char> {
    "Quest "@ + decimal(round) + ": The leader is "@ + shown_name(leader)
}

/// How many players a quest takes, and how many fails make it fail where that is more than one.
pub open spec fn party_size_text(r: Round) -> Seq<char> {
    "Send "@ + decimal(r.players as nat) + " players on the quest"@ + if r.fails == 1 {
        "."@
    } else {
        ", "@ + decimal(r.fails as nat) + " fails are needed for this quest to fail."@
    }
}

impl AvalonGame {
    /// The name of the picture of the board as the game stands.
    pub fn board_image(&self) -> (s: String)
        ensures
            s@ == board_name(self.players@.len(), self.good_won@, self.rejected_quests as nat),
    {
        board_fname(self.players.len(), &self.good_won, self.rejected_quests)
    }

    /// The message that starts the current quest.
    pub fn start_round(&self) -> (r: RoundStart)
        requires
            self.leader < self.players@.len(),
            self.lotl matches Some(l) ==> l < self.players@.len(),
            5 <= self.rounds.0 <= 10,
            1 <= self.round <= 5,
        ensures
            r.content@ == ping_nick_text(self.players@[self.leader as int].member.user.id.0),
            r.quest_size == spec_round(self.rounds.0 as nat, self.round as nat).players,
            r.embed.color == Some(Color::Gold),
            r.embed.title matches Some(t) && t@ == round_title(self.round as nat, self.players@[self.leader as int]),
            match self.lotl {
                Some(l) => if self.round != 5 {
                    r.embed.description matches Some(d)
                        && d@ == shown_name(self.players@[l as int]) + " has the Lady of the Lake"@
                } else {
                    r.embed.description.is_none()
                },
                None => r.embed.description.is_none(),
            },
            r.embed.fields@.len() == 1,
            r.embed.fields@[0].name@ == "Use `/quest` to choose who to send on the quest"@,
            r.embed.fields@[0].value@ == party_size_text(spec_round(self.rounds.0 as nat, self.round as nat)),
            !r.embed.fields@[0].inline,
    {
        let round = self.rounds.get(self.round);
        let leader = self.leader();
        let content = ping_nick_user(leader.member.user.id);
        let mut e = Embed::new();
        e.color = Some(Color::Gold);
        let mut title = String::from_str("Quest ");
        let n = u64_to_string(self.round as u64);
        title.append(n.as_str());
        title.append(": The leader is ");
        let name = leader.member.nick_or_name();
        title.append(name.as_str());
        e.title = Some(title);
        match self.lotl() {
            Some(lotl) => {
                if self.round != 5 {
                    let mut d = lotl.member.nick_or_name();
                    d.append(" has the Lady of the Lake");
                    e.description = Some(d);
                }
            },
            None => {},
        }
        let mut value = String::from_str("Send ");
        let p = u64_to_string(round.players as u64);
        value.append(p.as_str());
        value.append(" players on the quest");
        if round.fails == 1 {
            value.append(".");
        } else {
            value.append(", ");
            let f = u64_to_string(round.fails as u64);
            value.append(f.as_str());
            value.append(" fails are needed for this quest to fail.");
        }
        e.fields.push(EmbedField::new(String::from_str("Use `/quest` to choose who to send on the quest"), value));
        RoundStart { content, embed: e, quest_size: round.players }
    }
}

/// What the table is told when a quest round ends in something other than the next quest.
#[derive(Debug)]
pub struct Announcement {
    /// the player pinged, if one must act now
    pub content: Option<String>,
    pub embed: Embed,
}

/// The evil players, each as a field: their name over their character.
pub open spec fn evil_fields(ps: Seq<AvalonPlayer>) -> Seq<(Seq<char>, Seq<char>)> {
    ps.filter(|p: AvalonPlayer| spec_loyalty(p.role) == Loyalty::Evil)
        .map_values(|p: AvalonPlayer| (shown_name(p), character_name(p.role)))
}

/// The title of the call to the Lady of the Lake.
pub open spec fn lotl_title(lady: AvalonPlayer) -> Seq<char> {
    "Now "@ + shown_name(lady) + " will use the Lady of the Lake to find someone's alignment"@
}

impl AvalonGame {
    /// What the table is told after `end_round` answered `end`: the Assassin is called with the
    /// evil players shown, the winners are announced, or the Lady of the Lake is called. The
    /// next quest is announced by `start_round` instead, so there is nothing for it here.
    pub fn announcement(&self, end: EndRound) -> (a: Option<Announcement>)
        requires
            end matches EndRound::Assassinate(i) ==> i < self.players@.len(),
            end matches EndRound::Lotl(i) ==> i < self.players@.len(),
        ensures
            match end {
                EndRound::Assassinate(i) => a matches Some(a) && {
                    &&& a.content matches Some(c) && c@ == ping_nick_text(self.players@[i as int].member.user.id.0)
                    &&& a.embed.title matches Some(t) && t@
                        == "The good guys have succeeded three quests, but the Assassin can still try to kill Merlin"@
                    &&& a.embed.description matches Some(d) && d@ == "Use `/assassinate` to assassinate who you think is Merlin"@
                    &&& a.embed.color.is_none()
                    &&& a.embed.fields@.len() == evil_fields(self.players@).len()
                    &&& forall|k: int| 0 <= k < a.embed.fields@.len() ==> {
                        &&& (#[trigger] a.embed.fields@[k]).name@ == evil_fields(self.players@)[k].0
                        &&& a.embed.fields@[k].value@ == evil_fields(self.players@)[k].1
                        &&& a.embed.fields@[k].inline
                    }
                },
                EndRound::GoodWin => a matches Some(a) && {
                    &&& a.content.is_none()
                    &&& a.embed.title matches Some(t) && t@ == "The good guys win!"@
                    &&& a.embed.color == Some(Color::Blue)
                    &&& a.embed.fields@.len() == 0
                    &&& a.embed.description.is_none()
                },
                EndRound::EvilWin => a matches Some(a) && {
                    &&& a.content.is_none()
                    &&& a.embed.title matches Some(t) && t@ == "The bad guys win!"@
                    &&& a.embed.color == Some(Color::Red)
                    &&& a.embed.fields@.len() == 0
                    &&& a.embed.description.is_none()
                },
                EndRound::Lotl(i) => a matches Some(a) && {
                    &&& a.content matches Some(c) && c@ == ping_nick_text(self.players@[i as int].member.user.id.0)
                    &&& a.embed.title matches Some(t) && t@ == lotl_title(self.players@[i as int])
                    &&& a.embed.description matches Some(d) && d@ == "Use `/lotl` to find someone's alignment. You can't use this on someone who has already had the Lady of the Lake."@
                    &&& a.embed.color.is_none()
                    &&& a.embed.fields@.len() == 0
                },
                EndRound::NextRound => a.is_none(),
            },
    {
        match end {
            EndRound::Assassinate(i) => {
                let assassin = &self.players[i];
                let content = ping_nick_user(assassin.member.user.id);
                let mut e = Embed::new();
                e.title = Some(String::from_str("The good guys have succeeded three quests, but the Assassin can still try to kill Merlin"));
                e.description = Some(String::from_str("Use `/assassinate` to assassinate who you think is Merlin"));
                let ghost ps = self.players@;
                let ghost is_evil = |p: AvalonPlayer| spec_loyalty(p.role) == Loyalty::Evil;
                let ghost shown = |p: AvalonPlayer| (shown_name(p), character_name(p.role));
                for j in 0..self.players.len()
                    invariant
                        ps == self.players@,
                        is_evil == (|p: AvalonPlayer| spec_loyalty(p.role) == Loyalty::Evil),
                        shown == (|p: AvalonPlayer| (shown_name(p), character_name(p.role))),
                        e.fields@.len() == ps.take(j as int).filter(is_evil).len(),
                        forall|k: int| 0 <= k < e.fields@.len() ==> {
                            &&& (#[trigger] e.fields@[k]).name@ == ps.take(j as int).filter(is_evil).map_values(shown)[k].0
                            &&& e.fields@[k].value@ == ps.take(j as int).filter(is_evil).map_values(shown)[k].1
                            &&& e.fields@[k].inline
                        },
                        e.title matches Some(t) && t@
                            == "The good guys have succeeded three quests, but the Assassin can still try to kill Merlin"@,
                        e.description matches Some(d) && d@ == "Use `/assassinate` to assassinate who you think is Merlin"@,
                        e.color.is_none(),
                {
                    let p = &self.players[j];
                    proof {
                        reveal(Seq::filter);
                        assert(ps.take(j + 1).drop_last() =~= ps.take(j as int));
                        assert(ps.take(j + 1).last() == ps[j as int]);
                    }
                    if p.role.loyalty() == Loyalty::Evil {
                        let name = p.member.nick_or_name();
                        let role = String::from_str(p.role.name());
                        e.fields.push(EmbedField::new_inline(name, role));
                        proof {
                            reveal(Seq::filter);
                            assert(p.role == ps[j as int].role);
                            assert(is_evil(ps[j as int]));
                            assert(ps.take(j + 1).filter(is_evil) == ps.take(j as int).filter(is_evil).push(ps[j as int]));
                            assert(ps.take(j + 1).filter(is_evil).map_values(shown)
                                =~= ps.take(j as int).filter(is_evil).map_values(shown).push(shown(ps[j as int])));
                        }
                    } else {
                        proof {
                            reveal(Seq::filter);
                            assert(!is_evil(ps[j as int]));
                            assert(ps.take(j + 1).filter(is_evil) == ps.take(j as int).filter(is_evil));
                        }
                    }
                }
                proof {
                    assert(ps.take(ps.len() as int) =~= ps);
                    assert((|p: AvalonPlayer| spec_loyalty(p.role) == Loyalty::Evil) =~= is_evil);
                    assert((|p: AvalonPlayer| (shown_name(p), character_name(p.role))) =~= shown);
                }
                Some(Announcement { content: Some(content), embed: e })
            },
            EndRound::GoodWin => {
                let mut e = Embed::new();
                e.color = Some(Color::Blue);
                e.title = Some(String::from_str("The good guys win!"));
                Some(Announcement { content: None, embed: e })
            },
            EndRound::EvilWin => {
                let mut e = Embed::new();
                e.color = Some(Color::Red);
                e.title = Some(String::from_str("The bad guys win!"));
                Some(Announcement { content: None, embed: e })
            },
            EndRound::Lotl(i) => {
                let lady = &self.players[i];
                let content = ping_nick_user(lady.member.user.id);
                let mut title = String::from_str("Now ");
                let name = lady.member.nick_or_name();
                title.append(name.as_str());
                title.append(" will use the Lady of the Lake to find someone's alignment");
                let mut e = Embed::new();
                e.title = Some(title);
                e.description = Some(String::from_str("Use `/lotl` to find someone's alignment. You can't use this on someone who has already had the Lady of the Lake."));
                Some(Announcement { content: Some(content), embed: e })
            },
            EndRound::NextRound => None,
        }
    }
}

} // verus!
