//! Voting on parties and quests by reacting to direct messages, and counting the votes.

use vstd::prelude::*;

use crate::avalon::characters::{AvalonPlayer, Loyalty, spec_round};
use crate::avalon::game::{AvalonGame, AvalonState, EndRound, Vote, count_false, count_true, first_player, has_player, round_ended};
use crate::dispatch::{ReactionType, ReactionUpdate};
use crate::emoji::Emoji;
use crate::ids::{GuildId, MessageId, UserId};
use crate::model::{Color, Embed, EmbedField, display_name, ping_text};
use crate::markup::ping_user;
use crate::text::{decimal, grammatical_list, list_grammatically, u64_to_string};
use crate::avalon::quest::{list_party, pings};

verus! {

/// The first character of the text, if it has one.
pub fn first_char(s: &str) -> (c: Option<char>)
    ensures
        match c {
            Some(c) => s@.len() > 0 && c == s@[0],
            None => s@.len() == 0,
        },
{
    if s.unicode_len() > 0 {
        Some(s.get_char(0))
    } else {
        None
    }
}

/// What one reaction does to a vote: `yes` counts one up and `no` one down when added, the
/// other way round when removed; any other emoji counts nothing.
pub open spec fn spec_vote_delta(name: Seq<char>, kind: ReactionType, yes: char, no: char) -> int {
    let sign: int = if name.len() > 0 && name[0] == yes {
        1
    } else if name.len() > 0 && name[0] == no {
        -1
    } else {
        0
    };
    if kind == ReactionType::Add { sign } else { -sign }
}

/// The change a reaction makes to a vote; `None` for a custom emoji, which does not vote.
pub fn vote_delta(emoji: &Emoji, kind: ReactionType, yes: char, no: char) -> (d: Option<i32>)
    ensures
        match emoji {
            Emoji::Unicode { name } => d == Some(spec_vote_delta(name@, kind, yes, no) as i32),
            Emoji::Custom(_) => d.is_none(),
        },
{
    match emoji {
        Emoji::Unicode { name } => {
            let first = first_char(name.as_str());
            let sign: i32 = match first {
                Some(c) => if c == yes { 1 } else if c == no { -1 } else { 0 },
                None => 0,
            };
            Some(if kind == ReactionType::Add { sign } else { -sign })
        },
        Emoji::Custom(_) => None,
    }
}

/// The first vote cast through `message` by `user`.
pub open spec fn first_vote(votes: Seq<Vote>, message: MessageId, user: UserId, i: int) -> bool {
    &&& 0 <= i < votes.len()
    &&& votes[i].message == message && votes[i].user == user
    &&& forall|j: int| 0 <= j < i ==> !(votes[j].message == message && votes[j].user == user)
}

/// Everyone has voted one way or the other.
pub open spec fn all_voted(votes: Seq<Vote>) -> bool {
    forall|i: int| 0 <= i < votes.len() ==> #[trigger] votes[i].vote != 0
}

/// Adds `delta` to the vote cast through `message` by `user`; returns whether everyone has now
/// voted.
pub fn record_vote(votes: &mut Vec<Vote>, message: MessageId, user: UserId, delta: i32) -> (done: bool)
    requires
        exists|i: int| first_vote(old(votes)@, message, user, i),
        forall|i: int| #[trigger] first_vote(old(votes)@, message, user, i)
            ==> i32::MIN <= old(votes)@[i].vote + delta <= i32::MAX,
    ensures
        exists|i: int| first_vote(old(votes)@, message, user, i) && final(votes)@ == old(votes)@.update(i,
            Vote { vote: (old(votes)@[i].vote + delta) as i32, ..old(votes)@[i] }),
        done == all_voted(final(votes)@),
{
    let n = votes.len();
    let mut k: usize = 0;
    while k < n
        invariant
            n == votes@.len(),
            k <= n,
            votes@ == old(votes)@,
            forall|j: int| 0 <= j < k ==> !(votes@[j].message == message && votes@[j].user == user),
        ensures
            k <= n,
            votes@ == old(votes)@,
            forall|j: int| 0 <= j < k ==> !(votes@[j].message == message && votes@[j].user == user),
            k < n ==> votes@[k as int].message == message && votes@[k as int].user == user,
        decreases n - k,
    {
        if votes[k].message == message && votes[k].user == user {
            break;
        }
        k = k + 1;
    }
    if k == n {
        proof {
            let i = choose|i: int| first_vote(old(votes)@, message, user, i);
            assert(false);
        }
        return false;
    }
    proof {
        assert(first_vote(old(votes)@, message, user, k as int));
    }
    let v = &mut votes[k];
    v.vote = v.vote + delta;
    let ghost updated = votes@;
    let mut done = true;
    for j in 0..n
        invariant
            n == votes@.len(),
            votes@ == updated,
            done == forall|m: int| 0 <= m < j ==> #[trigger] votes@[m].vote != 0,
    {
        if votes[j].vote == 0 {
            done = false;
        }
    }
    assert(votes@ == updated);
    done
}

/// The reaction watcher for the votes on a proposed party.
#[derive(Debug, Clone)]
pub struct PartyVote {
    pub guild: GuildId,
    /// the direct messages that ask for a vote, with the user each was sent to
    pub messages: Vec<(MessageId, UserId)>,
}

/// The reaction watcher for the votes on a quest.
#[derive(Debug, Clone)]
pub struct QuestVote {
    pub guild: GuildId,
    /// the direct messages that ask for a vote, with the user each was sent to
    pub messages: Vec<(MessageId, UserId)>,
}

/// The reaction is on one of these vote messages, by the user it was sent to.
pub open spec fn watches(messages: Seq<(MessageId, UserId)>, r: ReactionUpdate) -> bool {
    messages.contains((r.message_id, r.user_id))
}

fn watches_exec(messages: &Vec<(MessageId, UserId)>, reaction: &ReactionUpdate) -> (b: bool)
    ensures
        b == watches(messages@, *reaction),
{
    for i in 0..messages.len()
        invariant
            forall|j: int| 0 <= j < i ==> messages@[j] != (reaction.message_id, reaction.user_id),
    {
        let (m, u) = messages[i];
        if m == reaction.message_id && u == reaction.user_id {
            return true;
        }
    }
    false
}

impl PartyVote {
    pub const APPROVE: char = '✅';
    pub const REJECT: char = '❌';

    /// Whether the reaction is a vote on the party.
    pub fn applies(&self, reaction: &ReactionUpdate) -> (b: bool)
        ensures
            b == watches(self.messages@, *reaction),
    {
        watches_exec(&self.messages, reaction)
    }
}

impl QuestVote {
    pub const SUCCEED: char = '✅';
    pub const FAIL: char = '❌';

    /// Whether the reaction is a vote on the quest.
    pub fn applies(&self, reaction: &ReactionUpdate) -> (b: bool)
        ensures
            b == watches(self.messages@, *reaction),
    {
        watches_exec(&self.messages, reaction)
    }
}

/// The votes that approve.
pub open spec fn approvers(votes: Seq<Vote>) -> Seq<Vote>
    decreases votes.len(),
{
    if votes.len() == 0 {
        Seq::empty()
    } else if votes.last().vote == 1 {
        approvers(votes.drop_last()).push(votes.last())
    } else {
        approvers(votes.drop_last())
    }
}

/// The votes that do not approve.
pub open spec fn rejecters(votes: Seq<Vote>) -> Seq<Vote>
    decreases votes.len(),
{
    if votes.len() == 0 {
        Seq::empty()
    } else if votes.last().vote == 1 {
        rejecters(votes.drop_last())
    } else {
        rejecters(votes.drop_last()).push(votes.last())
    }
}

/// The number of votes that fail the quest.
pub open spec fn fail_count(votes: Seq<Vote>) -> nat
    decreases votes.len(),
{
    if votes.len() == 0 {
        0
    } else {
        fail_count(votes.drop_last()) + if votes.last().vote == -1 { 1nat } else { 0nat }
    }
}

/// The name of the player with user id `u`.
pub open spec fn player_name(ps: Seq<AvalonPlayer>, u: UserId) -> Seq<char> {
    let i = choose|i: int| first_player(ps, u, i);
    display_name(ps[i].member.nick_view(), ps[i].member.user.username@)
}

/// The embed field that reports one vote on a party.
pub open spec fn vote_field_matches(ps: Seq<AvalonPlayer>, v: Vote, f: EmbedField) -> bool {
    &&& f.inline
    &&& f.name@ == player_name(ps, v.user)
    &&& f.value@ == if v.vote == 1 { "Approved"@ } else { "Rejected"@ }
}

/// What the votes on a party decide.
#[derive(Debug)]
pub enum PartyResult {
    /// nobody is voting on a party
    NotVoting,
    /// the fifth party in a row was rejected, and evil wins
    TooManyRejects(Vec<EmbedField>),
    /// the party was rejected; leadership passes on and a new party is proposed
    Rejected(usize, Vec<EmbedField>),
    /// the party goes on the quest
    Accepted(Vec<UserId>, Vec<EmbedField>),
}

/// How the quest went.
#[derive(Debug, Clone, Copy, PartialEq, Eq, Structural)]
pub struct QuestResult {
    /// how many on the quest chose to fail it
    pub fails: usize,
    /// how many went on the quest
    pub votes: usize,
    /// whether the quest failed
    pub failed: bool,
    /// what comes after the quest
    pub end: EndRound,
}

proof fn lemma_split_len(votes: Seq<Vote>)
    ensures
        approvers(votes).len() + rejecters(votes).len() == votes.len(),
    decreases votes.len(),
{
    if votes.len() > 0 {
        lemma_split_len(votes.drop_last());
    }
}

impl AvalonGame {
    /// The name of the player with user id `user`.
    pub fn player_name(&self, user: UserId) -> (s: String)
        requires
            has_player(self.players@, user),
        ensures
            s@ == player_name(self.players@, user),
    {
        match self.position(user) {
            Some(i) => {
                proof {
                    let j = choose|j: int| first_player(self.players@, user, j);
                    if j < i { assert(self.players@[j].member.user.id != user); }
                    if i < j { assert(self.players@[i as int].member.user.id != user); }
                }
                self.players[i].member.nick_or_name()
            },
            None => String::new(),
        }
    }

    /// One embed field per vote: first those who approved, then those who rejected.
    fn vote_summary(&self, votes: &Vec<Vote>) -> (fields: Vec<EmbedField>)
        requires
            forall|i: int| 0 <= i < votes@.len() ==> has_player(self.players@, #[trigger] votes@[i].user),
        ensures
            fields@.len() == approvers(votes@).len() + rejecters(votes@).len(),
            forall|i: int| 0 <= i < fields@.len() ==> vote_field_matches(self.players@,
                (approvers(votes@) + rejecters(votes@))[i], #[trigger] fields@[i]),
    {
        let mut yes: Vec<EmbedField> = Vec::new();
        let mut no: Vec<EmbedField> = Vec::new();
        for i in 0..votes.len()
            invariant
                forall|i: int| 0 <= i < votes@.len() ==> has_player(self.players@, #[trigger] votes@[i].user),
                yes@.len() == approvers(votes@.take(i as int)).len(),
                no@.len() == rejecters(votes@.take(i as int)).len(),
                forall|j: int| 0 <= j < yes@.len() ==> vote_field_matches(self.players@,
                    approvers(votes@.take(i as int))[j], #[trigger] yes@[j]),
                forall|j: int| 0 <= j < no@.len() ==> vote_field_matches(self.players@,
                    rejecters(votes@.take(i as int))[j], #[trigger] no@[j]),
        {
            proof { assert(votes@.take(i + 1).drop_last() =~= votes@.take(i as int)); }
            let v = votes[i];
            let name = self.player_name(v.user);
            if v.vote == 1 {
                proof { reveal_strlit("Approved"); }
                yes.push(EmbedField::new_inline(name, String::from_str("Approved")));
            } else {
                proof { reveal_strlit("Rejected"); }
                no.push(EmbedField::new_inline(name, String::from_str("Rejected")));
            }
        }
        proof { assert(votes@.take(votes@.len() as int) =~= votes@); }
        let ghost a = yes@;
        let ghost b = no@;
        yes.append(&mut no);
        yes
    }

    /// Counts the votes on the proposed party. If at least as many rejected as approved, the
    /// party is rejected: leadership passes on, and with the fifth rejection in a row evil wins
    /// (the game keeps its state, as it is over); otherwise a new round starts. If more approved,
    /// the party goes on the quest and the count of rejections starts again.
    pub fn party_vote_results(&mut self) -> (r: PartyResult)
        requires
            old(self).players@.len() > 0,
            old(self).leader < usize::MAX,
            old(self).rejected_quests < usize::MAX,
            old(self).state matches AvalonState::PartyVote(votes, _)
                ==> forall|i: int| 0 <= i < votes@.len() ==> has_player(old(self).players@, #[trigger] votes@[i].user),
        ensures
            match old(self).state {
                AvalonState::PartyVote(votes, party) => {
                    let yes = approvers(votes@).len();
                    let no = rejecters(votes@).len();
                    if no >= yes {
                        &&& final(self).leader == (old(self).leader + 1) % (old(self).players@.len() as int)
                        &&& final(self).rejected_quests == old(self).rejected_quests + 1
                        &&& if old(self).rejected_quests + 1 == 5 {
                            &&& r is TooManyRejects
                            &&& final(self).state == old(self).state
                        } else {
                            &&& r matches PartyResult::Rejected(n, _) && n == old(self).rejected_quests + 1
                            &&& final(self).state is RoundStart
                        }
                    } else {
                        &&& final(self).leader == old(self).leader
                        &&& final(self).rejected_quests == 0
                        &&& r matches PartyResult::Accepted(p, _) && p@ == party@
                        &&& final(self).state == old(self).state
                    }
                },
                _ => r is NotVoting && final(self).state == old(self).state
                    && final(self).leader == old(self).leader
                    && final(self).rejected_quests == old(self).rejected_quests,
            },
            match r {
                PartyResult::TooManyRejects(fields) | PartyResult::Rejected(_, fields) | PartyResult::Accepted(_, fields) =>
                    old(self).state matches AvalonState::PartyVote(votes, _) && {
                        &&& fields@.len() == votes@.len()
                        &&& forall|i: int| 0 <= i < fields@.len() ==> vote_field_matches(old(self).players@,
                            (approvers(votes@) + rejecters(votes@))[i], #[trigger] fields@[i])
                    },
                PartyResult::NotVoting => true,
            },
            final(self).players == old(self).players,
            final(self).round == old(self).round,
            final(self).good_won == old(self).good_won,
    {
        let (summary, yes, no, party) = match &self.state {
            AvalonState::PartyVote(votes, party) => {
                proof { lemma_split_len(votes@); }
                let summary = self.vote_summary(votes);
                let mut yes: usize = 0;
                let mut no: usize = 0;
                for i in 0..votes.len()
                    invariant
                        yes == approvers(votes@.take(i as int)).len(),
                        no == rejecters(votes@.take(i as int)).len(),
                        yes + no == i,
                {
                    proof { assert(votes@.take(i + 1).drop_last() =~= votes@.take(i as int)); }
                    if votes[i].vote == 1 { yes = yes + 1; } else { no = no + 1; }
                }
                proof { assert(votes@.take(votes@.len() as int) =~= votes@); }
                let mut p: Vec<UserId> = Vec::new();
                for i in 0..party.len()
                    invariant
                        p@ == party@.take(i as int),
                {
                    p.push(party[i]);
                    assert(p@ =~= party@.take(i + 1));
                }
                assert(p@ =~= party@);
                (summary, yes, no, p)
            },
            _ => { return PartyResult::NotVoting; },
        };
        if no >= yes {
            let n = self.players.len();
            AvalonGame::advance_leader(&mut self.leader, n);
            self.rejected_quests = self.rejected_quests + 1;
            if self.rejected_quests == 5 {
                PartyResult::TooManyRejects(summary)
            } else {
                self.state = AvalonState::RoundStart;
                PartyResult::Rejected(self.rejected_quests, summary)
            }
        } else {
            self.rejected_quests = 0;
            PartyResult::Accepted(party, summary)
        }
    }

    /// The accepted party sets out: each member's quest vote, asked for in the direct message
    /// `messages[i]` to `party[i]`, is awaited, undecided at first.
    pub fn begin_quest(&mut self, party: &Vec<UserId>, messages: &Vec<MessageId>)
        requires
            messages@.len() == party@.len(),
        ensures
            final(self).state matches AvalonState::Questing(votes) && {
                &&& votes@.len() == party@.len()
                &&& forall|i: int| 0 <= i < votes@.len() ==>
                    #[trigger] votes@[i] == (Vote { message: messages@[i], user: party@[i], vote: 0 })
            },
            final(self).players == old(self).players,
            final(self).round == old(self).round,
            final(self).leader == old(self).leader,
            final(self).good_won == old(self).good_won,
            final(self).rejected_quests == old(self).rejected_quests,
    {
        let mut votes: Vec<Vote> = Vec::new();
        for i in 0..party.len()
            invariant
                messages@.len() == party@.len(),
                votes@.len() == i,
                forall|j: int| 0 <= j < i ==>
                    #[trigger] votes@[j] == (Vote { message: messages@[j], user: party@[j], vote: 0 }),
        {
            votes.push(Vote { message: messages[i], user: party[i], vote: 0 });
        }
        self.state = AvalonState::Questing(votes);
    }

    /// Counts the votes on the quest: it fails when at least the round's number of fails were
    /// cast, and the round then ends as `end_round` says. `None` when no quest is under way.
    pub fn quest_vote_results(&mut self) -> (r: Option<QuestResult>)
        requires
            5 <= old(self).rounds.0 <= 10,
            1 <= old(self).round <= 5,
            old(self).players@.len() > 0,
            old(self).leader < usize::MAX,
            old(self).lotl matches Some(l) ==> l < old(self).players@.len(),
        ensures
            match old(self).state {
                AvalonState::Questing(votes) => {
                    let fails = fail_count(votes@);
                    let failed = fails >= spec_round(old(self).rounds.0 as nat, old(self).round as nat).fails;
                    &&& r matches Some(q) && q.fails == fails && q.votes == votes@.len() && q.failed == failed
                        && round_ended(*old(self), old(self).good_won@.push(!failed), *final(self), q.end)
                    &&& final(self).good_won@ == old(self).good_won@.push(!failed)
                },
                _ => r.is_none() && final(self).good_won == old(self).good_won
                    && final(self).state == old(self).state && final(self).round == old(self).round,
            },
            final(self).players == old(self).players,
    {
        let round = self.round();
        let (fails, nvotes) = match &self.state {
            AvalonState::Questing(votes) => {
                let mut fails: usize = 0;
                for i in 0..votes.len()
                    invariant
                        fails == fail_count(votes@.take(i as int)),
                        fails <= i,
                {
                    proof { assert(votes@.take(i + 1).drop_last() =~= votes@.take(i as int)); }
                    if votes[i].vote == -1 { fails = fails + 1; }
                }
                proof { assert(votes@.take(votes@.len() as int) =~= votes@); }
                (fails, votes.len())
            },
            _ => { return None; },
        };
        let failed = fails >= round.fails;
        self.good_won.push(!failed);
        let end = self.end_round();
        Some(QuestResult { fails, votes: nvotes, failed, end })
    }
}

/// The votes still at zero.
pub open spec fn undecided(votes: Seq<Vote>) -> Seq<UserId>
    decreases votes.len(),
{
    if votes.len() == 0 {
        Seq::empty()
    } else if votes.last().vote == 0 {
        undecided(votes.drop_last()).push(votes.last().user)
    } else {
        undecided(votes.drop_last())
    }
}

/// The users who have not voted yet.
pub fn not_voted(votes: &Vec<Vote>) -> (users: Vec<UserId>)
    ensures
        users@ == undecided(votes@),
{
    let mut users: Vec<UserId> = Vec::new();
    for i in 0..votes.len()
        invariant
            users@ == undecided(votes@.take(i as int)),
    {
        proof { assert(votes@.take(i + 1).drop_last() =~= votes@.take(i as int)); }
        if votes[i].vote == 0 {
            users.push(votes[i].user);
        }
    }
    proof { assert(votes@.take(votes@.len() as int) =~= votes@); }
    users
}

/// The command that tells who has not voted yet.
#[derive(Debug, Clone, Copy)]
pub struct VoteStatus;

/// What the vote status says: who has not voted, read out as a list; `no one` when all did
/// (but the vote is not over); `Everyone has voted` outside a vote.
pub open spec fn vote_status_text(state: AvalonState) -> Seq<char> {
    match state {
        AvalonState::PartyVote(votes, _) => not_voted_text(votes@),
        AvalonState::Questing(votes) => not_voted_text(votes@),
        _ => "Everyone has voted"@,
    }
}

/// Who has not voted in these votes, as a sentence.
pub open spec fn not_voted_text(votes: Seq<Vote>) -> Seq<char> {
    let users = undecided(votes);
    let list = grammatical_list(users.map_values(|u: UserId| ping_text(u.0)), "and"@);
    if users.len() == 0 {
        "no one"@
    } else if users.len() == 1 {
        list + " has not voted"@
    } else {
        list + " have not voted"@
    }
}

fn not_voted_message(votes: &Vec<Vote>) -> (s: String)
    ensures
        s@ == not_voted_text(votes@),
{
    let users = not_voted(votes);
    let mut pings: Vec<String> = Vec::new();
    for i in 0..users.len()
        invariant
            pings@.len() == i,
            forall|j: int| 0 <= j < i ==> (#[trigger] pings@[j])@ == ping_text(users@[j].0),
    {
        pings.push(ping_user(users[i]));
    }
    assert(pings.deep_view() =~= users@.map_values(|u: UserId| ping_text(u.0)));
    let list = list_grammatically(&pings, "and");
    if users.len() == 0 {
        String::from_str("no one")
    } else if users.len() == 1 {
        let mut s = list;
        s.append(" has not voted");
        s
    } else {
        let mut s = list;
        s.append(" have not voted");
        s
    }
}

impl VoteStatus {
    /// Who has not voted yet in the game's current vote.
    pub fn status(game: &AvalonGame) -> (s: String)
        ensures
            s@ == vote_status_text(game.state),
    {
        match &game.state {
            AvalonState::PartyVote(votes, _) => not_voted_message(votes),
            AvalonState::Questing(votes) => not_voted_message(votes),
            _ => String::from_str("Everyone has voted"),
        }
    }
}

/// The title that announces how the vote on a party went.
pub open spec fn party_result_title(r: PartyResult) -> Option<Seq<char>> {
    match r {
        PartyResult::NotVoting => None,
        PartyResult::TooManyRejects(_) => Some("With 5 rejected parties in a row, the bad guys win"@),
        PartyResult::Rejected(n, _) => Some(if n == 1 {
            "There is now 1 reject"@
        } else {
            "There are now "@ + decimal(n as nat) + " rejects in a row"@
        }),
        PartyResult::Accepted(_, _) => Some("The party has been accepted!"@),
    }
}

/// The announcement of how the vote on a party went: red and over when evil won by five
/// rejects; otherwise the votes, and for a rejected party the picture of the board (`board`,
/// where there is one).
pub fn party_result_embed(r: PartyResult, board: Option<String>) -> (e: Option<Embed>)
    ensures
        match party_result_title(r) {
            None => e.is_none(),
            Some(title) => e matches Some(e) && {
                &&& e.title matches Some(t) && t@ == title
                &&& e.color == if r is TooManyRejects { Some(Color::Red) } else { None }
                &&& e.fields@ == match r {
                    PartyResult::Rejected(_, f) => f@,
                    PartyResult::Accepted(_, f) => f@,
                    _ => Seq::<EmbedField>::empty(),
                }
                &&& e.image == if r is Accepted { None } else { board }
                &&& e.description.is_none()
            },
        },
{
    match r {
        PartyResult::NotVoting => None,
        PartyResult::TooManyRejects(_) => {
            let mut e = Embed::new();
            e.color = Some(Color::Red);
            e.title = Some(String::from_str("With 5 rejected parties in a row, the bad guys win"));
            e.image = board;
            Some(e)
        },
        PartyResult::Rejected(n, fields) => {
            let mut e = Embed::new();
            if n == 1 {
                e.title = Some(String::from_str("There is now 1 reject"));
            } else {
                let count = u64_to_string(n as u64);
                let mut t = String::from_str("There are now ");
                t.append(count.as_str());
                t.append(" rejects in a row");
                e.title = Some(t);
            }
            e.fields = fields;
            e.image = board;
            Some(e)
        },
        PartyResult::Accepted(_, fields) => {
            let mut e = Embed::new();
            e.title = Some(String::from_str("The party has been accepted!"));
            e.fields = fields;
            Some(e)
        },
    }
}

/// The direct message that asks a quester for their vote; only the evil may fail a quest.
pub open spec fn quest_dm_text(loyalty: Loyalty) -> Seq<char> {
    "React \u{2705} to succeed the quest"@ + if loyalty == Loyalty::Evil { ", or \u{274c} to fail it"@ } else { Seq::empty() }
}

/// The direct message that asks a quester for their vote.
pub fn quest_dm(loyalty: Loyalty) -> (s: String)
    ensures
        s@ == quest_dm_text(loyalty),
{
    let mut s = String::from_str("React \u{2705} to succeed the quest");
    if loyalty == Loyalty::Evil {
        s.append(", or \u{274c} to fail it");
    }
    s
}

/// The title that announces how a quest went, given the fails it needed to fail.
pub open spec fn quest_result_title(q: QuestResult, required: nat) -> Seq<char> {
    if q.failed {
        "There "@ + if q.fails == 1 { "was 1 fail"@ } else { "were "@ + decimal(q.fails as nat) + " fails"@ }
    } else if q.fails == 0 {
        "All "@ + decimal(q.votes as nat) + " were successes"@
    } else {
        "There were "@ + decimal(q.fails as nat) + " fails, but "@ + decimal(required) + " were required this quest"@
    }
}

/// The announcement of how a quest went: red when it failed, blue when it succeeded, with who
/// went on it and the picture of the board (`board`, where there is one).
pub fn quest_result_embed(q: QuestResult, required: usize, questers: &Vec<UserId>, board: Option<String>) -> (e: Embed)
    ensures
        e.title matches Some(t) && t@ == quest_result_title(q, required as nat),
        e.color == Some(if q.failed { Color::Red } else { Color::Blue }),
        e.description matches Some(d) && d@ == "Reminder: "@ + grammatical_list(pings(questers@), "and"@) + " were on this quest"@,
        e.image == board,
        e.fields@.len() == 0,
{
    let mut e = Embed::new();
    let title = if q.failed {
        let mut t = String::from_str("There ");
        if q.fails == 1 {
            t.append("was 1 fail");
        } else {
            t.append("were ");
            let n = u64_to_string(q.fails as u64);
            t.append(n.as_str());
            t.append(" fails");
        }
        t
    } else if q.fails == 0 {
        let mut t = String::from_str("All ");
        let n = u64_to_string(q.votes as u64);
        t.append(n.as_str());
        t.append(" were successes");
        t
    } else {
        let mut t = String::from_str("There were ");
        let n = u64_to_string(q.fails as u64);
        t.append(n.as_str());
        t.append(" fails, but ");
        let r = u64_to_string(required as u64);
        t.append(r.as_str());
        t.append(" were required this quest");
        t
    };
    e.title = Some(title);
    e.color = Some(if q.failed { Color::Red } else { Color::Blue });
    let list = list_party(questers);
    let mut d = String::from_str("Reminder: ");
    d.append(list.as_str());
    d.append(" were on this quest");
    e.description = Some(d);
    e.image = board;
    e
}

/// A vote after its message's reactions were counted again: the voter's yes reactions less
/// their no reactions, where the count could be read; as it was otherwise.
pub open spec fn recounted(v: Vote, tally: Option<(u32, u32)>) -> Vote {
    match tally {
        Some((yes, no)) => Vote { vote: (yes - no) as i32, ..v },
        None => v,
    }
}

/// Counts every vote again from its message's reactions (the voter's own, of the yes and the
/// no emoji), as the periodic check does in case a reaction was missed; returns whether
/// everyone whose reactions could be read has now voted.
pub fn recount_votes(votes: &mut Vec<Vote>, tallies: &Vec<Option<(u32, u32)>>) -> (all: bool)
    requires
        tallies@.len() == old(votes)@.len(),
        forall|i: int| 0 <= i < tallies@.len() ==> (#[trigger] tallies@[i] matches Some((y, n)) ==> y <= i32::MAX && n <= i32::MAX),
    ensures
        final(votes)@.len() == old(votes)@.len(),
        forall|i: int| 0 <= i < old(votes)@.len() ==> #[trigger] final(votes)@[i] == recounted(old(votes)@[i], tallies@[i]),
        all == forall|i: int| 0 <= i < tallies@.len() ==> (#[trigger] tallies@[i] matches Some((y, n)) ==> y != n),
{
    let n = votes.len();
    let mut all = true;
    for i in 0..n
        invariant
            n == votes@.len(),
            n == old(votes)@.len(),
            tallies@.len() == n,
            forall|j: int| 0 <= j < tallies@.len() ==> (#[trigger] tallies@[j] matches Some((y, n)) ==> y <= i32::MAX && n <= i32::MAX),
            forall|j: int| 0 <= j < i ==> #[trigger] votes@[j] == recounted(old(votes)@[j], tallies@[j]),
            forall|j: int| i <= j < n ==> #[trigger] votes@[j] == old(votes)@[j],
            all == forall|j: int| 0 <= j < i ==> (#[trigger] tallies@[j] matches Some((y, n)) ==> y != n),
    {
        match tallies[i] {
            Some((yes, no)) => {
                let v = (yes as i32) - (no as i32);
                let old_vote = votes[i];
                votes.set(i, Vote { vote: v, ..old_vote });
                if v == 0 {
                    all = false;
                }
            },
            None => {},
        }
    }
    all
}

} // verus!
