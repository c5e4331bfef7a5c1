//! The leader's proposal of a party to go on the quest.

use vstd::prelude::*;

use crate::avalon::characters::AvalonPlayer;
use crate::avalon::game::{AvalonGame, AvalonState, Vote, has_player, shown_name};
use crate::ids::{Id, MessageId, UserId};
use crate::markup::ping_user;
use crate::model::{Embed, ping_text};
use crate::text::{decimal, grammatical_list, join, join_seq, list_grammatically};

verus! {

/// The `/quest` command; it asks for this many players.
#[derive(Debug, Clone, Copy)]
pub struct QuestCommand(pub usize);

/// The number of players the command asks for.
pub fn num_players(command: &QuestCommand) -> (n: usize)
    ensures
        n == command.0,
{
    command.0
}

/// Why a chosen user cannot go on the quest.
#[derive(Debug, Clone, Copy, PartialEq, Eq, Structural)]
pub enum QuestUserError {
    NotPlaying,
    Duplicate,
}

/// The users the leader chose.
#[derive(Debug)]
pub struct QuestData(pub Vec<UserId>);

/// The errors with `u` set to `e`, where a user already listed keeps their place.
pub open spec fn error_insert(errs: Seq<(UserId, QuestUserError)>, u: UserId, e: QuestUserError)
    -> Seq<(UserId, QuestUserError)>
{
    if exists|i: int| 0 <= i < errs.len() && #[trigger] errs[i].0 == u {
        let i = choose|i: int| 0 <= i < errs.len() && #[trigger] errs[i].0 == u;
        errs.update(i, (u, e))
    } else {
        errs.push((u, e))
    }
}

/// The ids of the players.
pub open spec fn player_ids(ps: Seq<AvalonPlayer>) -> Seq<UserId> {
    ps.map_values(|p: AvalonPlayer| p.member.user.id)
}

/// Checking the choices from the last to position `k`: the distinct players found, in that
/// order, and the errors found.
pub open spec fn scan(data: Seq<UserId>, ids: Seq<UserId>, k: int)
    -> (Seq<UserId>, Seq<(UserId, QuestUserError)>)
    decreases data.len() - k,
{
    if k < 0 || k >= data.len() {
        (Seq::empty(), Seq::empty())
    } else {
        let (unique, errs) = scan(data, ids, k + 1);
        let user = data[k];
        if !ids.contains(user) {
            (unique, error_insert(errs, user, QuestUserError::NotPlaying))
        } else if unique.contains(user) {
            (unique, error_insert(errs, user, QuestUserError::Duplicate))
        } else {
            (unique.push(user), errs)
        }
    }
}

/// Each user has at most one error.
pub open spec fn errors_keyed(errs: Seq<(UserId, QuestUserError)>) -> bool {
    forall|i: int, j: int| 0 <= i < errs.len() && 0 <= j < errs.len() && i != j
        ==> #[trigger] errs[i].0 != #[trigger] errs[j].0
}

fn insert_error(errs: &mut Vec<(UserId, QuestUserError)>, u: UserId, e: QuestUserError)
    requires
        errors_keyed(old(errs)@),
    ensures
        final(errs)@ == error_insert(old(errs)@, u, e),
        errors_keyed(final(errs)@),
{
    let n = errs.len();
    for i in 0..n
        invariant
            n == errs@.len(),
            errs@ == old(errs)@,
            errors_keyed(errs@),
            forall|j: int| 0 <= j < i ==> errs@[j].0 != u,
    {
        if errs[i].0 == u {
            errs.set(i, (u, e));
            proof {
                let k = choose|k: int| 0 <= k < old(errs)@.len() && #[trigger] old(errs)@[k].0 == u;
                assert(k == i);
            }
            return;
        }
    }
    errs.push((u, e));
}

fn ids_contain(ids: &Vec<UserId>, u: UserId) -> (b: bool)
    ensures
        b == ids@.contains(u),
{
    for i in 0..ids.len()
        invariant
            forall|j: int| 0 <= j < i ==> ids@[j] != u,
    {
        if ids[i] == u {
            return true;
        }
    }
    false
}

impl QuestData {
    /// Checks the chosen users against the players: every one must play, and none may be
    /// chosen twice. Returns the party in the order chosen (each user where they were last
    /// chosen), or every offending user with what is wrong.
    pub fn validate(self, players: &Vec<AvalonPlayer>)
        -> (r: Result<Vec<UserId>, Vec<(UserId, QuestUserError)>>)
        ensures
            ({
                let (unique, errs) = scan(self.0@, player_ids(players@), 0);
                match r {
                    Ok(party) => errs.len() == 0 && party@ == unique.reverse(),
                    Err(e) => errs.len() > 0 && e@ == errs,
                }
            }),
    {
        let mut ids: Vec<UserId> = Vec::new();
        for i in 0..players.len()
            invariant
                ids@ == player_ids(players@).take(i as int),
        {
            ids.push(players[i].id());
            assert(ids@ =~= player_ids(players@).take(i + 1));
        }
        assert(ids@ =~= player_ids(players@));
        let ghost data = self.0@;
        let mut rest = self.0;
        let mut unique: Vec<UserId> = Vec::new();
        let mut errors: Vec<(UserId, QuestUserError)> = Vec::new();
        while rest.len() > 0
            invariant
                data.len() >= rest@.len(),
                rest@ == data.take(rest@.len() as int),
                (unique@, errors@) == scan(data, ids@, rest@.len() as int),
                errors_keyed(errors@),
            decreases rest@.len(),
        {
            let user = rest.pop().unwrap();
            let ghost k = rest@.len() as int;
            assert(rest@ =~= data.take(k));
            assert(user == data[k]);
            if !ids_contain(&ids, user) {
                insert_error(&mut errors, user, QuestUserError::NotPlaying);
            } else if ids_contain(&unique, user) {
                insert_error(&mut errors, user, QuestUserError::Duplicate);
            } else {
                unique.push(user);
            }
        }
        if errors.len() == 0 {
            let mut party: Vec<UserId> = Vec::new();
            let n = unique.len();
            for i in 0..n
                invariant
                    n == unique@.len(),
                    party@ == unique@.reverse().take(i as int),
            {
                party.push(unique[n - 1 - i]);
                assert(party@ =~= unique@.reverse().take(i + 1));
            }
            assert(party@ =~= unique@.reverse());
            Ok(party)
        } else {
            Err(errors)
        }
    }
}

/// The pings of the users.
pub open spec fn pings(users: Seq<UserId>) -> Seq<Seq<char>> {
    users.map_values(|u: UserId| ping_text(u.0))
}

/// Pings each user.
pub fn ping_all(users: &Vec<UserId>) -> (v: Vec<String>)
    ensures
        v.deep_view() == pings(users@),
{
    let mut v: Vec<String> = Vec::new();
    for i in 0..users.len()
        invariant
            v@.len() == i,
            forall|j: int| 0 <= j < i ==> (#[trigger] v@[j])@ == ping_text(users@[j].0),
    {
        v.push(ping_user(users[i]));
    }
    assert(v.deep_view() =~= pings(users@));
    v
}

/// The users listed in English: `<@a>, <@b>, and <@c>`.
pub fn list_party(users: &Vec<UserId>) -> (s: String)
    ensures
        s@ == grammatical_list(pings(users@), "and"@),
{
    let v = ping_all(users);
    list_grammatically(&v, "and")
}

/// One line of the error message: the user, then what is wrong with them.
pub open spec fn error_line(e: (UserId, QuestUserError)) -> Seq<char> {
    ping_text(e.0.0) + match e.1 {
        QuestUserError::NotPlaying => " is not playing Avalon."@,
        QuestUserError::Duplicate => " was added multiple times."@,
    }
}

/// The reply to a party that cannot go: how many people to choose, then one line per problem.
pub open spec fn errors_text(count: usize, errs: Seq<(UserId, QuestUserError)>) -> Seq<char> {
    "__You must choose "@ + decimal(count as nat) + " different people__\n"@
        + join_seq(errs.map_values(|e: (UserId, QuestUserError)| error_line(e)), "\n"@)
}

/// The reply to a party that cannot go.
pub fn errors_message(count: usize, errs: &Vec<(UserId, QuestUserError)>) -> (s: String)
    ensures
        s@ == errors_text(count, errs@),
{
    let mut lines: Vec<String> = Vec::new();
    for i in 0..errs.len()
        invariant
            lines@.len() == i,
            forall|j: int| 0 <= j < i ==> (#[trigger] lines@[j])@ == error_line(errs@[j]),
    {
        let (u, e) = errs[i];
        let mut line = ping_user(u);
        match e {
            QuestUserError::NotPlaying => line.append(" is not playing Avalon."),
            QuestUserError::Duplicate => line.append(" was added multiple times."),
        }
        lines.push(line);
    }
    assert(lines.deep_view() =~= errs@.map_values(|e: (UserId, QuestUserError)| error_line(e)));
    let body = join(&lines, "\n");
    let count_str = crate::text::u64_to_string(count as u64);
    let mut s = String::from_str("__You must choose ");
    s.append(count_str.as_str());
    s.append(" different people__\n");
    s.append(body.as_str());
    s
}

/// What the leader's choice of party leads to.
#[derive(Debug)]
pub enum Proposal {
    /// only the leader (this user) may propose a party
    NotLeader(UserId),
    /// the party cannot go, for these reasons
    Invalid(Vec<(UserId, QuestUserError)>),
    /// the party is put to the vote
    Valid(Vec<UserId>),
}

impl AvalonGame {
    /// The party `data` proposed by `user`: refused unless they lead, checked otherwise.
    pub fn propose(&self, user: UserId, data: QuestData) -> (p: Proposal)
        requires
            self.leader < self.players@.len(),
        ensures
            user != self.players@[self.leader as int].member.user.id
                ==> p == Proposal::NotLeader(self.players@[self.leader as int].member.user.id),
            user == self.players@[self.leader as int].member.user.id ==> {
                let (unique, errs) = scan(data.0@, player_ids(self.players@), 0);
                match p {
                    Proposal::Valid(party) => errs.len() == 0 && party@ == unique.reverse(),
                    Proposal::Invalid(e) => errs.len() > 0 && e@ == errs,
                    Proposal::NotLeader(_) => false,
                }
            },
    {
        let leader = self.leader().id();
        if user != leader {
            return Proposal::NotLeader(leader);
        }
        match data.validate(&self.players) {
            Ok(party) => Proposal::Valid(party),
            Err(errors) => Proposal::Invalid(errors),
        }
    }

    /// The party is put to the vote: every player gets a vote, asked for in the direct message
    /// `messages[i]` to the player in seat `i`, and each vote starts undecided.
    pub fn start_party_vote(&mut self, messages: &Vec<MessageId>, party: Vec<UserId>)
        requires
            messages@.len() == old(self).players@.len(),
        ensures
            final(self).state matches AvalonState::PartyVote(votes, p) && p == party
                && votes@.len() == old(self).players@.len()
                && forall|i: int| 0 <= i < votes@.len() ==> #[trigger] votes@[i] == (Vote {
                    message: messages@[i],
                    user: old(self).players@[i].member.user.id,
                    vote: 0,
                }),
            final(self).players == old(self).players,
            final(self).leader == old(self).leader,
            final(self).round == old(self).round,
    {
        let mut votes: Vec<Vote> = Vec::new();
        for i in 0..messages.len()
            invariant
                messages@.len() == self.players@.len(),
                votes@.len() == i,
                forall|j: int| 0 <= j < i ==> #[trigger] votes@[j] == (Vote {
                    message: messages@[j],
                    user: self.players@[j].member.user.id,
                    vote: 0,
                }),
        {
            votes.push(Vote { message: messages[i], user: self.players[i].member.user.id, vote: 0 });
        }
        self.state = AvalonState::PartyVote(votes, party);
    }
}

/// The title of a proposal: who proposed the party.
pub open spec fn proposal_title(leader: AvalonPlayer) -> Seq<char> {
    shown_name(leader) + " has proposed a party to go on this quest"@
}

/// The direct message that asks a player to vote on a party.
pub open spec fn party_vote_dm_text(party: Seq<UserId>) -> Seq<char> {
    "React \u{2705} to vote to approve the quest, or \u{274c} to reject it.\nThe proposed party is "@
        + grammatical_list(pings(party), "and"@)
}

/// The answer to someone other than the leader proposing a party.
pub open spec fn not_leader_text(leader: UserId) -> Seq<char> {
    "Only the current leader ("@ + ping_text(leader.0) + ") can choose who goes on the quest"@
}

impl AvalonGame {
    /// The announcement of the leader's party.
    pub fn proposal_embed(&self, party: &Vec<UserId>) -> (e: Embed)
        requires
            self.leader < self.players@.len(),
        ensures
            e.title matches Some(t) && t@ == proposal_title(self.players@[self.leader as int]),
            e.description matches Some(d) && d@ == grammatical_list(pings(party@), "and"@),
            e.color.is_none(),
            e.fields@.len() == 0,
    {
        let leader = self.leader();
        let mut title = leader.member.nick_or_name();
        title.append(" has proposed a party to go on this quest");
        let mut e = Embed::new();
        e.title = Some(title);
        e.description = Some(list_party(party));
        e
    }
}

/// The direct message that asks a player to vote on a party.
pub fn party_vote_dm(party: &Vec<UserId>) -> (s: String)
    ensures
        s@ == party_vote_dm_text(party@),
{
    let list = list_party(party);
    let mut s = String::from_str("React \u{2705} to vote to approve the quest, or \u{274c} to reject it.\nThe proposed party is ");
    s.append(list.as_str());
    s
}

/// The answer to someone other than the leader proposing a party.
pub fn not_leader(leader: UserId) -> (s: String)
    ensures
        s@ == not_leader_text(leader),
{
    let p = ping_user(leader);
    let mut s = String::from_str("Only the current leader (");
    s.append(p.as_str());
    s.append(") can choose who goes on the quest");
    s
}

} // verus!
