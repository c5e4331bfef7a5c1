//! The setup of a game of Avalon: who plays, with which characters, and whether the Lady of the
//! Lake is used.

use vstd::prelude::*;

use crate::avalon::characters::{Character, Loyalty, character_name, max_evil, spec_loyalty, spec_max_evil};
use crate::markup::ping_user;
use crate::model::{ChannelMessageId, Embed, EmbedField, GuildMember, ping_text};
use crate::text::{decimal, join, join_seq, push_char, signed_decimal, u64_to_string};

verus! {

/// A game of Avalon that is still being set up.
#[derive(Debug, Clone)]
pub struct AvalonConfig {
    pub players: Vec<GuildMember>,
    pub roles: Vec<Character>,
    pub lotl: bool,
    /// the message that shows the setup
    pub message: Option<ChannelMessageId>,
}

/// The number of evil characters.
pub open spec fn evil_count(roles: Seq<Character>) -> nat
    decreases roles.len(),
{
    if roles.len() == 0 {
        0
    } else {
        evil_count(roles.drop_last()) + if spec_loyalty(roles.last()) == Loyalty::Evil { 1nat } else { 0nat }
    }
}

proof fn lemma_evil_count_le(roles: Seq<Character>)
    ensures
        evil_count(roles) <= roles.len(),
    decreases roles.len(),
{
    if roles.len() > 0 {
        lemma_evil_count_le(roles.drop_last());
    }
}

/// The plain characters that fill the table: `\n{n}x Loyal Servant` and `\n{n}x Minion of
/// Mordred`, each left out when its number is zero.
pub open spec fn fill_text(num_players: int, max_evil: int, roles: Seq<Character>) -> Seq<char> {
    let num_evil = evil_count(roles) as int;
    let num_good = roles.len() - num_evil;
    let mom = max_evil - num_evil;
    let ls = num_players - max_evil - num_good;
    (if ls != 0 { "\n"@ + signed_decimal(ls) + "x Loyal Servant"@ } else { Seq::empty() })
        + (if mom != 0 { "\n"@ + signed_decimal(mom) + "x Minion of Mordred"@ } else { Seq::empty() })
}

/// The roles field of the setup: the chosen characters, one per line, then the plain ones
/// that fill the table (counting five players while fewer have joined).
pub open spec fn roles_text(players: nat, roles: Seq<Character>) -> Seq<char> {
    join_seq(roles.map_values(|c: Character| character_name(c)), "\n"@) + match spec_max_evil(players) {
        Some(m) => fill_text(players as int, m as int, roles),
        None => if players < 5 { fill_text(5, 2, roles) } else { Seq::empty() },
    }
}

/// The players field of the setup: the players pinged, one per line, or `None yet`.
pub open spec fn players_text(players: Seq<GuildMember>) -> Seq<char> {
    let list = join_seq(players.map_values(|m: GuildMember| ping_text(m.user.id.0)), "\n"@);
    if list.len() == 0 { "None yet"@ } else { list }
}

/// The name and value of a blank field.
pub open spec fn blank_text() -> Seq<char> {
    "\u{200b}"@
}

/// `a - b` in decimal, with a leading `-` when it is negative.
fn difference_string(a: usize, b: usize) -> (s: String)
    ensures
        s@ == signed_decimal(a as int - b as int),
{
    if a >= b {
        u64_to_string((a - b) as u64)
    } else {
        let digits = u64_to_string((b - a) as u64);
        let mut s = String::new();
        push_char(&mut s, '-');
        s.append(digits.as_str());
        s
    }
}

impl AvalonConfig {
    /// The most evil players there can be with this many players.
    pub fn max_evil(&self) -> (m: Option<usize>)
        ensures
            match m {
                Some(m) => spec_max_evil(self.players@.len()) == Some(m as nat),
                None => spec_max_evil(self.players@.len()).is_none(),
            },
    {
        max_evil(self.players.len())
    }

    /// The number of evil characters chosen.
    pub fn num_evil(&self) -> (n: usize)
        ensures
            n == evil_count(self.roles@),
    {
        let mut n: usize = 0;
        for i in 0..self.roles.len()
            invariant
                n == evil_count(self.roles@.take(i as int)),
                n <= i,
        {
            proof { assert(self.roles@.take(i + 1).drop_last() =~= self.roles@.take(i as int)); }
            if self.roles[i].loyalty() == Loyalty::Evil {
                n = n + 1;
            }
        }
        assert(self.roles@.take(self.roles@.len() as int) =~= self.roles@);
        n
    }

    /// The game can start when there are players for every character, five to ten of them,
    /// and no more evil characters than such a table allows.
    pub fn startable(&self) -> (b: bool)
        ensures
            b == (self.players@.len() >= self.roles@.len() && match spec_max_evil(self.players@.len()) {
                Some(m) => evil_count(self.roles@) <= m,
                None => false,
            }),
    {
        let max_evil = self.max_evil();
        let num_evil = self.num_evil();
        self.players.len() >= self.roles.len() && match max_evil {
            None => false,
            Some(max_evil) => num_evil <= max_evil,
        }
    }

    fn fill(&self, num_players: usize, max_evil: usize, roles: &mut String)
        requires
            max_evil <= num_players,
        ensures
            final(roles)@ == old(roles)@ + fill_text(num_players as int, max_evil as int, self.roles@),
    {
        let num_evil = self.num_evil();
        proof { lemma_evil_count_le(self.roles@); }
        let num_good = self.roles.len() - num_evil;
        let ghost start = roles@;
        if num_players - max_evil != num_good {
            roles.append("\n");
            let n = difference_string(num_players - max_evil, num_good);
            roles.append(n.as_str());
            roles.append("x Loyal Servant");
        }
        let ghost mid = roles@;
        if max_evil != num_evil {
            roles.append("\n");
            let n = difference_string(max_evil, num_evil);
            roles.append(n.as_str());
            roles.append("x Minion of Mordred");
        }
        proof {
            assert(roles@ =~= start + fill_text(num_players as int, max_evil as int, self.roles@));
        }
    }

    /// The embed that shows the setup.
    pub fn embed(&self) -> (e: Embed)
        ensures
            e.title matches Some(t) && t@ == "__Avalon Setup__"@,
            e.description.is_none(),
            e.color.is_none(),
            e.image.is_none(),
            e.footer.is_none(),
            e.url.is_none(),
            e.author.is_none(),
            e.fields@.len() == 4,
            e.fields@[0].inline && e.fields@[0].name@ == "Players ("@ + decimal(self.players@.len()) + ")"@
                && e.fields@[0].value@ == players_text(self.players@),
            e.fields@[1].inline && e.fields@[1].name@ == blank_text() && e.fields@[1].value@ == blank_text(),
            e.fields@[2].inline && e.fields@[2].name@ == "Roles"@
                && e.fields@[2].value@ == roles_text(self.players@.len(), self.roles@),
            e.fields@[3].inline && e.fields@[3].name@ == "Lady of the Lake"@
                && e.fields@[3].value@ == if self.lotl { "enabled"@ } else { "disabled"@ },
    {
        let mut pings: Vec<String> = Vec::new();
        for i in 0..self.players.len()
            invariant
                pings@.len() == i,
                forall|j: int| 0 <= j < i ==> (#[trigger] pings@[j])@ == ping_text(self.players@[j].user.id.0),
        {
            pings.push(ping_user(self.players[i].user.id));
        }
        assert(pings.deep_view() =~= self.players@.map_values(|m: GuildMember| ping_text(m.user.id.0)));
        let players_list = join(&pings, "\n");
        let value = if players_list.as_str().unicode_len() == 0 {
            String::from_str("None yet")
        } else {
            players_list
        };
        let mut title = String::from_str("Players (");
        let count = u64_to_string(self.players.len() as u64);
        title.append(count.as_str());
        title.append(")");
        let mut fields: Vec<EmbedField> = Vec::new();
        fields.push(EmbedField::new_inline(title, value));
        fields.push(EmbedField::new_inline(String::from_str("\u{200b}"), String::from_str("\u{200b}")));

        let mut names: Vec<String> = Vec::new();
        for i in 0..self.roles.len()
            invariant
                names@.len() == i,
                forall|j: int| 0 <= j < i ==> (#[trigger] names@[j])@ == character_name(self.roles@[j]),
        {
            names.push(String::from_str(self.roles[i].name()));
        }
        assert(names.deep_view() =~= self.roles@.map_values(|c: Character| character_name(c)));
        let mut roles = join(&names, "\n");
        match self.max_evil() {
            Some(m) => self.fill(self.players.len(), m, &mut roles),
            None => if self.players.len() < 5 {
                self.fill(5, 2, &mut roles);
            },
        }
        fields.push(EmbedField::new_inline(String::from_str("Roles"), roles));
        let lady = if self.lotl { String::from_str("enabled") } else { String::from_str("disabled") };
        fields.push(EmbedField::new_inline(String::from_str("Lady of the Lake"), lady));
        Embed {
            title: Some(String::from_str("__Avalon Setup__")),
            description: None,
            color: None,
            fields,
            image: None,
            footer: None,
            url: None,
            author: None,
        }
    }
}

} // verus!
