//! The characters of Avalon, which side each is on, and the size of each quest.

use vstd::prelude::*;

use crate::ids::{Id, UserId};
use crate::model::GuildMember;

verus! {

/// The two sides.
#[derive(Debug, Clone, Copy, PartialEq, Eq, Structural)]
pub enum Loyalty {
    Good,
    Evil,
}

/// A role a player can be dealt.
#[derive(Debug, Clone, Copy, PartialEq, Eq, Structural)]
pub enum Character {
    Assassin,
    LoyalServant,
    Merlin,
    MinionOfMordred,
    Mordred,
    Morgana,
    Oberon,
    Percival,
}

/// The number of characters.
pub const CHARACTER_COUNT: usize = 8;

/// The side a character is on.
pub open spec fn spec_loyalty(c: Character) -> Loyalty {
    match c {
        Character::LoyalServant | Character::Merlin | Character::Percival => Loyalty::Good,
        _ => Loyalty::Evil,
    }
}

/// The name a character is shown by.
pub open spec fn character_name(c: Character) -> Seq<char> {
    match c {
        Character::Assassin => "Assassin"@,
        Character::LoyalServant => "Loyal Servant"@,
        Character::Merlin => "Merlin"@,
        Character::MinionOfMordred => "Minion of Mordred"@,
        Character::Mordred => "Mordred"@,
        Character::Morgana => "Morgana"@,
        Character::Oberon => "Oberon"@,
        Character::Percival => "Percival"@,
    }
}

impl Character {
    /// The side this character is on.
    pub fn loyalty(self) -> (l: Loyalty)
        ensures
            l == spec_loyalty(self),
    {
        match self {
            Character::LoyalServant | Character::Merlin | Character::Percival => Loyalty::Good,
            _ => Loyalty::Evil,
        }
    }

    /// The name this character is shown by.
    pub fn name(self) -> (s: &'static str)
        ensures
            s@ == character_name(self),
    {
        match self {
            Character::Assassin => "Assassin",
            Character::LoyalServant => "Loyal Servant",
            Character::Merlin => "Merlin",
            Character::MinionOfMordred => "Minion of Mordred",
            Character::Mordred => "Mordred",
            Character::Morgana => "Morgana",
            Character::Oberon => "Oberon",
            Character::Percival => "Percival",
        }
    }
}

/// The most evil players a game of `players` can have; `None` outside five to ten players.
pub open spec fn spec_max_evil(players: nat) -> Option<nat> {
    if players == 5 || players == 6 {
        Some(2)
    } else if 7 <= players <= 9 {
        Some(3)
    } else if players == 10 {
        Some(4)
    } else {
        None
    }
}

/// The most evil players a game of `players` can have; `None` outside five to ten players.
pub fn max_evil(players: usize) -> (m: Option<usize>)
    ensures
        match m {
            Some(m) => spec_max_evil(players as nat) == Some(m as nat),
            None => spec_max_evil(players as nat).is_none(),
        },
{
    if players == 5 || players == 6 {
        Some(2)
    } else if 7 <= players && players <= 9 {
        Some(3)
    } else if players == 10 {
        Some(4)
    } else {
        None
    }
}

/// One quest: how many players go on it, and how many fails make it fail.
#[derive(Debug, Clone, Copy, PartialEq, Eq, Structural)]
pub struct Round {
    pub players: usize,
    pub fails: usize,
}

/// The quest of round `round` (one to five) in a game of `players` (five to ten).
pub open spec fn spec_round(players: nat, round: nat) -> Round {
    let sizes: Seq<usize> = if players == 5 {
        seq![2, 3, 2, 3, 3]
    } else if players == 6 {
        seq![2, 3, 4, 3, 4]
    } else if players == 7 {
        seq![2, 3, 3, 4, 4]
    } else {
        seq![3, 4, 4, 5, 5]
    };
    Round {
        players: sizes[round - 1],
        fails: if round == 4 && players >= 7 { 2 } else { 1 },
    }
}

/// The quests of a game, by its number of players.
#[derive(Debug, Clone, Copy, PartialEq, Eq, Structural)]
pub struct Rounds(pub usize);

impl Rounds {
    /// The quest of round `round`.
    pub fn get(&self, round: usize) -> (r: Round)
        requires
            5 <= self.0 <= 10,
            1 <= round <= 5,
        ensures
            r == spec_round(self.0 as nat, round as nat),
    {
        let sizes: [usize; 5] = if self.0 == 5 {
            [2, 3, 2, 3, 3]
        } else if self.0 == 6 {
            [2, 3, 4, 3, 4]
        } else if self.0 == 7 {
            [2, 3, 3, 4, 4]
        } else {
            [3, 4, 4, 5, 5]
        };
        let players = sizes[round - 1];
        let fails = if round == 4 && self.0 >= 7 { 2 } else { 1 };
        proof {
            let s = sizes@;
            if self.0 == 5 { assert(s =~= seq![2usize, 3, 2, 3, 3]); }
            else if self.0 == 6 { assert(s =~= seq![2usize, 3, 4, 3, 4]); }
            else if self.0 == 7 { assert(s =~= seq![2usize, 3, 3, 4, 4]); }
            else { assert(s =~= seq![3usize, 4, 4, 5, 5]); }
        }
        Round { players, fails }
    }
}

/// A player of Avalon and the character they were dealt.
#[derive(Debug, Clone)]
pub struct AvalonPlayer {
    pub member: GuildMember,
    pub role: Character,
}

impl Id for AvalonPlayer {
    type Id = UserId;

    open spec fn spec_id(&self) -> UserId {
        self.member.user.id
    }

    fn id(&self) -> (i: UserId) {
        self.member.user.id
    }
}

} // verus!
