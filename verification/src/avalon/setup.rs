//! Setting up a game of Avalon from a message with a join button and a menu of characters.

use vstd::prelude::*;

use crate::avalon::characters::Character;

verus! {

/// `/setup`: sets up a game of Avalon.
#[derive(Debug, Clone, Copy)]
pub struct SetupCommand;

/// A character that can be picked in the setup menu: the special ones.
#[derive(Debug, Clone, Copy, PartialEq, Eq, Structural)]
pub enum Role {
    Assassin,
    Merlin,
    Mordred,
    Morgana,
    Oberon,
    Percival,
}

/// The character a menu choice stands for.
pub open spec fn role_character(r: Role) -> Character {
    match r {
        Role::Assassin => Character::Assassin,
        Role::Merlin => Character::Merlin,
        Role::Mordred => Character::Mordred,
        Role::Morgana => Character::Morgana,
        Role::Oberon => Character::Oberon,
        Role::Percival => Character::Percival,
    }
}

impl Role {
    /// The character this menu choice stands for.
    pub fn character(&self) -> (c: Character)
        ensures
            c == role_character(*self),
    {
        match self {
            Role::Assassin => Character::Assassin,
            Role::Merlin => Character::Merlin,
            Role::Mordred => Character::Mordred,
            Role::Morgana => Character::Morgana,
            Role::Oberon => Character::Oberon,
            Role::Percival => Character::Percival,
        }
    }

    /// The characters the menu choices stand for, in order.
    pub fn characters(roles: &Vec<Role>) -> (cs: Vec<Character>)
        ensures
            cs@ == roles@.map_values(|r: Role| role_character(r)),
    {
        let mut cs: Vec<Character> = Vec::new();
        for i in 0..roles.len()
            invariant
                cs@ == roles@.take(i as int).map_values(|r: Role| role_character(r)),
        {
            cs.push(roles[i].character());
            assert(cs@ =~= roles@.take(i + 1).map_values(|r: Role| role_character(r)));
        }
        assert(roles@.take(roles@.len() as int) =~= roles@);
        cs
    }
}

} // verus!
