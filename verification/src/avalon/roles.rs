//! Choosing which special characters the next game of Avalon is played with.

use vstd::prelude::*;

use crate::avalon::characters::{CHARACTER_COUNT, Character};

verus! {

/// The `/roles` command, which knows the characters chosen so far.
#[derive(Debug, Clone)]
pub struct RolesCommand(pub Vec<Character>);

/// What `/roles` was asked to do.
#[derive(Debug, Clone)]
pub enum RoleData {
    /// add these characters
    Add(Vec<Character>),
    /// remove these characters
    Remove(Vec<Character>),
    /// remove every character
    Clear,
}

fn contains_character(v: &Vec<Character>, c: Character) -> (b: bool)
    ensures
        b == v@.contains(c),
{
    for i in 0..v.len()
        invariant
            forall|j: int| 0 <= j < i ==> v@[j] != c,
    {
        if v[i] == c {
            return true;
        }
    }
    false
}

/// How many more characters can be added: the eight less the two plain ones and those chosen.
pub fn add_count(command: &RolesCommand) -> (n: usize)
    requires
        command.0@.len() <= CHARACTER_COUNT - 2,
    ensures
        n == CHARACTER_COUNT - 2 - command.0@.len(),
{
    CHARACTER_COUNT - 2 - command.0.len()
}

/// A character can be added if it is special and not chosen yet.
pub fn add_choice(command: &RolesCommand, choice: Character) -> (b: bool)
    ensures
        b == (choice != Character::LoyalServant && choice != Character::MinionOfMordred
            && !command.0@.contains(choice)),
{
    choice != Character::LoyalServant && choice != Character::MinionOfMordred
        && !contains_character(&command.0, choice)
}

/// How many characters can be removed: those chosen.
pub fn remove_count(command: &RolesCommand) -> (n: usize)
    ensures
        n == command.0@.len(),
{
    command.0.len()
}

/// A character can be removed if it was chosen.
pub fn remove_choice(command: &RolesCommand, choice: Character) -> (b: bool)
    ensures
        b == command.0@.contains(choice),
{
    contains_character(&command.0, choice)
}

/// Adding is offered while some special character is not chosen yet.
pub fn add_roles(command: &RolesCommand) -> (b: bool)
    ensures
        b == (command.0@.len() < CHARACTER_COUNT - 2),
{
    command.0.len() < CHARACTER_COUNT - 2
}

/// Removing is offered while some character is chosen.
pub fn remove_roles(command: &RolesCommand) -> (b: bool)
    ensures
        b == (command.0@.len() != 0),
{
    command.0.len() != 0
}

/// `add`'s characters not in `roles`, in order.
pub open spec fn new_roles(roles: Seq<Character>, add: Seq<Character>) -> Seq<Character>
    decreases add.len(),
{
    if add.len() == 0 {
        Seq::empty()
    } else if roles.contains(add.last()) {
        new_roles(roles, add.drop_last())
    } else {
        new_roles(roles, add.drop_last()).push(add.last())
    }
}

/// `roles` without the characters in `rem`, in order.
pub open spec fn kept_roles(roles: Seq<Character>, rem: Seq<Character>) -> Seq<Character>
    decreases roles.len(),
{
    if roles.len() == 0 {
        Seq::empty()
    } else if rem.contains(roles.last()) {
        kept_roles(roles.drop_last(), rem)
    } else {
        kept_roles(roles.drop_last(), rem).push(roles.last())
    }
}

proof fn lemma_kept_len(roles: Seq<Character>, rem: Seq<Character>)
    ensures
        kept_roles(roles, rem).len() <= roles.len(),
        (kept_roles(roles, rem).len() == roles.len()) == (forall|i: int| 0 <= i < roles.len() ==> !rem.contains(#[trigger] roles[i])),
    decreases roles.len(),
{
    if roles.len() > 0 {
        let dl = roles.drop_last();
        lemma_kept_len(dl, rem);
        if forall|i: int| 0 <= i < roles.len() ==> !rem.contains(#[trigger] roles[i]) {
            assert forall|i: int| 0 <= i < dl.len() implies !rem.contains(#[trigger] dl[i]) by {
                assert(dl[i] == roles[i]);
            }
            assert(!rem.contains(roles[roles.len() - 1]));
        } else {
            let i = choose|i: int| 0 <= i < roles.len() && rem.contains(#[trigger] roles[i]);
            if i < roles.len() - 1 {
                assert(dl[i] == roles[i]);
                assert(!(forall|j: int| 0 <= j < dl.len() ==> !rem.contains(#[trigger] dl[j])));
            }
        }
    }
}

/// Carries out `/roles` on the chosen characters; returns whether they changed.
pub fn apply_roles(roles: &mut Vec<Character>, data: RoleData) -> (changed: bool)
    ensures
        match data {
            RoleData::Add(add) => {
                &&& final(roles)@ == old(roles)@ + new_roles(old(roles)@, add@)
                &&& changed == (new_roles(old(roles)@, add@).len() > 0)
            },
            RoleData::Remove(rem) => {
                &&& final(roles)@ == kept_roles(old(roles)@, rem@)
                &&& changed == exists|i: int| 0 <= i < old(roles)@.len() && rem@.contains(#[trigger] old(roles)@[i])
            },
            RoleData::Clear => final(roles)@.len() == 0 && changed,
        },
{
    match data {
        RoleData::Add(add) => {
            let mut new: Vec<Character> = Vec::new();
            for i in 0..add.len()
                invariant
                    roles@ == old(roles)@,
                    new@ == new_roles(old(roles)@, add@.take(i as int)),
            {
                proof { assert(add@.take(i + 1).drop_last() =~= add@.take(i as int)); }
                if !contains_character(roles, add[i]) {
                    new.push(add[i]);
                }
            }
            assert(add@.take(add@.len() as int) =~= add@);
            let added = new.len() > 0;
            roles.append(&mut new);
            added
        },
        RoleData::Remove(rem) => {
            let mut kept: Vec<Character> = Vec::new();
            let n = roles.len();
            for i in 0..n
                invariant
                    n == roles@.len(),
                    roles@ == old(roles)@,
                    kept@ == kept_roles(old(roles)@.take(i as int), rem@),
            {
                proof { assert(old(roles)@.take(i + 1).drop_last() =~= old(roles)@.take(i as int)); }
                if !contains_character(&rem, roles[i]) {
                    kept.push(roles[i]);
                }
            }
            assert(old(roles)@.take(n as int) =~= old(roles)@);
            proof { lemma_kept_len(old(roles)@, rem@); }
            let removed = kept.len() != n;
            *roles = kept;
            removed
        },
        RoleData::Clear => {
            roles.clear();
            true
        },
    }
}

} // verus!
