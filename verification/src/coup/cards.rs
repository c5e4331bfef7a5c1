//! The five characters of the court deck, the abilities they claim, and how abilities resolve.

use vstd::prelude::*;

use crate::ids::UserId;

verus! {

/// A character card of the court deck.
#[derive(Debug, Clone, Copy, PartialEq, Eq, Structural)]
pub enum Card {
    Duke,
    Assassin,
    Ambassador,
    Captain,
    Contessa,
}

/// The card numbered `c` (taken modulo five).
pub open spec fn card_of(c: nat) -> Card {
    let c = c % 5;
    if c == 0 { Card::Duke } else if c == 1 { Card::Assassin } else if c == 2 { Card::Ambassador }
    else if c == 3 { Card::Captain } else { Card::Contessa }
}

/// The court deck that a game starts with: three of each character.
pub open spec fn standard_deck() -> Seq<Card> {
    Seq::new(15, |i: int| card_of(i as nat))
}

/// The name of a character.
pub open spec fn card_name(c: Card) -> Seq<char> {
    match c {
        Card::Duke => "Duke"@,
        Card::Assassin => "Assassin"@,
        Card::Ambassador => "Ambassador"@,
        Card::Captain => "Captain"@,
        Card::Contessa => "Contessa"@,
    }
}

impl Card {
    /// The card with number `c`: Duke, Assassin, Ambassador, Captain, Contessa.
    pub fn from_int(c: usize) -> (card: Card)
        requires
            c < 5,
        ensures
            card == card_of(c as nat),
    {
        match c {
            0 => Card::Duke,
            1 => Card::Assassin,
            2 => Card::Ambassador,
            3 => Card::Captain,
            _ => Card::Contessa,
        }
    }

    /// The character's name.
    pub fn name(self) -> (s: &'static str)
        ensures
            s@ == card_name(self),
    {
        match self {
            Card::Duke => "Duke",
            Card::Assassin => "Assassin",
            Card::Ambassador => "Ambassador",
            Card::Captain => "Captain",
            Card::Contessa => "Contessa",
        }
    }

    /// The path of the card's picture.
    pub fn image(self) -> (s: &'static str)
        ensures
            s@ == match self {
                Card::Duke => "images/coup/DukeSmall.jpg"@,
                Card::Assassin => "images/coup/AssassinSmall.jpg"@,
                Card::Ambassador => "images/coup/AmbassadorSmall.jpg"@,
                Card::Captain => "images/coup/CaptainSmall.jpg"@,
                Card::Contessa => "images/coup/ContessaSmall.jpg"@,
            },
    {
        match self {
            Card::Duke => "images/coup/DukeSmall.jpg",
            Card::Assassin => "images/coup/AssassinSmall.jpg",
            Card::Ambassador => "images/coup/AmbassadorSmall.jpg",
            Card::Captain => "images/coup/CaptainSmall.jpg",
            Card::Contessa => "images/coup/ContessaSmall.jpg",
        }
    }
}

/// How many coins each player starts with.
#[derive(Debug, Clone, Copy, PartialEq, Eq, Structural)]
pub enum StartingCoins {
    Zero,
    One,
    Two,
}

impl StartingCoins {
    /// The number of coins.
    pub open spec fn spec_count(self) -> nat {
        match self {
            StartingCoins::Zero => 0,
            StartingCoins::One => 1,
            StartingCoins::Two => 2,
        }
    }

    /// The number of coins.
    pub fn count(self) -> (n: usize)
        ensures
            n == self.spec_count(),
    {
        match self {
            StartingCoins::Zero => 0,
            StartingCoins::One => 1,
            StartingCoins::Two => 2,
        }
    }

    /// The setting a new game starts with.
    pub fn default() -> (c: StartingCoins)
        ensures
            c == StartingCoins::Two,
    {
        StartingCoins::Two
    }
}

/// An action a player can take on their turn.
#[derive(Debug, Clone, Copy, PartialEq, Eq, Structural)]
pub enum Ability {
    Income,
    ForeignAid,
    Coup,
    Tax,
    Assassinate,
    Exchange,
    Steal,
}

/// The coins an ability costs.
pub open spec fn ability_cost(a: Ability) -> nat {
    match a {
        Ability::Assassinate => 3,
        Ability::Coup => 7,
        _ => 0,
    }
}

/// Whether an ability is aimed at another player.
pub open spec fn ability_is_targeted(a: Ability) -> bool {
    a == Ability::Coup || a == Ability::Assassinate || a == Ability::Steal
}

/// An ability, with its target where it has one.
#[derive(Debug, Clone, Copy, PartialEq, Eq, Structural)]
pub enum AbilityTargeted {
    Income,
    ForeignAid,
    Coup(UserId),
    Tax,
    Assassinate(UserId),
    Exchange,
    Steal(UserId),
}

/// The ability with `target` filled in, if the ability needs one.
pub open spec fn spec_target(a: Ability, target: Option<UserId>) -> Option<AbilityTargeted> {
    match a {
        Ability::Income => Some(AbilityTargeted::Income),
        Ability::ForeignAid => Some(AbilityTargeted::ForeignAid),
        Ability::Tax => Some(AbilityTargeted::Tax),
        Ability::Exchange => Some(AbilityTargeted::Exchange),
        Ability::Coup => match target { Some(t) => Some(AbilityTargeted::Coup(t)), None => None },
        Ability::Assassinate => match target {
            Some(t) => Some(AbilityTargeted::Assassinate(t)),
            None => None,
        },
        Ability::Steal => match target { Some(t) => Some(AbilityTargeted::Steal(t)), None => None },
    }
}

/// The abilities of `s` that cost at most `coins`, in order.
pub open spec fn affordable_from(s: Seq<Ability>, coins: nat) -> Seq<Ability>
    decreases s.len(),
{
    if s.len() == 0 {
        Seq::empty()
    } else {
        let rest = affordable_from(s.drop_last(), coins);
        if ability_cost(s.last()) <= coins { rest.push(s.last()) } else { rest }
    }
}

impl Ability {
    /// Every ability, in the order the menu lists them.
    pub open spec fn spec_all() -> Seq<Ability> {
        seq![Ability::Income, Ability::ForeignAid, Ability::Coup, Ability::Tax,
            Ability::Assassinate, Ability::Exchange, Ability::Steal]
    }

    /// Every ability, in the order the menu lists them.
    pub fn all() -> (v: Vec<Ability>)
        ensures
            v@ == Self::spec_all(),
    {
        let v = vec![Ability::Income, Ability::ForeignAid, Ability::Coup, Ability::Tax,
            Ability::Assassinate, Ability::Exchange, Ability::Steal];
        assert(v@ =~= Self::spec_all());
        v
    }

    /// The coins a player must have to use this ability.
    pub fn needed_coins(self) -> (n: usize)
        ensures
            n == ability_cost(self),
    {
        match self {
            Ability::Income | Ability::ForeignAid | Ability::Tax | Ability::Exchange
            | Ability::Steal => 0,
            Ability::Assassinate => 3,
            Ability::Coup => 7,
        }
    }

    /// Attaches the target; `None` if this ability needs a target and none was given.
    pub fn target(self, target: Option<UserId>) -> (t: Option<AbilityTargeted>)
        ensures
            t == spec_target(self, target),
    {
        match self {
            Ability::Income => Some(AbilityTargeted::Income),
            Ability::ForeignAid => Some(AbilityTargeted::ForeignAid),
            Ability::Tax => Some(AbilityTargeted::Tax),
            Ability::Exchange => Some(AbilityTargeted::Exchange),
            Ability::Coup => match target {
                Some(t) => Some(AbilityTargeted::Coup(t)),
                None => None,
            },
            Ability::Assassinate => match target {
                Some(t) => Some(AbilityTargeted::Assassinate(t)),
                None => None,
            },
            Ability::Steal => match target {
                Some(t) => Some(AbilityTargeted::Steal(t)),
                None => None,
            },
        }
    }

    /// The abilities a player with `coins` coins may pick, in menu order.
    pub fn affordable(coins: usize) -> (v: Vec<Ability>)
        ensures
            v@ == affordable_from(Self::spec_all(), coins as nat),
    {
        let all = Self::all();
        let mut v: Vec<Ability> = Vec::new();
        for i in 0..all.len()
            invariant
                all@ == Self::spec_all(),
                v@ == affordable_from(all@.take(i as int), coins as nat),
        {
            if all[i].needed_coins() <= coins {
                v.push(all[i]);
            }
            proof {
                assert(all@.take(i + 1).drop_last() =~= all@.take(i as int));
                assert(all@.take(i + 1).last() == all@[i as int]);
            }
        }
        assert(all@.take(all@.len() as int) =~= all@);
        v
    }
}

/// An ability used by a player.
#[derive(Debug, Clone, Copy, PartialEq, Eq, Structural)]
pub struct AbilityResolved {
    pub user: UserId,
    pub ability: AbilityTargeted,
}

/// The characters that may block an ability.
pub open spec fn spec_counter_roles(a: AbilityTargeted) -> Option<Seq<Card>> {
    match a {
        AbilityTargeted::ForeignAid => Some(seq![Card::Duke]),
        AbilityTargeted::Assassinate(_) => Some(seq![Card::Contessa]),
        AbilityTargeted::Steal(_) => Some(seq![Card::Ambassador, Card::Captain]),
        _ => None,
    }
}

/// The character a player claims by using an ability.
pub open spec fn spec_needed_card(a: AbilityTargeted) -> Option<Card> {
    match a {
        AbilityTargeted::Tax => Some(Card::Duke),
        AbilityTargeted::Assassinate(_) => Some(Card::Assassin),
        AbilityTargeted::Exchange => Some(Card::Ambassador),
        AbilityTargeted::Steal(_) => Some(Card::Captain),
        _ => None,
    }
}

impl AbilityResolved {
    /// The characters that may block this ability.
    pub fn counter_roles(self) -> (r: Option<Vec<Card>>)
        ensures
            match r {
                Some(v) => spec_counter_roles(self.ability) == Some(v@),
                None => spec_counter_roles(self.ability).is_none(),
            },
    {
        match self.ability {
            AbilityTargeted::Income | AbilityTargeted::Coup(_) | AbilityTargeted::Tax
            | AbilityTargeted::Exchange => None,
            AbilityTargeted::ForeignAid => {
                let v = vec![Card::Duke];
                assert(v@ =~= seq![Card::Duke]);
                Some(v)
            },
            AbilityTargeted::Assassinate(_) => {
                let v = vec![Card::Contessa];
                assert(v@ =~= seq![Card::Contessa]);
                Some(v)
            },
            AbilityTargeted::Steal(_) => {
                let v = vec![Card::Ambassador, Card::Captain];
                assert(v@ =~= seq![Card::Ambassador, Card::Captain]);
                Some(v)
            },
        }
    }

    /// The character the user claims to have by using this ability.
    pub fn needed_card(self) -> (c: Option<Card>)
        ensures
            c == spec_needed_card(self.ability),
    {
        match self.ability {
            AbilityTargeted::Income | AbilityTargeted::ForeignAid | AbilityTargeted::Coup(_) => None,
            AbilityTargeted::Tax => Some(Card::Duke),
            AbilityTargeted::Assassinate(_) => Some(Card::Assassin),
            AbilityTargeted::Exchange => Some(Card::Ambassador),
            AbilityTargeted::Steal(_) => Some(Card::Captain),
        }
    }
}

/// An ability as it is put to the table: used, or blocked by a player who claims a card.
#[derive(Debug, Clone, Copy, PartialEq, Eq, Structural)]
pub enum FullAbility {
    Use(AbilityResolved),
    Block(AbilityResolved, UserId, Card),
}

impl FullAbility {
    /// The blocking characters of a used ability; a block cannot itself be blocked.
    pub open spec fn spec_counter_roles(self) -> Option<Seq<Card>> {
        match self {
            FullAbility::Use(a) => spec_counter_roles(a.ability),
            FullAbility::Block(_, _, _) => None,
        }
    }

    /// The card that is claimed: the ability's character, or the card a blocker claims.
    pub open spec fn spec_needed_card(self) -> Option<Card> {
        match self {
            FullAbility::Use(a) => spec_needed_card(a.ability),
            FullAbility::Block(_, _, c) => Some(c),
        }
    }

    /// Whether the ability was used, not blocked.
    pub fn is_use(self) -> (b: bool)
        ensures
            b == (self is Use),
    {
        match self {
            FullAbility::Use(_) => true,
            FullAbility::Block(_, _, _) => false,
        }
    }

    /// Whether the ability was blocked.
    pub fn is_block(self) -> (b: bool)
        ensures
            b == (self is Block),
    {
        match self {
            FullAbility::Use(_) => false,
            FullAbility::Block(_, _, _) => true,
        }
    }

    /// The ability that was used or blocked.
    pub fn ability(self) -> (a: AbilityResolved)
        ensures
            a == match self {
                FullAbility::Use(a) => a,
                FullAbility::Block(a, _, _) => a,
            },
    {
        match self {
            FullAbility::Use(a) => a,
            FullAbility::Block(a, _, _) => a,
        }
    }

    /// Who put this to the table: the ability's user, or the blocker.
    pub fn user(self) -> (u: UserId)
        ensures
            u == match self {
                FullAbility::Use(a) => a.user,
                FullAbility::Block(_, u, _) => u,
            },
    {
        match self {
            FullAbility::Use(a) => a.user,
            FullAbility::Block(_, u, _) => u,
        }
    }

    /// The characters that may block this.
    pub fn counter_roles(self) -> (r: Option<Vec<Card>>)
        ensures
            match r {
                Some(v) => self.spec_counter_roles() == Some(v@),
                None => self.spec_counter_roles().is_none(),
            },
    {
        match self {
            FullAbility::Use(a) => a.counter_roles(),
            FullAbility::Block(_, _, _) => None,
        }
    }

    /// The card claimed by whoever put this to the table.
    pub fn needed_card(self) -> (c: Option<Card>)
        ensures
            c == self.spec_needed_card(),
    {
        match self {
            FullAbility::Use(a) => a.needed_card(),
            FullAbility::Block(_, _, c) => Some(c),
        }
    }

    /// Whether the other players get a chance to block or contest before this resolves.
    pub fn awaits_response(self) -> (b: bool)
        ensures
            b == (self.spec_counter_roles().is_some() || self.spec_needed_card().is_some()),
    {
        let counter = self.counter_roles();
        counter.is_some() || self.needed_card().is_some()
    }
}

/// The kind of ability an ability with its target is.
pub open spec fn ability_kind(a: AbilityTargeted) -> Ability {
    match a {
        AbilityTargeted::Income => Ability::Income,
        AbilityTargeted::ForeignAid => Ability::ForeignAid,
        AbilityTargeted::Coup(_) => Ability::Coup,
        AbilityTargeted::Tax => Ability::Tax,
        AbilityTargeted::Assassinate(_) => Ability::Assassinate,
        AbilityTargeted::Exchange => Ability::Exchange,
        AbilityTargeted::Steal(_) => Ability::Steal,
    }
}

/// The player an ability is aimed at, if it is aimed at one.
pub open spec fn target_of(a: AbilityTargeted) -> Option<UserId> {
    match a {
        AbilityTargeted::Coup(t) | AbilityTargeted::Assassinate(t) | AbilityTargeted::Steal(t) => Some(t),
        _ => None,
    }
}

/// Attaching a target keeps the chosen ability: the result is that ability, aimed at the given
/// player when it is one that is aimed, and at nobody otherwise; it fails exactly when an aimed
/// ability is given no target.
pub proof fn lemma_target_keeps_ability(a: Ability, t: Option<UserId>)
    ensures
        spec_target(a, t).is_none() <==> (ability_is_targeted(a) && t.is_none()),
        spec_target(a, t) matches Some(x) ==> {
            &&& ability_kind(x) == a
            &&& ability_is_targeted(a) ==> target_of(x) == t
            &&& !ability_is_targeted(a) ==> target_of(x).is_none()
        },
{
}

/// Whether an ability is one of the actions open to everyone, which claim no character.
pub open spec fn is_general_action(a: Ability) -> bool {
    a == Ability::Income || a == Ability::ForeignAid || a == Ability::Coup
}

/// Each character action claims its character, as the rules of Coup give them: Tax the Duke,
/// Assassinate the Assassin, Exchange the Ambassador and Steal the Captain; the general actions
/// claim none; no two kinds of action claim the same character; and an action that claims a
/// character gives the table a chance to respond before it resolves.
pub proof fn lemma_actions_claim_their_character(a: AbilityTargeted, b: AbilityTargeted, user: UserId)
    ensures
        spec_needed_card(a).is_none() <==> is_general_action(ability_kind(a)),
        ability_kind(a) == Ability::Tax ==> spec_needed_card(a) == Some(Card::Duke),
        ability_kind(a) == Ability::Assassinate ==> spec_needed_card(a) == Some(Card::Assassin),
        ability_kind(a) == Ability::Exchange ==> spec_needed_card(a) == Some(Card::Ambassador),
        ability_kind(a) == Ability::Steal ==> spec_needed_card(a) == Some(Card::Captain),
        spec_needed_card(a).is_some() && spec_needed_card(a) == spec_needed_card(b)
            ==> ability_kind(a) == ability_kind(b),
        spec_needed_card(a).is_some() ==> {
            let f = FullAbility::Use(AbilityResolved { user, ability: a });
            f.spec_counter_roles().is_some() || f.spec_needed_card().is_some()
        },
{
}

/// Exactly three actions can be blocked, each by the characters the rules of Coup give:
/// Foreign Aid by the Duke, Assassinate by the Contessa, Steal by the Ambassador and by the
/// Captain; each blocking character is listed once.
pub proof fn lemma_blocking_characters(a: AbilityTargeted)
    ensures
        spec_counter_roles(a).is_some() <==> (ability_kind(a) == Ability::ForeignAid
            || ability_kind(a) == Ability::Assassinate || ability_kind(a) == Ability::Steal),
        spec_counter_roles(a) matches Some(cs) ==> cs.no_duplicates(),
        ability_kind(a) == Ability::ForeignAid ==> (spec_counter_roles(a) matches Some(cs)
            && cs.to_set() == set![Card::Duke]),
        ability_kind(a) == Ability::Assassinate ==> (spec_counter_roles(a) matches Some(cs)
            && cs.to_set() == set![Card::Contessa]),
        ability_kind(a) == Ability::Steal ==> (spec_counter_roles(a) matches Some(cs)
            && cs.to_set() == set![Card::Ambassador, Card::Captain]),
{
    match a {
        AbilityTargeted::ForeignAid => {
            assert(seq![Card::Duke].to_set() =~= set![Card::Duke]) by {
                assert(seq![Card::Duke][0] == Card::Duke);
            }
        },
        AbilityTargeted::Assassinate(_) => {
            assert(seq![Card::Contessa].to_set() =~= set![Card::Contessa]) by {
                assert(seq![Card::Contessa][0] == Card::Contessa);
            }
        },
        AbilityTargeted::Steal(_) => {
            let cs = seq![Card::Ambassador, Card::Captain];
            assert(cs.to_set() =~= set![Card::Ambassador, Card::Captain]) by {
                assert(cs[0] == Card::Ambassador);
                assert(cs[1] == Card::Captain);
            }
        },
        _ => {},
    }
}

} // verus!
