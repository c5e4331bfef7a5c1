//! The Assassin's last chance: if they name Merlin, evil wins after all.

use vstd::prelude::*;

use crate::avalon::characters::{AvalonPlayer, Character, Loyalty, character_name, spec_loyalty};
use crate::avalon::game::{AvalonGame, first_player, first_role, has_player, has_role};
use crate::ids::UserId;
use crate::markup::ping_user;
use crate::model::{Color, Embed, display_name, ping_text};

verus! {

/// The `/assassinate` command, usable only by the assassin with this user id.
#[derive(Debug, Clone, Copy)]
pub struct AssassinateCommand(pub UserId);

/// The Assassin's guess of who is Merlin.
#[derive(Debug, Clone, Copy)]
pub struct AssassinateData {
    pub target: UserId,
}

/// What an assassination attempt leads to.
#[derive(Debug, Clone, Copy, PartialEq, Eq, Structural)]
pub enum Assassination {
    /// someone other than the assassin (who has this id) tried
    NotAssassin(UserId),
    /// the target is not playing
    NotPlaying(UserId),
    /// the target is evil, and evil cannot be assassinated
    TargetEvil(UserId),
    /// the player at this seat was Merlin: evil wins
    MerlinKilled(usize),
    /// the player at the first seat was not Merlin, who sits at the second: good wins
    MerlinSurvived(usize, usize),
}

/// The text that answers an attempt: the refusal, or the end of the game.
pub open spec fn assassination_message(ps: Seq<AvalonPlayer>, a: Assassination) -> Seq<char> {
    match a {
        Assassination::NotAssassin(u) =>
            "Only the assassin ("@ + ping_text(u.0) + ") can assassinate someone"@,
        Assassination::NotPlaying(u) => ping_text(u.0) + " is not playing Avalon"@,
        Assassination::TargetEvil(u) => ping_text(u.0) + " is evil, you can't assassinate them!"@,
        Assassination::MerlinKilled(g) => "Correct! "@
            + display_name(ps[g as int].member.nick_view(), ps[g as int].member.user.username@)
            + " was Merlin! The bad guys win!"@,
        Assassination::MerlinSurvived(g, m) => "Incorrect! "@
            + display_name(ps[g as int].member.nick_view(), ps[g as int].member.user.username@)
            + " was actually "@ + character_name(ps[g as int].role) + ", and "@
            + display_name(ps[m as int].member.nick_view(), ps[m as int].member.user.username@)
            + " was Merlin! The good guys win!"@,
    }
}

/// Whether an attempt ends the game: it does once it named a good player.
pub open spec fn ends_game(a: Assassination) -> bool {
    a is MerlinKilled || a is MerlinSurvived
}

impl AvalonGame {
    /// Decides an assassination attempt by `user`.
    pub fn assassinate(&self, command: &AssassinateCommand, user: UserId, data: AssassinateData)
        -> (a: Assassination)
        requires
            forall|i: int| first_player(self.players@, data.target, i)
                && spec_loyalty(self.players@[i].role) == Loyalty::Good
                && self.players@[i].role != Character::Merlin
                ==> has_role(self.players@, Character::Merlin),
        ensures
            user != command.0 ==> a == Assassination::NotAssassin(command.0),
            user == command.0 ==> match a {
                Assassination::NotPlaying(t) => t == data.target && !has_player(self.players@, data.target),
                Assassination::TargetEvil(t) => t == data.target && exists|i: int|
                    first_player(self.players@, data.target, i)
                    && spec_loyalty(self.players@[i].role) == Loyalty::Evil,
                Assassination::MerlinKilled(g) => first_player(self.players@, data.target, g as int)
                    && self.players@[g as int].role == Character::Merlin,
                Assassination::MerlinSurvived(g, m) => first_player(self.players@, data.target, g as int)
                    && spec_loyalty(self.players@[g as int].role) == Loyalty::Good
                    && self.players@[g as int].role != Character::Merlin
                    && first_role(self.players@, Character::Merlin, m as int),
                Assassination::NotAssassin(_) => false,
            },
    {
        if user != command.0 {
            return Assassination::NotAssassin(command.0);
        }
        match self.position(data.target) {
            None => Assassination::NotPlaying(data.target),
            Some(g) => {
                let role = self.players[g].role;
                if role.loyalty() == Loyalty::Evil {
                    Assassination::TargetEvil(data.target)
                } else if role == Character::Merlin {
                    Assassination::MerlinKilled(g)
                } else {
                    match self.role_position(Character::Merlin) {
                        Some(m) => Assassination::MerlinSurvived(g, m),
                        None => Assassination::NotPlaying(data.target),
                    }
                }
            },
        }
    }

    /// The message that announces the attempt: a private reply for a refused one, the end of
    /// the game otherwise.
    pub fn assassination_text(&self, a: Assassination) -> (s: String)
        requires
            a matches Assassination::MerlinKilled(g) ==> g < self.players@.len(),
            a matches Assassination::MerlinSurvived(g, m) ==> g < self.players@.len() && m < self.players@.len(),
        ensures
            s@ == assassination_message(self.players@, a),
    {
        match a {
            Assassination::NotAssassin(u) => {
                let mut s = String::from_str("Only the assassin (");
                let p = ping_user(u);
                s.append(p.as_str());
                s.append(") can assassinate someone");
                s
            },
            Assassination::NotPlaying(u) => {
                let mut s = ping_user(u);
                s.append(" is not playing Avalon");
                s
            },
            Assassination::TargetEvil(u) => {
                let mut s = ping_user(u);
                s.append(" is evil, you can't assassinate them!");
                s
            },
            Assassination::MerlinKilled(g) => {
                let mut s = String::from_str("Correct! ");
                let name = self.players[g].member.nick_or_name();
                s.append(name.as_str());
                s.append(" was Merlin! The bad guys win!");
                s
            },
            Assassination::MerlinSurvived(g, m) => {
                let mut s = String::from_str("Incorrect! ");
                let name = self.players[g].member.nick_or_name();
                s.append(name.as_str());
                s.append(" was actually ");
                s.append(self.players[g].role.name());
                s.append(", and ");
                let merlin = self.players[m].member.nick_or_name();
                s.append(merlin.as_str());
                s.append(" was Merlin! The good guys win!");
                s
            },
        }
    }

    /// The embed that ends the game after an attempt that was not refused: its title is the
    /// attempt's text, red when Merlin was killed and blue when Merlin survived. A refused attempt
    /// ends nothing and gets no embed; it is answered privately with `assassination_text`.
    pub fn game_over_embed(&self, a: Assassination) -> (e: Option<Embed>)
        requires
            a matches Assassination::MerlinKilled(g) ==> g < self.players@.len(),
            a matches Assassination::MerlinSurvived(g, m) ==> g < self.players@.len() && m < self.players@.len(),
        ensures
            e is Some <==> ends_game(a),
            e matches Some(e) ==> {
                &&& e.title matches Some(t) && t@ == assassination_message(self.players@, a)
                &&& e.color == Some(if a is MerlinKilled { Color::Red } else { Color::Blue })
                &&& e.description.is_none()
                &&& e.fields@.len() == 0
                &&& e.image.is_none()
                &&& e.footer.is_none()
                &&& e.url.is_none()
                &&& e.author.is_none()
            },
    {
        let color = match a {
            Assassination::MerlinKilled(_) => Color::Red,
            Assassination::MerlinSurvived(_, _) => Color::Blue,
            _ => return None,
        };
        let mut e = Embed::new();
        e.title = Some(self.assassination_text(a));
        e.color = Some(color);
        Some(e)
    }
}

} // verus!
