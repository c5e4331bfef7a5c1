//! Hangman: guessing a word letter by letter, by reacting with the regional indicator of a
//! letter, or all at once; five wrong guesses and the hangman eats.

use vstd::prelude::*;
use std::collections::HashMap;

use crate::dispatch::{ReactionType, ReactionUpdate};
use crate::emoji::Emoji;
use crate::channel::{Channel, ChannelType, spec_channel_type};
use crate::games::HangmanError;
use crate::guild::Guild;
use crate::ids::{ChannelId, GuildId, MessageId, UserId, snowflake_millis, snowflake_from_millis, snowflake_at_millis, DISCORD_EPOCH};
use crate::model::{ChannelMessageId, Color, Embed, Token};
use crate::text::{byte_len, decimal, push_char, u64_to_string, utf8_len, utf8_offset};

verus! {

broadcast use vstd::std_specs::hash::group_hash_axioms;

/// The first regional indicator, 🇦.
pub const REGIONAL_A: u32 = 0x1F1E6;
/// The regional indicator 🇿, which the range of letter reactions stops before.
pub const REGIONAL_Z: u32 = 0x1F1FF;
/// The question mark a player reacts with to ask how to play.
pub const QUESTION: char = '\u{2753}';
/// The shortest word the games pick.
pub const MIN_WORD_LEN: usize = 5;
/// How many pictures of the hangman there are; the last one is the lost game.
pub const ART_LEN: usize = 6;

/// The picture of the hangman after `wrong` wrong guesses.
pub open spec fn art(wrong: int) -> Seq<char> {
    if wrong == 0 {
        "+-------------+\n|             |\n|\n|\n|\n|\n|\n|\n|\n|        +---------+\n|        |         |\n+--------+---------+--------+\n|                           |"@
    } else if wrong == 1 {
        "+-------------+\n|             |\n|             O\n|\n|\n|\n|\n|\n|\n|        +---------+\n|        |         |\n+--------+---------+--------+\n|                           |"@
    } else if wrong == 2 {
        "+-------------+\n|             |\n|             O\n|             |\n|             +\n|             |\n|             +\n|\n|\n|        +---------+\n|        |         |\n+--------+---------+--------+\n|                           |"@
    } else if wrong == 3 {
        "+-------------+\n|             |\n|             O\n|           \\ | /\n|            \\+/\n|             |\n|             +\n|\n|\n|        +---------+\n|        |         |\n+--------+---------+--------+\n|                           |"@
    } else if wrong == 4 {
        "+-------------+\n|             |\n|           \\ O /\n|            \\|/\n|             +\n|             |\n|             +\n|            / \\\n|           /   \\\n|        +---------+\n|        |         |\n+--------+---------+--------+\n|                           |"@
    } else {
        "+-------------+\n|             |\n|           \\ X /\n|            \\|/\n|             +\n|             |\n|             +\n|            / \\\n|           /   \\\n|\n+---------------------------+\n|                           |"@
    }
}

/// The picture of the hangman after `wrong` wrong guesses.
pub fn ascii_art(wrong: usize) -> (s: &'static str)
    requires
        wrong < ART_LEN,
    ensures
        s@ == art(wrong as int),
{
    if wrong == 0 {
        "+-------------+\n|             |\n|\n|\n|\n|\n|\n|\n|\n|        +---------+\n|        |         |\n+--------+---------+--------+\n|                           |"
    } else if wrong == 1 {
        "+-------------+\n|             |\n|             O\n|\n|\n|\n|\n|\n|\n|        +---------+\n|        |         |\n+--------+---------+--------+\n|                           |"
    } else if wrong == 2 {
        "+-------------+\n|             |\n|             O\n|             |\n|             +\n|             |\n|             +\n|\n|\n|        +---------+\n|        |         |\n+--------+---------+--------+\n|                           |"
    } else if wrong == 3 {
        "+-------------+\n|             |\n|             O\n|           \\ | /\n|            \\+/\n|             |\n|             +\n|\n|\n|        +---------+\n|        |         |\n+--------+---------+--------+\n|                           |"
    } else if wrong == 4 {
        "+-------------+\n|             |\n|           \\ O /\n|            \\|/\n|             +\n|             |\n|             +\n|            / \\\n|           /   \\\n|        +---------+\n|        |         |\n+--------+---------+--------+\n|                           |"
    } else {
        "+-------------+\n|             |\n|           \\ X /\n|            \\|/\n|             +\n|             |\n|             +\n|            / \\\n|           /   \\\n|\n+---------------------------+\n|                           |"
    }
}

/// A game of Hangman in one channel.
#[derive(Debug)]
pub struct Hangman {
    /// the interaction that shows the game, to edit it and send followups
    pub token: Token,
    /// the message that shows the game
    pub message: ChannelMessageId,
    /// the word to guess
    pub word: String,
    /// where the word comes from
    pub source: String,
    /// the letters guessed right, each once
    pub guesses: Vec<char>,
    /// how many guesses were wrong
    pub wrong: usize,
    /// what the last guess brought
    pub feedback: String,
    /// the help message shown to each player who asked, by user id
    pub questioners: HashMap<u64, MessageId>,
}

/// How many times `c` occurs in `s`.
pub open spec fn occurrences(s: Seq<char>, c: char) -> nat
    decreases s.len(),
{
    if s.len() == 0 {
        0
    } else {
        occurrences(s.drop_last(), c) + if s.last() == c { 1nat } else { 0nat }
    }
}

/// How many characters of `s` are not in `guessed`.
pub open spec fn unguessed(s: Seq<char>, guessed: Set<char>) -> nat
    decreases s.len(),
{
    if s.len() == 0 {
        0
    } else {
        unguessed(s.drop_last(), guessed) + if guessed.contains(s.last()) { 0nat } else { 1nat }
    }
}

/// The word with every letter not yet guessed shown as `_`.
pub open spec fn masked(word: Seq<char>, guessed: Set<char>) -> Seq<char> {
    word.map_values(|c: char| if guessed.contains(c) { c } else { '_' })
}

/// The characters of `s` with a space between neighbours.
pub open spec fn spaced(s: Seq<char>) -> Seq<char>
    decreases s.len(),
{
    if s.len() == 0 {
        Seq::empty()
    } else if s.len() == 1 {
        s
    } else {
        spaced(s.drop_last()) + seq![' ', s.last()]
    }
}

/// Whether a character is an ASCII letter.
pub open spec fn ascii_letter(c: char) -> bool {
    ('a' <= c <= 'z') || ('A' <= c <= 'Z')
}

fn is_ascii_letter(c: char) -> (b: bool)
    ensures
        b == ascii_letter(c),
{
    ('a' <= c && c <= 'z') || ('A' <= c && c <= 'Z')
}

/// The title of the game: the word's length in bytes.
pub open spec fn hangman_title(word: Seq<char>) -> Seq<char> {
    "The hangman is hungry!\n"@ + decimal(utf8_offset(word, word.len() as int)) + " letter word."@
}

/// The picture of the game, as a code block.
pub open spec fn hangman_description(wrong: int) -> Seq<char> {
    "```\n"@ + art(wrong) + "\n```"@
}

/// The footer of the game: the word as guessed so far, then what the last guess brought.
pub open spec fn hangman_footer(word: Seq<char>, guessed: Set<char>, feedback: Seq<char>) -> Seq<char> {
    spaced(masked(word, guessed)) + "\n"@ + feedback
}

/// What a letter guess brought: none of it, or how many.
pub open spec fn letter_feedback(letter: char, count: nat) -> Seq<char> {
    if count == 0 {
        "There are no "@ + seq![letter] + "'s in the word."@
    } else if count == 1 {
        "Correct! There is 1 "@ + seq![letter] + " in the word."@
    } else {
        "Correct! There are "@ + decimal(count) + " "@ + seq![letter] + "'s in the word."@
    }
}

/// What a wrong word guess brought.
pub open spec fn wrong_word_feedback(guess: Seq<char>) -> Seq<char> {
    "Incorrect! \""@ + guess + "\" is not the word!"@
}

/// What a right word guess brought.
pub open spec fn right_word_feedback(guess: Seq<char>) -> Seq<char> {
    "Correct! \""@ + guess + "\" is the word!"@
}

/// The text that ends a game: the word and where it comes from.
pub open spec fn end_text(word: Seq<char>, source: Seq<char>) -> Seq<char> {
    "The word was "@ + word + ".\n"@ + source
}

/// The letter a regional indicator stands for, for 🇦 up to the one before 🇿.
pub open spec fn regional_letter(c: char) -> Option<char> {
    if REGIONAL_A <= (c as u32) < REGIONAL_Z {
        Some(((c as u32) - REGIONAL_A + ('a' as u32)) as char)
    } else {
        None
    }
}

/// The regional indicator of a lower-case letter.
pub open spec fn regional_of(letter: char) -> char {
    ((letter as u32) - ('a' as u32) + REGIONAL_A) as char
}

/// The letter that a reaction's emoji guesses: the regional indicator it starts with.
pub fn letter_of(c: char) -> (l: Option<char>)
    ensures
        l == regional_letter(c),
{
    let v = c as u32;
    if REGIONAL_A <= v && v < REGIONAL_Z {
        let l = v - REGIONAL_A + ('a' as u32);
        assert(0x61 <= l < 0x7a);
        Some(char_of(l))
    } else {
        None
    }
}

fn char_of(v: u32) -> (c: char)
    requires
        0x61 <= v <= 0x7a,
    ensures
        c == v as char,
{
    if v == 0x61 { 'a' } else if v == 0x62 { 'b' } else if v == 0x63 { 'c' } else if v == 0x64 { 'd' }
    else if v == 0x65 { 'e' } else if v == 0x66 { 'f' } else if v == 0x67 { 'g' } else if v == 0x68 { 'h' }
    else if v == 0x69 { 'i' } else if v == 0x6a { 'j' } else if v == 0x6b { 'k' } else if v == 0x6c { 'l' }
    else if v == 0x6d { 'm' } else if v == 0x6e { 'n' } else if v == 0x6f { 'o' } else if v == 0x70 { 'p' }
    else if v == 0x71 { 'q' } else if v == 0x72 { 'r' } else if v == 0x73 { 's' } else if v == 0x74 { 't' }
    else if v == 0x75 { 'u' } else if v == 0x76 { 'v' } else if v == 0x77 { 'w' } else if v == 0x78 { 'x' }
    else if v == 0x79 { 'y' } else { 'z' }
}

/// The regional indicator of a lower-case letter, to react with.
pub fn regional_indicator(letter: char) -> (c: char)
    requires
        'a' <= letter <= 'z',
    ensures
        c == regional_of(letter),
{
    let v = letter as u32 - 'a' as u32 + REGIONAL_A;
    regional_char(v)
}

fn regional_char(v: u32) -> (c: char)
    requires
        REGIONAL_A <= v <= REGIONAL_A + 25,
    ensures
        c == v as char,
{
    if v == 0x1F1E6 { '\u{1F1E6}' } else if v == 0x1F1E7 { '\u{1F1E7}' } else if v == 0x1F1E8 { '\u{1F1E8}' }
    else if v == 0x1F1E9 { '\u{1F1E9}' } else if v == 0x1F1EA { '\u{1F1EA}' } else if v == 0x1F1EB { '\u{1F1EB}' }
    else if v == 0x1F1EC { '\u{1F1EC}' } else if v == 0x1F1ED { '\u{1F1ED}' } else if v == 0x1F1EE { '\u{1F1EE}' }
    else if v == 0x1F1EF { '\u{1F1EF}' } else if v == 0x1F1F0 { '\u{1F1F0}' } else if v == 0x1F1F1 { '\u{1F1F1}' }
    else if v == 0x1F1F2 { '\u{1F1F2}' } else if v == 0x1F1F3 { '\u{1F1F3}' } else if v == 0x1F1F4 { '\u{1F1F4}' }
    else if v == 0x1F1F5 { '\u{1F1F5}' } else if v == 0x1F1F6 { '\u{1F1F6}' } else if v == 0x1F1F7 { '\u{1F1F7}' }
    else if v == 0x1F1F8 { '\u{1F1F8}' } else if v == 0x1F1F9 { '\u{1F1F9}' } else if v == 0x1F1FA { '\u{1F1FA}' }
    else if v == 0x1F1FB { '\u{1F1FB}' } else if v == 0x1F1FC { '\u{1F1FC}' } else if v == 0x1F1FD { '\u{1F1FD}' }
    else if v == 0x1F1FE { '\u{1F1FE}' } else { '\u{1F1FF}' }
}

/// How a game ended after a guess, if it did.
#[derive(Debug, Clone, Copy, PartialEq, Eq, Structural)]
pub struct EndState {
    /// every letter of the word is guessed
    pub win: bool,
    /// the hangman is complete
    pub lose: bool,
}

/// What a word guess brought.
#[derive(Debug, Clone, Copy, PartialEq, Eq, Structural)]
pub struct WordGuess {
    /// the guess is the word
    pub win: bool,
    /// the letter to react with, if the wrong guess gave away the last one missing
    pub react: Option<char>,
}

impl Hangman {
    /// The letters guessed right.
    pub open spec fn guessed(&self) -> Set<char> {
        self.guesses@.to_set()
    }

    /// A new game in `channel` for `word`, before its message is sent.
    pub fn new(channel: ChannelId, word: String, source: String) -> (h: Self)
        ensures
            h.word == word,
            h.source == source,
            h.message == (ChannelMessageId { channel, message: MessageId(0) }),
            h.guesses@.len() == 0,
            h.wrong == 0,
            h.feedback@ == "React with a letter to guess!"@,
            h.questioners@.len() == 0,
            h.token.0@.len() == 0,
    {
        Hangman {
            token: Token(String::new()),
            message: ChannelMessageId { channel, message: MessageId(0) },
            word,
            source,
            guesses: Vec::new(),
            wrong: 0,
            feedback: String::from_str("React with a letter to guess!"),
            questioners: HashMap::new(),
        }
    }

    fn has_guessed(&self, c: char) -> (b: bool)
        ensures
            b == self.guessed().contains(c),
    {
        let mut i: usize = 0;
        while i < self.guesses.len()
            invariant
                i <= self.guesses@.len(),
                forall|j: int| 0 <= j < i ==> self.guesses@[j] != c,
            decreases self.guesses.len() - i,
        {
            if self.guesses[i] == c {
                assert(self.guesses@.contains(c));
                return true;
            }
            i = i + 1;
        }
        assert(!self.guesses@.contains(c));
        false
    }

    /// The word with the letters not yet guessed shown as `_`.
    pub fn masked_word(&self) -> (s: String)
        ensures
            s@ == masked(self.word@, self.guessed()),
    {
        let mut s = String::new();
        let n = self.word.unicode_len();
        let mut i: usize = 0;
        while i < n
            invariant
                i <= n,
                n == self.word@.len(),
                s@ == masked(self.word@.take(i as int), self.guessed()),
            decreases n - i,
        {
            let c = self.word.as_str().get_char(i);
            let shown = if self.has_guessed(c) { c } else { '_' };
            push_char(&mut s, shown);
            assert(s@ =~= masked(self.word@.take(i + 1), self.guessed()));
            i = i + 1;
        }
        assert(self.word@.take(n as int) =~= self.word@);
        s
    }

    /// The word as guessed so far, with a space between the characters.
    pub fn revealed(&self) -> (s: String)
        ensures
            s@ == spaced(masked(self.word@, self.guessed())),
    {
        let m = self.masked_word();
        let n = m.unicode_len();
        let mut s = String::new();
        let mut i: usize = 0;
        while i < n
            invariant
                i <= n,
                n == m@.len(),
                s@ == spaced(m@.take(i as int)),
            decreases n - i,
        {
            if i > 0 {
                push_char(&mut s, ' ');
            }
            push_char(&mut s, m.as_str().get_char(i));
            assert(m@.take(i + 1).drop_last() =~= m@.take(i as int));
            assert(s@ =~= spaced(m@.take(i + 1)));
            i = i + 1;
        }
        assert(m@.take(n as int) =~= m@);
        s
    }

    /// The embed that shows the game; it has a picture for up to five wrong guesses.
    pub fn embed(&self) -> (e: Embed)
        requires
            self.wrong < ART_LEN,
        ensures
            e.title matches Some(t) && t@ == hangman_title(self.word@),
            e.description matches Some(d) && d@ == hangman_description(self.wrong as int),
            e.footer matches Some(f) && f@ == hangman_footer(self.word@, self.guessed(), self.feedback@),
            e.color.is_none(),
            e.fields@.len() == 0,
            e.image.is_none(),
    {
        let mut title = String::from_str("The hangman is hungry!\n");
        let n = u64_to_string(byte_len(self.word.as_str()) as u64);
        title.append(n.as_str());
        title.append(" letter word.");
        let mut description = String::from_str("```\n");
        description.append(ascii_art(self.wrong));
        description.append("\n```");
        let mut footer = self.revealed();
        footer.append("\n");
        footer.append(self.feedback.as_str());
        let mut e = Embed::new();
        e.title = Some(title);
        e.description = Some(description);
        e.footer = Some(footer);
        e
    }

    /// Guesses a letter that has not been guessed right yet. A letter in the word is added to
    /// the guesses; one not in it is a wrong guess (and stays unguessed). Says whether the
    /// game is won (every letter of the word guessed) or lost (five wrong guesses).
    pub fn guess_letter(&mut self, letter: char) -> (end: Option<EndState>)
        requires
            old(self).wrong < usize::MAX,
        ensures
            old(self).guessed().contains(letter) ==> end.is_none() && *final(self) == *old(self),
            !old(self).guessed().contains(letter) ==> {
                let count = occurrences(old(self).word@, letter);
                &&& final(self).word == old(self).word
                &&& final(self).source == old(self).source
                &&& final(self).token == old(self).token
                &&& final(self).message == old(self).message
                &&& final(self).questioners == old(self).questioners
                &&& final(self).feedback@ == letter_feedback(letter, count)
                &&& final(self).wrong == if count == 0 { old(self).wrong + 1 } else { old(self).wrong as int }
                &&& final(self).guessed() == if count == 0 { old(self).guessed() } else { old(self).guessed().insert(letter) }
                &&& end == Some(EndState {
                    win: unguessed(final(self).word@, final(self).guessed()) == 0,
                    lose: final(self).wrong == ART_LEN - 1,
                })
            },
    {
        if self.has_guessed(letter) {
            return None;
        }
        let count = self.count_of(letter);
        if count == 0 {
            self.wrong = self.wrong + 1;
            let mut f = String::from_str("There are no ");
            push_char(&mut f, letter);
            f.append("'s in the word.");
            self.feedback = f;
        } else {
            self.guesses.push(letter);
            proof {
                assert(self.guesses@.to_set() =~= old(self).guesses@.to_set().insert(letter)) by {
                    old(self).guesses@.lemma_push_to_set_commute(letter);
                }
            }
            if count == 1 {
                let mut f = String::from_str("Correct! There is 1 ");
                push_char(&mut f, letter);
                f.append(" in the word.");
                self.feedback = f;
            } else {
                let mut f = String::from_str("Correct! There are ");
                let n = u64_to_string(count as u64);
                f.append(n.as_str());
                f.append(" ");
                push_char(&mut f, letter);
                f.append("'s in the word.");
                self.feedback = f;
            }
        }
        let win = self.unguessed_count() == 0;
        Some(EndState { win, lose: self.wrong == ART_LEN - 1 })
    }

    fn count_of(&self, letter: char) -> (n: usize)
        ensures
            n == occurrences(self.word@, letter),
    {
        let len = self.word.unicode_len();
        let mut n: usize = 0;
        let mut i: usize = 0;
        while i < len
            invariant
                i <= len,
                len == self.word@.len(),
                n == occurrences(self.word@.take(i as int), letter),
                n <= i,
            decreases len - i,
        {
            assert(self.word@.take(i + 1).drop_last() =~= self.word@.take(i as int));
            if self.word.as_str().get_char(i) == letter {
                n = n + 1;
            }
            i = i + 1;
        }
        assert(self.word@.take(len as int) =~= self.word@);
        n
    }

    fn unguessed_count(&self) -> (n: usize)
        ensures
            n == unguessed(self.word@, self.guessed()),
    {
        let len = self.word.unicode_len();
        let mut n: usize = 0;
        let mut i: usize = 0;
        while i < len
            invariant
                i <= len,
                len == self.word@.len(),
                n == unguessed(self.word@.take(i as int), self.guessed()),
                n <= i,
            decreases len - i,
        {
            assert(self.word@.take(i + 1).drop_last() =~= self.word@.take(i as int));
            if !self.has_guessed(self.word.as_str().get_char(i)) {
                n = n + 1;
            }
            i = i + 1;
        }
        assert(self.word@.take(len as int) =~= self.word@);
        n
    }

    /// Notes the help message shown to a player who asked.
    pub fn question_asked(&mut self, user: UserId, message: MessageId)
        ensures
            final(self).questioners@ == old(self).questioners@.insert(user.0, message),
            *final(self) == (Hangman { questioners: final(self).questioners, ..*old(self) }),
    {
        let _ = self.questioners.insert(user.0, message);
    }

    /// Forgets the help message shown to a player who no longer asks, and gives it back to be
    /// deleted.
    pub fn question_withdrawn(&mut self, user: UserId) -> (m: Option<MessageId>)
        ensures
            final(self).questioners@ == old(self).questioners@.remove(user.0),
            m == if old(self).questioners@.contains_key(user.0) { Some(old(self).questioners@[user.0]) } else { None },
            *final(self) == (Hangman { questioners: final(self).questioners, ..*old(self) }),
    {
        self.questioners.remove(&user.0)
    }

    /// Guesses the whole word. The right word wins, and its letters count as guessed. A wrong
    /// one is a wrong guess; if only one letter of the word was still missing and the guess
    /// holds exactly one character that is not in the word, that character is added to the
    /// guesses and reacted with.
    pub fn guess_word(&mut self, guess: &str) -> (r: WordGuess)
        requires
            old(self).wrong < usize::MAX,
        ensures
            r.win == (guess@ == old(self).word@),
            final(self).word == old(self).word,
            final(self).source == old(self).source,
            final(self).token == old(self).token,
            final(self).message == old(self).message,
            final(self).questioners == old(self).questioners,
            r.win ==> {
                &&& final(self).guessed() == old(self).guessed().union(guess@.to_set())
                &&& final(self).wrong == old(self).wrong
                &&& final(self).feedback@ == right_word_feedback(guess@)
                &&& r.react.is_none()
            },
            !r.win ==> {
                let outside = guess@.filter(|c: char| !old(self).word@.contains(c));
                let gives_away = unguessed(old(self).word@, old(self).guessed()) == 1 && outside.len() == 1;
                &&& final(self).guessed() == if gives_away { old(self).guessed().insert(outside[0]) } else { old(self).guessed() }
                &&& r.react == if gives_away { Some(outside[0]) } else { None }
                &&& final(self).wrong == old(self).wrong + 1
                &&& final(self).feedback@ == wrong_word_feedback(guess@)
            },
    {
        let win = str_equal(guess, self.word.as_str());
        if win {
            let n = guess.unicode_len();
            let mut i: usize = 0;
            while i < n
                invariant
                    i <= n,
                    n == guess@.len(),
                    self.word == old(self).word,
                    self.source == old(self).source,
                    self.token == old(self).token,
                    self.message == old(self).message,
                    self.questioners == old(self).questioners,
                    self.wrong == old(self).wrong,
                    self.feedback == old(self).feedback,
                    self.guessed() == old(self).guessed().union(guess@.take(i as int).to_set()),
                decreases n - i,
            {
                let c = guess.get_char(i);
                let ghost g0 = self.guesses@;
                if !self.has_guessed(c) {
                    self.guesses.push(c);
                    proof { g0.lemma_push_to_set_commute(c); }
                } else {
                    assert(g0.to_set().insert(c) =~= g0.to_set());
                }
                proof {
                    let before = old(self).guessed().union(guess@.take(i as int).to_set());
                    assert(guess@.take(i + 1) =~= guess@.take(i as int).push(c));
                    guess@.take(i as int).lemma_push_to_set_commute(c);
                    assert(self.guesses@.to_set() =~= before.insert(c));
                    assert(old(self).guessed().union(guess@.take(i + 1).to_set()) =~= before.insert(c));
                }
                i = i + 1;
            }
            assert(guess@.take(n as int) =~= guess@);
            let mut f = String::from_str("Correct! \"");
            f.append(guess);
            f.append("\" is the word!");
            self.feedback = f;
            WordGuess { win: true, react: None }
        } else {
            let missing = self.unguessed_count();
            let mut react = None;
            if missing == 1 {
                let outside = self.letters_outside(guess);
                if outside.len() == 1 {
                    let letter = outside[0];
                    self.guesses.push(letter);
                    proof {
                        old(self).guesses@.lemma_push_to_set_commute(letter);
                    }
                    react = Some(letter);
                }
            }
            self.wrong = self.wrong + 1;
            let mut f = String::from_str("Incorrect! \"");
            f.append(guess);
            f.append("\" is not the word!");
            self.feedback = f;
            WordGuess { win: false, react }
        }
    }

    fn contains_char(&self, c: char) -> (b: bool)
        ensures
            b == self.word@.contains(c),
    {
        let n = self.word.unicode_len();
        let mut i: usize = 0;
        while i < n
            invariant
                i <= n,
                n == self.word@.len(),
                forall|j: int| 0 <= j < i ==> self.word@[j] != c,
            decreases n - i,
        {
            if self.word.as_str().get_char(i) == c {
                return true;
            }
            i = i + 1;
        }
        false
    }

    fn letters_outside(&self, guess: &str) -> (v: Vec<char>)
        ensures
            v@ == guess@.filter(|c: char| !self.word@.contains(c)),
    {
        let n = guess.unicode_len();
        let mut v: Vec<char> = Vec::new();
        let mut i: usize = 0;
        while i < n
            invariant
                i <= n,
                n == guess@.len(),
                v@ == guess@.take(i as int).filter(|c: char| !self.word@.contains(c)),
            decreases n - i,
        {
            let c = guess.get_char(i);
            assert(guess@.take(i + 1).drop_last() =~= guess@.take(i as int));
            proof { reveal(Seq::filter); }
            if !self.contains_char(c) {
                v.push(c);
            }
            i = i + 1;
        }
        assert(guess@.take(n as int) =~= guess@);
        v
    }

    /// The embed that ends the game, if it is won or lost.
    pub fn end_embed(&self, end: EndState) -> (e: Option<Embed>)
        ensures
            (end.win || end.lose) == e is Some,
            e matches Some(e) ==> {
                &&& e.title matches Some(t) && t@ == if end.win { "You win!"@ } else { "You lose and the hangman gets to eat"@ }
                &&& e.color == Some(if end.win { Color::Gold } else { Color::Red })
                &&& e.description matches Some(d) && d@ == end_text(self.word@, self.source@)
            },
    {
        if !end.win && !end.lose {
            return None;
        }
        let mut e = Embed::new();
        if end.win {
            e.title = Some(String::from_str("You win!"));
            e.color = Some(Color::Gold);
        } else {
            e.title = Some(String::from_str("You lose and the hangman gets to eat"));
            e.color = Some(Color::Red);
        }
        let mut d = String::from_str("The word was ");
        d.append(self.word.as_str());
        d.append(".\n");
        d.append(self.source.as_str());
        e.description = Some(d);
        Some(e)
    }
}

fn str_equal(a: &str, b: &str) -> (e: bool)
    ensures
        e == (a@ == b@),
{
    let la = a.unicode_len();
    let lb = b.unicode_len();
    if la != lb {
        return false;
    }
    let mut i: usize = 0;
    while i < la
        invariant
            i <= la,
            la == a@.len(),
            lb == b@.len(),
            la == lb,
            forall|j: int| 0 <= j < i ==> a@[j] == b@[j],
        decreases la - i,
    {
        if a.get_char(i) != b.get_char(i) {
            return false;
        }
        i = i + 1;
    }
    assert(a@ =~= b@);
    true
}

/// The reaction command of a game: its message, and the interaction that shows it.
#[derive(Debug, Clone)]
pub struct GuessCommand(pub ChannelMessageId, pub Token);

/// Whether an emoji is the unicode one with exactly this text.
pub open spec fn unicode_is(e: Emoji, text: Seq<char>) -> bool {
    e matches Emoji::Unicode { name } && name@ == text
}

/// Whether an emoji is a unicode one that starts with a letter's regional indicator.
pub open spec fn starts_with_letter(e: Emoji) -> bool {
    e matches Emoji::Unicode { name } && name@.len() > 0 && regional_letter(name@[0]) is Some
}

/// Whether a reaction is for a game shown in message `message`: a letter or the question mark
/// on that message, or a question mark taken back anywhere.
pub open spec fn guess_applies(message: MessageId, r: ReactionUpdate) -> bool {
    let letter = r.message_id == message && (starts_with_letter(r.emoji) || unicode_is(r.emoji, seq![QUESTION]));
    let remove_question = r.kind == ReactionType::Remove && unicode_is(r.emoji, seq![QUESTION]);
    letter || remove_question
}

fn is_question(e: &Emoji) -> (b: bool)
    ensures
        b == unicode_is(*e, seq![QUESTION]),
{
    match e {
        Emoji::Unicode { name } => {
            let n = name.as_str().unicode_len();
            if n == 1 && name.as_str().get_char(0) == QUESTION {
                assert(name@ =~= seq![QUESTION]);
                true
            } else {
                false
            }
        },
        Emoji::Custom(_) => false,
    }
}

impl GuessCommand {
    /// Whether a reaction is for this game.
    pub fn applies(&self, reaction: &ReactionUpdate) -> (b: bool)
        ensures
            b == guess_applies(self.0.message, *reaction),
    {
        let starts = match &reaction.emoji {
            Emoji::Unicode { name } => {
                name.as_str().unicode_len() > 0 && letter_of(name.as_str().get_char(0)).is_some()
            },
            Emoji::Custom(_) => false,
        };
        let question = is_question(&reaction.emoji);
        let letter = reaction.message_id.0 == self.0.message.0 && (starts || question);
        let remove_question = reaction.kind == ReactionType::Remove && question;
        letter || remove_question
    }
}

/// The button that opens the word guess, with the word's length in bytes.
#[derive(Debug, Clone, Copy)]
pub struct GuessButton(pub usize);

/// The form in which a player guesses the word.
#[derive(Debug, Clone, Copy)]
pub struct GuessModal;

/// A guess with each character that is not an ASCII letter in bold.
pub open spec fn bolded(s: Seq<char>) -> Seq<char>
    decreases s.len(),
{
    if s.len() == 0 {
        Seq::empty()
    } else {
        bolded(s.drop_last()) + if ascii_letter(s.last()) { seq![s.last()] } else { "**"@ + seq![s.last()] + "**"@ }
    }
}

/// The text with every non-overlapping occurrence of `pat`, from the left, taken out (as
/// `str::replace` with nothing does).
pub open spec fn remove_all(s: Seq<char>, pat: Seq<char>) -> Seq<char>
    decreases s.len(),
{
    if pat.len() == 0 || s.len() < pat.len() {
        s
    } else if s.take(pat.len() as int) == pat {
        remove_all(s.skip(pat.len() as int), pat)
    } else {
        seq![s[0]] + remove_all(s.skip(1), pat)
    }
}

/// What a word guess that is not all letters is answered with: the characters that are no
/// letters in bold, neighbouring ones in one run.
pub open spec fn illegal_text(guess: Seq<char>) -> Seq<char> {
    "Illegal characters highlighted: "@ + remove_all(bolded(guess), "****"@)
}

/// Whether every character of a guess is an ASCII letter.
pub open spec fn all_letters(s: Seq<char>) -> bool {
    forall|i: int| 0 <= i < s.len() ==> ascii_letter(#[trigger] s[i])
}

fn remove_stars(s: &str) -> (r: String)
    ensures
        r@ == remove_all(s@, "****"@),
{
    let n = s.unicode_len();
    let mut r = String::new();
    let mut i: usize = 0;
    proof { reveal_strlit("****"); }
    assert(s@.skip(0) =~= s@);
    assert(r@ + remove_all(s@.skip(0), "****"@) =~= remove_all(s@, "****"@));
    while i < n
        invariant
            i <= n,
            n == s@.len(),
            "****"@ == seq!['*', '*', '*', '*'],
            r@ + remove_all(s@.skip(i as int), "****"@) == remove_all(s@, "****"@),
        decreases n - i,
    {
        let ghost rest = s@.skip(i as int);
        if n - i >= 4 && s.get_char(i) == '*' && s.get_char(i + 1) == '*' && s.get_char(i + 2) == '*'
            && s.get_char(i + 3) == '*' {
            assert(rest.take(4) =~= "****"@);
            assert(rest.skip(4) =~= s@.skip(i + 4));
            i = i + 4;
        } else {
            let c = s.get_char(i);
            assert(rest.len() < 4 || rest.take(4) != "****"@) by {
                if rest.len() >= 4 && rest.take(4) == "****"@ {
                    assert(rest.take(4)[0] == s@[i as int]);
                    assert(rest.take(4)[1] == s@[i + 1]);
                    assert(rest.take(4)[2] == s@[i + 2]);
                    assert(rest.take(4)[3] == s@[i + 3]);
                }
            }
            assert(rest.skip(1) =~= s@.skip(i + 1));
            assert(rest[0] == c);
            push_char(&mut r, c);
            assert(r@ + remove_all(s@.skip(i + 1), "****"@) =~= (r@.drop_last() + seq![c]) + remove_all(s@.skip(i + 1), "****"@));
            i = i + 1;
        }
    }
    assert(s@.skip(n as int) =~= Seq::<char>::empty());
    assert(r@ + Seq::<char>::empty() =~= r@);
    r
}

impl GuessModal {
    /// What a word guess with characters other than ASCII letters is answered with; `None`
    /// for a guess of letters only.
    pub fn illegal_characters(guess: &str) -> (r: Option<String>)
        ensures
            match r {
                Some(t) => !all_letters(guess@) && t@ == illegal_text(guess@),
                None => all_letters(guess@),
            },
    {
        let n = guess.unicode_len();
        let mut bold = String::new();
        let mut ok = true;
        let mut i: usize = 0;
        while i < n
            invariant
                i <= n,
                n == guess@.len(),
                bold@ == bolded(guess@.take(i as int)),
                ok == all_letters(guess@.take(i as int)),
            decreases n - i,
        {
            let c = guess.get_char(i);
            assert(guess@.take(i + 1).drop_last() =~= guess@.take(i as int));
            if is_ascii_letter(c) {
                push_char(&mut bold, c);
            } else {
                ok = false;
                bold.append("**");
                push_char(&mut bold, c);
                bold.append("**");
            }
            proof {
                assert(bold@ =~= bolded(guess@.take(i + 1)));
                assert(all_letters(guess@.take(i + 1)) == (all_letters(guess@.take(i as int)) && ascii_letter(c))) by {
                    if all_letters(guess@.take(i as int)) && ascii_letter(c) {
                        assert forall|j: int| 0 <= j < i + 1 implies ascii_letter(#[trigger] guess@.take(i + 1)[j]) by {
                            if j < i {
                                assert(guess@.take(i + 1)[j] == guess@.take(i as int)[j]);
                            }
                        }
                    }
                    if all_letters(guess@.take(i + 1)) {
                        assert(guess@.take(i + 1)[i as int] == c);
                        assert forall|j: int| 0 <= j < i implies ascii_letter(#[trigger] guess@.take(i as int)[j]) by {
                            assert(guess@.take(i + 1)[j] == guess@.take(i as int)[j]);
                        }
                    }
                }
            }
            i = i + 1;
        }
        assert(guess@.take(n as int) =~= guess@);
        if ok {
            None
        } else {
            let merged = remove_stars(bold.as_str());
            let mut t = String::from_str("Illegal characters highlighted: ");
            t.append(merged.as_str());
            Some(t)
        }
    }
}

/// Where the word of a game comes from.
#[derive(Debug, Clone, Copy, PartialEq, Eq, Structural)]
pub enum Source {
    Wordnik,
    Channel,
    Server,
}

/// Whether a character separates words, as `str::split_ascii_whitespace` has it: space, tab,
/// line feed, form feed or carriage return.
pub open spec fn ascii_space(c: char) -> bool {
    c == ' ' || c == '\t' || c == '\n' || c == '\x0C' || c == '\r'
}

/// The words of a text after the characters `cur` of an unfinished word: the runs of
/// characters that are no ASCII whitespace.
pub open spec fn words_from(s: Seq<char>, cur: Seq<char>) -> Seq<Seq<char>>
    decreases s.len(),
{
    if s.len() == 0 {
        if cur.len() > 0 { seq![cur] } else { Seq::empty() }
    } else if ascii_space(s[0]) {
        (if cur.len() > 0 { seq![cur] } else { Seq::empty() }) + words_from(s.skip(1), Seq::empty())
    } else {
        words_from(s.skip(1), cur.push(s[0]))
    }
}

/// A word a game may pick: letters only, at least five of them.
pub open spec fn pickable(w: Seq<char>) -> bool {
    all_letters(w) && w.len() >= MIN_WORD_LEN
}

/// The words a game may pick from a message, in order.
pub open spec fn candidates(content: Seq<char>) -> Seq<Seq<char>> {
    words_from(content, Seq::empty()).filter(|w: Seq<char>| pickable(w))
}

/// A word in lower case.
pub open spec fn lowercase(w: Seq<char>) -> Seq<char> {
    w.map_values(|c: char| if 'A' <= c <= 'Z' { ((c as u32) + 32) as char } else { c })
}

fn is_ascii_space(c: char) -> (b: bool)
    ensures
        b == ascii_space(c),
{
    c == ' ' || c == '\t' || c == '\n' || c == '\x0C' || c == '\r'
}

/// The words of a message that a game may pick, in order.
pub fn word_candidates(content: &str) -> (v: Vec<String>)
    ensures
        v.deep_view() == candidates(content@),
{
    let n = content.unicode_len();
    let mut words: Vec<String> = Vec::new();
    let mut cur = String::new();
    let mut i: usize = 0;
    assert(content@.skip(0) =~= content@);
    assert(words.deep_view() + words_from(content@.skip(0), cur@) =~= words_from(content@, Seq::empty()));
    while i < n
        invariant
            i <= n,
            n == content@.len(),
            words.deep_view() + words_from(content@.skip(i as int), cur@) == words_from(content@, Seq::empty()),
        decreases n - i,
    {
        let c = content.get_char(i);
        let ghost rest = content@.skip(i as int);
        assert(rest[0] == c);
        assert(rest.skip(1) =~= content@.skip(i + 1));
        if is_ascii_space(c) {
            if cur.unicode_len() > 0 {
                let ghost w = words.deep_view();
                let done = cur;
                words.push(done);
                assert(words.deep_view() =~= w.push(done@));
                assert(words.deep_view() + words_from(content@.skip(i + 1), Seq::empty())
                    =~= w + (seq![done@] + words_from(content@.skip(i + 1), Seq::empty())));
            } else {
                assert(words.deep_view() + words_from(content@.skip(i + 1), Seq::empty())
                    =~= words.deep_view() + (Seq::<Seq<char>>::empty() + words_from(content@.skip(i + 1), Seq::empty())));
            }
            cur = String::new();
        } else {
            push_char(&mut cur, c);
        }
        i = i + 1;
    }
    if cur.unicode_len() > 0 {
        let ghost w = words.deep_view();
        let done = cur;
        words.push(done);
        assert(words.deep_view() =~= w.push(done@));
        assert(w + words_from(content@.skip(n as int), done@) =~= w + seq![done@]);
    } else {
        assert(words.deep_view() + words_from(content@.skip(n as int), cur@) =~= words.deep_view());
    }
    let ghost all = words.deep_view();
    assert(all == words_from(content@, Seq::empty()));
    let mut out: Vec<String> = Vec::new();
    let mut k: usize = 0;
    while k < words.len()
        invariant
            k <= words@.len(),
            all == words.deep_view(),
            out.deep_view() == all.take(k as int).filter(|w: Seq<char>| pickable(w)),
        decreases words.len() - k,
    {
        let w = &words[k];
        assert(all.take(k + 1).drop_last() =~= all.take(k as int));
        assert(all[k as int] == w@);
        proof { reveal(Seq::filter); }
        let len = w.as_str().unicode_len();
        let mut letters = true;
        let mut j: usize = 0;
        while j < len
            invariant
                j <= len,
                len == w@.len(),
                letters == all_letters(w@.take(j as int)),
            decreases len - j,
        {
            let c = w.as_str().get_char(j);
            proof {
                assert(all_letters(w@.take(j + 1)) == (all_letters(w@.take(j as int)) && ascii_letter(c))) by {
                    if all_letters(w@.take(j as int)) && ascii_letter(c) {
                        assert forall|x: int| 0 <= x < j + 1 implies ascii_letter(#[trigger] w@.take(j + 1)[x]) by {
                            if x < j {
                                assert(w@.take(j + 1)[x] == w@.take(j as int)[x]);
                            }
                        }
                    }
                    if all_letters(w@.take(j + 1)) {
                        assert(w@.take(j + 1)[j as int] == c);
                        assert forall|x: int| 0 <= x < j implies ascii_letter(#[trigger] w@.take(j as int)[x]) by {
                            assert(w@.take(j + 1)[x] == w@.take(j as int)[x]);
                        }
                    }
                }
            }
            letters = letters && is_ascii_letter(c);
            j = j + 1;
        }
        assert(w@.take(len as int) =~= w@);
        if letters && len >= MIN_WORD_LEN {
            let ghost o = out.deep_view();
            out.push(w.clone());
            assert(out.deep_view() =~= o.push(w@));
        }
        k = k + 1;
    }
    assert(all.take(words@.len() as int) =~= all);
    out
}

/// A word in lower case.
pub fn to_lowercase(w: &str) -> (l: String)
    ensures
        l@ == lowercase(w@),
{
    let n = w.unicode_len();
    let mut l = String::new();
    let mut i: usize = 0;
    while i < n
        invariant
            i <= n,
            n == w@.len(),
            l@ == lowercase(w@.take(i as int)),
        decreases n - i,
    {
        let c = w.get_char(i);
        let d = if 'A' <= c && c <= 'Z' { lower_char(c) } else { c };
        push_char(&mut l, d);
        assert(l@ =~= lowercase(w@.take(i + 1)));
        i = i + 1;
    }
    assert(w@.take(n as int) =~= w@);
    l
}

fn lower_char(c: char) -> (d: char)
    requires
        'A' <= c <= 'Z',
    ensures
        d == ((c as u32) + 32) as char,
{
    let v = c as u32 + 32;
    char_of(v)
}

/// Picks a word from a message: one of the words a game may pick, at random, in lower case;
/// `None` when there is none.
pub fn pick_word(content: &str) -> (w: Option<String>)
    ensures
        match w {
            Some(w) => exists|i: int| 0 <= i < candidates(content@).len() && w@ == lowercase(#[trigger] candidates(content@)[i]),
            None => candidates(content@).len() == 0,
        },
{
    let mut words = word_candidates(content);
    let ghost before = words.deep_view();
    let ghost pre = words@;
    if words.len() == 0 {
        return None;
    }
    crate::random::shuffle(&mut words);
    let ghost post = words@;
    let chosen = words.swap_remove(0);
    proof {
        broadcast use vstd::seq_lib::group_to_multiset_ensures;
        assert(post.contains(chosen));
        assert(post.to_multiset().count(chosen) > 0);
        assert(pre.contains(chosen));
        let i = choose|i: int| 0 <= i < pre.len() && pre[i] == chosen;
        assert(before[i] == pre[i]@);
        assert(chosen@ == candidates(content@)[i]);
    }
    Some(to_lowercase(chosen.as_str()))
}

/// The link to the message a word was picked from.
pub open spec fn message_link(guild: Option<GuildId>, channel: ChannelId, message: MessageId) -> Seq<char> {
    "https://discord.com/channels/"@ + match guild {
        Some(g) => decimal(g.0 as nat),
        None => "@me"@,
    } + "/"@ + decimal(channel.0 as nat) + "/"@ + decimal(message.0 as nat)
}

/// The link to the message a word was picked from.
pub fn word_source_link(guild: Option<GuildId>, channel: ChannelId, message: MessageId) -> (s: String)
    ensures
        s@ == message_link(guild, channel, message),
{
    let mut s = String::from_str("https://discord.com/channels/");
    match guild {
        Some(g) => {
            let gs = u64_to_string(g.0);
            s.append(gs.as_str());
        },
        None => s.append("@me"),
    }
    s.append("/");
    let cs = u64_to_string(channel.0);
    s.append(cs.as_str());
    s.append("/");
    let ms = u64_to_string(message.0);
    s.append(ms.as_str());
    s
}

/// The page of a word from Wordnik.
pub fn wordnik_source(word: &str) -> (s: String)
    ensures
        s@ == "https://www.wordnik.com/words/"@ + word@,
{
    let mut s = String::from_str("https://www.wordnik.com/words/");
    s.append(word);
    s
}

/// The first of the messages (id and text) that holds a word a game may pick, if any.
pub open spec fn first_with_words(messages: Seq<(MessageId, Seq<char>)>, i: int) -> bool {
    &&& 0 <= i < messages.len()
    &&& candidates(messages[i].1).len() > 0
    &&& forall|j: int| 0 <= j < i ==> candidates(#[trigger] messages[j].1).len() == 0
}

/// Picks the word of a game from the messages of a channel, in the order given: a random
/// pickable word of the first message that has one, in lower case, with the link to that
/// message; or `NoWords` if none has one.
pub fn word_from_messages(messages: &Vec<(MessageId, String)>, channel: ChannelId, guild: Option<GuildId>)
    -> (r: Result<(String, String), HangmanError>)
    ensures
        ({
            let ms = messages@.map_values(|m: (MessageId, String)| (m.0, m.1@));
            match r {
                Ok((word, link)) => exists|i: int| #[trigger] first_with_words(ms, i) && {
                    &&& link@ == message_link(guild, channel, ms[i].0)
                    &&& exists|k: int| 0 <= k < candidates(ms[i].1).len()
                        && word@ == lowercase(#[trigger] candidates(ms[i].1)[k])
                },
                Err(e) => e == HangmanError::NoWords(channel, guild)
                    && forall|j: int| 0 <= j < ms.len() ==> candidates(#[trigger] ms[j].1).len() == 0,
            }
        }),
{
    let ghost ms = messages@.map_values(|m: (MessageId, String)| (m.0, m.1@));
    for i in 0..messages.len()
        invariant
            ms == messages@.map_values(|m: (MessageId, String)| (m.0, m.1@)),
            forall|j: int| 0 <= j < i ==> candidates(#[trigger] ms[j].1).len() == 0,
    {
        let (id, content) = (messages[i].0, &messages[i].1);
        assert(ms[i as int] == (id, content@));
        match pick_word(content.as_str()) {
            Some(word) => {
                let link = word_source_link(guild, channel, id);
                assert(first_with_words(ms, i as int));
                return Ok((word, link));
            },
            None => {},
        }
    }
    Err(HangmanError::NoWords(channel, guild))
}

/// The id of a message made at second `t` since the Unix epoch.
pub open spec fn message_at_second(t: u64) -> u64 {
    snowflake_from_millis((t * 1000) as u64)
}

/// Where a game looks for its word in a channel's history: a moment drawn at random, in whole
/// seconds, from the second the channel was made up to (not including) `now` (seconds since
/// the Unix epoch), as the id of a message made then.
pub fn history_probe(channel: ChannelId, now: u64) -> (m: MessageId)
    requires
        snowflake_millis(channel.0) / 1000 < now,
        now <= 0xffff_ffff_ffff,
    ensures
        exists|t: u64| snowflake_millis(channel.0) / 1000 <= t < now && t * 1000 >= DISCORD_EPOCH
            && m.0 == #[trigger] message_at_second(t),
{
    let created = channel.timestamp_millis() / 1000;
    let t = crate::random::random_in_range(created, now);
    assert(t * 1000 <= u64::MAX) by (nonlinear_arith)
        requires t < now, now <= 0xffff_ffff_ffffu64;
    assert(t * 1000 >= DISCORD_EPOCH) by (nonlinear_arith)
        requires t >= created, created == snowflake_millis(channel.0) / 1000, snowflake_millis(channel.0) >= DISCORD_EPOCH,
            DISCORD_EPOCH == 1_420_070_400_000u64;
    let m = MessageId(snowflake_at_millis(t * 1000));
    assert(m.0 == message_at_second(t));
    m
}

/// Channels whose history a game may read words from: text channels and DMs.
pub open spec fn readable(c: Channel) -> bool {
    spec_channel_type(c) == ChannelType::GuildText || spec_channel_type(c) == ChannelType::Dm
}

/// A channel of the guild, drawn at random among those whose history may give a word.
pub fn history_channel(guild: &Guild) -> (c: Option<ChannelId>)
    ensures
        match c {
            Some(id) => guild.channels@.contains_key(id.0) && readable(guild.channels@[id.0]),
            None => forall|k: u64| #[trigger] guild.channels@.contains_key(k) ==> !readable(guild.channels@[k]),
        },
{
    let ids = guild.channels.ids();
    let mut eligible: Vec<u64> = Vec::new();
    for i in 0..ids.len()
        invariant
            ids@.to_set() == guild.channels@.dom(),
            forall|j: int| 0 <= j < eligible@.len() ==> guild.channels@.contains_key(#[trigger] eligible@[j])
                && readable(guild.channels@[eligible@[j]]),
            forall|j: int| 0 <= j < i ==> readable(guild.channels@[#[trigger] ids@[j]]) ==> eligible@.contains(ids@[j]),
    {
        let k = ids[i];
        assert(ids@.to_set().contains(k));
        let ghost before = eligible@;
        match guild.channels.get(ChannelId(k)) {
            Some(channel) => {
                let t = channel.channel_type();
                if t == ChannelType::GuildText || t == ChannelType::Dm {
                    eligible.push(k);
                    proof {
                        assert(eligible@[eligible@.len() - 1] == k);
                        assert forall|x: u64| before.contains(x) implies eligible@.contains(x) by {
                            let idx = choose|idx: int| 0 <= idx < before.len() && before[idx] == x;
                            assert(eligible@[idx] == x);
                        }
                    }
                }
            },
            None => {},
        }
    }
    if eligible.len() == 0 {
        assert forall|k: u64| #[trigger] guild.channels@.contains_key(k) implies !readable(guild.channels@[k]) by {
            assert(ids@.to_set().contains(k));
            let j = choose|j: int| 0 <= j < ids@.len() && ids@[j] == k;
            if readable(guild.channels@[k]) {
                assert(eligible@.contains(ids@[j]));
            }
        }
        return None;
    }
    let ghost before = eligible@;
    crate::random::shuffle(&mut eligible);
    proof {
        broadcast use vstd::seq_lib::group_to_multiset_ensures;
        assert(eligible@.contains(eligible@[0]));
        assert(eligible@.to_multiset().count(eligible@[0]) > 0);
        assert(before.contains(eligible@[0]));
    }
    Some(ChannelId(eligible[0]))
}

/// Whether a word from Wordnik may be played: letters only.
pub fn playable(word: &str) -> (b: bool)
    ensures
        b == all_letters(word@),
{
    let n = word.unicode_len();
    for i in 0..n
        invariant
            n == word@.len(),
            forall|j: int| 0 <= j < i ==> ascii_letter(#[trigger] word@[j]),
    {
        if !is_ascii_letter(word.get_char(i)) {
            return false;
        }
    }
    true
}

/// The first word from Wordnik that may be played, with the link to its page there.
pub fn pick_wordnik(words: &Vec<String>) -> (r: Option<(String, String)>)
    ensures
        match r {
            Some((w, source)) => exists|i: int| 0 <= i < words@.len() && w@ == (#[trigger] words@[i])@
                && all_letters(w@)
                && (forall|j: int| 0 <= j < i ==> !all_letters((#[trigger] words@[j])@))
                && source@ == "https://www.wordnik.com/words/"@ + w@,
            None => forall|j: int| 0 <= j < words@.len() ==> !all_letters((#[trigger] words@[j])@),
        },
{
    for i in 0..words.len()
        invariant
            forall|j: int| 0 <= j < i ==> !all_letters((#[trigger] words@[j])@),
    {
        if playable(words[i].as_str()) {
            let w = words[i].clone();
            let source = wordnik_source(w.as_str());
            return Some((w, source));
        }
    }
    None
}

/// The address Wordnik is asked for a hundred random words at, with the key to its API.
pub open spec fn wordnik_url_text(key: Seq<char>) -> Seq<char> {
    "https://api.wordnik.com/v4/words.json/randomWords?hasDictionaryDef=true&includePartOfSpeech=noun,adjective,verb,adverb,preposition&minLength="@
        + decimal(MIN_WORD_LEN as nat) + "&limit=100&api_key="@ + key
}

/// The address Wordnik is asked for words at.
pub fn wordnik_url(key: &str) -> (s: String)
    ensures
        s@ == wordnik_url_text(key@),
{
    let mut s = String::from_str("https://api.wordnik.com/v4/words.json/randomWords?hasDictionaryDef=true&includePartOfSpeech=noun,adjective,verb,adverb,preposition&minLength=");
    let n = u64_to_string(MIN_WORD_LEN as u64);
    s.append(n.as_str());
    s.append("&limit=100&api_key=");
    s.append(key);
    s
}

/// A red embed with a title and maybe a description: how the game answers what it cannot do.
pub open spec fn red_notice(e: Embed, title: Seq<char>, description: Option<Seq<char>>) -> bool {
    &&& e.title matches Some(t) && t@ == title
    &&& match description {
        Some(d) => e.description matches Some(x) && x@ == d,
        None => e.description.is_none(),
    }
    &&& e.color == Some(Color::Red)
    &&& e.fields@.len() == 0
}

fn red_embed(title: &str, description: Option<String>) -> (e: Embed)
    ensures
        red_notice(e, title@, match description { Some(d) => Some(d@), None => None }),
{
    let mut e = Embed::new();
    e.title = Some(String::from_str(title));
    e.description = description;
    e.color = Some(Color::Red);
    e
}

/// The answer to starting a game in a channel that already has one.
pub fn already_running() -> (e: Embed)
    ensures
        red_notice(e, "Hangman is already running in this channel"@,
            Some("If the Hangman message has been deleted, press the button to re-start the game"@)),
{
    red_embed("Hangman is already running in this channel",
        Some(String::from_str("If the Hangman message has been deleted, press the button to re-start the game")))
}

/// The answer when no word could be found; `error` says why.
pub fn word_error(error: &str) -> (e: Embed)
    ensures
        red_notice(e, "Error getting word!"@, Some(error@)),
{
    red_embed("Error getting word!", Some(String::from_str(error)))
}

/// The answer when the game could not be started; `error` says why.
pub fn start_error(error: &str) -> (e: Embed)
    ensures
        red_notice(e, "Error starting Hangman!"@, Some(error@)),
{
    red_embed("Error starting Hangman!", Some(String::from_str(error)))
}

/// The answer to a guess in a channel without a game.
pub fn no_game() -> (e: Embed)
    ensures
        red_notice(e, "No Hangman in this channel :("@, None),
{
    red_embed("No Hangman in this channel :(", None)
}

/// The answer to a word guess with characters that are no letters, or `None` if it has none.
pub fn letters_only(guess: &str) -> (e: Option<Embed>)
    ensures
        match e {
            Some(e) => !all_letters(guess@) && red_notice(e, "You can only guess letters"@, Some(illegal_text(guess@))),
            None => all_letters(guess@),
        },
{
    match GuessModal::illegal_characters(guess) {
        Some(text) => Some(red_embed("You can only guess letters", Some(text))),
        None => None,
    }
}

} // verus!
