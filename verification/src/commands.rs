//! The bot's general slash commands, and what each of them computes: the invite link, how
//! long the bot has been up, which pinned messages to unpin.

use vstd::prelude::*;

use crate::coup::cards::StartingCoins;
use crate::guild::{
    ADD_REACTIONS, ATTACH_FILES, MANAGE_MESSAGES, MANAGE_ROLES, READ_MESSAGE_HISTORY, SEND_MESSAGES,
    USE_EXTERNAL_EMOJIS, VIEW_CHANNEL,
};
use crate::hangman::Source;
use crate::ids::{ChannelId, GuildId, MessageId, UserId};
use crate::model::{Color, Embed, EmbedField};
use crate::text::{decimal, i64_to_string, push_char, signed_decimal, u64_to_string, utf8_len};

verus! {

/// `/ping`: pongs, and says how long it took.
#[derive(Debug, Clone, Copy)]
pub struct PingCommand;

/// `/test`: tries things out.
#[derive(Debug, Clone, Copy)]
pub struct TestCommand;

/// `/info`: what the bot is and how to add it to a server.
#[derive(Debug, Clone, Copy)]
pub struct InfoCommand;

/// The permissions the bot asks for when it is invited: to react, see channels, send, manage
/// and pin messages, attach files, read history, use external emoji, and manage roles.
pub open spec fn invite_permissions() -> u64 {
    ADD_REACTIONS | VIEW_CHANNEL | SEND_MESSAGES | MANAGE_MESSAGES | ATTACH_FILES | READ_MESSAGE_HISTORY
        | USE_EXTERNAL_EMOJIS | MANAGE_ROLES
}

/// The link that adds the bot to a server.
pub open spec fn invite_url(bot: UserId) -> Seq<char> {
    "https://discord.com/oauth2/authorize?scope=applications.commands%20bot&client_id="@ + decimal(bot.0 as nat)
        + "&permissions="@ + decimal(invite_permissions() as nat)
}

/// What `/info` says about the bot.
pub open spec fn info_text(bot: UserId) -> Seq<char> {
    "I can run games of Avalon and Hangman for you (maybe more in the future).\n\nTo add me to a server, go to "@
        + invite_url(bot)
        + ".\n\nI'm running on Andrew's Raspberry Pi, so I should be online most of the time :)\n\nTo see my code, click the title up there."@
}

impl InfoCommand {
    /// The permissions the bot asks for when it is invited.
    pub fn permissions() -> (bits: u64)
        ensures
            bits == invite_permissions(),
            bits == 0x1005_ac40,
    {
        let bits = ADD_REACTIONS | VIEW_CHANNEL | SEND_MESSAGES | MANAGE_MESSAGES | ATTACH_FILES
            | READ_MESSAGE_HISTORY | USE_EXTERNAL_EMOJIS | MANAGE_ROLES;
        assert(0x40u64 | 0x400u64 | 0x800u64 | 0x2000u64 | 0x8000u64 | 0x10000u64 | 0x40000u64 | 0x10000000u64
            == 0x1005_ac40u64) by (bit_vector);
        bits
    }

    /// The link that adds the bot, whose user is `bot`, to a server.
    pub fn invite_url(bot: UserId) -> (s: String)
        ensures
            s@ == invite_url(bot),
    {
        let mut s = String::from_str("https://discord.com/oauth2/authorize?scope=applications.commands%20bot&client_id=");
        let id = u64_to_string(bot.0);
        s.append(id.as_str());
        s.append("&permissions=");
        let bits = u64_to_string(InfoCommand::permissions());
        s.append(bits.as_str());
        s
    }

    /// The embed of `/info` (the time it is sent at is added by whoever sends it).
    pub fn embed(bot: UserId) -> (e: Embed)
        ensures
            e.title matches Some(t) && t@ == "Avalon Bot"@,
            e.color == Some(Color::Gold),
            e.url matches Some(u) && u@ == "https://github.com/Andrew-Schwartz/avalon_bot"@,
            e.description matches Some(d) && d@ == info_text(bot),
            e.fields@.len() == 0,
            e.image.is_none(),
            e.footer.is_none(),
    {
        let mut e = Embed::new();
        e.title = Some(String::from_str("Avalon Bot"));
        e.color = Some(Color::Gold);
        e.url = Some(String::from_str("https://github.com/Andrew-Schwartz/avalon_bot"));
        let mut d = String::from_str("I can run games of Avalon and Hangman for you (maybe more in the future).\n\nTo add me to a server, go to ");
        let url = InfoCommand::invite_url(bot);
        d.append(url.as_str());
        d.append(".\n\nI'm running on Andrew's Raspberry Pi, so I should be online most of the time :)\n\nTo see my code, click the title up there.");
        e.description = Some(d);
        e
    }
}

/// What `/start` starts.
#[derive(Debug, Clone, Copy)]
pub enum StartGame {
    Coup { starting_coins: StartingCoins },
    Avalon,
    Hangman { word_source: Source },
}

/// `/start`: starts a game in a guild.
#[derive(Debug, Clone, Copy)]
pub struct StartGameCommand(pub GuildId);

/// `/uptime`: how long the bot has been online.
#[derive(Debug, Clone, Copy)]
pub struct UptimeCommand;

/// Milliseconds in a second, a minute, an hour and a day.
pub const MILLIS_PER_SECOND: i64 = 1000;
pub const MILLIS_PER_MINUTE: i64 = 60_000;
pub const MILLIS_PER_HOUR: i64 = 3_600_000;
pub const MILLIS_PER_DAY: i64 = 86_400_000;

/// Division that rounds toward zero, as integer division in Rust does.
pub open spec fn trunc_div(x: int, d: int) -> int {
    if x >= 0 { x / d } else { -((-x) / d) }
}

/// A count of a unit, with the unit in the singular for one: `1 day, ` or `3 days, `; nothing
/// for none.
pub open spec fn unit_text(n: int, one: Seq<char>, many: Seq<char>) -> Seq<char> {
    if n > 0 {
        if n == 1 { "1 "@ + one + ", "@ } else { signed_decimal(n) + " "@ + many + ", "@ }
    } else {
        Seq::empty()
    }
}

/// A length of time in milliseconds, as `/uptime` says it: the whole days, hours and minutes
/// that there are, then the seconds with the milliseconds after a dot (not padded).
pub open spec fn duration_text(ms: int) -> Seq<char> {
    let days = trunc_div(ms, MILLIS_PER_DAY as int);
    let r1 = if days > 0 { ms - days * MILLIS_PER_DAY } else { ms };
    let hours = trunc_div(r1, MILLIS_PER_HOUR as int);
    let r2 = if hours > 0 { r1 - hours * MILLIS_PER_HOUR } else { r1 };
    let mins = trunc_div(r2, MILLIS_PER_MINUTE as int);
    let r3 = if mins > 0 { r2 - mins * MILLIS_PER_MINUTE } else { r2 };
    let secs = trunc_div(r3, MILLIS_PER_SECOND as int);
    let millis = r3 - secs * MILLIS_PER_SECOND;
    unit_text(days, "day"@, "days"@) + unit_text(hours, "hour"@, "hours"@) + unit_text(mins, "minute"@, "minutes"@)
        + signed_decimal(secs) + "."@ + signed_decimal(millis) + " seconds"@
}

fn split(x: i64, d: i64) -> (qr: (i64, i64))
    requires
        d > 0,
        x > i64::MIN,
    ensures
        qr.0 == trunc_div(x as int, d as int),
        qr.1 == x - qr.0 * d,
{
    let neg = x < 0;
    let p: u64 = if neg { (-x) as u64 } else { x as u64 };
    let du = d as u64;
    let q = p / du;
    let r = p % du;
    proof {
        vstd::arithmetic::div_mod::lemma_fundamental_div_mod(p as int, du as int);
        assert(q <= p) by (nonlinear_arith) requires q == p / du, du > 0;
        assert(q * du <= p) by (nonlinear_arith) requires q == p / du, du > 0;
    }
    if neg {
        assert((x as int) - (-(q as int)) * (d as int) == -(r as int)) by (nonlinear_arith)
            requires p as int == du as int * q as int + r as int, x as int == -(p as int), du as int == d as int;
        (-(q as i64), -(r as i64))
    } else {
        assert((x as int) - (q as int) * (d as int) == r as int) by (nonlinear_arith)
            requires p as int == du as int * q as int + r as int, x as int == p as int, du as int == d as int;
        (q as i64, r as i64)
    }
}

fn push_unit(s: &mut String, n: i64, one: &str, many: &str)
    ensures
        final(s)@ == old(s)@ + unit_text(n as int, one@, many@),
{
    if n > 0 {
        if n == 1 {
            s.append("1 ");
            s.append(one);
            s.append(", ");
        } else {
            let t = i64_to_string(n);
            s.append(t.as_str());
            s.append(" ");
            s.append(many);
            s.append(", ");
        }
    } else {
        assert(s@ =~= s@ + Seq::<char>::empty());
    }
}

impl UptimeCommand {
    /// How long the bot has been up, from a length of time in milliseconds.
    pub fn duration(ms: i64) -> (s: String)
        requires
            ms > i64::MIN,
        ensures
            s@ == duration_text(ms as int),
    {
        let (days, m1) = split(ms, MILLIS_PER_DAY);
        let r1: i64 = if days > 0 { m1 } else { ms };
        let (hours, m2) = split(r1, MILLIS_PER_HOUR);
        let r2: i64 = if hours > 0 { m2 } else { r1 };
        let (mins, m3) = split(r2, MILLIS_PER_MINUTE);
        let r3: i64 = if mins > 0 { m3 } else { r2 };
        let (secs, millis) = split(r3, MILLIS_PER_SECOND);
        let mut s = String::new();
        push_unit(&mut s, days, "day", "days");
        push_unit(&mut s, hours, "hour", "hours");
        push_unit(&mut s, mins, "minute", "minutes");
        let st = i64_to_string(secs);
        s.append(st.as_str());
        s.append(".");
        let mt = i64_to_string(millis);
        s.append(mt.as_str());
        s.append(" seconds");
        s
    }
}

/// `/unpin`: unpins all or some messages of a channel.
#[derive(Debug, Clone, Copy)]
pub struct UnpinCommand;

/// Which pinned messages `/unpin` unpins.
#[derive(Debug, Clone)]
pub enum UnpinData {
    /// all of them
    All,
    /// the most recent `number` (a negative number keeps that many of the most recent)
    Recent { number: i64 },
    /// the oldest `number` (a negative number keeps that many of the oldest)
    Old { number: i64 },
    /// these messages
    Messages(Vec<MessageId>),
    /// all but these messages
    Exclude(Vec<MessageId>),
}

/// Whether `/unpin` can take these arguments for a channel with `pins` pinned messages: a
/// count no larger than the number of pins.
pub open spec fn unpin_fits(data: UnpinData, pins: nat) -> bool {
    match data {
        UnpinData::Recent { number } => number > i64::MIN && (if number >= 0 { number <= pins } else { -number <= pins }),
        UnpinData::Old { number } => number > i64::MIN && (if number >= 0 { number <= pins } else { -number <= pins }),
        _ => true,
    }
}

/// The pinned messages (newest first) that `/unpin` unpins.
pub open spec fn unpinned(pins: Seq<MessageId>, data: UnpinData) -> Seq<MessageId> {
    match data {
        UnpinData::All => pins,
        UnpinData::Recent { number } => if number >= 0 {
            pins.take(number as int)
        } else {
            pins.skip(-number)
        },
        UnpinData::Old { number } => if number >= 0 {
            pins.skip(pins.len() - number)
        } else {
            pins.take(-number)
        },
        UnpinData::Messages(ids) => pins.filter(|m: MessageId| ids@.contains(m)),
        UnpinData::Exclude(ids) => pins.filter(|m: MessageId| !ids@.contains(m)),
    }
}

fn listed(ids: &Vec<MessageId>, m: MessageId) -> (b: bool)
    ensures
        b == ids@.contains(m),
{
    let mut i: usize = 0;
    while i < ids.len()
        invariant
            i <= ids@.len(),
            forall|j: int| 0 <= j < i ==> ids@[j] != m,
        decreases ids.len() - i,
    {
        if ids[i].0 == m.0 {
            assert(ids@[i as int] == m);
            return true;
        }
        i = i + 1;
    }
    false
}

fn keep_listed(pins: &Vec<MessageId>, ids: &Vec<MessageId>, wanted: bool) -> (r: Vec<MessageId>)
    ensures
        r@ == pins@.filter(|m: MessageId| ids@.contains(m) == wanted),
{
    let mut r: Vec<MessageId> = Vec::new();
    for i in 0..pins.len()
        invariant
            r@ == pins@.take(i as int).filter(|m: MessageId| ids@.contains(m) == wanted),
    {
        assert(pins@.take(i + 1).drop_last() =~= pins@.take(i as int));
        proof { reveal(Seq::filter); }
        if listed(ids, pins[i]) == wanted {
            r.push(pins[i]);
        }
    }
    assert(pins@.take(pins@.len() as int) =~= pins@);
    r
}

fn slice(pins: &Vec<MessageId>, from: usize, to: usize) -> (r: Vec<MessageId>)
    requires
        from <= to <= pins@.len(),
    ensures
        r@ == pins@.subrange(from as int, to as int),
{
    let mut r: Vec<MessageId> = Vec::new();
    for i in from..to
        invariant
            to <= pins@.len(),
            r@ == pins@.subrange(from as int, i as int),
    {
        r.push(pins[i]);
        assert(r@ =~= pins@.subrange(from as int, i + 1));
    }
    r
}

impl UnpinCommand {
    /// Whether the arguments fit a channel with `pins` pinned messages.
    pub fn fits(data: &UnpinData, pins: usize) -> (b: bool)
        ensures
            b == unpin_fits(*data, pins as nat),
    {
        match data {
            UnpinData::Recent { number } | UnpinData::Old { number } => {
                let n = *number;
                if n == i64::MIN {
                    false
                } else if n >= 0 {
                    (n as u64) <= (pins as u64)
                } else {
                    ((-n) as u64) <= (pins as u64)
                }
            },
            _ => true,
        }
    }

    /// The pinned messages (newest first) to unpin.
    pub fn select(pins: &Vec<MessageId>, data: &UnpinData) -> (r: Vec<MessageId>)
        requires
            unpin_fits(*data, pins@.len()),
        ensures
            r@ == unpinned(pins@, *data),
    {
        let n = pins.len();
        let r = match data {
            UnpinData::All => slice(pins, 0, n),
            UnpinData::Recent { number } => {
                if *number >= 0 {
                    slice(pins, 0, *number as usize)
                } else {
                    let k = (-*number) as usize;
                    slice(pins, k, n)
                }
            },
            UnpinData::Old { number } => {
                if *number >= 0 {
                    slice(pins, n - *number as usize, n)
                } else {
                    let k = (-*number) as usize;
                    slice(pins, 0, k)
                }
            },
            UnpinData::Messages(ids) => keep_listed(pins, ids, true),
            UnpinData::Exclude(ids) => keep_listed(pins, ids, false),
        };
        proof {
            match data {
                UnpinData::All => { assert(r@ =~= unpinned(pins@, *data)); },
                UnpinData::Recent { number } => { assert(r@ =~= unpinned(pins@, *data)); },
                UnpinData::Old { number } => { assert(r@ =~= unpinned(pins@, *data)); },
                UnpinData::Messages(ids) => {
                    assert((|m: MessageId| ids@.contains(m) == true) =~= (|m: MessageId| ids@.contains(m)));
                    assert(pins@.filter(|m: MessageId| ids@.contains(m) == true)
                        =~= pins@.filter(|m: MessageId| ids@.contains(m)));
                },
                UnpinData::Exclude(ids) => {
                    assert((|m: MessageId| ids@.contains(m) == false) =~= (|m: MessageId| !ids@.contains(m)));
                    assert(pins@.filter(|m: MessageId| ids@.contains(m) == false)
                        =~= pins@.filter(|m: MessageId| !ids@.contains(m)));
                },
            }
        }
        r
    }

    /// What `/unpin` reports, with the time it took as the caller formats it.
    pub fn report(ok: u64, err: u64, elapsed: &str) -> (s: String)
        requires
            ok + err <= u64::MAX,
        ensures
            s@ == if err == 0 {
                "\u{2705} Unpinned "@ + decimal(ok as nat) + " messages in "@ + elapsed@ + " \u{2705}"@
            } else if ok == 0 {
                "\u{274c} Failed to unpin "@ + decimal(err as nat) + " messages in "@ + elapsed@ + " \u{274c}"@
            } else {
                "Unpinned "@ + decimal(ok as nat) + " of "@ + decimal((ok + err) as nat) + " messages in "@ + elapsed@
            },
    {
        if err == 0 {
            let mut s = String::from_str("\u{2705} Unpinned ");
            let n = u64_to_string(ok);
            s.append(n.as_str());
            s.append(" messages in ");
            s.append(elapsed);
            s.append(" \u{2705}");
            s
        } else if ok == 0 {
            let mut s = String::from_str("\u{274c} Failed to unpin ");
            let n = u64_to_string(err);
            s.append(n.as_str());
            s.append(" messages in ");
            s.append(elapsed);
            s.append(" \u{274c}");
            s
        } else {
            let mut s = String::from_str("Unpinned ");
            let n = u64_to_string(ok);
            s.append(n.as_str());
            s.append(" of ");
            let t = u64_to_string(ok + err);
            s.append(t.as_str());
            s.append(" messages in ");
            s.append(elapsed);
            s
        }
    }
}

/// `/ll`: a raw request to Discord, for testing.
#[derive(Debug, Clone, Copy)]
pub struct LowLevelCommand;

/// What `/ll` does.
#[derive(Debug)]
pub enum Data {
    Get(Get),
    Post(Post),
}

/// What `/ll` fetches.
#[derive(Debug)]
pub enum Get {
    User { user: UserId },
    Message { channel: ChannelId, message_id: MessageId, just_content: bool },
    /// the member in a guild, or in this one if not set
    Member { user: UserId, guild: Option<GuildId> },
    /// the roles of a guild, or of this one if not set
    Roles { guild: Option<GuildId> },
    /// a guild, or this one if not set
    Guild { guild: Option<GuildId> },
}

/// What `/ll` sends.
#[derive(Debug)]
pub enum Post {
    Message { channel: ChannelId, message: String },
    /// a message in another server; the channel is not checked by the client
    MessageExternal { channel: String, message: String },
}

/// The most bytes of text a reply of `/ll` holds inside its code block, so that the block fits
/// in the 2000 characters of a message.
pub const REPLY_ROOM: usize = 1991;

/// The text with every backtick escaped, so that it cannot end a code block.
pub open spec fn escape_ticks(s: Seq<char>) -> Seq<char>
    decreases s.len(),
{
    if s.len() == 0 {
        Seq::empty()
    } else {
        escape_ticks(s.drop_last()) + if s.last() == '`' { seq!['\\', '`'] } else { seq![s.last()] }
    }
}

/// How many leading characters of `s` fit in `room` bytes of UTF-8.
pub open spec fn fitting(s: Seq<char>, room: nat) -> nat
    decreases s.len(),
{
    if s.len() == 0 || utf8_len(s[0]) > room {
        0
    } else {
        1 + fitting(s.drop_first(), (room - utf8_len(s[0])) as nat)
    }
}

/// The text cut into pieces from the front, each the longest that fits in `REPLY_ROOM` bytes
/// and ends between two characters.
pub open spec fn pieces(s: Seq<char>) -> Seq<Seq<char>>
    decreases s.len(),
{
    if s.len() == 0 {
        Seq::empty()
    } else {
        let k = fitting(s, REPLY_ROOM as nat);
        let k = if 1 <= k <= s.len() { k as int } else { s.len() as int };
        seq![s.take(k)] + pieces(s.skip(k))
    }
}

/// A piece of the reply as a block of Rust code: the fence and the language take nine bytes,
/// which with `REPLY_ROOM` makes the two thousand of a message.
pub open spec fn rust_block(piece: Seq<char>) -> Seq<char> {
    "```rs\n"@ + piece + "```"@
}

/// The messages that `/ll` replies with: the text, escaped, cut into pieces that each fit in a
/// message as a code block.
pub open spec fn reply_blocks(text: Seq<char>) -> Seq<Seq<char>> {
    pieces(escape_ticks(text)).map_values(|p: Seq<char>| rust_block(p))
}

proof fn lemma_fitting_bounds(s: Seq<char>, room: nat)
    ensures
        fitting(s, room) <= s.len(),
        s.len() > 0 && room >= 4 ==> fitting(s, room) >= 1,
    decreases s.len(),
{
    if s.len() > 0 && utf8_len(s[0]) <= room {
        lemma_fitting_bounds(s.drop_first(), (room - utf8_len(s[0])) as nat);
    }
}

fn char_bytes(c: char) -> (n: usize)
    ensures
        n == utf8_len(c),
{
    let v = c as u32;
    if v < 0x80 { 1 } else if v < 0x800 { 2 } else if v < 0x10000 { 3 } else { 4 }
}

fn escaped_ticks(text: &str) -> (e: String)
    ensures
        e@ == escape_ticks(text@),
{
    let mut e = String::new();
    let n = text.unicode_len();
    for i in 0..n
        invariant
            n == text@.len(),
            e@ == escape_ticks(text@.take(i as int)),
    {
        let c = text.get_char(i);
        assert(text@.take(i + 1).drop_last() =~= text@.take(i as int));
        if c == '`' {
            push_char(&mut e, '\\');
        }
        push_char(&mut e, c);
    }
    assert(text@.take(n as int) =~= text@);
    e
}

impl LowLevelCommand {
    /// The messages `/ll` replies with for `text`, the answer as printed for debugging.
    pub fn reply_messages(text: &str) -> (v: Vec<String>)
        ensures
            v.deep_view() == reply_blocks(text@),
    {
        let e = escaped_ticks(text);
        let ghost t = e@;
        let n = e.unicode_len();
        let mut v: Vec<String> = Vec::new();
        let mut p: usize = 0;
        assert(t.skip(0) =~= t);
        while p < n
            invariant
                n == t.len(),
                t == e@,
                p <= n,
                v.deep_view() + pieces(t.skip(p as int)).map_values(|q: Seq<char>| rust_block(q))
                    == pieces(t).map_values(|q: Seq<char>| rust_block(q)),
            decreases n - p,
        {
            let mut q: usize = p;
            let mut used: usize = 0;
            loop
                invariant
                    n == t.len(),
                    t == e@,
                    p <= q <= n,
                    used <= REPLY_ROOM,
                    fitting(t.skip(p as int), REPLY_ROOM as nat)
                        == (q - p) + fitting(t.skip(q as int), (REPLY_ROOM - used) as nat),
                ensures
                    p <= q <= n,
                    used <= REPLY_ROOM,
                    fitting(t.skip(p as int), REPLY_ROOM as nat)
                        == (q - p) + fitting(t.skip(q as int), (REPLY_ROOM - used) as nat),
                    q == n || utf8_len(t[q as int]) > REPLY_ROOM - used,
                decreases n - q,
            {
                if q == n {
                    break;
                }
                let c = e.as_str().get_char(q);
                let b = char_bytes(c);
                assert(t.skip(q as int)[0] == c);
                if b > REPLY_ROOM - used {
                    break;
                }
                assert(t.skip(q as int).drop_first() =~= t.skip(q + 1));
                used = used + b;
                q = q + 1;
            }
            proof {
                lemma_fitting_bounds(t.skip(p as int), REPLY_ROOM as nat);
                if q < n {
                    assert(t.skip(q as int)[0] == t[q as int]);
                }
                assert(fitting(t.skip(q as int), (REPLY_ROOM - used) as nat) == 0);
            }
            let mut piece = String::new();
            piece.append("```rs\n");
            let ghost head = piece@;
            for i in p..q
                invariant
                    t == e@,
                    q <= t.len(),
                    piece@ == head + t.subrange(p as int, i as int),
            {
                push_char(&mut piece, e.as_str().get_char(i));
                assert(t.subrange(p as int, i + 1) =~= t.subrange(p as int, i as int).push(t[i as int]));
            }
            piece.append("```");
            let ghost rest = t.skip(p as int);
            proof {
                assert(rest.take((q - p) as int) =~= t.subrange(p as int, q as int));
                assert(rest.skip((q - p) as int) =~= t.skip(q as int));
                assert(pieces(rest) == seq![rest.take((q - p) as int)] + pieces(rest.skip((q - p) as int)));
                assert(pieces(rest).map_values(|r: Seq<char>| rust_block(r))
                    =~= seq![rust_block(rest.take((q - p) as int))]
                        + pieces(t.skip(q as int)).map_values(|r: Seq<char>| rust_block(r)));
            }
            let ghost before = v.deep_view();
            v.push(piece);
            assert(v.deep_view() =~= before.push(rust_block(t.subrange(p as int, q as int))));
            p = q;
        }
        assert(pieces(t.skip(n as int)) =~= Seq::<Seq<char>>::empty());
        assert(v.deep_view() =~= reply_blocks(text@));
        v
    }
}

/// How many bytes a text takes in UTF-8.
pub open spec fn utf8_size(s: Seq<char>) -> nat
    decreases s.len(),
{
    if s.len() == 0 { 0 } else { utf8_len(s[0]) + utf8_size(s.drop_first()) }
}

proof fn lemma_size_concat(a: Seq<char>, b: Seq<char>)
    ensures
        utf8_size(a + b) == utf8_size(a) + utf8_size(b),
    decreases a.len(),
{
    if a.len() > 0 {
        assert((a + b).drop_first() =~= a.drop_first() + b);
        lemma_size_concat(a.drop_first(), b);
    } else {
        assert(a + b =~= b);
    }
}

proof fn lemma_fitting_size(s: Seq<char>, room: nat)
    ensures
        utf8_size(s.take(fitting(s, room) as int)) <= room,
    decreases s.len(),
{
    lemma_fitting_bounds(s, room);
    let k = fitting(s, room);
    if k == 0 {
        assert(s.take(0) =~= Seq::<char>::empty());
    } else {
        let rest = (room - utf8_len(s[0])) as nat;
        lemma_fitting_size(s.drop_first(), rest);
        assert(s.take(k as int).drop_first() =~= s.drop_first().take(k - 1));
        assert(s.take(k as int)[0] == s[0]);
    }
}

proof fn lemma_pieces_fit(s: Seq<char>)
    ensures
        forall|i: int| 0 <= i < pieces(s).len() ==> utf8_size(#[trigger] pieces(s)[i]) <= REPLY_ROOM,
    decreases s.len(),
{
    if s.len() > 0 {
        lemma_fitting_bounds(s, REPLY_ROOM as nat);
        let k = fitting(s, REPLY_ROOM as nat);
        lemma_fitting_size(s, REPLY_ROOM as nat);
        lemma_pieces_fit(s.skip(k as int));
        let ps = pieces(s);
        assert(ps == seq![s.take(k as int)] + pieces(s.skip(k as int)));
        assert forall|i: int| 0 <= i < ps.len() implies utf8_size(#[trigger] ps[i]) <= REPLY_ROOM by {
            if i > 0 {
                assert(ps[i] == pieces(s.skip(k as int))[i - 1]);
            }
        }
    }
}

/// Every message that `/ll` replies with fits in the 2000 bytes of a Discord message.
pub proof fn lemma_replies_fit(text: Seq<char>)
    ensures
        forall|i: int| 0 <= i < reply_blocks(text).len() ==> utf8_size(#[trigger] reply_blocks(text)[i]) <= 2000,
{
    let ps = pieces(escape_ticks(text));
    lemma_pieces_fit(escape_ticks(text));
    reveal_strlit("```rs\n");
    reveal_strlit("```");
    let open = "```rs\n"@;
    let close = "```"@;
    assert(utf8_size(open) == 6) by {
        reveal_with_fuel(utf8_size, 7);
    }
    assert(utf8_size(close) == 3) by {
        reveal_with_fuel(utf8_size, 4);
    }
    assert forall|i: int| 0 <= i < reply_blocks(text).len() implies utf8_size(#[trigger] reply_blocks(text)[i]) <= 2000 by {
        let p = ps[i];
        assert(reply_blocks(text)[i] == open + p + close);
        lemma_size_concat(open, p);
        lemma_size_concat(open + p, close);
    }
}

/// What a command answers: a plain message, or an embed.
#[derive(Debug)]
pub enum Reply {
    Text(String),
    Card(Embed),
}

impl UptimeCommand {
    /// What `/uptime` answers, given how long ago (in milliseconds) the bot first logged in and
    /// last resumed, where it has: the time since the first log-in as the title of a gold
    /// embed, with the time since the last resume as a field; or a note that it is not
    /// connected.
    pub fn reply(since_login: Option<i64>, since_resume: Option<i64>) -> (r: Reply)
        requires
            since_login matches Some(ms) ==> ms > i64::MIN,
            since_resume matches Some(ms) ==> ms > i64::MIN,
        ensures
            match since_login {
                None => r matches Reply::Text(t) && t@ == "Not yet connected, somehow :/"@,
                Some(up) => r matches Reply::Card(e) && {
                    &&& e.color == Some(Color::Gold)
                    &&& e.title matches Some(t) && t@ == duration_text(up as int)
                    &&& e.description.is_none()
                    &&& match since_resume {
                        Some(back) => e.fields@.len() == 1
                            && e.fields@[0].name@ == "Time since last reconnect"@
                            && e.fields@[0].value@ == duration_text(back as int)
                            && !e.fields@[0].inline,
                        None => e.fields@.len() == 0,
                    }
                },
            },
    {
        match since_login {
            None => Reply::Text(String::from_str("Not yet connected, somehow :/")),
            Some(up) => {
                let mut e = Embed::new();
                e.color = Some(Color::Gold);
                e.title = Some(UptimeCommand::duration(up));
                if let Some(back) = since_resume {
                    e.fields.push(EmbedField::new(String::from_str("Time since last reconnect"), UptimeCommand::duration(back)));
                }
                Reply::Card(e)
            },
        }
    }
}

impl PingCommand {
    /// The first answer to `/ping`, before the time it took is added to it.
    pub fn pong() -> (e: Embed)
        ensures
            e.title matches Some(t) && t@ == "Pong!"@,
            e.footer.is_none(),
            e.color.is_none(),
            e.description.is_none(),
            e.fields@.len() == 0,
    {
        let mut e = Embed::new();
        e.title = Some(String::from_str("Pong!"));
        e
    }
}

proof fn lemma_pieces_flatten(s: Seq<char>)
    ensures
        pieces(s).flatten() == s,
    decreases s.len(),
{
    if s.len() > 0 {
        lemma_fitting_bounds(s, REPLY_ROOM as nat);
        let k = fitting(s, REPLY_ROOM as nat) as int;
        lemma_pieces_flatten(s.skip(k));
        let ps = pieces(s);
        assert(ps == seq![s.take(k)] + pieces(s.skip(k)));
        assert(ps.first() == s.take(k));
        assert(ps.drop_first() =~= pieces(s.skip(k)));
        assert(s.take(k) + s.skip(k) =~= s);
    } else {
        assert(pieces(s) =~= Seq::<Seq<char>>::empty());
    }
}

/// Nothing of the text is lost or repeated in the replies of `/ll`: the pieces in the code
/// blocks, one after the other, are the text with its backticks escaped.
pub proof fn lemma_replies_keep_text(text: Seq<char>)
    ensures
        pieces(escape_ticks(text)).flatten() == escape_ticks(text),
        reply_blocks(text).len() == pieces(escape_ticks(text)).len(),
        forall|i: int| 0 <= i < reply_blocks(text).len()
            ==> #[trigger] reply_blocks(text)[i] == rust_block(pieces(escape_ticks(text))[i]),
{
    lemma_pieces_flatten(escape_ticks(text));
}

} // verus!
