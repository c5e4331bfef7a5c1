//! Rate limits: which bucket each endpoint counts against, how long to wait before calling it
//! again, and how an answer from Discord is judged. Times are milliseconds of a monotonic
//! clock that the caller reads.

use vstd::prelude::*;

use crate::ids::{ChannelId, GuildId};
use crate::routes::Route;
use crate::text::{parse_u64, parsed_u64};

verus! {

/// The bucket an endpoint counts against: endpoints share a bucket when they differ only in
/// what their path names beyond its major parameter.
#[derive(Debug, Clone, Copy, PartialEq, Eq, Structural)]
pub enum BucketKey {
    GetGateway,
    ApplicationInfo,
    GetChannel(ChannelId),
    TriggerTyping(ChannelId),
    GetPinnedMessages(ChannelId),
    PinMessage(ChannelId),
    UnpinMessage(ChannelId),
    GetMessage(ChannelId),
    PostMessage(ChannelId),
    EditMessage(ChannelId),
    DeleteMessage(ChannelId),
    CreateReaction(ChannelId),
    DeleteOwnReaction(ChannelId),
    DeleteUserReaction(ChannelId),
    GetGlobalCommands,
    CreateGlobalCommand,
    EditGlobalCommand,
    DeleteGlobalCommand,
    GetGuildCommands(GuildId),
    CreateGuildCommand(GuildId),
    EditGuildCommand(GuildId),
    DeleteGuildCommand(GuildId),
    CreateInteractionResponse,
    EditInteractionResponse,
    DeleteInteractionResponse,
    CreateFollowupMessage,
    EditFollowupMessage,
    DeleteFollowupMessage,
    GetUser,
    CreateDm,
}

/// The bucket of an endpoint: the kind of endpoint, with its channel or guild where it has one.
pub open spec fn bucket_of(route: Route) -> BucketKey {
    match route {
        Route::GetGateway => BucketKey::GetGateway,
        Route::ApplicationInfo => BucketKey::ApplicationInfo,
        Route::GetChannel(c) => BucketKey::GetChannel(c),
        Route::TriggerTyping(c) => BucketKey::TriggerTyping(c),
        Route::GetPinnedMessages(c) => BucketKey::GetPinnedMessages(c),
        Route::PinMessage(c, _) => BucketKey::PinMessage(c),
        Route::UnpinMessage(c, _) => BucketKey::UnpinMessage(c),
        Route::GetMessage(c, _) => BucketKey::GetMessage(c),
        Route::PostMessage(c) => BucketKey::PostMessage(c),
        Route::EditMessage(c, _) => BucketKey::EditMessage(c),
        Route::DeleteMessage(c, _) => BucketKey::DeleteMessage(c),
        Route::CreateReaction(c, _, _) => BucketKey::CreateReaction(c),
        Route::DeleteOwnReaction(c, _, _) => BucketKey::DeleteOwnReaction(c),
        Route::DeleteUserReaction(c, _, _, _) => BucketKey::DeleteUserReaction(c),
        Route::GetGlobalCommands(_) => BucketKey::GetGlobalCommands,
        Route::CreateGlobalCommand(_) => BucketKey::CreateGlobalCommand,
        Route::EditGlobalCommand(_, _) => BucketKey::EditGlobalCommand,
        Route::DeleteGlobalCommand(_, _) => BucketKey::DeleteGlobalCommand,
        Route::GetGuildCommands(_, g) => BucketKey::GetGuildCommands(g),
        Route::CreateGuildCommand(_, g) => BucketKey::CreateGuildCommand(g),
        Route::EditGuildCommand(_, g, _) => BucketKey::EditGuildCommand(g),
        Route::DeleteGuildCommand(_, g, _) => BucketKey::DeleteGuildCommand(g),
        Route::CreateInteractionResponse(_, _) => BucketKey::CreateInteractionResponse,
        Route::EditInteractionResponse(_, _) => BucketKey::EditInteractionResponse,
        Route::DeleteInteractionResponse(_, _) => BucketKey::DeleteInteractionResponse,
        Route::CreateFollowupMessage(_, _) => BucketKey::CreateFollowupMessage,
        Route::EditFollowupMessage(_, _, _) => BucketKey::EditFollowupMessage,
        Route::DeleteFollowupMessage(_, _, _) => BucketKey::DeleteFollowupMessage,
        Route::GetUser(_) => BucketKey::GetUser,
        Route::CreateDm => BucketKey::CreateDm,
    }
}

/// The kind of an endpoint, numbered in the order in which `Route` lists them.
pub open spec fn route_kind(r: Route) -> int {
    match r {
        Route::GetGateway => 0,
        Route::ApplicationInfo => 1,
        Route::GetChannel(..) => 2,
        Route::TriggerTyping(..) => 3,
        Route::GetPinnedMessages(..) => 4,
        Route::PinMessage(..) => 5,
        Route::UnpinMessage(..) => 6,
        Route::GetMessage(..) => 7,
        Route::PostMessage(..) => 8,
        Route::EditMessage(..) => 9,
        Route::DeleteMessage(..) => 10,
        Route::CreateReaction(..) => 11,
        Route::DeleteOwnReaction(..) => 12,
        Route::DeleteUserReaction(..) => 13,
        Route::GetGlobalCommands(..) => 14,
        Route::CreateGlobalCommand(..) => 15,
        Route::EditGlobalCommand(..) => 16,
        Route::DeleteGlobalCommand(..) => 17,
        Route::GetGuildCommands(..) => 18,
        Route::CreateGuildCommand(..) => 19,
        Route::EditGuildCommand(..) => 20,
        Route::DeleteGuildCommand(..) => 21,
        Route::CreateInteractionResponse(..) => 22,
        Route::EditInteractionResponse(..) => 23,
        Route::DeleteInteractionResponse(..) => 24,
        Route::CreateFollowupMessage(..) => 25,
        Route::EditFollowupMessage(..) => 26,
        Route::DeleteFollowupMessage(..) => 27,
        Route::GetUser(..) => 28,
        Route::CreateDm => 29,
    }
}

/// The parameter that splits an endpoint's bucket: the channel of a channel's endpoint, the
/// guild of a guild's commands; none for the others.
pub open spec fn major_parameter(r: Route) -> Option<u64> {
    match r {
        Route::GetChannel(c) => Some(c.0),
        Route::TriggerTyping(c) => Some(c.0),
        Route::GetPinnedMessages(c) => Some(c.0),
        Route::PinMessage(c, _) => Some(c.0),
        Route::UnpinMessage(c, _) => Some(c.0),
        Route::GetMessage(c, _) => Some(c.0),
        Route::PostMessage(c) => Some(c.0),
        Route::EditMessage(c, _) => Some(c.0),
        Route::DeleteMessage(c, _) => Some(c.0),
        Route::CreateReaction(c, _, _) => Some(c.0),
        Route::DeleteOwnReaction(c, _, _) => Some(c.0),
        Route::DeleteUserReaction(c, _, _, _) => Some(c.0),
        Route::GetGuildCommands(_, g) => Some(g.0),
        Route::CreateGuildCommand(_, g) => Some(g.0),
        Route::EditGuildCommand(_, g, _) => Some(g.0),
        Route::DeleteGuildCommand(_, g, _) => Some(g.0),
        _ => None,
    }
}

/// Two endpoints share a bucket exactly when they are of one kind and name the same major
/// parameter: message ids, emojis, users, applications, commands and tokens do not count.
pub proof fn lemma_same_bucket(r1: Route, r2: Route)
    ensures
        bucket_of(r1) == bucket_of(r2) <==> (route_kind(r1) == route_kind(r2)
            && major_parameter(r1) == major_parameter(r2)),
{
}

impl BucketKey {
    /// The bucket an endpoint counts against.
    pub fn of(route: &Route) -> (k: BucketKey)
        ensures
            k == bucket_of(*route),
    {
        match route {
            Route::GetGateway => BucketKey::GetGateway,
            Route::ApplicationInfo => BucketKey::ApplicationInfo,
            Route::GetChannel(c) => BucketKey::GetChannel(*c),
            Route::TriggerTyping(c) => BucketKey::TriggerTyping(*c),
            Route::GetPinnedMessages(c) => BucketKey::GetPinnedMessages(*c),
            Route::PinMessage(c, _) => BucketKey::PinMessage(*c),
            Route::UnpinMessage(c, _) => BucketKey::UnpinMessage(*c),
            Route::GetMessage(c, _) => BucketKey::GetMessage(*c),
            Route::PostMessage(c) => BucketKey::PostMessage(*c),
            Route::EditMessage(c, _) => BucketKey::EditMessage(*c),
            Route::DeleteMessage(c, _) => BucketKey::DeleteMessage(*c),
            Route::CreateReaction(c, _, _) => BucketKey::CreateReaction(*c),
            Route::DeleteOwnReaction(c, _, _) => BucketKey::DeleteOwnReaction(*c),
            Route::DeleteUserReaction(c, _, _, _) => BucketKey::DeleteUserReaction(*c),
            Route::GetGlobalCommands(_) => BucketKey::GetGlobalCommands,
            Route::CreateGlobalCommand(_) => BucketKey::CreateGlobalCommand,
            Route::EditGlobalCommand(_, _) => BucketKey::EditGlobalCommand,
            Route::DeleteGlobalCommand(_, _) => BucketKey::DeleteGlobalCommand,
            Route::GetGuildCommands(_, g) => BucketKey::GetGuildCommands(*g),
            Route::CreateGuildCommand(_, g) => BucketKey::CreateGuildCommand(*g),
            Route::EditGuildCommand(_, g, _) => BucketKey::EditGuildCommand(*g),
            Route::DeleteGuildCommand(_, g, _) => BucketKey::DeleteGuildCommand(*g),
            Route::CreateInteractionResponse(_, _) => BucketKey::CreateInteractionResponse,
            Route::EditInteractionResponse(_, _) => BucketKey::EditInteractionResponse,
            Route::DeleteInteractionResponse(_, _) => BucketKey::DeleteInteractionResponse,
            Route::CreateFollowupMessage(_, _) => BucketKey::CreateFollowupMessage,
            Route::EditFollowupMessage(_, _, _) => BucketKey::EditFollowupMessage,
            Route::DeleteFollowupMessage(_, _, _) => BucketKey::DeleteFollowupMessage,
            Route::GetUser(_) => BucketKey::GetUser,
            Route::CreateDm => BucketKey::CreateDm,
        }
    }

    fn same(&self, other: &BucketKey) -> (b: bool)
        ensures
            b == (*self == *other),
    {
        *self == *other
    }
}

/// What Discord last said of a bucket: how many calls are left, and when that number resets.
#[derive(Debug, Clone, Copy, PartialEq, Eq, Structural)]
pub struct RateLimit {
    pub remaining: Option<u32>,
    /// when the bucket resets
    pub reset: Option<u64>,
}

/// How long to wait at `now` before calling an endpoint of a bucket: nothing while calls are
/// left (or none were counted), else until the reset (no time if it has passed or is unknown).
pub open spec fn wait_for(r: RateLimit, now: u64) -> Option<u64> {
    if r.remaining == Some(0u32) {
        Some(match r.reset {
            Some(reset) => if reset >= now { (reset - now) as u64 } else { 0 },
            None => 0,
        })
    } else {
        None
    }
}

impl RateLimit {
    /// How long to wait at `now` before calling an endpoint of this bucket, if at all.
    pub fn limit(&self, now: u64) -> (d: Option<u64>)
        ensures
            d == wait_for(*self, now),
    {
        match self.remaining {
            Some(remaining) if remaining == 0 => {
                Some(match self.reset {
                    Some(reset) => if reset >= now { reset - now } else { 0 },
                    None => 0,
                })
            },
            _ => None,
        }
    }
}

/// A bucket holds calls back only once Discord reported it spent: with calls left, or with
/// nothing counted yet, a call goes at once. A spent bucket waits until its reset and no
/// longer: the wait ends exactly at a reset still ahead, and is nothing at or after it, or when
/// no reset is known. Asking later never means waiting longer.
pub proof fn lemma_wait_law(r: RateLimit, now: u64, later: u64)
    requires
        now <= later,
    ensures
        wait_for(r, now) is Some <==> r.remaining == Some(0u32),
        (r.remaining matches Some(n) && n > 0) ==> wait_for(r, now).is_none(),
        r.remaining.is_none() ==> wait_for(r, now).is_none(),
        wait_for(r, now) matches Some(d) ==> match r.reset {
            Some(t) => (now <= t ==> now + d == t) && (t < now ==> d == 0),
            None => d == 0,
        },
        wait_for(r, now) matches Some(d) ==> (wait_for(r, later) matches Some(e) && e <= d),
{
}


/// What `str::parse::<u32>` reads from a string: what `parse::<u64>` reads, if it fits.
pub open spec fn parsed_u32(s: Seq<char>) -> Option<u32> {
    match parsed_u64(s) {
        Some(n) => if n <= u32::MAX { Some(n as u32) } else { None },
        None => None,
    }
}

/// Reads an unsigned 32-bit decimal number the way `str::parse::<u32>` does.
pub fn parse_u32(s: &str) -> (r: Option<u32>)
    ensures
        r == parsed_u32(s@),
{
    match parse_u64(s) {
        Some(n) => if n <= 0xffff_ffff { Some(n as u32) } else { None },
        None => None,
    }
}

/// The rate limits of the buckets, as Discord last reported them.
#[derive(Debug)]
pub struct RateLimiter {
    buckets: Vec<(BucketKey, RateLimit)>,
}

/// The buckets of a list of entries: a later entry for a bucket counts over an earlier one.
pub open spec fn buckets_map(s: Seq<(BucketKey, RateLimit)>) -> Map<BucketKey, RateLimit>
    decreases s.len(),
{
    if s.len() == 0 {
        Map::empty()
    } else {
        buckets_map(s.drop_last()).insert(s.last().0, s.last().1)
    }
}

proof fn lemma_buckets_update(s: Seq<(BucketKey, RateLimit)>, j: int, v: RateLimit)
    requires
        0 <= j < s.len(),
        forall|i: int| j < i < s.len() ==> (#[trigger] s[i]).0 != s[j].0,
    ensures
        buckets_map(s.update(j, (s[j].0, v))) == buckets_map(s).insert(s[j].0, v),
    decreases s.len(),
{
    let k = s[j].0;
    if j == s.len() - 1 {
        assert(s.update(j, (k, v)).drop_last() =~= s.drop_last());
        assert(buckets_map(s).insert(k, v) =~= buckets_map(s.drop_last()).insert(k, v));
    } else {
        assert(s.update(j, (k, v)).drop_last() =~= s.drop_last().update(j, (k, v)));
        lemma_buckets_update(s.drop_last(), j, v);
        assert(s.last().0 != k);
        assert(buckets_map(s.update(j, (k, v))) =~= buckets_map(s).insert(k, v));
    }
}

proof fn lemma_buckets_absent(s: Seq<(BucketKey, RateLimit)>, k: BucketKey)
    requires
        forall|i: int| 0 <= i < s.len() ==> (#[trigger] s[i]).0 != k,
    ensures
        !buckets_map(s).contains_key(k),
    decreases s.len(),
{
    if s.len() > 0 {
        lemma_buckets_absent(s.drop_last(), k);
    }
}

proof fn lemma_buckets_last(s: Seq<(BucketKey, RateLimit)>, j: int)
    requires
        0 <= j < s.len(),
        forall|i: int| j < i < s.len() ==> (#[trigger] s[i]).0 != s[j].0,
    ensures
        buckets_map(s).contains_key(s[j].0),
        buckets_map(s)[s[j].0] == s[j].1,
    decreases s.len(),
{
    if j < s.len() - 1 {
        assert(s.drop_last()[j] == s[j]);
        lemma_buckets_last(s.drop_last(), j);
    }
}

impl View for RateLimiter {
    type V = Map<BucketKey, RateLimit>;

    closed spec fn view(&self) -> Map<BucketKey, RateLimit> {
        buckets_map(self.buckets@)
    }
}

/// A bucket's limit after Discord reported on it: the number left and the reset time where
/// given, else what was known (nothing, for a new bucket).
pub open spec fn reported(old: Option<RateLimit>, remaining: Option<u32>, reset: Option<u64>) -> RateLimit {
    let before = match old {
        Some(r) => r,
        None => RateLimit { remaining: None, reset: None },
    };
    RateLimit {
        remaining: match remaining { Some(r) => Some(r), None => before.remaining },
        reset: match reset { Some(r) => Some(r), None => before.reset },
    }
}

impl RateLimiter {
    /// No bucket known.
    pub fn new() -> (r: Self)
        ensures
            r@ == Map::<BucketKey, RateLimit>::empty(),
    {
        RateLimiter { buckets: Vec::new() }
    }

    /// Where the entry of a bucket stands, if there is one: the last such entry.
    fn find(&self, key: BucketKey) -> (r: Option<usize>)
        ensures
            match r {
                Some(j) => j < self.buckets@.len() && self.buckets@[j as int].0 == key
                    && forall|i: int| j < i < self.buckets@.len() ==> (#[trigger] self.buckets@[i]).0 != key,
                None => forall|i: int| 0 <= i < self.buckets@.len() ==> (#[trigger] self.buckets@[i]).0 != key,
            },
    {
        let mut i = self.buckets.len();
        while i > 0
            invariant
                i <= self.buckets@.len(),
                forall|k: int| i <= k < self.buckets@.len() ==> (#[trigger] self.buckets@[k]).0 != key,
            decreases i,
        {
            i = i - 1;
            if self.buckets[i].0.same(&key) {
                return Some(i);
            }
        }
        None
    }

    /// How long to wait at `now` before calling an endpoint of bucket `key`, if at all.
    pub fn rate_limit(&self, key: &BucketKey, now: u64) -> (d: Option<u64>)
        ensures
            d == if self@.contains_key(*key) { wait_for(self@[*key], now) } else { None },
    {
        match self.find(*key) {
            Some(j) => {
                proof { lemma_buckets_last(self.buckets@, j as int); }
                self.buckets[j].1.limit(now)
            },
            None => {
                proof { lemma_buckets_absent(self.buckets@, *key); }
                None
            },
        }
    }

    /// Takes what Discord said of bucket `key` in an answer at `now`: the `X-RateLimit-Remaining`
    /// header, and the `X-RateLimit-Reset-After` header in milliseconds. A remaining count
    /// that is no number is refused, as the header always holds one.
    pub fn update(&mut self, key: BucketKey, remaining: Option<&str>, reset_after: Option<u64>, now: u64)
        requires
            remaining matches Some(r) ==> parsed_u32(r@) is Some,
            reset_after matches Some(ms) ==> now + ms <= u64::MAX,
        ensures
            final(self)@ == old(self)@.insert(key, reported(
                if old(self)@.contains_key(key) { Some(old(self)@[key]) } else { None },
                match remaining { Some(r) => parsed_u32(r@), None => None },
                match reset_after { Some(ms) => Some((now + ms) as u64), None => None },
            )),
    {
        let new_remaining = match remaining {
            Some(r) => parse_u32(r),
            None => None,
        };
        let new_reset = match reset_after {
            Some(ms) => Some(now + ms),
            None => None,
        };
        match self.find(key) {
            Some(j) => {
                proof { lemma_buckets_last(self.buckets@, j as int); }
                let before = self.buckets[j].1;
                let after = RateLimit {
                    remaining: match new_remaining { Some(r) => Some(r), None => before.remaining },
                    reset: match new_reset { Some(r) => Some(r), None => before.reset },
                };
                proof { lemma_buckets_update(self.buckets@, j as int, after); }
                self.buckets.set(j, (key, after));
            },
            None => {
                proof { lemma_buckets_absent(self.buckets@, key); }
                let after = RateLimit { remaining: new_remaining, reset: new_reset };
                self.buckets.push((key, after));
                assert(self.buckets@.drop_last() =~= old(self).buckets@);
            },
        }
    }
}

/// How a failed answer is handled.
#[derive(Debug, Clone, Copy, PartialEq, Eq, Structural)]
pub enum Failure {
    /// too many requests: try again later
    Transient,
    /// any other client or server error: give up
    Permanent,
}

/// The status code of too many requests.
pub const TOO_MANY_REQUESTS: u16 = 429;

/// How an answer with this status code is handled: client (4xx) and server (5xx) errors
/// fail, too many requests only for now; any other answer succeeded.
pub open spec fn failure_of(status: u16) -> Option<Failure> {
    if 400 <= status <= 599 {
        if status == TOO_MANY_REQUESTS { Some(Failure::Transient) } else { Some(Failure::Permanent) }
    } else {
        None
    }
}

/// How an answer with this status code is handled.
pub fn response_failure(status: u16) -> (f: Option<Failure>)
    ensures
        f == failure_of(status),
{
    if 400 <= status && status <= 599 {
        if status == TOO_MANY_REQUESTS { Some(Failure::Transient) } else { Some(Failure::Permanent) }
    } else {
        None
    }
}

/// Whether a failed try is worth a warning: all are but being told to slow down when reacting,
/// which happens often.
pub fn warns_on_retry(status: Option<u16>, route: &Route) -> (b: bool)
    ensures
        b == !(status == Some(TOO_MANY_REQUESTS) && route is CreateReaction),
{
    match (status, route) {
        (Some(s), Route::CreateReaction(_, _, _)) => s != TOO_MANY_REQUESTS,
        _ => true,
    }
}

/// Once Discord reports a bucket as spent, with its reset `ms` milliseconds away, a call at that
/// moment waits exactly `ms`, and a call at the reset itself no longer waits.
pub proof fn lemma_spent_bucket_waits(limits: Map<BucketKey, RateLimit>, key: BucketKey, ms: u64, now: u64)
    requires
        now + ms <= u64::MAX,
    ensures
        ({
            let after = limits.insert(key, reported(
                if limits.contains_key(key) { Some(limits[key]) } else { None },
                Some(0u32),
                Some((now + ms) as u64),
            ));
            &&& wait_for(after[key], now) == Some(ms)
            &&& wait_for(after[key], (now + ms) as u64) == Some(0u64)
        }),
{
}

} // verus!
