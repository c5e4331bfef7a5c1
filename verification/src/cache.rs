//! The cache of Discord objects: maps from snowflake to object.

use vstd::prelude::*;
use std::collections::HashMap;
use std::collections::hash_map::Values;

use vstd::std_specs::iter::IteratorSpec;

use crate::channel::{CategoryChannel, ChannelType, DmChannel, NewsChannel, StoreChannel, TextChannel};
use crate::guild::{Guild, UnavailableGuild};
use crate::ids::{ChannelId, Id, IsId, MessageId};
use crate::message::Message;
use crate::model::{GuildMember, User};

verus! {

broadcast use vstd::std_specs::hash::group_hash_axioms;

/// Looks a key up for change (`HashMap::get_mut`). Claimed: the result is the value stored
/// under the key, if there is one, and whatever the caller leaves in it is what the map then
/// holds under that key; without the key the map is unchanged.
#[verifier::external_body]
pub(crate) fn map_get_mut<'a, V>(m: &'a mut HashMap<u64, V>, k: u64) -> (r: Option<&'a mut V>)
    ensures
        match r {
            Some(v) => old(m)@.contains_key(k) && *v == old(m)@[k]
                && final(m)@ == old(m)@.insert(k, *final(v)),
            None => !old(m)@.contains_key(k) && final(m)@ == old(m)@,
        },
{
    m.get_mut(&k)
}

/// Objects by their snowflake.
#[derive(Debug)]
pub struct IdMap<T: Id> {
    map: HashMap<u64, T>,
}

/// Every object is stored under its own id.
pub open spec fn keyed_by_id<T: Id>(m: Map<u64, T>) -> bool {
    forall|k: u64| #[trigger] m.contains_key(k) ==> m[k].spec_id().snowflake() == k
}

/// The map after inserting each object of `s` in turn, under its id.
pub open spec fn insert_all<T: Id>(m: Map<u64, T>, s: Seq<T>) -> Map<u64, T>
    decreases s.len(),
{
    if s.len() == 0 {
        m
    } else {
        insert_all(m, s.drop_last()).insert(s.last().spec_id().snowflake(), s.last())
    }
}

impl<T: Id> View for IdMap<T> {
    type V = Map<u64, T>;

    closed spec fn view(&self) -> Map<u64, T> {
        self.map@
    }
}

impl<T: Id> IdMap<T> {
    /// An empty map.
    pub fn new() -> (m: Self)
        ensures
            m@ == Map::<u64, T>::empty(),
    {
        IdMap { map: HashMap::new() }
    }

    /// The object with this id.
    pub fn get(&self, id: T::Id) -> (r: Option<&T>)
        ensures
            match r {
                Some(v) => self@.contains_key(id.snowflake()) && *v == self@[id.snowflake()],
                None => !self@.contains_key(id.snowflake()),
            },
    {
        let k = id.value();
        self.map.get(&k)
    }

    /// Stores the object under its id, replacing what was stored there.
    pub fn insert(&mut self, new: T)
        ensures
            final(self)@ == old(self)@.insert(new.spec_id().snowflake(), new),
            keyed_by_id(old(self)@) ==> keyed_by_id(final(self)@),
    {
        let k = new.id().value();
        let _ = self.map.insert(k, new);
    }

    /// Stores each object under its id, in order.
    pub fn extend(&mut self, new: Vec<T>)
        ensures
            final(self)@ == insert_all(old(self)@, new@),
            keyed_by_id(old(self)@) ==> keyed_by_id(final(self)@),
    {
        let mut rest = new;
        let ghost all = rest@;
        let mut taken: Vec<T> = Vec::new();
        let ghost start = self@;
        let n = rest.len();
        let mut k: usize = 0;
        while k < n
            invariant
                n == all.len(),
                k <= n,
                rest@ == all.skip(k as int),
                self@ == insert_all(start, all.take(k as int)),
                keyed_by_id(start) ==> keyed_by_id(self@),
            decreases n - k,
        {
            let t = rest.remove(0);
            assert(all.skip(k as int)[0] == all[k as int]);
            assert(all.take(k + 1).drop_last() =~= all.take(k as int));
            self.insert(t);
            assert(rest@ =~= all.skip(k + 1));
            k = k + 1;
        }
        assert(all.take(n as int) =~= all);
    }

    /// The object with this id, to change.
    pub fn get_mut(&mut self, id: T::Id) -> (r: Option<&mut T>)
        ensures
            match r {
                Some(v) => old(self)@.contains_key(id.snowflake()) && *v == old(self)@[id.snowflake()]
                    && final(self)@ == old(self)@.insert(id.snowflake(), *final(v)),
                None => !old(self)@.contains_key(id.snowflake()) && final(self)@ == old(self)@,
            },
    {
        let k = id.value();
        map_get_mut(&mut self.map, k)
    }

    /// Forgets the object with this id.
    pub fn remove(&mut self, id: T::Id)
        ensures
            final(self)@ == old(self)@.remove(id.snowflake()),
            keyed_by_id(old(self)@) ==> keyed_by_id(final(self)@),
    {
        let k = id.value();
        let _ = self.map.remove(&k);
    }

    /// Only finitely many objects are ever stored.
    pub proof fn lemma_finite(&self)
        ensures
            self@.dom().finite(),
    {
        vstd::std_specs::hash::axiom_hashmap_view_finite_dom(self.map);
    }

    /// How many objects are stored.
    pub fn len(&self) -> (n: usize)
        ensures
            n == self@.len(),
            self@.dom().finite(),
    {
        proof { self.lemma_finite(); }
        self.map.len()
    }

    /// Whether nothing is stored.
    pub fn is_empty(&self) -> (b: bool)
        ensures
            b == (self@.len() == 0),
    {
        self.map.is_empty()
    }

    /// The ids of the stored objects, each once, in no particular order.
    pub fn ids(&self) -> (v: Vec<u64>)
        ensures
            v@.to_set() == self@.dom(),
            v@.no_duplicates(),
            v@.len() == self@.dom().len(),
    {
        let mut v: Vec<u64> = Vec::new();
        let keys = self.map.keys();
        proof { vstd::std_specs::hash::axiom_spec_keys_iter(&self.map); }
        let ghost all = keys.remaining();
        for k in it: keys
            invariant
                all == it.seq(),
                all.unref().to_set() == self@.dom(),
                all.no_duplicates(),
                all.len() == self@.dom().len(),
                v@ == all.unref().take(it.index()),
        {
            v.push(*k);
            assert(v@ =~= all.unref().take(it.index() + 1));
        }
        assert(all.unref().take(all.len() as int) =~= all.unref());
        proof {
            assert forall|i: int, j: int| 0 <= i < j < v@.len() implies v@[i] != v@[j] by {
                assert(all[i] != all[j]);
            }
        }
        v
    }

    /// Gives up the stored objects, in no particular order, with the ids they were stored
    /// under.
    pub(crate) fn into_values(self) -> (r: (Vec<T>, Ghost<Seq<u64>>))
        ensures
            r.1@.no_duplicates(),
            r.1@.to_set() == self@.dom(),
            r.0@.len() == r.1@.len(),
            forall|i: int| 0 <= i < r.1@.len() ==> #[trigger] r.0@[i] == self@[r.1@[i]],
    {
        let ids = self.ids();
        let mut map = self.map;
        let ghost all = map@;
        let mut out: Vec<T> = Vec::new();
        for k in 0..ids.len()
            invariant
                ids@.no_duplicates(),
                ids@.to_set() == all.dom(),
                out@.len() == k,
                forall|i: int| 0 <= i < k ==> #[trigger] out@[i] == all[ids@[i]],
                forall|i: int| k <= i < ids@.len() ==> map@.contains_key(#[trigger] ids@[i]) && map@[ids@[i]] == all[ids@[i]],
        {
            let key = ids[k];
            assert(ids@.to_set().contains(key));
            let v = map.remove(&key);
            match v {
                Some(v) => {
                    out.push(v);
                },
                None => {
                    proof { assert(false); }
                },
            }
            assert forall|i: int| k + 1 <= i < ids@.len() implies map@.contains_key(#[trigger] ids@[i]) && map@[ids@[i]] == all[ids@[i]] by {
                assert(ids@[i] != ids@[k as int]);
            }
        }
        (out, Ghost(ids@))
    }

    /// Stores each object of `other` under its id. Where `other` keeps each object under its
    /// own id, as a map filled through `insert` does, the result is this map with `other`'s
    /// objects put over it.
    pub fn merge(&mut self, other: IdMap<T>)
        ensures
            keyed_by_id(other@) ==> final(self)@ == old(self)@.union_prefer_right(other@),
            keyed_by_id(old(self)@) ==> keyed_by_id(final(self)@),
    {
        let ghost n = other@;
        let (values, keys) = other.into_values();
        let ghost vs = values@;
        self.extend(values);
        proof {
            if keyed_by_id(n) {
                lemma_insert_all_union(old(self)@, n, vs, keys@);
            }
        }
    }

    /// The stored objects, in no particular order.
    pub fn iter(&self) -> (it: Values<'_, u64, T>)
        ensures
            it.remaining().unref().to_set() == self@.values(),
            it.remaining().len() == self@.dom().len(),
    {
        let it = self.map.values();
        proof { vstd::std_specs::hash::axiom_spec_values_iter(&self.map); }
        it
    }
}

/// Going through the objects of a map that keeps each object under its own id (as maps filled
/// through `insert`, `extend` and `merge` do) meets each stored object exactly once, as many as
/// are stored, and each one is what the map holds under that object's id.
pub proof fn lemma_iter_keyed<T: Id>(m: Map<u64, T>, s: Seq<T>)
    requires
        keyed_by_id(m),
        m.dom().finite(),
        s.to_set() == m.values(),
        s.len() == m.dom().len(),
    ensures
        s.no_duplicates(),
        forall|i: int| 0 <= i < s.len() ==> m.contains_key((#[trigger] s[i]).spec_id().snowflake())
            && m[s[i].spec_id().snowflake()] == s[i],
        forall|k: u64| #[trigger] m.contains_key(k) ==> s.contains(m[k]),
{
    assert(m.is_injective()) by {
        assert forall|x: u64, y: u64| x != y && m.dom().contains(x) && m.dom().contains(y)
            implies #[trigger] m[x] != #[trigger] m[y] by {
            assert(m[x].spec_id().snowflake() == x);
            assert(m[y].spec_id().snowflake() == y);
        }
    }
    m.lemma_injective_values_len();
    s.lemma_no_dup_set_cardinality();
    assert forall|i: int| 0 <= i < s.len() implies m.contains_key((#[trigger] s[i]).spec_id().snowflake())
        && m[s[i].spec_id().snowflake()] == s[i] by {
        assert(s.to_set().contains(s[i]));
        assert(m.values().contains(s[i]));
        let k = choose|k: u64| #[trigger] m.dom().contains(k) && m[k] == s[i];
        assert(m[k].spec_id().snowflake() == k);
    }
    assert forall|k: u64| #[trigger] m.contains_key(k) implies s.contains(m[k]) by {
        assert(m.values().contains(m[k]));
        assert(s.to_set().contains(m[k]));
    }
}

/// Storing, in turn, objects that were each stored under their own id in map `n` (each
/// object once) gives `m` with `n`'s objects put over it, whatever the order.
pub proof fn lemma_insert_all_union<T: Id>(m: Map<u64, T>, n: Map<u64, T>, vs: Seq<T>, ks: Seq<u64>)
    requires
        keyed_by_id(n),
        ks.no_duplicates(),
        ks.to_set() == n.dom(),
        vs.len() == ks.len(),
        forall|i: int| 0 <= i < ks.len() ==> #[trigger] vs[i] == n[ks[i]],
    ensures
        insert_all(m, vs) == m.union_prefer_right(n),
{
    lemma_insert_all_prefix(m, n, vs, ks, vs.len() as int);
    assert(vs.take(vs.len() as int) =~= vs);
    assert(ks.take(ks.len() as int) =~= ks);
    assert(n.restrict(ks.to_set()) =~= n);
}

proof fn lemma_insert_all_prefix<T: Id>(m: Map<u64, T>, n: Map<u64, T>, vs: Seq<T>, ks: Seq<u64>, j: int)
    requires
        keyed_by_id(n),
        ks.no_duplicates(),
        ks.to_set() == n.dom(),
        vs.len() == ks.len(),
        forall|i: int| 0 <= i < ks.len() ==> #[trigger] vs[i] == n[ks[i]],
        0 <= j <= vs.len(),
    ensures
        insert_all(m, vs.take(j)) == m.union_prefer_right(n.restrict(ks.take(j).to_set())),
    decreases j,
{
    if j == 0 {
        assert(vs.take(0) =~= Seq::<T>::empty());
        assert(n.restrict(ks.take(0).to_set()) =~= Map::<u64, T>::empty());
        assert(m.union_prefer_right(Map::<u64, T>::empty()) =~= m);
    } else {
        lemma_insert_all_prefix(m, n, vs, ks, j - 1);
        assert(vs.take(j).drop_last() =~= vs.take(j - 1));
        let k = ks[j - 1];
        assert(ks.to_set().contains(k));
        assert(vs[j - 1].spec_id().snowflake() == k);
        assert(ks.take(j).to_set() =~= ks.take(j - 1).to_set().insert(k)) by {
            assert(ks.take(j) =~= ks.take(j - 1).push(k));
            ks.take(j - 1).lemma_push_to_set_commute(k);
        }
        assert(m.union_prefer_right(n.restrict(ks.take(j).to_set()))
            =~= m.union_prefer_right(n.restrict(ks.take(j - 1).to_set())).insert(k, n[k]));
    }
}

/// What the bot knows of Discord, kept up to date from the gateway's events.
#[derive(Debug)]
pub struct Cache {
    /// the bot's own user, once `Ready` has come
    pub user: Option<User>,
    pub unavailable_guilds: IdMap<UnavailableGuild>,
    pub guilds: IdMap<Guild>,
    /// by user id, then by guild id
    pub members: HashMap<u64, HashMap<u64, GuildMember>>,
    /// the kind of each channel, by id
    pub channel_types: HashMap<u64, ChannelType>,
    pub channels: IdMap<TextChannel>,
    /// the DM channel with each user (by user id), and the DM channels by id
    pub dms: (HashMap<u64, ChannelId>, IdMap<DmChannel>),
    pub categories: IdMap<CategoryChannel>,
    pub news: IdMap<NewsChannel>,
    pub stores: IdMap<StoreChannel>,
    pub messages: IdMap<Message>,
}

/// The parts of the cache that an event changes.
#[derive(Debug, Clone, Copy, PartialEq, Eq, Structural)]
pub enum CachePart {
    User,
    UnavailableGuilds,
    Guilds,
    Members,
    ChannelTypes,
    Channels,
    Dms,
    Categories,
    News,
    Stores,
    Messages,
}

/// Cache `b` is cache `a` but for the parts named, which may differ.
pub open spec fn cache_same_but(a: Cache, b: Cache, parts: Set<CachePart>) -> bool {
    &&& !parts.contains(CachePart::User) ==> b.user == a.user
    &&& !parts.contains(CachePart::UnavailableGuilds) ==> b.unavailable_guilds@ == a.unavailable_guilds@
    &&& !parts.contains(CachePart::Guilds) ==> b.guilds@ == a.guilds@
    &&& !parts.contains(CachePart::Members) ==> b.members@ == a.members@
    &&& !parts.contains(CachePart::ChannelTypes) ==> b.channel_types@ == a.channel_types@
    &&& !parts.contains(CachePart::Channels) ==> b.channels@ == a.channels@
    &&& !parts.contains(CachePart::Dms) ==> b.dms.0@ == a.dms.0@ && b.dms.1@ == a.dms.1@
    &&& !parts.contains(CachePart::Categories) ==> b.categories@ == a.categories@
    &&& !parts.contains(CachePart::News) ==> b.news@ == a.news@
    &&& !parts.contains(CachePart::Stores) ==> b.stores@ == a.stores@
    &&& !parts.contains(CachePart::Messages) ==> b.messages@ == a.messages@
}

impl Cache {
    /// A cache that knows nothing yet.
    pub fn new() -> (c: Self)
        ensures
            c.user.is_none(),
            c.unavailable_guilds@.is_empty(),
            c.guilds@.is_empty(),
            c.members@.is_empty(),
            c.channel_types@.is_empty(),
            c.channels@.is_empty(),
            c.dms.0@.is_empty(),
            c.dms.1@.is_empty(),
            c.categories@.is_empty(),
            c.news@.is_empty(),
            c.stores@.is_empty(),
            c.messages@.is_empty(),
    {
        Cache {
            user: None,
            unavailable_guilds: IdMap::new(),
            guilds: IdMap::new(),
            members: HashMap::new(),
            channel_types: HashMap::new(),
            channels: IdMap::new(),
            dms: (HashMap::new(), IdMap::new()),
            categories: IdMap::new(),
            news: IdMap::new(),
            stores: IdMap::new(),
            messages: IdMap::new(),
        }
    }

    /// The bot's own user; it is known once `Ready` has come.
    pub fn user(&self) -> (u: &User)
        requires
            self.user is Some,
        ensures
            *u == self.user.unwrap(),
    {
        self.user.as_ref().unwrap()
    }

    /// The text channel with this id, if known.
    pub fn channel(&self, id: ChannelId) -> (c: Option<&TextChannel>)
        ensures
            match c {
                Some(c) => self.channels@.contains_key(id.0) && *c == self.channels@[id.0],
                None => !self.channels@.contains_key(id.0),
            },
    {
        self.channels.get(id)
    }

    /// The message with this id, if known.
    pub fn message(&self, id: MessageId) -> (m: Option<&Message>)
        ensures
            match m {
                Some(m) => self.messages@.contains_key(id.0) && *m == self.messages@[id.0],
                None => !self.messages@.contains_key(id.0),
            },
    {
        self.messages.get(id)
    }
}

} // verus!
