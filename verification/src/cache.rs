//! Keyed time-to-live cache.
//!
//! A `CacheMap` holds at most one entry per key; every entry remembers the
//! instant (seconds) at which it was stored.  Staleness is a lookup-time
//! predicate: `get` hands a value back only while `now - stored < ttl`, and
//! nothing is ever evicted except by overwrite.  The clock is supplied by
//! the caller as a plain number of seconds, so freshness is a pure function
//! of the arguments.
//!
//! Callers that share one cache across tasks wrap it in their own lock and
//! call `lock_and_get` / `lock_and_update` while holding it; the lock scope
//! stays limited to the map operation itself.

use vstd::prelude::*;

verus! {

/// Keys a cache can be indexed by: the key abstracts to a mathematical
/// value, and equality of keys is decidable and agrees with it.
pub trait CacheKey: Sized {
    /// The mathematical value a key stands for.
    type Abs;

    /// What this key stands for.
    spec fn model(&self) -> Self::Abs;

    /// Decides equality of two keys.
    fn key_eq(&self, other: &Self) -> (r: bool)
        ensures
            r == (self.model() == other.model()),
    ;
}

impl CacheKey for u64 {
    type Abs = u64;

    open spec fn model(&self) -> u64 {
        *self
    }

    fn key_eq(&self, other: &Self) -> (r: bool)
        ensures
            r == (self.model() == other.model()),
    {
        *self == *other
    }
}

impl CacheKey for String {
    type Abs = Seq<char>;

    open spec fn model(&self) -> Seq<char> {
        self@
    }

    fn key_eq(&self, other: &Self) -> (r: bool)
        ensures
            r == (self.model() == other.model()),
    {
        *self == *other
    }
}

/// One cached value together with the instant it was stored.
pub struct CacheItem<T> {
    pub item: T,
    pub time_stamp: u64,
}

/// An entry stored at `stored` is still fresh at `now` for a time-to-live of
/// `ttl` seconds.  A time-to-live of zero is never fresh, and a clock that
/// ran backwards is treated as stale rather than trusted.
pub open spec fn is_fresh(stored: u64, now: u64, ttl: u64) -> bool {
    stored <= now && now - stored < ttl
}

impl<T> CacheItem<T> {
    /// Makes an entry whose clock is at the epoch, so that it reads as stale
    /// for every positive `now`.
    pub fn new(item: T) -> (r: CacheItem<T>)
        ensures
            r.item == item,
            r.time_stamp == 0,
    {
        CacheItem { item, time_stamp: 0 }
    }

    /// True when the entry is no longer fresh at `now` for a time-to-live of
    /// `seconds`.
    pub fn expired(&self, now: u64, seconds: u64) -> (r: bool)
        ensures
            r == !is_fresh(self.time_stamp, now, seconds),
    {
        now < self.time_stamp || now - self.time_stamp >= seconds
    }

    /// The stored value, but only while the entry is fresh.
    pub fn get_fresh(&self, now: u64, seconds: u64) -> (r: Option<&T>)
        ensures
            is_fresh(self.time_stamp, now, seconds) ==> (r matches Some(v) && *v == self.item),
            !is_fresh(self.time_stamp, now, seconds) ==> r is None,
    {
        if self.expired(now, seconds) {
            None
        } else {
            Some(&self.item)
        }
    }
}

/// What a sequence of entries associates with an abstract key: the most
/// recently stored entry, if any.
pub open spec fn entries_lookup<K: CacheKey, C>(
    s: Seq<(K, CacheItem<C>)>,
    a: K::Abs,
) -> Option<CacheItem<C>>
    decreases s.len(),
{
    if s.len() == 0 {
        None
    } else if s.last().0.model() == a {
        Some(s.last().1)
    } else {
        entries_lookup(s.drop_last(), a)
    }
}

/// Filters a looked-up entry by freshness, which is exactly what a cache
/// read returns.
pub open spec fn fresh_lookup<C>(
    entry: Option<CacheItem<C>>,
    now: u64,
    ttl: u64,
) -> Option<CacheItem<C>> {
    match entry {
        Some(it) => if is_fresh(it.time_stamp, now, ttl) {
            Some(it)
        } else {
            None
        },
        None => None,
    }
}

/// No two entries of the list share a key.
pub open spec fn entries_distinct<K: CacheKey, C>(s: Seq<(K, CacheItem<C>)>) -> bool {
    forall|i: int, j: int|
        0 <= i < j < s.len() ==> (#[trigger] s[i]).0.model() != (#[trigger] s[j]).0.model()
}

/// A mapping from keys to cached values with at most one entry per key.
pub struct CacheMap<K, C> {
    entries: Vec<(K, CacheItem<C>)>,
}

impl<K: CacheKey, C> CacheMap<K, C> {
    /// No two entries share a key.
    pub closed spec fn wf(&self) -> bool {
        entries_distinct(self.entries@)
    }

    /// What the cache associates with an abstract key.
    pub closed spec fn spec_lookup(&self, a: K::Abs) -> Option<CacheItem<C>> {
        entries_lookup(self.entries@, a)
    }

    /// Makes an empty cache.
    pub fn new() -> (r: CacheMap<K, C>)
        ensures
            r.wf(),
            forall|a: K::Abs| r.spec_lookup(a) is None,
    {
        CacheMap { entries: Vec::new() }
    }

    /// The stored entry for `key`, but only while it is fresh at `now` for a
    /// time-to-live of `duration` seconds; a missing key and a stale entry
    /// both read as absent.
    pub fn get(&self, key: K, now: u64, duration: u64) -> (r: Option<&CacheItem<C>>)
        requires
            self.wf(),
        ensures
            match fresh_lookup(self.spec_lookup(key.model()), now, duration) {
                Some(it) => r matches Some(e) && *e == it,
                None => r is None,
            },
    {
        let n = self.entries.len();
        let mut i: usize = 0;
        while i < n
            invariant
                0 <= i <= n,
                n == self.entries@.len(),
                entries_distinct(self.entries@),
                forall|idx: int|
                    0 <= idx < i ==> (#[trigger] self.entries@[idx]).0.model() != key.model(),
            decreases n - i,
        {
            if self.entries[i].0.key_eq(&key) {
                proof {
                    lemma_entries_lookup_at(self.entries@, key.model(), i as int);
                }
                let entry = &self.entries[i].1;
                if entry.expired(now, duration) {
                    return None;
                } else {
                    return Some(entry);
                }
            }
            i = i + 1;
        }
        proof {
            lemma_entries_lookup_absent(self.entries@, key.model());
        }
        None
    }

    /// Stores `value` under `key`, overwriting any previous entry for the
    /// same key and leaving every other key untouched.
    pub fn insert(&mut self, key: K, value: CacheItem<C>)
        requires
            old(self).wf(),
        ensures
            final(self).wf(),
            final(self).spec_lookup(key.model()) == Some(value),
            forall|b: K::Abs|
                b != key.model() ==> #[trigger] final(self).spec_lookup(b) == old(
                    self,
                ).spec_lookup(b),
    {
        let n = self.entries.len();
        let mut i: usize = 0;
        while i < n
            invariant
                0 <= i <= n,
                n == self.entries@.len(),
                self.entries@ == old(self).entries@,
                entries_distinct(self.entries@),
                forall|idx: int|
                    0 <= idx < i ==> (#[trigger] self.entries@[idx]).0.model() != key.model(),
            decreases n - i,
        {
            if self.entries[i].0.key_eq(&key) {
                proof {
                    lemma_entries_lookup_remove(self.entries@, key.model(), i as int);
                }
                self.entries.remove(i);
                proof {
                    lemma_entries_lookup_push(self.entries@, (key, value));
                }
                self.entries.push((key, value));
                return ;
            }
            i = i + 1;
        }
        proof {
            lemma_entries_lookup_absent(self.entries@, key.model());
            lemma_entries_lookup_push(self.entries@, (key, value));
        }
        self.entries.push((key, value));
    }
}

/// In a duplicate-free entry list, a key found at some index looks up to
/// that index's entry.
proof fn lemma_entries_lookup_at<K: CacheKey, C>(s: Seq<(K, CacheItem<C>)>, a: K::Abs, i: int)
    requires
        0 <= i < s.len(),
        s[i].0.model() == a,
        entries_distinct(s),
    ensures
        entries_lookup(s, a) == Some(s[i].1),
    decreases s.len(),
{
    if i == s.len() - 1 {
    } else {
        assert(s.last().0.model() != a);
        assert(forall|idx: int| 0 <= idx < s.len() - 1 ==> s.drop_last()[idx] == s[idx]);
        lemma_entries_lookup_at(s.drop_last(), a, i);
    }
}

/// A key under which no entry is stored looks up to nothing.
proof fn lemma_entries_lookup_absent<K: CacheKey, C>(s: Seq<(K, CacheItem<C>)>, a: K::Abs)
    requires
        forall|idx: int| 0 <= idx < s.len() ==> (#[trigger] s[idx]).0.model() != a,
    ensures
        entries_lookup(s, a) is None,
    decreases s.len(),
{
    if s.len() > 0 {
        lemma_entries_lookup_absent(s.drop_last(), a);
    }
}

/// Appending an entry redirects its own key to the new entry, leaves every
/// other key's lookup unchanged, and keeps the keys distinct when the new
/// key was absent.
proof fn lemma_entries_lookup_push<K: CacheKey, C>(s: Seq<(K, CacheItem<C>)>, p: (K, CacheItem<C>))
    ensures
        entries_lookup(s.push(p), p.0.model()) == Some(p.1),
        forall|b: K::Abs|
            b != p.0.model() ==> #[trigger] entries_lookup(s.push(p), b) == entries_lookup(s, b),
        (entries_distinct(s) && (forall|idx: int|
            0 <= idx < s.len() ==> (#[trigger] s[idx]).0.model() != p.0.model()))
            ==> entries_distinct(s.push(p)),
{
    assert(s.push(p).drop_last() =~= s);
    assert(s.push(p).last() == p);
    if entries_distinct(s) && (forall|idx: int|
        0 <= idx < s.len() ==> (#[trigger] s[idx]).0.model() != p.0.model()) {
        assert forall|i: int, j: int| 0 <= i < j < s.push(p).len() implies (#[trigger] s.push(p)[i]).0.model()
            != (#[trigger] s.push(p)[j]).0.model() by {
            if j < s.len() {
                assert(s.push(p)[i] == s[i] && s.push(p)[j] == s[j]);
            } else {
                assert(s.push(p)[i] == s[i] && s.push(p)[j] == p);
            }
        }
    }
}

/// Removing the unique entry for a key erases that key's lookup, leaves
/// every other key's lookup unchanged, and keeps the remaining keys
/// distinct, with the removed key absent from them.
proof fn lemma_entries_lookup_remove<K: CacheKey, C>(s: Seq<(K, CacheItem<C>)>, a: K::Abs, i: int)
    requires
        0 <= i < s.len(),
        s[i].0.model() == a,
        entries_distinct(s),
    ensures
        entries_lookup(s.remove(i), a) is None,
        forall|b: K::Abs|
            b != a ==> #[trigger] entries_lookup(s.remove(i), b) == entries_lookup(s, b),
        entries_distinct(s.remove(i)),
        forall|idx: int|
            0 <= idx < s.remove(i).len() ==> (#[trigger] s.remove(i)[idx]).0.model() != a,
    decreases s.len(),
{
    s.remove_ensures(i);
    assert forall|idx: int|
        0 <= idx < s.remove(i).len() implies (#[trigger] s.remove(i)[idx]).0.model() != a by {
        if idx < i {
            assert(s.remove(i)[idx] == s[idx]);
        } else {
            assert(s.remove(i)[idx] == s[idx + 1]);
        }
    }
    assert forall|p: int, q: int| 0 <= p < q < s.remove(i).len() implies (#[trigger] s.remove(
        i,
    )[p]).0.model() != (#[trigger] s.remove(i)[q]).0.model() by {
        let p0: int = if p < i { p } else { p + 1 };
        let q0: int = if q < i { q } else { q + 1 };
        assert(s.remove(i)[p] == s[p0] && s.remove(i)[q] == s[q0]);
    }
    lemma_entries_lookup_absent(s.remove(i), a);
    if i == s.len() - 1 {
        assert(s.remove(i) =~= s.drop_last());
        assert forall|b: K::Abs| b != a implies #[trigger] entries_lookup(s.remove(i), b)
            == entries_lookup(s, b) by {
            assert(s.last().0.model() == a);
        }
    } else {
        lemma_entries_lookup_remove(s.drop_last(), a, i);
        assert(s.remove(i).drop_last() =~= s.drop_last().remove(i));
        assert(s.remove(i).last() == s.last());
        assert forall|b: K::Abs| b != a implies #[trigger] entries_lookup(s.remove(i), b)
            == entries_lookup(s, b) by {
            if s.last().0.model() != b {
                assert(entries_lookup(s.remove(i), b) == entries_lookup(s.drop_last().remove(i), b));
                assert(entries_lookup(s, b) == entries_lookup(s.drop_last(), b));
            }
        }
    }
}

/// Reads a value from a shared cache; the caller holds whatever lock guards
/// the map for the duration of this one call.
pub fn lock_and_get<'a, K: CacheKey, V>(
    cache: &'a CacheMap<K, V>,
    key: K,
    now: u64,
    time: u64,
) -> (r: Option<&'a V>)
    requires
        cache.wf(),
    ensures
        match fresh_lookup(cache.spec_lookup(key.model()), now, time) {
            Some(it) => r matches Some(v) && *v == it.item,
            None => r is None,
        },
{
    match cache.get(key, now, time) {
        Some(entry) => Some(&entry.item),
        None => None,
    }
}

/// Stores a value in a shared cache with the freshness clock reset to `now`;
/// the caller holds whatever lock guards the map for the duration of this
/// one call.
pub fn lock_and_update<K: CacheKey, V>(cache: &mut CacheMap<K, V>, key: K, value: V, now: u64)
    requires
        old(cache).wf(),
    ensures
        final(cache).wf(),
        final(cache).spec_lookup(key.model()) == Some(
            CacheItem { item: value, time_stamp: now },
        ),
        forall|b: K::Abs|
            b != key.model() ==> #[trigger] final(cache).spec_lookup(b) == old(
                cache,
            ).spec_lookup(b),
{
    cache.insert(key, CacheItem { item: value, time_stamp: now });
}

/// Law: immediately after a value is stored at `now`, a read at the same
/// instant returns it for every positive time-to-live.
pub proof fn lemma_put_then_get_fresh<K: CacheKey, C>(
    m: CacheMap<K, C>,
    k: K,
    v: C,
    now: u64,
    ttl: u64,
)
    requires
        m.spec_lookup(k.model()) == Some(CacheItem { item: v, time_stamp: now }),
        ttl > 0,
    ensures
        fresh_lookup(m.spec_lookup(k.model()), now, ttl) == Some(
            CacheItem { item: v, time_stamp: now },
        ),
{
}

/// Law: once the clock has advanced by at least the time-to-live since a
/// value was stored, a read returns absent.
pub proof fn lemma_put_then_get_stale<K: CacheKey, C>(
    m: CacheMap<K, C>,
    k: K,
    v: C,
    stored: u64,
    later: u64,
    ttl: u64,
)
    requires
        m.spec_lookup(k.model()) == Some(CacheItem { item: v, time_stamp: stored }),
        later >= stored + ttl,
    ensures
        fresh_lookup(m.spec_lookup(k.model()), later, ttl) == None::<CacheItem<C>>,
{
}

/// Law: with a time-to-live of zero every read is a miss, whatever is
/// stored.
pub proof fn lemma_zero_ttl_always_misses<C>(entry: Option<CacheItem<C>>, now: u64)
    ensures
        fresh_lookup(entry, now, 0) == None::<CacheItem<C>>,
{
}

} // verus!
