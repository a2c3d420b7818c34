//! A fixed-capacity cache that evicts the least recently used entry.
//!
//! The cache is modelled as a sequence of `(key view, value)` pairs ordered
//! from least recently used (index 0) to most recently used (last index).
use vstd::laws_eq::obeys_view_eq;
use vstd::prelude::*;

verus! {

/// The keys of `s` are pairwise distinct.
pub open spec fn keys_distinct<KV, V>(s: Seq<(KV, V)>) -> bool {
    forall|i: int, j: int|
        0 <= i < s.len() && 0 <= j < s.len() && i != j ==> #[trigger] s[i].0 != #[trigger] s[j].0
}

/// Some entry of `s` has key `k`.
pub open spec fn holds_key<KV, V>(s: Seq<(KV, V)>, k: KV) -> bool {
    exists|i: int| 0 <= i < s.len() && #[trigger] s[i].0 == k
}

/// The position of the entry with key `k` in `s` (meaningful when `holds_key(s, k)`).
pub open spec fn key_index<KV, V>(s: Seq<(KV, V)>, k: KV) -> int {
    choose|i: int| 0 <= i < s.len() && #[trigger] s[i].0 == k
}

/// The value stored under `k`, if any.
pub open spec fn value_of<KV, V>(s: Seq<(KV, V)>, k: KV) -> Option<V> {
    if holds_key(s, k) {
        Some(s[key_index(s, k)].1)
    } else {
        None
    }
}

/// The entries after a lookup of `k`: a hit becomes the most recently used entry,
/// a miss changes nothing.
pub open spec fn after_get<KV, V>(s: Seq<(KV, V)>, k: KV) -> Seq<(KV, V)> {
    if holds_key(s, k) {
        let i = key_index(s, k);
        s.remove(i).push(s[i])
    } else {
        s
    }
}

/// The entries after storing `v` under `k` in a cache of capacity `cap`: an
/// existing key is replaced in place of recency; a new key, when the cache is
/// full, first evicts the least recently used entry.
pub open spec fn after_insert<KV, V>(s: Seq<(KV, V)>, cap: nat, k: KV, v: V) -> Seq<(KV, V)> {
    if holds_key(s, k) {
        s.remove(key_index(s, k)).push((k, v))
    } else if s.len() >= cap {
        s.drop_first().push((k, v))
    } else {
        s.push((k, v))
    }
}

/// A lookup keeps the keys distinct and the number of entries unchanged.
pub proof fn lemma_after_get_wf<KV, V>(s: Seq<(KV, V)>, k: KV)
    requires
        keys_distinct(s),
    ensures
        keys_distinct(after_get(s, k)),
        after_get(s, k).len() == s.len(),
{
    if holds_key(s, k) {
        let i = key_index(s, k);
        let r = after_get(s, k);
        assert forall|a: int, b: int|
            0 <= a < r.len() && 0 <= b < r.len() && a != b implies #[trigger] r[a].0
            != #[trigger] r[b].0 by {
            let oa = if a == s.len() - 1 { i } else if a < i { a } else { a + 1 };
            let ob = if b == s.len() - 1 { i } else if b < i { b } else { b + 1 };
            assert(r[a] == s[oa]);
            assert(r[b] == s[ob]);
        }
    }
}

/// An insertion keeps the keys distinct and the entries within capacity, and
/// leaves the new pair as the most recently used entry.
pub proof fn lemma_after_insert_wf<KV, V>(s: Seq<(KV, V)>, cap: nat, k: KV, v: V)
    requires
        keys_distinct(s),
        0 < cap,
        s.len() <= cap,
    ensures
        keys_distinct(after_insert(s, cap, k, v)),
        after_insert(s, cap, k, v).len() <= cap,
        after_insert(s, cap, k, v).last() == (k, v),
        value_of(after_insert(s, cap, k, v), k) == Some(v),
{
    let r = after_insert(s, cap, k, v);
    let n = r.len();
    if holds_key(s, k) {
        let i = key_index(s, k);
        assert forall|a: int, b: int|
            0 <= a < n && 0 <= b < n && a != b implies #[trigger] r[a].0 != #[trigger] r[b].0 by {
            let oa = if a == s.len() - 1 { i } else if a < i { a } else { a + 1 };
            let ob = if b == s.len() - 1 { i } else if b < i { b } else { b + 1 };
            assert(r[a].0 == s[oa].0);
            assert(r[b].0 == s[ob].0);
        }
    } else if s.len() >= cap {
        assert forall|a: int, b: int|
            0 <= a < n && 0 <= b < n && a != b implies #[trigger] r[a].0 != #[trigger] r[b].0 by {
            if a < n - 1 {
                assert(r[a] == s[a + 1]);
            }
            if b < n - 1 {
                assert(r[b] == s[b + 1]);
            }
        }
    } else {
        assert forall|a: int, b: int|
            0 <= a < n && 0 <= b < n && a != b implies #[trigger] r[a].0 != #[trigger] r[b].0 by {
            if a < s.len() {
                assert(r[a] == s[a]);
            }
            if b < s.len() {
                assert(r[b] == s[b]);
            }
        }
    }
    assert(r[n - 1].0 == k);
    assert(holds_key(r, k));
    let j = key_index(r, k);
    assert(j == n - 1);
}

/// The entries after inserting each pair of `ks` in order, with no lookups in between.
pub open spec fn insert_all<KV, V>(s: Seq<(KV, V)>, cap: nat, ks: Seq<(KV, V)>) -> Seq<(KV, V)>
    decreases ks.len(),
{
    if ks.len() == 0 {
        s
    } else {
        let last = ks.last();
        after_insert(insert_all(s, cap, ks.drop_last()), cap, last.0, last.1)
    }
}

/// Filling an empty cache with at most `cap` distinct keys evicts nothing:
/// the entries are the inserted pairs, oldest first.
pub proof fn lemma_fill_without_eviction<KV, V>(cap: nat, ks: Seq<(KV, V)>)
    requires
        keys_distinct(ks),
        ks.len() <= cap,
    ensures
        insert_all(Seq::empty(), cap, ks) == ks,
    decreases ks.len(),
{
    if ks.len() > 0 {
        let init = ks.drop_last();
        assert(keys_distinct(init));
        lemma_fill_without_eviction(cap, init);
        let last = ks.last();
        assert(!holds_key(init, last.0)) by {
            if holds_key(init, last.0) {
                let i = choose|i: int| 0 <= i < init.len() && #[trigger] init[i].0 == last.0;
                assert(ks[i].0 == ks[ks.len() - 1].0);
            }
        }
        assert(init.push(last) =~= ks);
    }
}

/// Inserting `cap + 1` distinct keys into an empty cache of capacity `cap`,
/// with no lookups in between, evicts exactly the first key inserted: the
/// cache then holds every other pair, in insertion order.
pub proof fn lemma_overflow_evicts_first<KV, V>(cap: nat, ks: Seq<(KV, V)>)
    requires
        0 < cap,
        keys_distinct(ks),
        ks.len() == cap + 1,
    ensures
        insert_all(Seq::empty(), cap, ks) == ks.drop_first(),
        !holds_key(insert_all(Seq::empty(), cap, ks), ks[0].0),
        forall|i: int|
            1 <= i < ks.len() ==> holds_key(insert_all(Seq::empty(), cap, ks), #[trigger] ks[i].0),
{
    let init = ks.drop_last();
    assert(keys_distinct(init));
    lemma_fill_without_eviction(cap, init);
    let last = ks.last();
    assert(!holds_key(init, last.0)) by {
        if holds_key(init, last.0) {
            let i = choose|i: int| 0 <= i < init.len() && #[trigger] init[i].0 == last.0;
            assert(ks[i].0 == ks[ks.len() - 1].0);
        }
    }
    let r = insert_all(Seq::empty(), cap, ks);
    assert(r =~= ks.drop_first());
    assert(!holds_key(r, ks[0].0)) by {
        if holds_key(r, ks[0].0) {
            let i = choose|i: int| 0 <= i < r.len() && #[trigger] r[i].0 == ks[0].0;
            assert(ks[i + 1].0 == ks[0].0);
        }
    }
    assert forall|i: int| 1 <= i < ks.len() implies holds_key(r, #[trigger] ks[i].0) by {
        assert(r[i - 1].0 == ks[i].0);
    }
}

/// Looking up the least recently used entry just before a new key arrives
/// keeps that entry from being evicted.
pub proof fn lemma_get_protects_oldest<KV, V>(s: Seq<(KV, V)>, cap: nat, k: KV, v: V)
    requires
        2 <= cap,
        keys_distinct(s),
        1 <= s.len() <= cap,
        !holds_key(s, k),
    ensures
        holds_key(after_insert(after_get(s, s[0].0), cap, k, v), s[0].0),
{
    let k0 = s[0].0;
    assert(holds_key(s, k0));
    let i = key_index(s, k0);
    assert(i == 0) by {
        assert(s[i].0 == s[0].0);
    }
    let g = after_get(s, k0);
    assert(g == s.remove(0).push(s[0]));
    assert(!holds_key(g, k)) by {
        if holds_key(g, k) {
            let j = choose|j: int| 0 <= j < g.len() && #[trigger] g[j].0 == k;
            if j < g.len() - 1 {
                assert(g[j] == s[j + 1]);
            } else {
                assert(g[j] == s[0]);
            }
        }
    }
    let r = after_insert(g, cap, k, v);
    if g.len() >= cap {
        assert(r[g.len() - 2] == g[g.len() - 1]);
    } else {
        assert(r[g.len() - 1] == g[g.len() - 1]);
    }
}

/// Why a cache could not be built.
#[derive(Debug, PartialEq, Eq, Structural, Clone, Copy)]
pub enum CacheError {
    /// A cache must be able to hold at least one entry.
    ZeroCapacity,
}

/// A bounded map that evicts its least recently used entry when full.
pub struct LRU<K, V> {
    entries: Vec<(K, V)>,
    capacity: usize,
}

impl<K: View, V> View for LRU<K, V> {
    type V = Seq<(K::V, V)>;

    closed spec fn view(&self) -> Seq<(K::V, V)> {
        self.entries@.map_values(|e: (K, V)| (e.0@, e.1))
    }
}

impl<K: View + PartialEq, V> LRU<K, V> {
    /// The number of entries the cache can hold.
    pub closed spec fn cap(&self) -> nat {
        self.capacity as nat
    }

    /// The cache's invariant: within capacity, keys distinct, and keys whose
    /// `==` agrees with equality of their views.
    pub open spec fn wf(&self) -> bool {
        &&& obeys_view_eq::<K>()
        &&& 0 < self.cap()
        &&& self@.len() <= self.cap()
        &&& keys_distinct(self@)
    }

    /// Creates an empty cache holding at most `capacity` entries.
    pub fn new(capacity: usize) -> (r: Result<Self, CacheError>)
        requires
            obeys_view_eq::<K>(),
        ensures
            capacity == 0 <==> r is Err,
            r matches Ok(c) ==> c.wf() && c@ == Seq::<(K::V, V)>::empty() && c.cap()
                == capacity,
    {
        if capacity == 0 {
            return Err(CacheError::ZeroCapacity);
        }
        let c = Self { entries: Vec::new(), capacity };
        assert(c@ =~= Seq::<(K::V, V)>::empty());
        Ok(c)
    }

    /// The number of entries the cache can hold.
    pub fn capacity(&self) -> (r: usize)
        ensures
            r == self.cap(),
    {
        self.capacity
    }

    /// The number of entries held.
    pub fn len(&self) -> (r: usize)
        ensures
            r == self@.len(),
    {
        self.entries.len()
    }

    /// The position of `key` among the entries, if present.
    fn find(&self, key: &K) -> (r: Option<usize>)
        requires
            self.wf(),
        ensures
            r is None <==> !holds_key(self@, key@),
            r matches Some(i) ==> i == key_index(self@, key@) && i < self@.len(),
    {
        let n = self.entries.len();
        let mut i: usize = 0;
        while i < n
            invariant
                n == self@.len(),
                i <= n,
                self.wf(),
                forall|j: int| 0 <= j < i ==> self@[j].0 != key@,
            decreases n - i,
        {
            proof {
                reveal(obeys_view_eq);
            }
            let same = self.entries[i].0 == *key;
            assert(self@[i as int].0 == self.entries@[i as int].0@);
            if same {
                assert(self@[i as int].0 == key@);
                assert(key_index(self@, key@) == i) by {
                    let c = key_index(self@, key@);
                    assert(0 <= c < self@.len() && self@[c].0 == key@);
                    assert(keys_distinct(self@));
                }
                return Some(i);
            }
            i = i + 1;
        }
        None
    }

    /// Looks `key` up; on a hit the entry becomes the most recently used.
    pub fn get(&mut self, key: &K) -> (r: Option<&V>)
        requires
            old(self).wf(),
        ensures
            final(self).wf(),
            final(self).cap() == old(self).cap(),
            final(self)@ == after_get(old(self)@, key@),
            r is Some <==> holds_key(old(self)@, key@),
            r matches Some(v) ==> Some(*v) == value_of(old(self)@, key@),
    {
        match self.find(key) {
            None => None,
            Some(i) => {
                let ghost s = self@;
                let e = self.entries.remove(i);
                self.entries.push(e);
                proof {
                    assert(self@ =~= s.remove(i as int).push(s[i as int]));
                    lemma_after_get_wf(s, key@);
                }
                let last = self.entries.len() - 1;
                Some(&self.entries[last].1)
            },
        }
    }

    /// Stores `val` under `key`. An existing key keeps its single entry and
    /// becomes the most recently used; a new key, when the cache is full,
    /// first evicts the least recently used entry.
    pub fn insert(&mut self, key: K, val: V)
        requires
            old(self).wf(),
        ensures
            final(self).wf(),
            final(self).cap() == old(self).cap(),
            final(self)@ == after_insert(old(self)@, old(self).cap(), key@, val),
    {
        let ghost s = self@;
        let ghost k = key@;
        proof {
            lemma_after_insert_wf(s, self.cap(), k, val);
        }
        match self.find(&key) {
            Some(i) => {
                self.entries.remove(i);
                self.entries.push((key, val));
                assert(self@ =~= s.remove(i as int).push((k, val)));
            },
            None => {
                if self.entries.len() >= self.capacity {
                    self.entries.remove(0);
                    self.entries.push((key, val));
                    assert(self@ =~= s.drop_first().push((k, val)));
                } else {
                    self.entries.push((key, val));
                    assert(self@ =~= s.push((k, val)));
                }
            },
        }
    }
}

} // verus!
