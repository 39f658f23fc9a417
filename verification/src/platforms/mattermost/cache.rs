//! A key-value cache whose entries expire a fixed time after they are stored.
//!
//! Time is given by the caller as nanoseconds on a clock that does not go
//! backwards; an entry stored at `now` with time-to-live `ttl` has expired at
//! every time from `now + ttl` on.

use vstd::prelude::*;
use crate::string_map::{entries_map, first_index_of, first_value, lemma_first_value_absent, lemma_first_value_at};
use crate::text::str_eq;

verus! {

/// A cached value and the time at which it expires.
#[derive(Debug, Clone)]
pub struct CacheEntry<T> {
    pub value: T,
    pub expires_at: u64,
}

/// The expiry time of an entry stored at `now` with time-to-live `ttl`
/// (the largest time when the sum does not fit).
pub open spec fn expiry(now: u64, ttl: u64) -> u64 {
    if now + ttl > u64::MAX { u64::MAX } else { (now + ttl) as u64 }
}

/// Whether an entry that expires at `expires_at` is still live at `now`.
pub open spec fn live_at(expires_at: u64, now: u64) -> bool {
    now < expires_at
}

impl<T> CacheEntry<T> {
    /// An entry holding `value`, stored at `now` with time-to-live `ttl`.
    pub fn new(value: T, ttl: u64, now: u64) -> (e: Self)
        ensures
            e.value == value,
            e.expires_at == expiry(now, ttl),
    {
        let expires_at = if now > u64::MAX - ttl { u64::MAX } else { now + ttl };
        CacheEntry { value, expires_at }
    }

    /// Whether this entry has expired at `now`.
    pub fn is_expired(&self, now: u64) -> (b: bool)
        ensures
            b == !live_at(self.expires_at, now),
    {
        now >= self.expires_at
    }
}

/// No two entries share a key.
pub open spec fn unique_keys<V>(e: Seq<(String, V)>) -> bool {
    forall|i: int, j: int| 0 <= i < j < e.len() ==> e[i].0@ != e[j].0@
}

/// Whether an entry of a cache's list is live at `now`.
pub open spec fn live_pred<T>(now: u64) -> spec_fn((String, CacheEntry<T>)) -> bool {
    |p: (String, CacheEntry<T>)| live_at(p.1.expires_at, now)
}

/// The entries of `e` that are live at `now`, in order.
pub open spec fn live_entries<T>(e: Seq<(String, CacheEntry<T>)>, now: u64) -> Seq<(String, CacheEntry<T>)> {
    e.filter(live_pred(now))
}

/// The part of a cache's contents that is live at `now`.
pub open spec fn live_part<T>(m: Map<Seq<char>, CacheEntry<T>>, now: u64) -> Map<Seq<char>, CacheEntry<T>> {
    Map::new(|k: Seq<char>| m.contains_key(k) && live_at(m[k].expires_at, now), |k: Seq<char>| m[k])
}

proof fn lemma_unique_lookup<V>(e: Seq<(String, V)>, j: int)
    requires
        unique_keys(e),
        0 <= j < e.len(),
    ensures
        first_value(e, e[j].0@) == Some(e[j].1),
{
    assert(first_index_of(e, e[j].0@, j));
    lemma_first_value_at(e, e[j].0@, j);
}

proof fn lemma_unique_map<V>(e: Seq<(String, V)>, k: Seq<char>)
    requires
        unique_keys(e),
    ensures
        (exists|j: int| 0 <= j < e.len() && e[j].0@ == k) ==> entries_map(e).contains_key(k),
        !(exists|j: int| 0 <= j < e.len() && e[j].0@ == k) ==> !entries_map(e).contains_key(k),
        forall|j: int| 0 <= j < e.len() && e[j].0@ == k ==> entries_map(e)[k] == e[j].1,
{
    if exists|j: int| 0 <= j < e.len() && e[j].0@ == k {
        let j = choose|j: int| 0 <= j < e.len() && e[j].0@ == k;
        lemma_unique_lookup(e, j);
        assert forall|j2: int| 0 <= j2 < e.len() && e[j2].0@ == k implies entries_map(e)[k] == e[j2].1 by {
            lemma_unique_lookup(e, j2);
        }
    } else {
        lemma_first_value_absent(e, k);
    }
}

proof fn lemma_unique_len<V>(e: Seq<(String, V)>)
    requires
        unique_keys(e),
    ensures
        entries_map(e).dom().finite(),
        entries_map(e).len() == e.len(),
{
    let ks = e.map_values(|p: (String, V)| p.0@);
    assert(ks.no_duplicates()) by {
        assert forall|i: int, j: int| 0 <= i < ks.len() && 0 <= j < ks.len() && i != j implies ks[i] != ks[j] by {
            if i < j {
                assert(e[i].0@ != e[j].0@);
            } else {
                assert(e[j].0@ != e[i].0@);
            }
        }
    }
    assert(entries_map(e).dom() =~= ks.to_set()) by {
        assert forall|k: Seq<char>| entries_map(e).dom().contains(k) <==> ks.to_set().contains(k) by {
            lemma_unique_map(e, k);
            if ks.contains(k) {
                let i = choose|i: int| 0 <= i < ks.len() && ks[i] == k;
                assert(e[i].0@ == k);
            }
            if exists|j: int| 0 <= j < e.len() && e[j].0@ == k {
                let j = choose|j: int| 0 <= j < e.len() && e[j].0@ == k;
                assert(ks[j] == k);
            }
        }
    }
    ks.unique_seq_to_set();
    vstd::seq_lib::seq_to_set_is_finite(ks);
}

/// Each live entry of `e` is kept, and each kept entry is a live entry of `e`.
proof fn lemma_live_entries_members<T>(e: Seq<(String, CacheEntry<T>)>, now: u64)
    ensures
        forall|a: int| #![trigger live_entries(e, now)[a]] 0 <= a < live_entries(e, now).len() ==>
            e.contains(live_entries(e, now)[a]) && live_at(live_entries(e, now)[a].1.expires_at, now),
        forall|b: int| #![trigger e[b]] 0 <= b < e.len() && live_at(e[b].1.expires_at, now) ==>
            live_entries(e, now).contains(e[b]),
{
    broadcast use vstd::seq_lib::group_filter_ensures;
    let pred = live_pred::<T>(now);
    assert forall|a: int| #![trigger live_entries(e, now)[a]] 0 <= a < live_entries(e, now).len() implies
        e.contains(live_entries(e, now)[a]) && live_at(live_entries(e, now)[a].1.expires_at, now) by {
        assert(pred(live_entries(e, now)[a]));
        assert(live_entries(e, now).contains(live_entries(e, now)[a]));
        e.lemma_filter_contains_rev(pred, live_entries(e, now)[a]);
    }
    assert forall|b: int| #![trigger e[b]] 0 <= b < e.len() && live_at(e[b].1.expires_at, now) implies
        live_entries(e, now).contains(e[b]) by {
        assert(pred(e[b]));
    }
}

proof fn lemma_live_entries_unique<T>(e: Seq<(String, CacheEntry<T>)>, now: u64)
    requires
        unique_keys(e),
    ensures
        unique_keys(live_entries(e, now)),
    decreases e.len(),
{
    if e.len() > 0 {
        let d = e.drop_last();
        let last = e.len() - 1;
        assert(unique_keys(d)) by {
            assert forall|i: int, j: int| 0 <= i < j < d.len() implies d[i].0@ != d[j].0@ by {
                assert(d[i] == e[i] && d[j] == e[j]);
            }
        }
        lemma_live_entries_unique(d, now);
        lemma_live_entries_members(d, now);
        assert(d.push(e[last]) =~= e);
        d.lemma_filter_push(e[last], live_pred::<T>(now));
        let rest = live_entries(d, now);
        let l = live_entries(e, now);
        if live_at(e[last].1.expires_at, now) {
            assert(l == rest.push(e[last]));
            assert forall|i: int, j: int| 0 <= i < j < l.len() implies l[i].0@ != l[j].0@ by {
                if j == rest.len() {
                    assert(l[i] == rest[i]);
                    assert(d.contains(rest[i]));
                    let b = choose|b: int| 0 <= b < d.len() && d[b] == rest[i];
                    assert(d[b] == e[b]);
                    assert(e[b].0@ != e[last].0@);
                } else {
                    assert(l[i] == rest[i] && l[j] == rest[j]);
                }
            }
        } else {
            assert(l == rest);
        }
    }
}

proof fn lemma_live_map<T>(e: Seq<(String, CacheEntry<T>)>, now: u64)
    requires
        unique_keys(e),
    ensures
        entries_map(live_entries(e, now)) == live_part(entries_map(e), now),
        unique_keys(live_entries(e, now)),
{
    let l = live_entries(e, now);
    lemma_live_entries_unique(e, now);
    lemma_live_entries_members(e, now);
    assert forall|k: Seq<char>|
        #![trigger entries_map(l).dom().contains(k)]
        #![trigger live_part(entries_map(e), now).dom().contains(k)]
        entries_map(l).contains_key(k) == live_part(entries_map(e), now).contains_key(k)
        && (entries_map(l).contains_key(k) ==> entries_map(l)[k] == live_part(entries_map(e), now)[k]) by {
        lemma_unique_map(e, k);
        lemma_unique_map(l, k);
        if exists|a: int| 0 <= a < l.len() && l[a].0@ == k {
            let a = choose|a: int| 0 <= a < l.len() && l[a].0@ == k;
            assert(e.contains(l[a]));
            let b = choose|b: int| 0 <= b < e.len() && e[b] == l[a];
            assert(e[b].0@ == k);
        } else if exists|b: int| 0 <= b < e.len() && e[b].0@ == k {
            let b = choose|b: int| 0 <= b < e.len() && e[b].0@ == k;
            if live_at(e[b].1.expires_at, now) {
                assert(l.contains(e[b]));
                let a = choose|a: int| 0 <= a < l.len() && l[a] == e[b];
                assert(l[a].0@ == k);
            }
        }
    }
    assert(entries_map(l) =~= live_part(entries_map(e), now));
}

proof fn lemma_remove_unique<V>(e: Seq<(String, V)>, i: int)
    requires
        unique_keys(e),
        0 <= i < e.len(),
    ensures
        unique_keys(e.remove(i)),
        entries_map(e.remove(i)) == entries_map(e).remove(e[i].0@),
{
    let r = e.remove(i);
    let k = e[i].0@;
    assert forall|a: int, b: int| 0 <= a < b < r.len() implies r[a].0@ != r[b].0@ by {
        let a2 = if a < i { a } else { a + 1 };
        let b2 = if b < i { b } else { b + 1 };
        assert(r[a] == e[a2] && r[b] == e[b2]);
    }
    assert forall|q: Seq<char>|
        #![trigger entries_map(r).dom().contains(q)]
        #![trigger entries_map(e).remove(k).dom().contains(q)]
        entries_map(r).contains_key(q) == entries_map(e).remove(k).contains_key(q)
        && (entries_map(r).contains_key(q) ==> entries_map(r)[q] == entries_map(e).remove(k)[q]) by {
        lemma_unique_map(e, q);
        lemma_unique_map(r, q);
        if exists|a: int| 0 <= a < r.len() && r[a].0@ == q {
            let a = choose|a: int| 0 <= a < r.len() && r[a].0@ == q;
            let a2 = if a < i { a } else { a + 1 };
            assert(r[a] == e[a2]);
            assert(a2 != i);
        } else if exists|b: int| 0 <= b < e.len() && e[b].0@ == q {
            let b = choose|b: int| 0 <= b < e.len() && e[b].0@ == q;
            if b != i {
                let b2 = if b < i { b } else { b - 1 };
                assert(r[b2] == e[b]);
            }
        }
    }
    assert(entries_map(r) =~= entries_map(e).remove(k));
}

/// A cache of values of type `T` under string keys, whose entries live for
/// the same time-to-live (in nanoseconds). Its own clock counts the
/// nanoseconds of the monotonic clock since the cache was made.
pub struct Cache<T> {
    entries: Vec<(String, CacheEntry<T>)>,
    ttl: u64,
    origin: std::time::Instant,
    clock: u64,
}

impl<T> View for Cache<T> {
    type V = Map<Seq<char>, CacheEntry<T>>;

    closed spec fn view(&self) -> Map<Seq<char>, CacheEntry<T>> {
        entries_map(self.entries@)
    }
}

impl<T> Cache<T> {
    #[verifier::type_invariant]
    closed spec fn wf(self) -> bool {
        unique_keys(self.entries@)
    }

    /// The time-to-live of the cache's entries.
    pub closed spec fn spec_ttl(&self) -> u64 {
        self.ttl
    }

    /// The latest reading of the cache's own clock (0 before the first).
    pub closed spec fn spec_clock(&self) -> u64 {
        self.clock
    }

    /// An empty cache whose entries live `ttl` nanoseconds.
    pub fn new(ttl: u64) -> (c: Self)
        ensures
            c@ == Map::<Seq<char>, CacheEntry<T>>::empty(),
            c.spec_ttl() == ttl,
            c.spec_clock() == 0,
    {
        let c = Cache { entries: Vec::new(), ttl, origin: crate::clock::instant_now(), clock: 0 };
        assert(c@ =~= Map::<Seq<char>, CacheEntry<T>>::empty());
        c
    }

    /// The time-to-live of the cache's entries.
    pub fn ttl(&self) -> (t: u64)
        ensures
            t == self.spec_ttl(),
    {
        self.ttl
    }

    /// A reading of the monotonic clock: the nanoseconds since the cache was
    /// made (capped at `u64::MAX`), never less than the latest reading kept.
    /// Which instant it is depends on when the call is made.
    fn read_clock(&self) -> (now: u64)
        ensures
            now >= self.spec_clock(),
    {
        let d = crate::clock::instant_elapsed(&self.origin);
        let ns = crate::clock::duration_nanos(&d);
        let reading = if ns > 0xffff_ffff_ffff_ffffu128 { u64::MAX } else { ns as u64 };
        if reading < self.clock { self.clock } else { reading }
    }

    /// Read the cache's clock and keep the reading as the latest.
    fn tick(&mut self) -> (now: u64)
        ensures
            now >= old(self).spec_clock(),
            final(self).spec_clock() == now,
            final(self)@ == old(self)@,
            final(self).spec_ttl() == old(self).spec_ttl(),
    {
        proof {
            use_type_invariant(&*self);
        }
        let now = self.read_clock();
        self.clock = now;
        now
    }

    fn position(&self, key: &str) -> (r: Option<usize>)
        ensures
            match r {
                Some(i) => i < self.entries@.len() && self.entries@[i as int].0@ == key@,
                None => forall|j: int| 0 <= j < self.entries@.len() ==> self.entries@[j].0@ != key@,
            },
    {
        let mut i: usize = 0;
        while i < self.entries.len()
            invariant
                i <= self.entries.len(),
                forall|j: int| 0 <= j < i ==> self.entries@[j].0@ != key@,
            decreases self.entries.len() - i,
        {
            if str_eq(self.entries[i].0.as_str(), key) {
                return Some(i);
            }
            i = i + 1;
        }
        None
    }

    /// Store `value` under `key` at time `now`, replacing any entry under the
    /// same key.
    pub fn set_at(&mut self, key: String, value: T, now: u64)
        ensures
            final(self)@ == old(self)@.insert(key@, CacheEntry { value, expires_at: expiry(now, old(self).spec_ttl()) }),
            final(self).spec_ttl() == old(self).spec_ttl(),
            final(self).spec_clock() == old(self).spec_clock(),
    {
        proof {
            use_type_invariant(&*self);
        }
        let ghost k = key@;
        let entry = CacheEntry::new(value, self.ttl, now);
        let ghost ev = entry;
        let ghost before = self.entries@;
        match self.position(key.as_str()) {
            Some(i) => {
                let mut entries: Vec<(String, CacheEntry<T>)> = Vec::new();
                std::mem::swap(&mut entries, &mut self.entries);
                entries.set(i, (key, entry));
                proof {
                    let after = entries@;
                    assert forall|a: int, b: int| 0 <= a < b < after.len() implies after[a].0@ != after[b].0@ by {
                        if a != i && b != i {
                            assert(after[a] == before[a] && after[b] == before[b]);
                        } else if a == i {
                            assert(after[b] == before[b]);
                            assert(before[a].0@ != before[b].0@);
                        } else {
                            assert(after[a] == before[a]);
                            assert(before[a].0@ != before[b].0@);
                        }
                    }
                    assert forall|q: Seq<char>|
                        #![trigger entries_map(after).dom().contains(q)]
                        #![trigger entries_map(before).insert(k, ev).dom().contains(q)]
                        entries_map(after).contains_key(q)
                        == before_insert(before, k, ev).contains_key(q)
                        && (entries_map(after).contains_key(q) ==> entries_map(after)[q] == before_insert(before, k, ev)[q]) by {
                        lemma_unique_map(before, q);
                        lemma_unique_map(after, q);
                        if q == k {
                            assert(after[i as int].0@ == q);
                        } else if exists|b: int| 0 <= b < before.len() && before[b].0@ == q {
                            let b = choose|b: int| 0 <= b < before.len() && before[b].0@ == q;
                            assert(b != i);
                            assert(after[b] == before[b]);
                        } else {
                            assert forall|a: int| 0 <= a < after.len() implies after[a].0@ != q by {
                                if a != i {
                                    assert(after[a] == before[a]);
                                }
                            }
                        }
                    }
                    assert(entries_map(after) =~= before_insert(before, k, ev));
                }
                self.entries = entries;
            },
            None => {
                let mut entries: Vec<(String, CacheEntry<T>)> = Vec::new();
                std::mem::swap(&mut entries, &mut self.entries);
                entries.push((key, entry));
                proof {
                    let after = entries@;
                    assert forall|a: int, b: int| 0 <= a < b < after.len() implies after[a].0@ != after[b].0@ by {
                        if b < before.len() {
                            assert(after[a] == before[a] && after[b] == before[b]);
                        } else {
                            assert(after[a] == before[a]);
                        }
                    }
                    assert forall|q: Seq<char>|
                        #![trigger entries_map(after).dom().contains(q)]
                        #![trigger entries_map(before).insert(k, ev).dom().contains(q)]
                        entries_map(after).contains_key(q)
                        == before_insert(before, k, ev).contains_key(q)
                        && (entries_map(after).contains_key(q) ==> entries_map(after)[q] == before_insert(before, k, ev)[q]) by {
                        lemma_unique_map(before, q);
                        lemma_unique_map(after, q);
                        if q == k {
                            assert(after[before.len() as int].0@ == q);
                        } else if exists|b: int| 0 <= b < before.len() && before[b].0@ == q {
                            let b = choose|b: int| 0 <= b < before.len() && before[b].0@ == q;
                            assert(after[b] == before[b]);
                        } else {
                            assert forall|a: int| 0 <= a < after.len() implies after[a].0@ != q by {
                                if a < before.len() {
                                    assert(after[a] == before[a]);
                                }
                            }
                        }
                    }
                    assert(entries_map(after) =~= before_insert(before, k, ev));
                }
                self.entries = entries;
            },
        }
    }

    /// Remove the entry under `key`; whether there was one.
    pub fn invalidate(&mut self, key: &str) -> (removed: bool)
        ensures
            removed == old(self)@.contains_key(key@),
            final(self)@ == old(self)@.remove(key@),
            final(self).spec_ttl() == old(self).spec_ttl(),
            final(self).spec_clock() == old(self).spec_clock(),
    {
        proof {
            use_type_invariant(&*self);
            lemma_unique_map(self.entries@, key@);
        }
        match self.position(key) {
            Some(i) => {
                let ghost before = self.entries@;
                let mut entries: Vec<(String, CacheEntry<T>)> = Vec::new();
                std::mem::swap(&mut entries, &mut self.entries);
                entries.remove(i);
                proof {
                    lemma_remove_unique(before, i as int);
                }
                self.entries = entries;
                true
            },
            None => {
                assert(old(self)@.remove(key@) =~= old(self)@);
                false
            },
        }
    }

    /// Remove every entry.
    pub fn clear(&mut self)
        ensures
            final(self)@ == Map::<Seq<char>, CacheEntry<T>>::empty(),
            final(self).spec_ttl() == old(self).spec_ttl(),
            final(self).spec_clock() == old(self).spec_clock(),
    {
        self.entries = Vec::new();
        assert(self@ =~= Map::<Seq<char>, CacheEntry<T>>::empty());
    }

    /// The number of entries, expired ones included.
    pub fn len(&self) -> (n: usize)
        ensures
            n == self@.len(),
    {
        proof {
            use_type_invariant(self);
            lemma_unique_len(self.entries@);
        }
        self.entries.len()
    }

    /// Whether the cache holds no entry.
    pub fn is_empty(&self) -> (b: bool)
        ensures
            b == (self@.len() == 0),
    {
        self.len() == 0
    }

    /// Remove every entry that has expired at time `now`; the number removed.
    pub fn cleanup_expired_at(&mut self, now: u64) -> (removed: usize)
        ensures
            final(self)@ == live_part(old(self)@, now),
            removed == old(self)@.len() - final(self)@.len(),
            final(self).spec_ttl() == old(self).spec_ttl(),
            final(self).spec_clock() == old(self).spec_clock(),
    {
        proof {
            use_type_invariant(&*self);
        }
        let ghost before = self.entries@;
        let mut rest: Vec<(String, CacheEntry<T>)> = Vec::new();
        std::mem::swap(&mut rest, &mut self.entries);
        let mut kept: Vec<(String, CacheEntry<T>)> = Vec::new();
        let mut removed: usize = 0;
        let n = rest.len();
        let ghost mut i: int = 0;
        while rest.len() > 0
            invariant
                before.len() == n,
                0 <= i <= before.len(),
                rest@ == before.subrange(i, before.len() as int),
                kept@ == live_entries(before.subrange(0, i), now),
                removed + kept@.len() == i,
            decreases rest.len(),
        {
            let e = rest.remove(0);
            proof {
                assert(before.subrange(0, i).push(e) =~= before.subrange(0, i + 1));
                before.subrange(0, i).lemma_filter_push(e, live_pred::<T>(now));
            }
            if now < e.1.expires_at {
                kept.push(e);
            } else {
                removed = removed + 1;
            }
            proof {
                i = i + 1;
                assert(rest@ =~= before.subrange(i, before.len() as int));
            }
        }
        proof {
            assert(before.subrange(0, i) =~= before);
            lemma_live_map(before, now);
            lemma_unique_len(before);
            lemma_unique_len(kept@);
        }
        self.entries = kept;
        removed
    }

    /// The value under `key` at time `now`: a clone of it while the entry is
    /// live; `None` when there is no entry or it has expired, and an expired
    /// entry is removed.
    pub fn get_at(&mut self, key: &str, now: u64) -> (r: Option<T>)
        where T: Clone,
        ensures
            get_outcome(old(self)@, final(self)@, key@, now, r),
            final(self).spec_ttl() == old(self).spec_ttl(),
            final(self).spec_clock() == old(self).spec_clock(),
    {
        proof {
            use_type_invariant(&*self);
            lemma_unique_map(self.entries@, key@);
        }
        match self.position(key) {
            Some(i) => {
                if now < self.entries[i].1.expires_at {
                    Some(self.entries[i].1.value.clone())
                } else {
                    let ghost before = self.entries@;
                    let mut entries: Vec<(String, CacheEntry<T>)> = Vec::new();
                    std::mem::swap(&mut entries, &mut self.entries);
                    entries.remove(i);
                    proof {
                        lemma_remove_unique(before, i as int);
                    }
                    self.entries = entries;
                    None
                }
            },
            None => {
                assert(old(self)@.remove(key@) =~= old(self)@);
                None
            },
        }
    }

    /// Drop the entry under `key` if it has expired at time `now`; a live
    /// entry, or none, is left as it is.
    pub fn drop_if_expired_at(&mut self, key: &str, now: u64)
        ensures
            final(self)@ == if old(self)@.contains_key(key@) && live_at(old(self)@[key@].expires_at, now) {
                old(self)@
            } else {
                old(self)@.remove(key@)
            },
            final(self).spec_ttl() == old(self).spec_ttl(),
            final(self).spec_clock() == old(self).spec_clock(),
    {
        proof {
            use_type_invariant(&*self);
            lemma_unique_map(self.entries@, key@);
        }
        match self.position(key) {
            Some(i) => {
                if now >= self.entries[i].1.expires_at {
                    let ghost before = self.entries@;
                    let mut entries: Vec<(String, CacheEntry<T>)> = Vec::new();
                    std::mem::swap(&mut entries, &mut self.entries);
                    entries.remove(i);
                    proof {
                        lemma_remove_unique(before, i as int);
                    }
                    self.entries = entries;
                }
            },
            None => {
                assert(old(self)@.remove(key@) =~= old(self)@);
            },
        }
    }

    /// The value stored under `key`, whether or not it has expired.
    pub fn peek(&self, key: &str) -> (r: Option<&T>)
        ensures
            match r {
                Some(v) => self@.contains_key(key@) && *v == self@[key@].value,
                None => !self@.contains_key(key@),
            },
    {
        proof {
            use_type_invariant(self);
            lemma_unique_map(self.entries@, key@);
        }
        match self.position(key) {
            Some(i) => Some(&self.entries[i].1.value),
            None => None,
        }
    }

    /// The number of entries, and how many of them have expired at time `now`.
    pub fn stats_at(&self, now: u64) -> (r: (usize, usize))
        ensures
            r.0 == self@.len(),
            r.1 == self@.len() - live_part(self@, now).len(),
    {
        proof {
            use_type_invariant(self);
        }
        let ghost e = self.entries@;
        let n = self.entries.len();
        let mut live: usize = 0;
        let mut i: usize = 0;
        while i < n
            invariant
                n == e.len(),
                e == self.entries@,
                i <= n,
                live as int == live_entries(e.subrange(0, i as int), now).len(),
                live <= i,
            decreases n - i,
        {
            proof {
                assert(e.subrange(0, i as int).push(e[i as int]) =~= e.subrange(0, i + 1));
                e.subrange(0, i as int).lemma_filter_push(e[i as int], live_pred::<T>(now));
            }
            if now < self.entries[i].1.expires_at {
                live = live + 1;
            }
            i = i + 1;
        }
        proof {
            assert(e.subrange(0, n as int) =~= e);
            lemma_live_map(e, now);
            lemma_unique_len(e);
            lemma_unique_len(live_entries(e, now));
        }
        (n, n - live)
    }

    /// Store `value` under `key`, timed by the cache's clock, which moves
    /// on to the time of the call (it never goes back).
    pub fn set(&mut self, key: String, value: T)
        ensures
            final(self).spec_clock() >= old(self).spec_clock(),
            final(self)@ == old(self)@.insert(key@, CacheEntry { value, expires_at: expiry(final(self).spec_clock(), old(self).spec_ttl()) }),
            final(self).spec_ttl() == old(self).spec_ttl(),
    {
        let now = self.tick();
        self.set_at(key, value, now);
    }

    /// The value under `key` while its entry is live by the cache's clock,
    /// which moves on to the time of the call (it never goes back).
    pub fn get(&mut self, key: &str) -> (r: Option<T>)
        where T: Clone,
        ensures
            final(self).spec_clock() >= old(self).spec_clock(),
            get_outcome(old(self)@, final(self)@, key@, final(self).spec_clock(), r),
            final(self).spec_ttl() == old(self).spec_ttl(),
    {
        let now = self.tick();
        self.get_at(key, now)
    }

    /// Remove every entry that has expired by the cache's clock, which moves
    /// on to the time of the call (it never goes back); the number removed.
    pub fn cleanup_expired(&mut self) -> (removed: usize)
        ensures
            final(self).spec_clock() >= old(self).spec_clock(),
            final(self)@ == live_part(old(self)@, final(self).spec_clock()),
            removed == old(self)@.len() - final(self)@.len(),
            final(self).spec_ttl() == old(self).spec_ttl(),
    {
        let now = self.tick();
        self.cleanup_expired_at(now)
    }

    /// The number of entries, and how many have expired by a reading of the
    /// cache's clock taken at the call (no earlier than its latest reading).
    pub fn stats(&self) -> (r: (usize, usize))
        ensures
            r.0 == self@.len(),
            exists|now: u64| now >= self.spec_clock() && r.1 == self@.len() - live_part(self@, now).len(),
    {
        let now = self.read_clock();
        self.stats_at(now)
    }
}

/// What a lookup of `key` at time `now` gives back (`r`) and leaves behind
/// (`after`) in a cache whose contents were `before`: a clone of the value
/// while the entry is live, with the cache unchanged; otherwise nothing, with
/// the entry (if any) removed.
pub open spec fn get_outcome<T: Clone>(
    before: Map<Seq<char>, CacheEntry<T>>,
    after: Map<Seq<char>, CacheEntry<T>>,
    key: Seq<char>,
    now: u64,
    r: Option<T>,
) -> bool {
    match r {
        Some(v) => {
            &&& before.contains_key(key)
            &&& live_at(before[key].expires_at, now)
            &&& cloned::<T>(before[key].value, v)
            &&& after == before
        },
        None => {
            &&& !(before.contains_key(key) && live_at(before[key].expires_at, now))
            &&& after == before.remove(key)
        },
    }
}

/// What a lookup of `key` at time `now` gives back (`r`) and leaves behind
/// (`after`) in a cache whose contents were `before`, where `copy(v, w)` says
/// that `w` is a copy of `v`: a copy of the value while the entry is live,
/// with the cache unchanged; otherwise nothing, with the entry (if any)
/// removed.
pub open spec fn lookup_outcome<T>(
    before: Map<Seq<char>, CacheEntry<T>>,
    after: Map<Seq<char>, CacheEntry<T>>,
    key: Seq<char>,
    now: u64,
    r: Option<T>,
    copy: spec_fn(T, T) -> bool,
) -> bool {
    match r {
        Some(v) => {
            &&& before.contains_key(key)
            &&& live_at(before[key].expires_at, now)
            &&& copy(before[key].value, v)
            &&& after == before
        },
        None => {
            &&& !(before.contains_key(key) && live_at(before[key].expires_at, now))
            &&& after == before.remove(key)
        },
    }
}

/// A value stored at `now` is given back by a lookup at any time before it
/// expires: the lookup finds it and returns a clone of it.
pub proof fn law_cache_read_after_write<T: Clone>(
    m: Map<Seq<char>, CacheEntry<T>>,
    key: Seq<char>,
    value: T,
    ttl: u64,
    now: u64,
    later: u64,
    after: Map<Seq<char>, CacheEntry<T>>,
    r: Option<T>,
)
    requires
        later < expiry(now, ttl),
        get_outcome(m.insert(key, CacheEntry { value, expires_at: expiry(now, ttl) }), after, key, later, r),
    ensures
        r is Some,
        cloned::<T>(value, r->0),
{
}

/// Through the cache's own clock: after `set` stores `value` under `key`
/// (taking the cache from `c0` to `c1`) and `get` then looks `key` up (taking
/// it to `c2` and giving `r`), the value comes back exactly while the clock
/// has moved on by less than the time-to-live between the two calls, and the
/// clock never goes back.
pub proof fn law_cache_clock_read_after_write<T: Clone>(
    c0: Cache<T>,
    c1: Cache<T>,
    c2: Cache<T>,
    key: Seq<char>,
    value: T,
    r: Option<T>,
)
    requires
        c1.spec_clock() >= c0.spec_clock(),
        c1@ == c0@.insert(key, CacheEntry { value, expires_at: expiry(c1.spec_clock(), c0.spec_ttl()) }),
        c1.spec_ttl() == c0.spec_ttl(),
        c2.spec_clock() >= c1.spec_clock(),
        get_outcome(c1@, c2@, key, c2.spec_clock(), r),
    ensures
        c0.spec_clock() <= c1.spec_clock() <= c2.spec_clock(),
        c2.spec_clock() < expiry(c1.spec_clock(), c0.spec_ttl()) ==> (r matches Some(v) && cloned::<T>(value, v)),
        c2.spec_clock() >= expiry(c1.spec_clock(), c0.spec_ttl()) ==> r is None,
{
}

/// A value stored at `now` is no longer given back once its time-to-live has
/// passed, and the lookup drops it.
pub proof fn law_cache_expired_read<T: Clone>(
    m: Map<Seq<char>, CacheEntry<T>>,
    key: Seq<char>,
    value: T,
    ttl: u64,
    now: u64,
    later: u64,
    after: Map<Seq<char>, CacheEntry<T>>,
    r: Option<T>,
)
    requires
        expiry(now, ttl) <= later,
        get_outcome(m.insert(key, CacheEntry { value, expires_at: expiry(now, ttl) }), after, key, later, r),
    ensures
        r is None,
        !after.contains_key(key),
{
}

/// After an entry is invalidated, a lookup of its key finds nothing.
pub proof fn law_cache_read_after_invalidate<T: Clone>(
    m: Map<Seq<char>, CacheEntry<T>>,
    key: Seq<char>,
    now: u64,
    after: Map<Seq<char>, CacheEntry<T>>,
    r: Option<T>,
)
    requires
        get_outcome(m.remove(key), after, key, now, r),
    ensures
        r is None,
{
}

/// After the expired entries are cleaned up at `now`, none of those left has
/// expired at `now`, and a second clean-up removes nothing.
pub proof fn law_cache_cleanup_leaves_live<T>(m: Map<Seq<char>, CacheEntry<T>>, now: u64)
    ensures
        forall|k: Seq<char>| #[trigger] live_part(m, now).contains_key(k) ==> live_at(live_part(m, now)[k].expires_at, now),
        live_part(live_part(m, now), now) == live_part(m, now),
{
    assert(live_part(live_part(m, now), now) =~= live_part(m, now));
}

/// The entries after storing `e` under `k`.
pub open spec fn before_insert<T>(before: Seq<(String, CacheEntry<T>)>, k: Seq<char>, e: CacheEntry<T>) -> Map<Seq<char>, CacheEntry<T>> {
    entries_map(before).insert(k, e)
}

} // verus!
