//! A map keyed by strings, kept as a list of entries.

use vstd::prelude::*;
use crate::text::str_eq;

verus! {

/// The value of the first entry whose key is `k`.
pub open spec fn first_value<V>(entries: Seq<(String, V)>, k: Seq<char>) -> Option<V>
    decreases entries.len(),
{
    if entries.len() == 0 {
        None
    } else if entries[0].0@ == k {
        Some(entries[0].1)
    } else {
        first_value(entries.drop_first(), k)
    }
}

/// The map that a list of entries stands for: each key maps to the value of
/// its first entry.
pub open spec fn entries_map<V>(entries: Seq<(String, V)>) -> Map<Seq<char>, V> {
    Map::new(|k: Seq<char>| first_value(entries, k) is Some, |k: Seq<char>| first_value(entries, k)->0)
}

/// The first entry with key `k` is at `i`.
pub open spec fn first_index_of<V>(entries: Seq<(String, V)>, k: Seq<char>, i: int) -> bool {
    &&& 0 <= i < entries.len()
    &&& entries[i].0@ == k
    &&& forall|j: int| 0 <= j < i ==> entries[j].0@ != k
}

pub proof fn lemma_first_value_at<V>(entries: Seq<(String, V)>, k: Seq<char>, i: int)
    requires
        first_index_of(entries, k, i),
    ensures
        first_value(entries, k) == Some(entries[i].1),
    decreases i,
{
    if i > 0 {
        let rest = entries.drop_first();
        assert(first_index_of(rest, k, i - 1)) by {
            assert forall|j: int| 0 <= j < i - 1 implies rest[j].0@ != k by {
                assert(rest[j] == entries[j + 1]);
            }
        }
        lemma_first_value_at(rest, k, i - 1);
    }
}

pub proof fn lemma_first_value_absent<V>(entries: Seq<(String, V)>, k: Seq<char>)
    requires
        forall|j: int| 0 <= j < entries.len() ==> entries[j].0@ != k,
    ensures
        first_value(entries, k) is None,
    decreases entries.len(),
{
    if entries.len() > 0 {
        let rest = entries.drop_first();
        assert forall|j: int| 0 <= j < rest.len() implies rest[j].0@ != k by {
            assert(rest[j] == entries[j + 1]);
        }
        lemma_first_value_absent(rest, k);
    }
}

pub proof fn lemma_first_value_some<V>(entries: Seq<(String, V)>, k: Seq<char>)
    requires
        first_value(entries, k) is Some,
    ensures
        exists|i: int| first_index_of(entries, k, i) && first_value(entries, k) == Some(entries[i].1),
    decreases entries.len(),
{
    if entries[0].0@ == k {
        assert(first_index_of(entries, k, 0));
    } else {
        let rest = entries.drop_first();
        lemma_first_value_some(rest, k);
        let i = choose|i: int| first_index_of(rest, k, i) && first_value(rest, k) == Some(rest[i].1);
        assert(first_index_of(entries, k, i + 1)) by {
            assert forall|j: int| 0 <= j < i + 1 implies entries[j].0@ != k by {
                if j > 0 {
                    assert(entries[j] == rest[j - 1]);
                }
            }
        }
    }
}

pub proof fn lemma_first_value_update<V>(entries: Seq<(String, V)>, k: Seq<char>, i: int, e: (String, V), q: Seq<char>)
    requires
        first_index_of(entries, k, i),
        e.0@ == k,
    ensures
        first_value(entries.update(i, e), q) == if q == k { Some(e.1) } else { first_value(entries, q) },
    decreases i,
{
    let u = entries.update(i, e);
    if q == k {
        assert(first_index_of(u, k, i));
        lemma_first_value_at(u, k, i);
    } else if i == 0 {
        assert(u.drop_first() =~= entries.drop_first());
    } else {
        let rest = entries.drop_first();
        assert(first_index_of(rest, k, i - 1)) by {
            assert forall|j: int| 0 <= j < i - 1 implies rest[j].0@ != k by {
                assert(rest[j] == entries[j + 1]);
            }
        }
        lemma_first_value_update(rest, k, i - 1, e, q);
        assert(u.drop_first() =~= rest.update(i - 1, e));
    }
}

pub proof fn lemma_first_value_push<V>(entries: Seq<(String, V)>, e: (String, V), q: Seq<char>)
    requires
        first_value(entries, e.0@) is None,
    ensures
        first_value(entries.push(e), q) == if q == e.0@ { Some(e.1) } else { first_value(entries, q) },
    decreases entries.len(),
{
    let p = entries.push(e);
    if entries.len() == 0 {
        assert(p.drop_first() =~= Seq::<(String, V)>::empty());
        assert(p[0] == e);
        assert(first_value(p.drop_first(), q) is None);
        assert(first_value(entries, q) is None);
    } else {
        assert(p[0] == entries[0]);
        assert(entries[0].0@ != e.0@);
        assert(p.drop_first() =~= entries.drop_first().push(e));
        lemma_first_value_push(entries.drop_first(), e, q);
        if entries[0].0@ == q {
            assert(first_value(p, q) == Some(entries[0].1));
        } else {
            assert(first_value(p, q) == first_value(p.drop_first(), q));
        }
    }
}

/// A map from strings to values of type `V`.
#[derive(Debug, Clone)]
pub struct StringMap<V> {
    entries: Vec<(String, V)>,
}

impl<V> View for StringMap<V> {
    type V = Map<Seq<char>, V>;

    closed spec fn view(&self) -> Map<Seq<char>, V> {
        entries_map(self.entries@)
    }
}

impl<V> StringMap<V> {
    /// The empty map.
    pub fn new() -> (m: Self)
        ensures
            m@ == Map::<Seq<char>, V>::empty(),
    {
        let m = StringMap { entries: Vec::new() };
        assert(m@ =~= Map::<Seq<char>, V>::empty());
        m
    }

    /// The position of the first entry with key `key`.
    fn position(&self, key: &str) -> (r: Option<usize>)
        ensures
            match r {
                Some(i) => first_index_of(self.entries@, key@, i as int),
                None => forall|j: int| 0 <= j < self.entries@.len() ==> self.entries@[j].0@ != key@,
            },
    {
        let mut i: usize = 0;
        while i < self.entries.len()
            invariant
                i <= self.entries.len(),
                forall|j: int| 0 <= j < i ==> self.entries@[j].0@ != key@,
            decreases self.entries.len() - i,
        {
            if str_eq(self.entries[i].0.as_str(), key) {
                return Some(i);
            }
            i = i + 1;
        }
        None
    }

    /// The value stored under `key`.
    pub fn get(&self, key: &str) -> (r: Option<&V>)
        ensures
            match r {
                Some(v) => self@.contains_key(key@) && self@[key@] == *v,
                None => !self@.contains_key(key@),
            },
    {
        match self.position(key) {
            Some(i) => {
                proof {
                    lemma_first_value_at(self.entries@, key@, i as int);
                }
                Some(&self.entries[i].1)
            },
            None => {
                proof {
                    lemma_first_value_absent(self.entries@, key@);
                }
                None
            },
        }
    }

    /// Whether a value is stored under `key`.
    pub fn contains_key(&self, key: &str) -> (b: bool)
        ensures
            b == self@.contains_key(key@),
    {
        match self.get(key) {
            Some(_) => true,
            None => false,
        }
    }

    /// Store `value` under `key`, replacing any value stored there.
    pub fn insert(&mut self, key: String, value: V)
        ensures
            final(self)@ == old(self)@.insert(key@, value),
    {
        let ghost k = key@;
        match self.position(key.as_str()) {
            Some(i) => {
                let ghost before = self.entries@;
                let ghost e = (key, value);
                self.entries.set(i, (key, value));
                proof {
                    assert(self.entries@ == before.update(i as int, e));
                    assert forall|q: Seq<char>| #![auto] true implies first_value(self.entries@, q)
                        == if q == k { Some(value) } else { first_value(before, q) } by {
                        lemma_first_value_update(before, k, i as int, e, q);
                    }
                    assert(self@ =~= old(self)@.insert(k, value));
                }
            },
            None => {
                let ghost before = self.entries@;
                let ghost e = (key, value);
                proof {
                    lemma_first_value_absent(before, k);
                }
                self.entries.push((key, value));
                proof {
                    assert(self.entries@ == before.push(e));
                    assert forall|q: Seq<char>| #![auto] true implies first_value(self.entries@, q)
                        == if q == k { Some(value) } else { first_value(before, q) } by {
                        lemma_first_value_push(before, e, q);
                    }
                    assert(self@ =~= old(self)@.insert(k, value));
                }
            },
        }
    }

    /// The entries of the map: each key's value is that of its first entry.
    pub fn into_entries(self) -> (r: Vec<(String, V)>)
        ensures
            entries_map(r@) == self@,
    {
        self.entries
    }

    /// Remove every value.
    pub fn clear(&mut self)
        ensures
            final(self)@ == Map::<Seq<char>, V>::empty(),
    {
        self.entries.clear();
        assert(self@ =~= Map::<Seq<char>, V>::empty());
    }
}

} // verus!
