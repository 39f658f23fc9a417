//! A plain model of JSON values, for the free-form parts of the data.

use vstd::prelude::*;

verus! {

/// A JSON value. Numbers that are not integers are kept as their text.
#[derive(Debug)]
pub enum JsonValue {
    Null,
    Bool(bool),
    Int(i64),
    UInt(u64),
    /// A number that is not an integer, as written.
    Number(String),
    Str(String),
    Array(Vec<JsonValue>),
    Object(Vec<(String, JsonValue)>),
}

/// Whether `b` is the same JSON value as `a`: equal scalars, and arrays and
/// objects whose elements (and keys) are the same, in the same order.
pub open spec fn same_json(a: JsonValue, b: JsonValue) -> bool
    decreases a
    via same_json_decreases
{
    match a {
        JsonValue::Array(x) => match b {
            JsonValue::Array(y) => {
                &&& x@.len() == y@.len()
                &&& forall|i: int| 0 <= i < x@.len() ==> #[trigger] same_json(x@[i], y@[i])
            },
            _ => false,
        },
        JsonValue::Object(x) => match b {
            JsonValue::Object(y) => {
                &&& x@.len() == y@.len()
                &&& forall|i: int| #![trigger x@[i]] 0 <= i < x@.len() ==> x@[i].0 == y@[i].0
                &&& forall|i: int| 0 <= i < x@.len() ==> #[trigger] same_json(x@[i].1, y@[i].1)
            },
            _ => false,
        },
        _ => a == b,
    }
}

#[via_fn]
proof fn same_json_decreases(a: JsonValue, b: JsonValue) {
    match a {
        JsonValue::Array(x) => {
            assert forall|i: int| 0 <= i < x@.len() implies decreases_to!(a => x@[i]) by {
                assert(decreases_to!(x => x@));
                assert(decreases_to!(x@ => x@[i]));
            }
        },
        JsonValue::Object(x) => {
            assert forall|i: int| 0 <= i < x@.len() implies decreases_to!(a => x@[i].1) by {
                assert(decreases_to!(x => x@));
                assert(decreases_to!(x@ => x@[i]));
                assert(decreases_to!(x@[i] => x@[i].1));
            }
        },
        _ => {},
    }
}

/// Arrays whose elements are the same, in order, are the same.
proof fn lemma_same_array(x: Vec<JsonValue>, y: Vec<JsonValue>)
    requires
        x@.len() == y@.len(),
        forall|i: int| 0 <= i < x@.len() ==> #[trigger] same_json(x@[i], y@[i]),
    ensures
        same_json(JsonValue::Array(x), JsonValue::Array(y)),
{
    let a = JsonValue::Array(x);
    let b = JsonValue::Array(y);
    assert(a matches JsonValue::Array(xx) && xx == x);
    assert(b matches JsonValue::Array(yy) && yy == y);
    assert forall|i: int| 0 <= i < x@.len() implies same_json(x@[i], y@[i]) by {}
    assert(same_json(a, b) == (x@.len() == y@.len() && forall|i: int| 0 <= i < x@.len() ==> #[trigger] same_json(x@[i], y@[i])));
}

/// Objects whose entries have the same keys and the same values, in order,
/// are the same.
proof fn lemma_same_object(x: Vec<(String, JsonValue)>, y: Vec<(String, JsonValue)>)
    requires
        x@.len() == y@.len(),
        forall|i: int| #![trigger x@[i]] 0 <= i < x@.len() ==> x@[i].0 == y@[i].0,
        forall|i: int| 0 <= i < x@.len() ==> #[trigger] same_json(x@[i].1, y@[i].1),
    ensures
        same_json(JsonValue::Object(x), JsonValue::Object(y)),
{
    let a = JsonValue::Object(x);
    let b = JsonValue::Object(y);
    assert(a matches JsonValue::Object(xx) && xx == x);
    assert(b matches JsonValue::Object(yy) && yy == y);
    assert forall|i: int| 0 <= i < x@.len() implies same_json(x@[i].1, y@[i].1) by {}
    assert(same_json(a, b) == (x@.len() == y@.len()
        && (forall|i: int| #![trigger x@[i]] 0 <= i < x@.len() ==> x@[i].0 == y@[i].0)
        && forall|i: int| 0 <= i < x@.len() ==> #[trigger] same_json(x@[i].1, y@[i].1)));
}

impl JsonValue {
    /// A copy of this value.
    pub fn duplicate(&self) -> (r: JsonValue)
        ensures
            same_json(*self, r),
        decreases self,
    {
        match self {
            JsonValue::Null => JsonValue::Null,
            JsonValue::Bool(b) => JsonValue::Bool(*b),
            JsonValue::Int(n) => JsonValue::Int(*n),
            JsonValue::UInt(n) => JsonValue::UInt(*n),
            JsonValue::Number(t) => JsonValue::Number(t.clone()),
            JsonValue::Str(t) => JsonValue::Str(t.clone()),
            JsonValue::Array(items) => {
                let mut out: Vec<JsonValue> = Vec::new();
                let mut i: usize = 0;
                #[verifier::loop_isolation(false)]
                while i < items.len()
                    invariant
                        i <= items.len(),
                        out@.len() == i,
                        forall|j: int| 0 <= j < i ==> #[trigger] same_json(items@[j], out@[j]),
                    decreases items.len() - i,
                {
                    assert(decreases_to!(*self => *items));
                    assert(decreases_to!(*items => items@));
                    assert(decreases_to!(items@ => items@[i as int]));
                    assert(decreases_to!(*self => items@[i as int]));
                    let v = items[i].duplicate();
                    out.push(v);
                    assert(same_json(items@[i as int], out@[i as int]));
                    i = i + 1;
                }
                let r = JsonValue::Array(out);
                proof {
                    lemma_same_array(*items, out);
                }
                r
            },
            JsonValue::Object(entries) => {
                let mut out: Vec<(String, JsonValue)> = Vec::new();
                let mut i: usize = 0;
                #[verifier::loop_isolation(false)]
                while i < entries.len()
                    invariant
                        i <= entries.len(),
                        out@.len() == i,
                        forall|j: int| #![trigger out@[j]] 0 <= j < i ==> entries@[j].0 == out@[j].0,
                        forall|j: int| 0 <= j < i ==> #[trigger] same_json(entries@[j].1, out@[j].1),
                    decreases entries.len() - i,
                {
                    assert(decreases_to!(*self => *entries));
                    assert(decreases_to!(*entries => entries@));
                    assert(decreases_to!(entries@ => entries@[i as int]));
                    assert(decreases_to!(entries@[i as int] => entries@[i as int].1));
                    assert(decreases_to!(*self => entries@[i as int].1));
                    let v = entries[i].1.duplicate();
                    let k = entries[i].0.clone();
                    out.push((k, v));
                    assert(out@[i as int].0 == entries@[i as int].0);
                    assert(same_json(entries@[i as int].1, out@[i as int].1));
                    i = i + 1;
                }
                let r = JsonValue::Object(out);
                proof {
                    lemma_same_object(*entries, out);
                }
                r
            },
        }
    }
}

impl Clone for JsonValue {
    fn clone(&self) -> (r: JsonValue)
        ensures
            same_json(*self, r),
    {
        self.duplicate()
    }
}

/// The value stored under `key` in an object's entries (the first entry with
/// that key).
pub open spec fn lookup(entries: Seq<(String, JsonValue)>, key: Seq<char>) -> Option<JsonValue>
    decreases entries.len(),
{
    if entries.len() == 0 {
        None
    } else if entries[0].0@ == key {
        Some(entries[0].1)
    } else {
        lookup(entries.drop_first(), key)
    }
}

/// The text stored under `key`, when that value is a JSON string.
pub open spec fn str_at(entries: Seq<(String, JsonValue)>, key: Seq<char>) -> Option<Seq<char>> {
    match lookup(entries, key) {
        Some(JsonValue::Str(s)) => Some(s@),
        _ => None,
    }
}

/// The text stored under `key` when it is a JSON string, else the empty text.
pub open spec fn str_or_empty(entries: Seq<(String, JsonValue)>, key: Seq<char>) -> Seq<char> {
    match str_at(entries, key) {
        Some(s) => s,
        None => Seq::empty(),
    }
}

/// The value stored under `key` in an object's entries.
pub fn get<'a>(entries: &'a Vec<(String, JsonValue)>, key: &str) -> (r: Option<&'a JsonValue>)
    ensures
        match r {
            Some(v) => lookup(entries@, key@) == Some(*v),
            None => lookup(entries@, key@) is None,
        },
{
    let mut i: usize = 0;
    assert(entries@.subrange(0, entries@.len() as int) =~= entries@);
    while i < entries.len()
        invariant
            i <= entries.len(),
            lookup(entries@, key@) == lookup(entries@.subrange(i as int, entries@.len() as int), key@),
        decreases entries.len() - i,
    {
        let ghost rest = entries@.subrange(i as int, entries@.len() as int);
        assert(rest.drop_first() =~= entries@.subrange(i + 1, entries@.len() as int));
        if crate::text::str_eq(entries[i].0.as_str(), key) {
            return Some(&entries[i].1);
        }
        i = i + 1;
    }
    None
}

/// The text stored under `key`, when that value is a JSON string.
pub fn get_str(entries: &Vec<(String, JsonValue)>, key: &str) -> (r: Option<String>)
    ensures
        match r {
            Some(s) => str_at(entries@, key@) == Some(s@),
            None => str_at(entries@, key@) is None,
        },
{
    match get(entries, key) {
        Some(JsonValue::Str(s)) => Some(s.clone()),
        _ => None,
    }
}

/// The text stored under `key` when it is a JSON string, else the empty text.
pub fn get_str_or_empty(entries: &Vec<(String, JsonValue)>, key: &str) -> (r: String)
    ensures
        r@ == str_or_empty(entries@, key@),
{
    match get_str(entries, key) {
        Some(s) => s,
        None => String::new(),
    }
}

/// `b` holds the same entries as `a`, in the same order: the same keys, with
/// the same JSON values.
pub open spec fn same_entries(a: Seq<(String, JsonValue)>, b: Seq<(String, JsonValue)>) -> bool {
    &&& a.len() == b.len()
    &&& forall|i: int| #![trigger b[i]] 0 <= i < a.len() ==> b[i].0 == a[i].0
    &&& forall|i: int| 0 <= i < a.len() ==> #[trigger] same_json(a[i].1, b[i].1)
}

/// `b` holds the same JSON values as `a`, in the same order.
pub open spec fn same_values(a: Seq<JsonValue>, b: Seq<JsonValue>) -> bool {
    &&& a.len() == b.len()
    &&& forall|i: int| 0 <= i < a.len() ==> #[trigger] same_json(a[i], b[i])
}

/// A copy of an object's entries.
pub fn copy_entries(e: &Vec<(String, JsonValue)>) -> (r: Vec<(String, JsonValue)>)
    ensures
        same_entries(e@, r@),
{
    let mut r: Vec<(String, JsonValue)> = Vec::new();
    let mut i: usize = 0;
    while i < e.len()
        invariant
            i <= e@.len(),
            r@.len() == i,
            forall|j: int| #![trigger r@[j]] 0 <= j < i ==> r@[j].0 == e@[j].0,
            forall|j: int| 0 <= j < i ==> #[trigger] same_json(e@[j].1, r@[j].1),
        decreases e.len() - i,
    {
        let v = e[i].1.duplicate();
        let k = e[i].0.clone();
        r.push((k, v));
        assert(r@[i as int].0 == e@[i as int].0);
        assert(same_json(e@[i as int].1, r@[i as int].1));
        i = i + 1;
    }
    r
}

/// A copy of a list of JSON values.
pub fn copy_values(v: &Vec<JsonValue>) -> (r: Vec<JsonValue>)
    ensures
        same_values(v@, r@),
{
    let mut r: Vec<JsonValue> = Vec::new();
    let mut i: usize = 0;
    while i < v.len()
        invariant
            i <= v@.len(),
            r@.len() == i,
            forall|j: int| 0 <= j < i ==> #[trigger] same_json(v@[j], r@[j]),
        decreases v.len() - i,
    {
        let x = v[i].duplicate();
        r.push(x);
        assert(same_json(v@[i as int], r@[i as int]));
        i = i + 1;
    }
    r
}

} // verus!
