//! Direct-message channel names.
//!
//! Mattermost names a direct-message channel `{user_id}__{user_id}`, with the
//! two user IDs in sorted order.

use vstd::prelude::*;
use crate::text::{chars_of, chars_slice, find_from, occurs_at, has_substring, string_from_chars, str_eq};

verus! {

/// The first position where `sep` occurs in `s`.
pub open spec fn first_occurrence(s: Seq<char>, sep: Seq<char>) -> int {
    choose|i: int| occurs_at(s, sep, i) && forall|j: int| 0 <= j < i ==> !occurs_at(s, sep, j)
}

/// The pieces of `s` between the occurrences of a non-empty `sep`, found left
/// to right without overlap (`str::split`).
pub open spec fn split_parts(s: Seq<char>, sep: Seq<char>) -> Seq<Seq<char>>
    decreases s.len(),
{
    if sep.len() > 0 && has_substring(s, sep) {
        let i = first_occurrence(s, sep);
        if 0 <= i && i + sep.len() <= s.len() {
            seq![s.subrange(0, i)] + split_parts(s.subrange(i + sep.len(), s.len() as int), sep)
        } else {
            seq![s]
        }
    } else {
        seq![s]
    }
}

/// The separator of direct-message channel names.
pub open spec fn dm_separator() -> Seq<char> {
    seq!['_', '_']
}

/// The two user IDs a direct-message channel name holds: the name contains
/// "__" and splits at it into exactly two pieces.
pub open spec fn dm_channel_parts(channel_id: Seq<char>) -> Option<(Seq<char>, Seq<char>)> {
    let parts = split_parts(channel_id, dm_separator());
    if has_substring(channel_id, dm_separator()) && parts.len() == 2 {
        Some((parts[0], parts[1]))
    } else {
        None
    }
}

/// The other member of a direct-message channel, for the member `me`.
pub open spec fn dm_partner(channel_id: Seq<char>, me: Seq<char>) -> Option<Seq<char>> {
    match dm_channel_parts(channel_id) {
        Some((a, b)) => if a == me { Some(b) } else if b == me { Some(a) } else { None },
        None => None,
    }
}

proof fn lemma_first_occurrence(s: Seq<char>, sep: Seq<char>, i: int)
    requires
        occurs_at(s, sep, i),
        forall|j: int| 0 <= j < i ==> !occurs_at(s, sep, j),
    ensures
        first_occurrence(s, sep) == i,
{
    let k = first_occurrence(s, sep);
    assert(occurs_at(s, sep, k) && forall|j: int| 0 <= j < k ==> !occurs_at(s, sep, j));
    if k < i {
        assert(!occurs_at(s, sep, k));
    } else if k > i {
        assert(!occurs_at(s, sep, i));
    }
}

proof fn lemma_split_without(s: Seq<char>, sep: Seq<char>)
    requires
        sep.len() > 0,
        !has_substring(s, sep),
    ensures
        split_parts(s, sep) == seq![s],
{
}

proof fn lemma_split_with(s: Seq<char>, sep: Seq<char>, i: int)
    requires
        sep.len() > 0,
        occurs_at(s, sep, i),
        forall|j: int| 0 <= j < i ==> !occurs_at(s, sep, j),
    ensures
        split_parts(s, sep) == seq![s.subrange(0, i)] + split_parts(s.subrange(i + sep.len(), s.len() as int), sep),
        split_parts(s.subrange(i + sep.len(), s.len() as int), sep).len() >= 1,
{
    lemma_first_occurrence(s, sep, i);
    lemma_split_nonempty(s.subrange(i + sep.len(), s.len() as int), sep);
}

proof fn lemma_split_nonempty(s: Seq<char>, sep: Seq<char>)
    ensures
        split_parts(s, sep).len() >= 1,
    decreases s.len(),
{
    if sep.len() > 0 && has_substring(s, sep) {
        let i = first_occurrence(s, sep);
        if 0 <= i && i + sep.len() <= s.len() {
            lemma_split_nonempty(s.subrange(i + sep.len(), s.len() as int), sep);
        }
    }
}

proof fn lemma_shifted_occurrence(s: Seq<char>, sep: Seq<char>, start: int, j: int)
    requires
        0 <= start <= s.len(),
        0 <= j,
    ensures
        occurs_at(s.subrange(start, s.len() as int), sep, j) == occurs_at(s, sep, start + j),
{
    let rest = s.subrange(start, s.len() as int);
    if j + sep.len() <= rest.len() {
        assert(rest.subrange(j, j + sep.len()) =~= s.subrange(start + j, start + j + sep.len()));
    }
}

proof fn lemma_dm_absent(s: Seq<char>)
    requires
        forall|j: int| 0 <= j ==> !occurs_at(s, dm_separator(), j),
    ensures
        dm_channel_parts(s) is None,
{
    if has_substring(s, dm_separator()) {
        let k = choose|k: int| occurs_at(s, dm_separator(), k);
        assert(!occurs_at(s, dm_separator(), k));
    }
}

proof fn lemma_dm_once(s: Seq<char>, i: int)
    requires
        occurs_at(s, dm_separator(), i),
        forall|j: int| 0 <= j < i ==> !occurs_at(s, dm_separator(), j),
        forall|j: int| i + 2 <= j ==> !occurs_at(s, dm_separator(), j),
    ensures
        dm_channel_parts(s) == Some((s.subrange(0, i), s.subrange(i + 2, s.len() as int))),
{
    let sep = dm_separator();
    let rest = s.subrange(i + 2, s.len() as int);
    lemma_split_with(s, sep, i);
    assert(!has_substring(rest, sep)) by {
        if has_substring(rest, sep) {
            let k = choose|k: int| occurs_at(rest, sep, k);
            lemma_shifted_occurrence(s, sep, i + 2, k);
        }
    }
    lemma_split_without(rest, sep);
    assert(split_parts(s, sep) =~= seq![s.subrange(0, i), rest]);
}

#[verifier::spinoff_prover]
#[verifier::rlimit(40)]
proof fn lemma_dm_twice(s: Seq<char>, i: int, k: int)
    requires
        occurs_at(s, dm_separator(), i),
        forall|j: int| 0 <= j < i ==> !occurs_at(s, dm_separator(), j),
        i + 2 <= k,
        occurs_at(s, dm_separator(), k),
        forall|j: int| i + 2 <= j < k ==> !occurs_at(s, dm_separator(), j),
    ensures
        dm_channel_parts(s) is None,
{
    let sep = dm_separator();
    let rest = s.subrange(i + 2, s.len() as int);
    lemma_split_with(s, sep, i);
    let j = k - (i + 2);
    lemma_shifted_occurrence(s, sep, i + 2, j);
    assert forall|m: int| 0 <= m < j implies !occurs_at(rest, sep, m) by {
        lemma_shifted_occurrence(s, sep, i + 2, m);
    }
    lemma_split_with(rest, sep, j);
    assert(split_parts(s, sep).len() >= 3);
}

/// A direct-message channel name made of two user IDs without underscores
/// joined by "__" splits back into those two IDs, and for each of them the
/// partner is the other.
pub proof fn law_dm_name_round_trip(a: Seq<char>, b: Seq<char>)
    requires
        forall|i: int| 0 <= i < a.len() ==> a[i] != '_',
        forall|i: int| 0 <= i < b.len() ==> b[i] != '_',
    ensures
        dm_channel_parts(a + dm_separator() + b) == Some((a, b)),
        dm_partner(a + dm_separator() + b, a) == Some(b),
        dm_partner(a + dm_separator() + b, b) == Some(a),
{
    let sep = dm_separator();
    let s = a + sep + b;
    let i = a.len() as int;
    assert(s.subrange(i, i + 2) =~= sep);
    assert forall|j: int| 0 <= j < i implies !occurs_at(s, sep, j) by {
        assert(s[j] == a[j]);
        assert(s.subrange(j, j + 2)[0] == s[j]);
    }
    assert forall|j: int| i + 2 <= j implies !occurs_at(s, sep, j) by {
        if j + 2 <= s.len() {
            assert(s[j] == b[j - i - 2]);
            assert(s.subrange(j, j + 2)[0] == s[j]);
        }
    }
    lemma_dm_once(s, i);
    assert(s.subrange(0, i) =~= a);
    assert(s.subrange(i + 2, s.len() as int) =~= b);
}

/// Parse a direct-message channel ID into the two user IDs it holds: `Some`
/// exactly when the ID contains "__" once and so splits into two pieces.
pub fn parse_dm_channel_id(channel_id: &str) -> (r: Option<(String, String)>)
    ensures
        match r {
            Some((a, b)) => dm_channel_parts(channel_id@) == Some((a@, b@)),
            None => dm_channel_parts(channel_id@) is None,
        },
{
    let v = chars_of(channel_id);
    let sep = chars_of("__");
    proof {
        reveal_strlit("__");
        assert(sep@ =~= dm_separator());
    }
    match find_from(&v, &sep, 0) {
        None => {
            proof {
                lemma_dm_absent(v@);
            }
            None
        },
        Some(i) => {
            let n = v.len();
            let m = sep.len();
            assert(occurs_at(v@, sep@, i as int));
            assert(i + m <= n);
            let after = i + m;
            match find_from(&v, &sep, after) {
                None => {
                    proof {
                        lemma_dm_once(v@, i as int);
                    }
                    let a = chars_slice(&v, 0, i);
                    let b = chars_slice(&v, after, v.len());
                    Some((string_from_chars(&a), string_from_chars(&b)))
                },
                Some(k) => {
                    proof {
                        lemma_dm_twice(v@, i as int, k as int);
                    }
                    None
                },
            }
        },
    }
}

/// The other member of a direct-message channel, when `current_user_id` is
/// one of its two members.
pub fn get_dm_partner_id(channel_id: &str, current_user_id: &str) -> (r: Option<String>)
    ensures
        match r {
            Some(p) => dm_partner(channel_id@, current_user_id@) == Some(p@),
            None => dm_partner(channel_id@, current_user_id@) is None,
        },
{
    match parse_dm_channel_id(channel_id) {
        Some((user1, user2)) => {
            if str_eq(user1.as_str(), current_user_id) {
                Some(user2)
            } else if str_eq(user2.as_str(), current_user_id) {
                Some(user1)
            } else {
                None
            }
        },
        None => None,
    }
}

} // verus!
