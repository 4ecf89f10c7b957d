//! The catalogue of blockchain events: for each event its identifier, the
//! payload it carries, the realtime filter that subscribers send for it, and
//! the filter of its database queries.
//!
//! Account identifiers and hashes are held in their text form.
use vstd::prelude::*;

pub mod ft;
pub mod log;
pub mod newcontract;
pub mod ohlc;
pub mod nft;
pub mod pagination;
pub mod potlock;
pub mod price;
pub mod queries;
pub mod socialdb;
pub mod tps;
pub mod trade;
pub mod transactions;

verus! {

/// A wanted text, when given, equals the actual one.
pub open spec fn text_wanted(wanted: Option<String>, actual: Seq<char>) -> bool {
    match wanted {
        Some(w) => w@ == actual,
        None => true,
    }
}

/// Whether a wanted text, when given, equals the actual one.
pub fn text_wanted_ok(wanted: &Option<String>, actual: &String) -> (r: bool)
    ensures
        r == text_wanted(*wanted, actual@),
{
    match wanted {
        Some(w) => *w == *actual,
        None => true,
    }
}

/// `x` is one of the texts of `list`.
pub open spec fn list_has_text(list: Seq<String>, x: Seq<char>) -> bool {
    exists|i: int| 0 <= i < list.len() && (#[trigger] list[i])@ == x
}

/// Whether `x` is one of the texts of `list`.
pub fn list_contains_text(list: &Vec<String>, x: &String) -> (r: bool)
    ensures
        r == list_has_text(list@, x@),
{
    let mut i: usize = 0;
    while i < list.len()
        invariant
            0 <= i <= list.len(),
            forall|k: int| 0 <= k < i ==> (#[trigger] list@[k])@ != x@,
        decreases list.len() - i,
    {
        if list[i] == *x {
            return true;
        }
        i = i + 1;
    }
    false
}

/// `key` is the key of one of the entries of a keyed list.
pub open spec fn has_key<V>(entries: Seq<(String, V)>, key: Seq<char>) -> bool {
    exists|i: int| 0 <= i < entries.len() && (#[trigger] entries[i]).0@ == key
}

/// Whether `key` is the key of one of the entries.
pub fn contains_key<V>(entries: &Vec<(String, V)>, key: &String) -> (r: bool)
    ensures
        r == has_key(entries@, key@),
{
    let mut i: usize = 0;
    while i < entries.len()
        invariant
            0 <= i <= entries.len(),
            forall|k: int| 0 <= k < i ==> (#[trigger] entries@[k]).0@ != key@,
        decreases entries.len() - i,
    {
        if entries[i].0 == *key {
            return true;
        }
        i = i + 1;
    }
    false
}

/// The value stored under `key` in a keyed list (its first entry with that key).
pub open spec fn keyed_lookup<V>(entries: Seq<(String, V)>, key: Seq<char>) -> Option<V>
    decreases entries.len(),
{
    if entries.len() == 0 {
        None
    } else if entries[0].0@ == key {
        Some(entries[0].1)
    } else {
        keyed_lookup(entries.drop_first(), key)
    }
}

pub(crate) proof fn lemma_keyed_lookup_at<V>(s: Seq<(String, V)>, key: Seq<char>, i: int)
    requires
        0 <= i <= s.len(),
        forall|j: int| 0 <= j < i ==> (#[trigger] s[j]).0@ != key,
    ensures
        i < s.len() && s[i].0@ == key ==> keyed_lookup(s, key) == Some(s[i].1),
        i == s.len() ==> keyed_lookup(s, key) is None,
    decreases i,
{
    if i > 0 {
        let t = s.drop_first();
        assert forall|j: int| 0 <= j < i - 1 implies (#[trigger] t[j]).0@ != key by {
            assert(t[j] == s[j + 1]);
        }
        lemma_keyed_lookup_at(t, key, i - 1);
    }
}

/// The amount stored under `key` (its first entry), if any.
pub fn keyed_get(entries: &Vec<(String, u128)>, key: &String) -> (r: Option<u128>)
    ensures
        r == keyed_lookup(entries@, key@),
{
    let mut i: usize = 0;
    while i < entries.len()
        invariant
            0 <= i <= entries.len(),
            forall|k: int| 0 <= k < i ==> (#[trigger] entries@[k]).0@ != key@,
        decreases entries.len() - i,
    {
        if entries[i].0 == *key {
            proof {
                lemma_keyed_lookup_at(entries@, key@, i as int);
            }
            return Some(entries[i].1);
        }
        i = i + 1;
    }
    proof {
        lemma_keyed_lookup_at(entries@, key@, i as int);
    }
    None
}

} // verus!
