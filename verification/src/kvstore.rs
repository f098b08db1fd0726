//! A verified association store keyed by byte strings.
//!
//! Several parts of the foreign state are maps from a name to a value: the
//! option store, an image's metadata, the command registry. They all share
//! this store: a vector of entries whose reading is the latest entry per key,
//! with exact contracts for lookup, insertion and removal.

use vstd::prelude::*;

use crate::bytes::bytes_clone;
use crate::bytes::bytes_eq;

verus! {

/// The value stored under a key: the latest entry wins.
pub open spec fn kv_lookup<T>(s: Seq<(Vec<u8>, T)>, key: Seq<u8>) -> Option<T>
    decreases s.len(),
{
    if s.len() == 0 {
        None
    } else if s.last().0@ == key {
        Some(s.last().1)
    } else {
        kv_lookup(s.drop_last(), key)
    }
}

/// No two entries share a key.
pub open spec fn keys_unique<T>(s: Seq<(Vec<u8>, T)>) -> bool {
    forall|i: int, j: int| 0 <= i < j < s.len() ==> s[i].0@ != s[j].0@
}

/// A key no entry holds reads as nothing.
pub proof fn lemma_lookup_absent<T>(s: Seq<(Vec<u8>, T)>, key: Seq<u8>)
    requires
        forall|j: int| 0 <= j < s.len() ==> s[j].0@ != key,
    ensures
        kv_lookup(s, key) is None,
    decreases s.len(),
{
    if s.len() > 0 {
        lemma_lookup_absent(s.drop_last(), key);
    }
}

/// A key that reads as nothing is held by no entry.
pub proof fn lemma_lookup_none_no_match<T>(s: Seq<(Vec<u8>, T)>, key: Seq<u8>)
    requires
        kv_lookup(s, key) is None,
    ensures
        forall|j: int| 0 <= j < s.len() ==> s[j].0@ != key,
    decreases s.len(),
{
    if s.len() > 0 {
        lemma_lookup_none_no_match(s.drop_last(), key);
        assert(forall|j: int| 0 <= j < s.len() - 1 ==> s.drop_last()[j] == s[j]);
    }
}

/// After replacing the last entry holding `key`, that key reads as the new
/// value.
pub proof fn lemma_lookup_after_update_same<T>(
    s: Seq<(Vec<u8>, T)>,
    t: Seq<(Vec<u8>, T)>,
    i: int,
    key: Seq<u8>,
    v: T,
)
    requires
        0 <= i < s.len(),
        t.len() == s.len(),
        forall|j: int| 0 <= j < s.len() && j != i ==> t[j] == s[j],
        t[i].0@ == key,
        t[i].1 == v,
        forall|j: int| i < j < s.len() ==> s[j].0@ != key,
    ensures
        kv_lookup(t, key) == Some(v),
    decreases s.len(),
{
    if i < s.len() - 1 {
        assert(t.last() == s.last());
        lemma_lookup_after_update_same(s.drop_last(), t.drop_last(), i, key, v);
    }
}

/// Replacing the entry at `i` leaves every other key's reading untouched.
pub proof fn lemma_lookup_after_update_other<T>(
    s: Seq<(Vec<u8>, T)>,
    t: Seq<(Vec<u8>, T)>,
    i: int,
    key: Seq<u8>,
    k2: Seq<u8>,
)
    requires
        0 <= i < s.len(),
        t.len() == s.len(),
        forall|j: int| 0 <= j < s.len() && j != i ==> t[j] == s[j],
        t[i].0@ == key,
        s[i].0@ == key,
        k2 != key,
    ensures
        kv_lookup(t, k2) == kv_lookup(s, k2),
    decreases s.len(),
{
    if i == s.len() - 1 {
        assert(t.drop_last() =~= s.drop_last());
    } else {
        assert(t.last() == s.last());
        lemma_lookup_after_update_other(s.drop_last(), t.drop_last(), i, key, k2);
    }
}

/// After appending an entry, its key reads as its value and every other key
/// is untouched.
pub proof fn lemma_lookup_after_push<T>(s: Seq<(Vec<u8>, T)>, e: (Vec<u8>, T))
    ensures
        kv_lookup(s.push(e), e.0@) == Some(e.1),
        forall|k2: Seq<u8>| k2 != e.0@ ==> kv_lookup(s.push(e), k2) == kv_lookup(s, k2),
{
    assert(s.push(e).last() == e);
    assert(s.push(e).drop_last() =~= s);
}

/// Removing the entry at `i` leaves every other key's reading untouched.
pub proof fn lemma_lookup_after_remove<T>(s: Seq<(Vec<u8>, T)>, i: int, k2: Seq<u8>)
    requires
        0 <= i < s.len(),
        s[i].0@ != k2,
    ensures
        kv_lookup(s.remove(i), k2) == kv_lookup(s, k2),
    decreases s.len(),
{
    if i == s.len() - 1 {
        assert(s.remove(i) =~= s.drop_last());
    } else {
        assert(s.remove(i).last() == s.last());
        assert(s.remove(i).drop_last() =~= s.drop_last().remove(i));
        if s.last().0@ != k2 {
            lemma_lookup_after_remove(s.drop_last(), i, k2);
        }
    }
}

/// Finds the index of the latest entry holding the key.
pub fn kv_find<T>(entries: &Vec<(Vec<u8>, T)>, key: &[u8]) -> (r: Option<usize>)
    ensures
        match r {
            Some(i) => {
                &&& i < entries@.len()
                &&& entries@[i as int].0@ == key@
                &&& forall|j: int| i < j < entries@.len() ==> entries@[j].0@ != key@
                &&& kv_lookup(entries@, key@) == Some(entries@[i as int].1)
            },
            None => kv_lookup(entries@, key@) is None,
        },
{
    let mut i: usize = entries.len();
    proof {
        assert(entries@.take(entries@.len() as int) =~= entries@);
    }
    while i > 0
        invariant
            i <= entries@.len(),
            kv_lookup(entries@, key@) == kv_lookup(entries@.take(i as int), key@),
            forall|j: int| i <= j < entries@.len() ==> entries@[j].0@ != key@,
        decreases i,
    {
        i -= 1;
        let ghost pre = entries@.take(i + 1 as int);
        proof {
            assert(pre.last() == entries@[i as int]);
            assert(pre.drop_last() =~= entries@.take(i as int));
        }
        if bytes_eq(entries[i].0.as_slice(), key) {
            return Some(i);
        }
    }
    None
}

/// Stores a value under a key: replaces the latest entry holding the key, or
/// appends one; every other key keeps its reading, and distinct keys stay
/// distinct.
pub fn kv_set<T>(entries: &mut Vec<(Vec<u8>, T)>, key: &[u8], value: T)
    ensures
        kv_lookup(final(entries)@, key@) == Some(value),
        forall|k2: Seq<u8>|
            k2 != key@ ==> kv_lookup(final(entries)@, k2) == kv_lookup(old(entries)@, k2),
        keys_unique(old(entries)@) ==> keys_unique(final(entries)@),
        final(entries)@.len() <= old(entries)@.len() + 1,
        forall|j: int|
            0 <= j < final(entries)@.len() ==> final(entries)@[j].1 == value || exists|k: int|
                0 <= k < old(entries)@.len() && final(entries)@[j].1 == old(entries)@[k].1,
{
    let ghost s = entries@;
    match kv_find(entries, key) {
        Some(i) => {
            let e = vstd::std_specs::vec::vec_index_mut(entries, i);
            e.1 = value;
            proof {
                lemma_lookup_after_update_same(s, entries@, i as int, key@, value);
                assert forall|k2: Seq<u8>| k2 != key@ ==> kv_lookup(entries@, k2) == kv_lookup(
                    s,
                    k2,
                ) by {
                    if k2 != key@ {
                        lemma_lookup_after_update_other(s, entries@, i as int, key@, k2);
                    }
                }
            }
        },
        None => {
            let owned_key = bytes_clone(key);
            entries.push((owned_key, value));
            proof {
                assert(entries@.drop_last() =~= s);
                assert(entries@ =~= s.push(entries@.last()));
                lemma_lookup_after_push(s, entries@.last());
                lemma_lookup_none_no_match(s, key@);
            }
        },
    }
}

/// Removes the entry holding a key, if any; every other key keeps its
/// reading. Needs distinct keys, which [`kv_set`] maintains, so that removing
/// the one entry leaves the key unset.
pub fn kv_remove<T>(entries: &mut Vec<(Vec<u8>, T)>, key: &[u8]) -> (was: bool)
    requires
        keys_unique(old(entries)@),
    ensures
        was == (kv_lookup(old(entries)@, key@) is Some),
        kv_lookup(final(entries)@, key@) is None,
        forall|k2: Seq<u8>|
            k2 != key@ ==> kv_lookup(final(entries)@, k2) == kv_lookup(old(entries)@, k2),
        keys_unique(final(entries)@),
        forall|j: int|
            0 <= j < final(entries)@.len() ==> exists|k: int|
                0 <= k < old(entries)@.len() && #[trigger] final(entries)@[j] == old(entries)@[k],
{
    let ghost s = entries@;
    match kv_find(entries, key) {
        None => false,
        Some(i) => {
            entries.remove(i);
            proof {
                assert(forall|j: int|
                    0 <= j < entries@.len() ==> entries@[j] == (if j < i as int {
                        s[j]
                    } else {
                        s[j + 1]
                    }));
                assert(forall|j: int| 0 <= j < entries@.len() ==> entries@[j].0@ != key@);
                lemma_lookup_absent(entries@, key@);
                assert forall|k2: Seq<u8>| k2 != key@ ==> kv_lookup(entries@, k2) == kv_lookup(
                    s,
                    k2,
                ) by {
                    if k2 != key@ {
                        lemma_lookup_after_remove(s, i as int, k2);
                    }
                }
            }
            true
        },
    }
}

} // verus!
