//! Association-list maps with distinct keys.
//!
//! The resource stores keep their per-frame tables as vectors of key/value
//! pairs with pairwise-distinct keys. The spec functions here give those
//! tables their mapping semantics: `lookup` is the value bound to a key, and
//! `distinct_keys` is the invariant every table maintains.

use vstd::prelude::*;

verus! {

/// The value bound to `key` in the association list `s`, scanning from the
/// back so that the most recent binding wins (with distinct keys there is at
/// most one binding anyway).
pub open spec fn lookup<K, V>(s: Seq<(K, V)>, key: K) -> Option<V>
    decreases s.len(),
{
    if s.len() == 0 {
        None
    } else if s.last().0 == key {
        Some(s.last().1)
    } else {
        lookup(s.drop_last(), key)
    }
}

/// No two entries of `s` bind the same key.
pub open spec fn distinct_keys<K, V>(s: Seq<(K, V)>) -> bool {
    forall|i: int, j: int| 0 <= i < j < s.len() ==> s[i].0 != s[j].0
}

/// Appending a fresh binding keeps the keys distinct.
pub proof fn lemma_push_distinct<K, V>(s: Seq<(K, V)>, key: K, value: V)
    requires
        distinct_keys(s),
        lookup(s, key) is None,
    ensures
        distinct_keys(s.push((key, value))),
{
    let t = s.push((key, value));
    assert forall|i: int, j: int| 0 <= i < j < t.len() implies t[i].0 != t[j].0 by {
        if j == s.len() {
            lemma_lookup_some_of_present(s, i);
        }
    }
}

/// A present entry makes `lookup` return a value (so an absent key has no
/// entry at any position).
pub proof fn lemma_lookup_some_of_present<K, V>(s: Seq<(K, V)>, i: int)
    requires
        0 <= i < s.len(),
    ensures
        lookup(s, s[i].0) is Some,
    decreases s.len(),
{
    if i < s.len() - 1 && s.last().0 != s[i].0 {
        lemma_lookup_some_of_present(s.drop_last(), i);
    }
}

/// With distinct keys, the entry at position `i` is exactly what `lookup`
/// finds for its key.
pub proof fn lemma_lookup_at<K, V>(s: Seq<(K, V)>, i: int)
    requires
        distinct_keys(s),
        0 <= i < s.len(),
    ensures
        lookup(s, s[i].0) == Some(s[i].1),
    decreases s.len(),
{
    if i < s.len() - 1 {
        assert(s.last().0 != s[i].0);
        lemma_lookup_at(s.drop_last(), i);
    }
}

/// A key that `lookup` resolves is bound at some position.
pub proof fn lemma_present_of_lookup_some<K, V>(s: Seq<(K, V)>, key: K)
    requires
        lookup(s, key) is Some,
    ensures
        exists|i: int|
            0 <= i < s.len() && #[trigger] s[i] == (key, lookup(s, key).unwrap()),
    decreases s.len(),
{
    if s.len() > 0 {
        if s.last().0 == key {
            assert(s[s.len() - 1] == (key, lookup(s, key).unwrap()));
        } else {
            lemma_present_of_lookup_some(s.drop_last(), key);
            let i = choose|i: int|
                0 <= i < s.drop_last().len() && #[trigger] s.drop_last()[i] == (
                key,
                lookup(s.drop_last(), key).unwrap(),
                );
            assert(s[i] == (key, lookup(s, key).unwrap()));
        }
    }
}

/// `lookup` resolves to the last binding of a key: an entry with no later
/// binding of the same key is what `lookup` finds.
pub proof fn lemma_lookup_last_match<K, V>(s: Seq<(K, V)>, i: int)
    requires
        0 <= i < s.len(),
        forall|j: int| i < j < s.len() ==> s[j].0 != s[i].0,
    ensures
        lookup(s, s[i].0) == Some(s[i].1),
    decreases s.len(),
{
    if i < s.len() - 1 {
        lemma_lookup_last_match(s.drop_last(), i);
    }
}

/// A key bound at no position resolves to nothing.
pub proof fn lemma_lookup_none_of_absent<K, V>(s: Seq<(K, V)>, key: K)
    requires
        forall|i: int| 0 <= i < s.len() ==> s[i].0 != key,
    ensures
        lookup(s, key) is None,
    decreases s.len(),
{
    if s.len() > 0 {
        lemma_lookup_none_of_absent(s.drop_last(), key);
    }
}

/// Looking a key up in a concatenation finds the back part's binding first.
pub proof fn lemma_lookup_concat<K, V>(s: Seq<(K, V)>, t: Seq<(K, V)>, key: K)
    ensures
        lookup(s + t, key) == if lookup(t, key) is Some {
            lookup(t, key)
        } else {
            lookup(s, key)
        },
    decreases t.len(),
{
    if t.len() == 0 {
        assert(s + t =~= s);
    } else {
        assert((s + t).drop_last() =~= s + t.drop_last());
        assert((s + t).last() == t.last());
        lemma_lookup_concat(s, t.drop_last(), key);
    }
}

/// Appending a binding for one key leaves every other key's binding alone,
/// and binds that key to the new value.
pub proof fn lemma_lookup_push<K, V>(s: Seq<(K, V)>, key: K, value: V, probe: K)
    ensures
        lookup(s.push((key, value)), probe) == if probe == key {
            Some(value)
        } else {
            lookup(s, probe)
        },
{
    let t = s.push((key, value));
    assert(t.last() == (key, value));
    assert(t.drop_last() =~= s);
}

} // verus!
