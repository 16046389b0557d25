//! Sequences whose entries are found by a key: the mathematical stand-in for the
//! engine's registries, which list their entries in insertion order.
use vstd::prelude::*;

verus! {

/// An entry that is identified by a key.
pub trait Keyed {
    type Key;

    spec fn key(&self) -> Self::Key;
}

/// The first index at which `key` occurs in `s`, if it occurs at all.
pub open spec fn position<T: Keyed>(s: Seq<T>, key: T::Key) -> Option<int>
    decreases s.len(),
{
    if s.len() == 0 {
        None
    } else {
        match position(s.drop_last(), key) {
            Some(i) => Some(i),
            None => if s.last().key() == key {
                Some(s.len() - 1)
            } else {
                None
            },
        }
    }
}

/// No two entries of `s` share a key.
pub open spec fn distinct_keys<T: Keyed>(s: Seq<T>) -> bool {
    forall|i: int, j: int| 0 <= i < j < s.len() ==> s[i].key() != s[j].key()
}

/// `position` finds the first entry with the key, and finds none exactly when
/// no entry has it.
pub proof fn lemma_position<T: Keyed>(s: Seq<T>, key: T::Key)
    ensures
        match position(s, key) {
            Some(i) => 0 <= i < s.len() && s[i].key() == key && forall|j: int|
                0 <= j < i ==> s[j].key() != key,
            None => forall|j: int| 0 <= j < s.len() ==> s[j].key() != key,
        },
    decreases s.len(),
{
    if s.len() > 0 {
        lemma_position(s.drop_last(), key);
        assert(forall|j: int| 0 <= j < s.len() - 1 ==> s.drop_last()[j] == s[j]);
    }
}

/// An index that holds the key, with no earlier one holding it, is the position.
pub proof fn lemma_position_at<T: Keyed>(s: Seq<T>, key: T::Key, i: int)
    requires
        0 <= i < s.len(),
        s[i].key() == key,
        forall|j: int| 0 <= j < i ==> s[j].key() != key,
    ensures
        position(s, key) == Some(i),
{
    lemma_position(s, key);
}

/// A key that no entry holds has no position.
pub proof fn lemma_position_none<T: Keyed>(s: Seq<T>, key: T::Key)
    requires
        forall|j: int| 0 <= j < s.len() ==> s[j].key() != key,
    ensures
        position(s, key) is None,
{
    lemma_position(s, key);
}

/// Replacing an entry by one with the same key moves no position.
pub proof fn lemma_position_update<T: Keyed>(s: Seq<T>, i: int, x: T, key: T::Key)
    requires
        0 <= i < s.len(),
        x.key() == s[i].key(),
    ensures
        position(s.update(i, x), key) == position(s, key),
{
    let t = s.update(i, x);
    lemma_position(s, key);
    match position(s, key) {
        Some(p) => {
            assert(t[p].key() == key);
            assert forall|j: int| 0 <= j < p implies t[j].key() != key by {
                assert(t[j].key() == s[j].key());
            }
            lemma_position_at(t, key, p);
        },
        None => {
            assert forall|j: int| 0 <= j < t.len() implies t[j].key() != key by {
                assert(t[j].key() == s[j].key());
            }
            lemma_position_none(t, key);
        },
    }
}

/// An entry added at the end is found there exactly when its key was not
/// there before; every other position stays.
pub proof fn lemma_position_push<T: Keyed>(s: Seq<T>, x: T, key: T::Key)
    ensures
        position(s.push(x), key) == match position(s, key) {
            Some(i) => Some(i),
            None => if x.key() == key {
                Some(s.len() as int)
            } else {
                None
            },
        },
{
    assert(s.push(x).drop_last() =~= s);
}

/// Replacing an entry by one with the same key keeps the keys distinct.
pub proof fn lemma_distinct_update<T: Keyed>(s: Seq<T>, i: int, x: T)
    requires
        distinct_keys(s),
        0 <= i < s.len(),
        x.key() == s[i].key(),
    ensures
        distinct_keys(s.update(i, x)),
{
    let t = s.update(i, x);
    assert forall|a: int, b: int| 0 <= a < b < t.len() implies t[a].key() != t[b].key() by {
        assert(t[a].key() == s[a].key());
        assert(t[b].key() == s[b].key());
    }
}

/// Adding an entry whose key is new keeps the keys distinct.
pub proof fn lemma_distinct_push<T: Keyed>(s: Seq<T>, x: T)
    requires
        distinct_keys(s),
        position(s, x.key()) is None,
    ensures
        distinct_keys(s.push(x)),
{
    lemma_position(s, x.key());
    let t = s.push(x);
    assert forall|a: int, b: int| 0 <= a < b < t.len() implies t[a].key() != t[b].key() by {
        if b < s.len() {
            assert(t[a] == s[a] && t[b] == s[b]);
        } else {
            assert(t[a] == s[a]);
        }
    }
}

/// Taking an entry out keeps the keys distinct.
pub proof fn lemma_distinct_remove<T: Keyed>(s: Seq<T>, i: int)
    requires
        distinct_keys(s),
        0 <= i < s.len(),
    ensures
        distinct_keys(s.remove(i)),
{
    let t = s.remove(i);
    assert forall|a: int, b: int| 0 <= a < b < t.len() implies t[a].key() != t[b].key() by {
        let a0 = if a < i { a } else { a + 1 };
        let b0 = if b < i { b } else { b + 1 };
        assert(t[a] == s[a0] && t[b] == s[b0]);
    }
}

/// A list that keeps, entry for entry, the keys of a list of distinct keys
/// has distinct keys.
pub proof fn lemma_distinct_same_keys<T: Keyed>(s: Seq<T>, t: Seq<T>)
    requires
        distinct_keys(s),
        s.len() == t.len(),
        forall|i: int| 0 <= i < s.len() ==> (#[trigger] t[i]).key() == s[i].key(),
    ensures
        distinct_keys(t),
{
    assert forall|a: int, b: int| 0 <= a < b < t.len() implies t[a].key() != t[b].key() by {
        assert(t[a].key() == s[a].key());
        assert(t[b].key() == s[b].key());
    }
}

} // verus!
