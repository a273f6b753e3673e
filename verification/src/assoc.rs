//! Small maps keyed by strings, kept as lists of pairs. Of two pairs with
//! the same key the later one counts.

use crate::tool_core::str_eq;
use vstd::prelude::*;

verus! {

/// The value stored under `key`, if any.
pub open spec fn assoc_get<V>(pairs: Seq<(String, V)>, key: Seq<char>) -> Option<V>
    decreases pairs.len(),
{
    if pairs.len() == 0 {
        None
    } else if pairs.last().0@ == key {
        Some(pairs.last().1)
    } else {
        assoc_get(pairs.drop_last(), key)
    }
}

/// Whether no pair of `pairs` has the key `key`.
pub open spec fn lacks_key<V>(pairs: Seq<(String, V)>, key: Seq<char>) -> bool {
    forall|i: int| 0 <= i < pairs.len() ==> (#[trigger] pairs[i]).0@ != key
}

/// A list without the key stores nothing under it.
pub proof fn lemma_lacks_key<V>(pairs: Seq<(String, V)>, key: Seq<char>)
    requires
        lacks_key(pairs, key),
    ensures
        assoc_get(pairs, key) is None,
    decreases pairs.len(),
{
    if pairs.len() > 0 {
        assert(pairs.last() == pairs[pairs.len() - 1]);
        assert forall|i: int| 0 <= i < pairs.drop_last().len() implies (#[trigger] pairs.drop_last()[i]).0@
            != key by {
            assert(pairs.drop_last()[i] == pairs[i]);
        }
        lemma_lacks_key(pairs.drop_last(), key);
    }
}

/// Taking out a pair leaves what is stored under other keys.
pub proof fn lemma_remove_other<V>(pairs: Seq<(String, V)>, i: int, key: Seq<char>)
    requires
        0 <= i < pairs.len(),
        pairs[i].0@ != key,
    ensures
        assoc_get(pairs.remove(i), key) == assoc_get(pairs, key),
    decreases pairs.len(),
{
    let r = pairs.remove(i);
    if i == pairs.len() - 1 {
        assert(r == pairs.drop_last());
    } else {
        assert(r.last() == pairs.last());
        assert(r.drop_last() == pairs.drop_last().remove(i));
        lemma_remove_other(pairs.drop_last(), i, key);
    }
}

/// Changing the value of the last pair with some key changes what is stored
/// under that key, and nothing else.
pub proof fn lemma_update_value<V>(pairs: Seq<(String, V)>, i: int, value: V, key: Seq<char>)
    requires
        0 <= i < pairs.len(),
        forall|j: int| i < j < pairs.len() ==> (#[trigger] pairs[j]).0@ != pairs[i].0@,
    ensures
        assoc_get(pairs.update(i, (pairs[i].0, value)), key) == if key == pairs[i].0@ {
            Some(value)
        } else {
            assoc_get(pairs, key)
        },
    decreases pairs.len(),
{
    let updated = pairs.update(i, (pairs[i].0, value));
    if i == pairs.len() - 1 {
        assert(updated.drop_last() == pairs.drop_last());
    } else {
        assert(updated.last() == pairs.last());
        assert(pairs.last() == pairs[pairs.len() - 1]);
        assert(updated.drop_last() == pairs.drop_last().update(i, (pairs[i].0, value)));
        assert forall|j: int| i < j < pairs.drop_last().len() implies (#[trigger] pairs.drop_last()[j]).0@
            != pairs.drop_last()[i].0@ by {
            assert(pairs.drop_last()[j] == pairs[j]);
        }
        lemma_update_value(pairs.drop_last(), i, value, key);
    }
}

/// The position of the last pair with the key `key`.
pub fn assoc_find<V>(pairs: &Vec<(String, V)>, key: &str) -> (r: Option<usize>)
    ensures
        match r {
            Some(i) => i < pairs.len() && pairs[i as int].0@ == key@ && assoc_get(pairs@, key@)
                == Some(pairs[i as int].1) && forall|j: int|
                i < j < pairs.len() ==> (#[trigger] pairs[j]).0@ != key@,
            None => assoc_get(pairs@, key@) is None,
        },
{
    let mut i: usize = pairs.len();
    assert(pairs@.take(i as int) == pairs@);
    while i > 0
        invariant
            i <= pairs.len(),
            assoc_get(pairs@, key@) == assoc_get(pairs@.take(i as int), key@),
            forall|j: int| i <= j < pairs.len() ==> (#[trigger] pairs[j]).0@ != key@,
        decreases i,
    {
        assert(pairs@.take(i as int).last() == pairs[i - 1]);
        assert(pairs@.take(i as int).drop_last() == pairs@.take(i - 1));
        if str_eq(pairs[i - 1].0.as_str(), key) {
            return Some(i - 1);
        }
        i -= 1;
    }
    None
}

/// Whether something is stored under `key`.
pub fn assoc_contains<V>(pairs: &Vec<(String, V)>, key: &str) -> (r: bool)
    ensures
        r == assoc_get(pairs@, key@) is Some,
{
    assoc_find(pairs, key).is_some()
}

/// Takes out every pair with the key `key`.
pub fn assoc_remove<V>(pairs: &mut Vec<(String, V)>, key: &str)
    ensures
        assoc_get(final(pairs)@, key@) is None,
        forall|k: Seq<char>| k != key@ ==> assoc_get(final(pairs)@, k) == assoc_get(old(pairs)@, k),
        final(pairs).len() <= old(pairs).len(),
{
    let mut i: usize = 0;
    while i < pairs.len()
        invariant
            i <= pairs.len(),
            pairs.len() <= old(pairs).len(),
            forall|j: int| 0 <= j < i ==> (#[trigger] pairs[j]).0@ != key@,
            forall|k: Seq<char>| k != key@ ==> assoc_get(pairs@, k) == assoc_get(old(pairs)@, k),
        decreases pairs.len() - i,
    {
        if str_eq(pairs[i].0.as_str(), key) {
            let ghost before = pairs@;
            pairs.remove(i);
            proof {
                assert forall|k: Seq<char>| k != key@ implies assoc_get(pairs@, k) == assoc_get(
                    old(pairs)@,
                    k,
                ) by {
                    lemma_remove_other(before, i as int, k);
                }
                assert forall|j: int| 0 <= j < i implies (#[trigger] pairs[j]).0@ != key@ by {
                    assert(pairs[j] == before[j]);
                }
            }
        } else {
            i += 1;
        }
    }
    proof {
        lemma_lacks_key(pairs@, key@);
    }
}

/// Stores `value` under `key`, in place of what was stored there.
pub fn assoc_insert<V>(pairs: &mut Vec<(String, V)>, key: String, value: V)
    ensures
        assoc_get(final(pairs)@, key@) == Some(value),
        forall|k: Seq<char>| k != key@ ==> assoc_get(final(pairs)@, k) == assoc_get(old(pairs)@, k),
{
    assoc_remove(pairs, key.as_str());
    let ghost mid = pairs@;
    pairs.push((key, value));
    proof {
        assert(pairs@.drop_last() == mid);
    }
}

} // verus!
