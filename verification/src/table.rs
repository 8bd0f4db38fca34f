//! First-match lookup in a sequence of key/value pairs.
//!
//! The capability tables of an adapter (display modes per format, support
//! mask per format, quality levels per format and sample count) and the
//! display-mode cache are all association lists; their contracts are stated
//! over this one lookup.

use vstd::prelude::*;

verus! {

/// The value of the first pair whose key equals `key`, if any.
pub open spec fn first_value<K, V>(s: Seq<(K, V)>, key: K) -> Option<V>
    decreases s.len(),
{
    if s.len() == 0 {
        None
    } else if s[0].0 == key {
        Some(s[0].1)
    } else {
        first_value(s.subrange(1, s.len() as int), key)
    }
}

/// A prefix free of `key` does not change the lookup's outcome.
pub proof fn lemma_first_value_skip<K, V>(s: Seq<(K, V)>, key: K, i: int)
    requires
        0 <= i <= s.len(),
        forall|j: int| 0 <= j < i ==> s[j].0 != key,
    ensures
        first_value(s, key) == first_value(s.subrange(i, s.len() as int), key),
    decreases i,
{
    if i > 0 {
        assert(s[0].0 != key);
        assert(first_value(s, key) == first_value(s.subrange(1, s.len() as int), key));
        assert(s.subrange(1, s.len() as int).subrange(i - 1, s.len() - 1) =~= s.subrange(
            i,
            s.len() as int,
        ));
        lemma_first_value_skip(s.subrange(1, s.len() as int), key, i - 1);
    } else {
        assert(s.subrange(0, s.len() as int) =~= s);
    }
}

/// Appending a pair leaves earlier keys' lookups unchanged and answers for
/// its own key where the key was absent before.
pub proof fn lemma_first_value_push<K, V>(s: Seq<(K, V)>, key: K, pair: (K, V))
    ensures
        first_value(s, key) is Some ==> first_value(s.push(pair), key) == first_value(s, key),
        first_value(s, key) is None && pair.0 == key ==> first_value(s.push(pair), key) == Some(
            pair.1,
        ),
        first_value(s, key) is None && pair.0 != key ==> first_value(s.push(pair), key)
            == None::<V>,
    decreases s.len(),
{
    if s.len() == 0 {
        assert(s.push(pair)[0] == pair);
        assert(s.push(pair).subrange(1, 1) =~= Seq::<(K, V)>::empty());
        if pair.0 != key {
            assert(first_value(s.push(pair), key) == first_value(
                s.push(pair).subrange(1, 1),
                key,
            ));
            assert(first_value(s.push(pair), key) is None);
        }
    } else {
        assert(s.push(pair)[0] == s[0]);
        assert(s.push(pair).subrange(1, s.len() + 1 as int) =~= s.subrange(1, s.len() as int).push(
            pair,
        ));
        lemma_first_value_push(s.subrange(1, s.len() as int), key, pair);
        if s[0].0 == key {
            assert(first_value(s, key) == Some(s[0].1));
            assert(first_value(s.push(pair), key) == Some(s[0].1));
        } else {
            assert(first_value(s, key) == first_value(s.subrange(1, s.len() as int), key));
            assert(first_value(s.push(pair), key) == first_value(
                s.subrange(1, s.len() as int).push(pair),
                key,
            ));
        }
    }
}

} // verus!
