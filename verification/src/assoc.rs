//! Association lists as a model of finite maps.
//!
//! The containers of this crate keep their entries in a vector of pairs whose
//! keys are pairwise distinct. This module says which map such a list stands
//! for and proves how the list operations act on that map.

use vstd::prelude::*;

verus! {

/// The map that a list of pairs stands for. Where a key occurs twice, the
/// later pair counts.
pub open spec fn assoc_map<K, V>(pairs: Seq<(K, V)>) -> Map<K, V>
    decreases pairs.len(),
{
    if pairs.len() == 0 {
        Map::empty()
    } else {
        assoc_map(pairs.drop_last()).insert(pairs.last().0, pairs.last().1)
    }
}

/// No key occurs twice in the list.
pub open spec fn distinct_keys<K, V>(pairs: Seq<(K, V)>) -> bool {
    forall|i: int, j: int| 0 <= i < j < pairs.len() ==> pairs[i].0 != pairs[j].0
}

/// Some pair of the list has the key `k`.
pub open spec fn has_key<K, V>(pairs: Seq<(K, V)>, k: K) -> bool {
    exists|i: int| 0 <= i < pairs.len() && (#[trigger] pairs[i]).0 == k
}

/// The map's keys are exactly the keys of the list.
pub proof fn lemma_assoc_contains<K, V>(pairs: Seq<(K, V)>, k: K)
    ensures
        assoc_map(pairs).contains_key(k) <==> has_key(pairs, k),
    decreases pairs.len(),
{
    if pairs.len() > 0 {
        let init = pairs.drop_last();
        lemma_assoc_contains(init, k);
        if has_key(init, k) {
            let i = choose|i: int| 0 <= i < init.len() && (#[trigger] init[i]).0 == k;
            assert(pairs[i].0 == k);
        }
        if has_key(pairs, k) {
            let i = choose|i: int| 0 <= i < pairs.len() && (#[trigger] pairs[i]).0 == k;
            if i < init.len() {
                assert(init[i].0 == k);
            }
        }
        assert(pairs[pairs.len() - 1] == pairs.last());
    }
}

/// In a list without repeated keys, each pair's value is what the map holds
/// under that pair's key.
pub proof fn lemma_assoc_index<K, V>(pairs: Seq<(K, V)>, i: int)
    requires
        distinct_keys(pairs),
        0 <= i < pairs.len(),
    ensures
        assoc_map(pairs).contains_key(pairs[i].0),
        assoc_map(pairs)[pairs[i].0] == pairs[i].1,
    decreases pairs.len(),
{
    if i < pairs.len() - 1 {
        let init = pairs.drop_last();
        assert(distinct_keys(init)) by {
            assert forall|a: int, b: int| 0 <= a < b < init.len() implies init[a].0 != init[b].0 by {
                assert(pairs[a].0 != pairs[b].0);
            }
        }
        lemma_assoc_index(init, i);
        assert(init[i] == pairs[i]);
        assert(pairs[i].0 != pairs[pairs.len() - 1].0);
    }
}

/// Appending a pair inserts it into the map.
pub proof fn lemma_assoc_push<K, V>(pairs: Seq<(K, V)>, k: K, v: V)
    ensures
        assoc_map(pairs.push((k, v))) == assoc_map(pairs).insert(k, v),
{
    assert(pairs.push((k, v)).drop_last() =~= pairs);
}

/// Replacing the value of the pair at `i` inserts the new value under that
/// pair's key.
pub proof fn lemma_assoc_update<K, V>(pairs: Seq<(K, V)>, i: int, v: V)
    requires
        distinct_keys(pairs),
        0 <= i < pairs.len(),
    ensures
        assoc_map(pairs.update(i, (pairs[i].0, v))) == assoc_map(pairs).insert(pairs[i].0, v),
        distinct_keys(pairs.update(i, (pairs[i].0, v))),
    decreases pairs.len(),
{
    let k = pairs[i].0;
    let next = pairs.update(i, (k, v));
    let init = pairs.drop_last();
    if i == pairs.len() - 1 {
        assert(next.drop_last() =~= init);
        assert(assoc_map(next) =~= assoc_map(pairs).insert(k, v));
    } else {
        assert(distinct_keys(init)) by {
            assert forall|a: int, b: int| 0 <= a < b < init.len() implies init[a].0 != init[b].0 by {
                assert(pairs[a].0 != pairs[b].0);
            }
        }
        lemma_assoc_update(init, i, v);
        assert(init[i] == pairs[i]);
        assert(next.drop_last() =~= init.update(i, (k, v)));
        assert(next.last() == pairs.last());
        assert(pairs[i].0 != pairs[pairs.len() - 1].0);
        assert(assoc_map(next) =~= assoc_map(pairs).insert(k, v));
    }
    assert forall|a: int, b: int| 0 <= a < b < next.len() implies next[a].0 != next[b].0 by {
        assert(pairs[a].0 != pairs[b].0);
    }
}

/// Taking the pair at `i` out of a list without repeated keys removes its key
/// from the map.
pub proof fn lemma_assoc_remove<K, V>(pairs: Seq<(K, V)>, i: int)
    requires
        distinct_keys(pairs),
        0 <= i < pairs.len(),
    ensures
        assoc_map(pairs.remove(i)) == assoc_map(pairs).remove(pairs[i].0),
        distinct_keys(pairs.remove(i)),
    decreases pairs.len(),
{
    let k = pairs[i].0;
    let next = pairs.remove(i);
    let init = pairs.drop_last();
    assert forall|a: int, b: int| 0 <= a < b < next.len() implies next[a].0 != next[b].0 by {
        let a0 = if a < i { a } else { a + 1 };
        let b0 = if b < i { b } else { b + 1 };
        assert(next[a] == pairs[a0]);
        assert(next[b] == pairs[b0]);
        assert(pairs[a0].0 != pairs[b0].0);
    }
    assert(distinct_keys(init)) by {
        assert forall|a: int, b: int| 0 <= a < b < init.len() implies init[a].0 != init[b].0 by {
            assert(pairs[a].0 != pairs[b].0);
        }
    }
    if i == pairs.len() - 1 {
        assert(next =~= init);
        lemma_assoc_contains(init, k);
        if has_key(init, k) {
            let j = choose|j: int| 0 <= j < init.len() && (#[trigger] init[j]).0 == k;
            assert(pairs[j].0 != pairs[i].0);
        }
        assert(assoc_map(next) =~= assoc_map(pairs).remove(k));
    } else {
        lemma_assoc_remove(init, i);
        assert(init[i] == pairs[i]);
        assert(next.drop_last() =~= init.remove(i));
        assert(next.last() == pairs.last());
        assert(pairs[i].0 != pairs[pairs.len() - 1].0);
        assert(assoc_map(next) =~= assoc_map(pairs).remove(k));
    }
}

/// The map of a list has finitely many keys.
pub proof fn lemma_assoc_finite<K, V>(pairs: Seq<(K, V)>)
    ensures
        assoc_map(pairs).dom().finite(),
    decreases pairs.len(),
{
    if pairs.len() > 0 {
        lemma_assoc_finite(pairs.drop_last());
        assert(assoc_map(pairs).dom() =~= assoc_map(pairs.drop_last()).dom().insert(
            pairs.last().0,
        ));
    } else {
        assert(assoc_map(pairs).dom() =~= Set::empty());
    }
}

/// A list without repeated keys stands for a finite map with one key for each
/// pair.
pub proof fn lemma_assoc_len<K, V>(pairs: Seq<(K, V)>)
    requires
        distinct_keys(pairs),
    ensures
        assoc_map(pairs).dom().finite(),
        assoc_map(pairs).dom().len() == pairs.len(),
    decreases pairs.len(),
{
    if pairs.len() > 0 {
        let init = pairs.drop_last();
        assert(distinct_keys(init)) by {
            assert forall|a: int, b: int| 0 <= a < b < init.len() implies init[a].0 != init[b].0 by {
                assert(pairs[a].0 != pairs[b].0);
            }
        }
        lemma_assoc_len(init);
        lemma_assoc_contains(init, pairs.last().0);
        if has_key(init, pairs.last().0) {
            let j = choose|j: int| 0 <= j < init.len() && (#[trigger] init[j]).0 == pairs.last().0;
            assert(pairs[j].0 != pairs[pairs.len() - 1].0);
        }
        assert(assoc_map(pairs).dom() =~= assoc_map(init).dom().insert(pairs.last().0));
    } else {
        assert(assoc_map(pairs).dom() =~= Set::empty());
    }
}

} // verus!
