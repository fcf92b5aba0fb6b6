//! Lists of key/value pairs read as maps.
//!
//! The library stores its maps as lists in which no key occurs twice. This
//! module says which map such a list stands for and proves what the
//! containers built on it need.

use vstd::prelude::*;

verus! {

/// The map obtained by inserting `pairs` from first to last: where a key
/// occurs more than once, its last value stays.
pub open spec fn map_of<K, V>(pairs: Seq<(K, V)>) -> Map<K, V>
    decreases pairs.len(),
{
    if pairs.len() == 0 {
        Map::empty()
    } else {
        map_of(pairs.drop_last()).insert(pairs.last().0, pairs.last().1)
    }
}

/// No two entries of `pairs` share a key.
pub open spec fn distinct_keys<K, V>(pairs: Seq<(K, V)>) -> bool {
    forall|i: int, j: int| 0 <= i < j < pairs.len() ==> pairs[i].0 != pairs[j].0
}

/// Whether some entry of `pairs` carries `key`.
pub open spec fn has_key<K, V>(pairs: Seq<(K, V)>, key: K) -> bool {
    exists|i: int| 0 <= i < pairs.len() && #[trigger] pairs[i].0 == key
}

/// A list without its last entry still has distinct keys.
pub proof fn lemma_distinct_prefix<K, V>(pairs: Seq<(K, V)>)
    requires
        distinct_keys(pairs),
        pairs.len() > 0,
    ensures
        distinct_keys(pairs.drop_last()),
{
    let init = pairs.drop_last();
    assert forall|a: int, b: int| 0 <= a < b < init.len() implies init[a].0 != init[b].0 by {
        assert(pairs[a].0 != pairs[b].0);
    }
}

/// A key is in `map_of(pairs)` exactly when some entry carries it.
pub proof fn lemma_map_of_dom<K, V>(pairs: Seq<(K, V)>, key: K)
    ensures
        map_of(pairs).dom().contains(key) <==> has_key(pairs, key),
    decreases pairs.len(),
{
    if pairs.len() > 0 {
        let init = pairs.drop_last();
        lemma_map_of_dom(init, key);
        if map_of(pairs).dom().contains(key) {
            if pairs.last().0 == key {
                assert(pairs[pairs.len() - 1].0 == key);
            } else {
                let i = choose|i: int| 0 <= i < init.len() && #[trigger] init[i].0 == key;
                assert(pairs[i].0 == key);
            }
        }
        if has_key(pairs, key) {
            let i = choose|i: int| 0 <= i < pairs.len() && #[trigger] pairs[i].0 == key;
            if i < pairs.len() - 1 {
                assert(init[i].0 == key);
            }
        }
    }
}

/// With distinct keys, every entry is found in the map under its key.
pub proof fn lemma_map_of_entry<K, V>(pairs: Seq<(K, V)>, i: int)
    requires
        distinct_keys(pairs),
        0 <= i < pairs.len(),
    ensures
        map_of(pairs).dom().contains(pairs[i].0),
        map_of(pairs)[pairs[i].0] == pairs[i].1,
    decreases pairs.len(),
{
    if i < pairs.len() - 1 {
        let init = pairs.drop_last();
        lemma_distinct_prefix(pairs);
        lemma_map_of_entry(init, i);
        assert(init[i] == pairs[i]);
        assert(pairs[i].0 != pairs[pairs.len() - 1].0);
    }
}

/// With distinct keys, the map has as many keys as the list has entries.
pub proof fn lemma_map_of_len<K, V>(pairs: Seq<(K, V)>)
    requires
        distinct_keys(pairs),
    ensures
        map_of(pairs).dom().finite(),
        map_of(pairs).dom().len() == pairs.len(),
    decreases pairs.len(),
{
    if pairs.len() > 0 {
        let init = pairs.drop_last();
        lemma_distinct_prefix(pairs);
        lemma_map_of_len(init);
        lemma_map_of_dom(init, pairs.last().0);
        if has_key(init, pairs.last().0) {
            let i = choose|i: int| 0 <= i < init.len() && #[trigger] init[i].0 == pairs.last().0;
            assert(pairs[i].0 != pairs[pairs.len() - 1].0);
        }
    }
}

/// Replacing the value of entry `i` is an insert under that entry's key.
pub proof fn lemma_map_of_replace<K, V>(pairs: Seq<(K, V)>, i: int, value: V)
    requires
        distinct_keys(pairs),
        0 <= i < pairs.len(),
    ensures
        distinct_keys(pairs.update(i, (pairs[i].0, value))),
        map_of(pairs.update(i, (pairs[i].0, value))) == map_of(pairs).insert(pairs[i].0, value),
    decreases pairs.len(),
{
    let next = pairs.update(i, (pairs[i].0, value));
    assert(distinct_keys(next)) by {
        assert forall|a: int, b: int| 0 <= a < b < next.len() implies next[a].0 != next[b].0 by {
            assert(pairs[a].0 != pairs[b].0);
        }
    }
    let init = pairs.drop_last();
    if i == pairs.len() - 1 {
        assert(next.drop_last() == init);
        assert(map_of(next) == map_of(pairs).insert(pairs[i].0, value));
    } else {
        lemma_distinct_prefix(pairs);
        lemma_map_of_replace(init, i, value);
        assert(next.drop_last() == init.update(i, (init[i].0, value)));
        assert(next.last() == pairs.last());
        assert(pairs[i].0 != pairs[pairs.len() - 1].0);
        assert(map_of(next) == map_of(pairs).insert(pairs[i].0, value));
    }
}

/// Taking entry `i` out of a list with distinct keys takes its key out of
/// the map.
pub proof fn lemma_map_of_remove<K, V>(pairs: Seq<(K, V)>, i: int)
    requires
        distinct_keys(pairs),
        0 <= i < pairs.len(),
    ensures
        distinct_keys(pairs.remove(i)),
        map_of(pairs.remove(i)) == map_of(pairs).remove(pairs[i].0),
    decreases pairs.len(),
{
    let rest = pairs.remove(i);
    assert(distinct_keys(rest)) by {
        assert forall|a: int, b: int| 0 <= a < b < rest.len() implies rest[a].0 != rest[b].0 by {
            let x = if a < i { a } else { a + 1 };
            let y = if b < i { b } else { b + 1 };
            assert(rest[a] == pairs[x] && rest[b] == pairs[y]);
            assert(pairs[x].0 != pairs[y].0);
        }
    }
    let init = pairs.drop_last();
    lemma_distinct_prefix(pairs);
    if i == pairs.len() - 1 {
        assert(rest == init);
        lemma_map_of_dom(init, pairs[i].0);
        if has_key(init, pairs[i].0) {
            let j = choose|j: int| 0 <= j < init.len() && #[trigger] init[j].0 == pairs[i].0;
            assert(pairs[j].0 != pairs[i].0);
        }
        assert(map_of(rest) =~= map_of(pairs).remove(pairs[i].0));
    } else {
        lemma_map_of_remove(init, i);
        assert(rest.drop_last() == init.remove(i));
        assert(rest.last() == pairs.last());
        assert(init[i] == pairs[i]);
        assert(pairs[i].0 != pairs[pairs.len() - 1].0);
        assert(map_of(rest) =~= map_of(pairs).remove(pairs[i].0));
    }
}

/// Adding an entry under a key that no entry carries keeps the keys
/// distinct.
pub proof fn lemma_push_distinct<K, V>(pairs: Seq<(K, V)>, key: K, value: V)
    requires
        distinct_keys(pairs),
        !has_key(pairs, key),
    ensures
        distinct_keys(pairs.push((key, value))),
        map_of(pairs.push((key, value))) == map_of(pairs).insert(key, value),
{
    let more = pairs.push((key, value));
    assert forall|a: int, b: int| 0 <= a < b < more.len() implies more[a].0 != more[b].0 by {
        if b < pairs.len() {
            assert(pairs[a].0 != pairs[b].0);
        } else {
            assert(pairs[a].0 != key);
        }
    }
    assert(more.drop_last() == pairs);
}

} // verus!
