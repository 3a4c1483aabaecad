use vstd::prelude::*;

verus! {

/// The mapping that a walk over pairs fills: each pair is written in turn, so of
/// two pairs with one key the later one stays.
pub open spec fn mapping_of_pairs<V>(pairs: Seq<(Seq<char>, V)>) -> Map<Seq<char>, V>
    decreases pairs.len(),
{
    if pairs.len() == 0 {
        Map::empty()
    } else {
        mapping_of_pairs(pairs.drop_last()).insert(pairs.last().0, pairs.last().1)
    }
}

/// No key comes twice.
pub open spec fn distinct_keys<V>(pairs: Seq<(Seq<char>, V)>) -> bool {
    forall|i: int, j: int| 0 <= i < j < pairs.len() ==> pairs[i].0 != pairs[j].0
}

/// The place of the last pair with `key`, or -1 when no pair has it.
pub open spec fn last_index_of<V>(pairs: Seq<(Seq<char>, V)>, key: Seq<char>) -> int
    decreases pairs.len(),
{
    if pairs.len() == 0 {
        -1
    } else if pairs.last().0 == key {
        pairs.len() - 1
    } else {
        last_index_of(pairs.drop_last(), key)
    }
}

/// `last_index_of` finds the last pair with the key, and only -1 when none has it.
pub proof fn lemma_last_index_of<V>(pairs: Seq<(Seq<char>, V)>, key: Seq<char>)
    ensures
        -1 <= last_index_of(pairs, key) < pairs.len(),
        last_index_of(pairs, key) >= 0 ==> pairs[last_index_of(pairs, key)].0 == key,
        forall|j: int| last_index_of(pairs, key) < j < pairs.len() ==> (#[trigger] pairs[j]).0 != key,
    decreases pairs.len(),
{
    if pairs.len() > 0 && pairs.last().0 != key {
        let front = pairs.drop_last();
        lemma_last_index_of(front, key);
        assert forall|j: int| last_index_of(pairs, key) < j < pairs.len() implies (#[trigger] pairs[j]).0
            != key by {
            if j < front.len() {
                assert(front[j].0 != key);
            }
        }
    }
}

/// What a walk over `pairs` has written under `key`: the value of the last pair
/// with that key, and nothing when no pair has it.
pub proof fn lemma_mapping_of_pairs<V>(pairs: Seq<(Seq<char>, V)>, key: Seq<char>)
    ensures
        mapping_of_pairs(pairs).dom().finite(),
        mapping_of_pairs(pairs).contains_key(key) <==> last_index_of(pairs, key) >= 0,
        last_index_of(pairs, key) >= 0 ==> mapping_of_pairs(pairs)[key] == pairs[last_index_of(
            pairs,
            key,
        )].1,
    decreases pairs.len(),
{
    if pairs.len() > 0 {
        let front = pairs.drop_last();
        lemma_mapping_of_pairs(front, key);
        lemma_last_index_of(front, key);
        if pairs.last().0 != key {
            let k = last_index_of(front, key);
            if k >= 0 {
                assert(front[k] == pairs[k]);
            }
        }
    }
}

/// With no key twice, the only pair with a key is the last one with it.
pub proof fn lemma_distinct_index<V>(pairs: Seq<(Seq<char>, V)>, i: int)
    requires
        distinct_keys(pairs),
        0 <= i < pairs.len(),
    ensures
        last_index_of(pairs, pairs[i].0) == i,
{
    let key = pairs[i].0;
    lemma_last_index_of(pairs, key);
    let k = last_index_of(pairs, key);
    if k < i {
        assert(pairs[i].0 != key);
    } else if k > i {
        assert(pairs[i].0 != pairs[k].0);
    }
}

/// With no key twice, the mapping has one entry for each pair.
pub proof fn lemma_mapping_len<V>(pairs: Seq<(Seq<char>, V)>)
    requires
        distinct_keys(pairs),
    ensures
        mapping_of_pairs(pairs).dom().finite(),
        mapping_of_pairs(pairs).len() == pairs.len(),
    decreases pairs.len(),
{
    if pairs.len() > 0 {
        let front = pairs.drop_last();
        assert(distinct_keys(front)) by {
            assert forall|i: int, j: int| 0 <= i < j < front.len() implies front[i].0
                != front[j].0 by {
                assert(pairs[i].0 != pairs[j].0);
            }
        }
        lemma_mapping_len(front);
        let key = pairs.last().0;
        lemma_mapping_of_pairs(front, key);
        lemma_last_index_of(front, key);
        let k = last_index_of(front, key);
        if k >= 0 {
            assert(pairs[k].0 != pairs[pairs.len() - 1].0);
        }
    }
}

/// Where the keys of two walks agree place by place, a key is last found at
/// the same place in both.
pub proof fn lemma_same_keys<V>(
    a: Seq<(Seq<char>, V)>,
    b: Seq<(Seq<char>, V)>,
    key: Seq<char>,
)
    requires
        a.len() == b.len(),
        forall|i: int| 0 <= i < a.len() ==> (#[trigger] a[i]).0 == b[i].0,
    ensures
        last_index_of(a, key) == last_index_of(b, key),
    decreases a.len(),
{
    if a.len() > 0 {
        assert(a[a.len() - 1].0 == b[a.len() - 1].0);
        let x = a.drop_last();
        let y = b.drop_last();
        assert forall|i: int| 0 <= i < x.len() implies (#[trigger] x[i]).0 == y[i].0 by {
            assert(a[i].0 == b[i].0);
        }
        lemma_same_keys(x, y, key);
    }
}

/// Writing a new value at the place of a key that stands once is writing it
/// into the mapping.
pub proof fn lemma_mapping_update<V>(
    pairs: Seq<(Seq<char>, V)>,
    i: int,
    value: V,
)
    requires
        distinct_keys(pairs),
        0 <= i < pairs.len(),
    ensures
        distinct_keys(pairs.update(i, (pairs[i].0, value))),
        mapping_of_pairs(pairs.update(i, (pairs[i].0, value))) == mapping_of_pairs(pairs).insert(
            pairs[i].0,
            value,
        ),
{
    let key = pairs[i].0;
    let after = pairs.update(i, (key, value));
    assert(distinct_keys(after)) by {
        assert forall|x: int, y: int| 0 <= x < y < after.len() implies after[x].0 != after[y].0 by {
            assert(pairs[x].0 != pairs[y].0);
        }
    }
    let m1 = mapping_of_pairs(after);
    let m2 = mapping_of_pairs(pairs).insert(key, value);
    assert forall|k: Seq<char>| #[trigger] m1.dom().contains(k) == m2.dom().contains(k) by {
        lemma_mapping_of_pairs(after, k);
        lemma_mapping_of_pairs(pairs, k);
        lemma_same_keys(after, pairs, k);
        if k == key {
            lemma_distinct_index(pairs, i);
        }
    }
    assert forall|k: Seq<char>| m1.dom().contains(k) implies #[trigger] m1[k] == m2[k] by {
        lemma_mapping_of_pairs(after, k);
        lemma_mapping_of_pairs(pairs, k);
        lemma_same_keys(after, pairs, k);
        lemma_last_index_of(pairs, k);
        if k == key {
            lemma_distinct_index(pairs, i);
        } else {
            let at = last_index_of(pairs, k);
            assert(at != i);
            assert(after[at] == pairs[at]);
        }
    }
    assert(m1 =~= m2);
}

/// A pair with a key that no pair has yet keeps the keys distinct.
pub proof fn lemma_distinct_push<V>(pairs: Seq<(Seq<char>, V)>, pair: (Seq<char>, V))
    requires
        distinct_keys(pairs),
        last_index_of(pairs, pair.0) == -1,
    ensures
        distinct_keys(pairs.push(pair)),
        mapping_of_pairs(pairs.push(pair)) == mapping_of_pairs(pairs).insert(pair.0, pair.1),
{
    let after = pairs.push(pair);
    lemma_last_index_of(pairs, pair.0);
    assert forall|x: int, y: int| 0 <= x < y < after.len() implies after[x].0 != after[y].0 by {
        if y < pairs.len() {
            assert(pairs[x].0 != pairs[y].0);
        } else {
            assert(pairs[x].0 != pair.0);
        }
    }
    assert(after.drop_last() =~= pairs);
}

/// Taking out the pair of a key that stands once takes the key out of the
/// mapping.
pub proof fn lemma_mapping_remove<V>(pairs: Seq<(Seq<char>, V)>, i: int)
    requires
        distinct_keys(pairs),
        0 <= i < pairs.len(),
    ensures
        distinct_keys(pairs.remove(i)),
        mapping_of_pairs(pairs.remove(i)) == mapping_of_pairs(pairs).remove(pairs[i].0),
{
    let key = pairs[i].0;
    let after = pairs.remove(i);
    assert(distinct_keys(after)) by {
        assert forall|x: int, y: int| 0 <= x < y < after.len() implies after[x].0 != after[y].0 by {
            let px = if x < i { x } else { x + 1 };
            let py = if y < i { y } else { y + 1 };
            assert(after[x] == pairs[px]);
            assert(after[y] == pairs[py]);
            assert(pairs[px].0 != pairs[py].0);
        }
    }
    let m1 = mapping_of_pairs(after);
    let m2 = mapping_of_pairs(pairs).remove(key);
    assert forall|k: Seq<char>| #[trigger] m1.dom().contains(k) == m2.dom().contains(k) && (
    m1.dom().contains(k) ==> m1[k] == m2[k]) by {
        lemma_mapping_of_pairs(after, k);
        lemma_mapping_of_pairs(pairs, k);
        lemma_last_index_of(after, k);
        lemma_last_index_of(pairs, k);
        let a = last_index_of(after, k);
        let b = last_index_of(pairs, k);
        if a >= 0 {
            let pa = if a < i { a } else { a + 1 };
            assert(after[a] == pairs[pa]);
            assert(pairs[pa].0 == k);
            lemma_distinct_index(pairs, pa);
        }
        if b >= 0 && k != key {
            assert(b != i);
            let ab = if b < i { b } else { b - 1 };
            assert(after[ab] == pairs[b]);
            assert(after[ab].0 == k);
            lemma_distinct_index(after, ab);
        }
        if k == key {
            lemma_distinct_index(pairs, i);
        }
    }
    assert(m1 =~= m2);
}

} // verus!
