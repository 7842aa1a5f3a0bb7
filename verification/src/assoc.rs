//! Association lists as maps.
//!
//! Both stores keep their entries in a vector, one slot per key. Here is what
//! such a list means as a map, and how the two ways of writing to it (fill a
//! new slot, overwrite a slot) show up in that map.

use vstd::prelude::*;

verus! {

/// The map that binds `keys[i]` to `values[i]` for every slot `i`.
///
/// Meant for lists whose keys are pairwise distinct; with a repeated key the
/// binding is whichever of its slots `index_of` picks.
pub open spec fn as_map<K, V>(keys: Seq<K>, values: Seq<V>) -> Map<K, V> {
    Map::new(|k: K| keys.contains(k), |k: K| values[keys.index_of(k)])
}

/// In a list without repeated keys, slot `i` is where its key is bound.
pub proof fn lemma_slot<K, V>(keys: Seq<K>, values: Seq<V>, i: int)
    requires
        keys.no_duplicates(),
        keys.len() == values.len(),
        0 <= i < keys.len(),
    ensures
        as_map(keys, values).contains_key(keys[i]),
        as_map(keys, values)[keys[i]] == values[i],
{
    assert(keys.contains(keys[i]));
    assert(keys.index_of(keys[i]) == i);
}

/// A key that no slot holds is not bound.
pub proof fn lemma_absent<K, V>(keys: Seq<K>, values: Seq<V>, k: K)
    requires
        forall|i: int| 0 <= i < keys.len() ==> keys[i] != k,
    ensures
        !as_map(keys, values).contains_key(k),
{
}

/// Appending a slot for a key that is new to the list inserts the binding and
/// keeps the keys distinct.
pub proof fn lemma_push<K, V>(keys: Seq<K>, values: Seq<V>, k: K, v: V)
    requires
        keys.no_duplicates(),
        keys.len() == values.len(),
        !keys.contains(k),
    ensures
        keys.push(k).no_duplicates(),
        as_map(keys.push(k), values.push(v)) == as_map(keys, values).insert(k, v),
{
    let n = keys.len() as int;
    let keys2 = keys.push(k);
    let values2 = values.push(v);
    assert(keys2.no_duplicates()) by {
        assert forall|i: int, j: int|
            0 <= i < keys2.len() && 0 <= j < keys2.len() && i != j implies keys2[i] != keys2[j] by {
            if i < n && j < n {
                assert(keys[i] != keys[j]);
            } else if i < n {
                assert(keys[i] != k);
            } else {
                assert(keys[j] != k);
            }
        }
    }
    let before = as_map(keys, values);
    let after = as_map(keys2, values2);
    assert forall|key: K| after.contains_key(key) <==> before.insert(k, v).contains_key(key) by {
        if keys2.contains(key) {
            let i = keys2.index_of(key);
            if i < n {
                assert(keys[i] == key);
            }
        }
        if keys.contains(key) {
            let i = keys.index_of(key);
            assert(keys2[i] == key);
        }
        if key == k {
            assert(keys2[n] == key);
        }
    }
    assert forall|key: K| after.contains_key(key) implies after[key] == before.insert(k, v)[key] by {
        let i = keys2.index_of(key);
        lemma_slot(keys2, values2, i);
        if i < n {
            assert(keys[i] == key);
            lemma_slot(keys, values, i);
        }
    }
    assert(after =~= before.insert(k, v));
}

/// Overwriting the value in the slot of a key rebinds that key and nothing
/// else.
pub proof fn lemma_overwrite<K, V>(keys: Seq<K>, values: Seq<V>, i: int, v: V)
    requires
        keys.no_duplicates(),
        keys.len() == values.len(),
        0 <= i < keys.len(),
    ensures
        as_map(keys, values.update(i, v)) == as_map(keys, values).insert(keys[i], v),
{
    let values2 = values.update(i, v);
    let before = as_map(keys, values);
    let after = as_map(keys, values2);
    assert(keys.contains(keys[i]));
    assert forall|key: K| after.contains_key(key) implies after[key] == before.insert(keys[i], v)[key] by {
        let j = keys.index_of(key);
        lemma_slot(keys, values2, j);
        lemma_slot(keys, values, j);
    }
    assert(after =~= before.insert(keys[i], v));
}

} // verus!
