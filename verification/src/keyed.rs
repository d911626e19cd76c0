//! Lists of entries that are found by a key, seen as maps from key to entry.

use vstd::prelude::*;

verus! {

/// The entries of `entries` by key, where `key` gives the key of an entry.
pub open spec fn by_key<E, K>(entries: Seq<E>, key: spec_fn(E) -> K) -> Map<K, E> {
    Map::new(
        |k: K| exists|i: int| 0 <= i < entries.len() && key(#[trigger] entries[i]) == k,
        |k: K| entries[choose|i: int| 0 <= i < entries.len() && key(#[trigger] entries[i]) == k],
    )
}

/// No two entries of `entries` have the same key.
pub open spec fn distinct_keys<E, K>(entries: Seq<E>, key: spec_fn(E) -> K) -> bool {
    forall|i: int, j: int|
        0 <= i < j < entries.len() ==> key(#[trigger] entries[i]) != key(#[trigger] entries[j])
}

/// Each entry of a list with distinct keys is what the map holds for its key.
pub proof fn lemma_by_key_at<E, K>(entries: Seq<E>, key: spec_fn(E) -> K, i: int)
    requires
        distinct_keys(entries, key),
        0 <= i < entries.len(),
    ensures
        by_key(entries, key).contains_key(key(entries[i])),
        by_key(entries, key)[key(entries[i])] == entries[i],
{
    let k = key(entries[i]);
    let j = choose|j: int| 0 <= j < entries.len() && key(#[trigger] entries[j]) == k;
    if j < i {
        assert(key(entries[j]) != key(entries[i]));
    }
    if i < j {
        assert(key(entries[i]) != key(entries[j]));
    }
}

/// Every key of the map is the key of the entry filed under it.
pub proof fn lemma_by_key_keys<E, K>(entries: Seq<E>, key: spec_fn(E) -> K)
    requires
        distinct_keys(entries, key),
    ensures
        forall|k: K|
            by_key(entries, key).contains_key(k) ==> key(#[trigger] by_key(entries, key)[k]) == k,
{
    assert forall|k: K| by_key(entries, key).contains_key(k) implies key(
        #[trigger] by_key(entries, key)[k],
    ) == k by {
        let j = choose|j: int| 0 <= j < entries.len() && key(#[trigger] entries[j]) == k;
        lemma_by_key_at(entries, key, j);
    }
}

/// Replacing an entry by another with the same key changes the map at that
/// key only.
pub proof fn lemma_by_key_update<E, K>(entries: Seq<E>, key: spec_fn(E) -> K, i: int, e: E)
    requires
        distinct_keys(entries, key),
        0 <= i < entries.len(),
        key(e) == key(entries[i]),
    ensures
        distinct_keys(entries.update(i, e), key),
        by_key(entries.update(i, e), key) == by_key(entries, key).insert(key(e), e),
        by_key(entries, key).contains_key(key(e)),
        by_key(entries.update(i, e), key).dom() == by_key(entries, key).dom(),
{
    let after = entries.update(i, e);
    assert forall|a: int, b: int| 0 <= a < b < after.len() implies key(#[trigger] after[a]) != key(
        #[trigger] after[b],
    ) by {
        assert(key(after[a]) == key(entries[a]));
        assert(key(after[b]) == key(entries[b]));
    }
    lemma_by_key_at(entries, key, i);
    let m1 = by_key(after, key);
    let m2 = by_key(entries, key).insert(key(e), e);
    assert forall|k: K| m1.contains_key(k) <==> m2.contains_key(k) by {
        if m1.contains_key(k) {
            let j = choose|j: int| 0 <= j < after.len() && key(#[trigger] after[j]) == k;
            assert(key(entries[j]) == k);
        }
        if m2.contains_key(k) && k != key(e) {
            let j = choose|j: int| 0 <= j < entries.len() && key(#[trigger] entries[j]) == k;
            assert(key(after[j]) == k);
        }
        if k == key(e) {
            assert(key(after[i]) == k);
        }
    }
    assert forall|k: K| m1.contains_key(k) implies m1[k] == m2[k] by {
        let j = choose|j: int| 0 <= j < after.len() && key(#[trigger] after[j]) == k;
        lemma_by_key_at(after, key, j);
        if j != i {
            assert(key(entries[j]) == k);
            lemma_by_key_at(entries, key, j);
            if j < i {
                assert(key(entries[j]) != key(entries[i]));
            } else {
                assert(key(entries[i]) != key(entries[j]));
            }
        }
    }
    assert(m1 =~= m2);
    assert(m1.dom() =~= by_key(entries, key).dom());
}

/// Appending an entry with a new key adds it to the map.
pub proof fn lemma_by_key_push<E, K>(entries: Seq<E>, key: spec_fn(E) -> K, e: E)
    requires
        distinct_keys(entries, key),
        !by_key(entries, key).contains_key(key(e)),
    ensures
        distinct_keys(entries.push(e), key),
        by_key(entries.push(e), key) == by_key(entries, key).insert(key(e), e),
        by_key(entries.push(e), key).dom() == by_key(entries, key).dom().insert(key(e)),
{
    let after = entries.push(e);
    let n = entries.len() as int;
    assert forall|a: int, b: int| 0 <= a < b < after.len() implies key(#[trigger] after[a]) != key(
        #[trigger] after[b],
    ) by {
        assert(after[a] == entries[a]);
        if b == n {
            if key(entries[a]) == key(e) {
                assert(by_key(entries, key).contains_key(key(e)));
            }
        } else {
            assert(after[b] == entries[b]);
        }
    }
    let m1 = by_key(after, key);
    let m2 = by_key(entries, key).insert(key(e), e);
    assert(after[n] == e);
    assert forall|k: K| m1.contains_key(k) <==> m2.contains_key(k) by {
        if m1.contains_key(k) {
            let j = choose|j: int| 0 <= j < after.len() && key(#[trigger] after[j]) == k;
            if j < n {
                assert(key(entries[j]) == k);
            }
        }
        if m2.contains_key(k) && k != key(e) {
            let j = choose|j: int| 0 <= j < entries.len() && key(#[trigger] entries[j]) == k;
            assert(key(after[j]) == k);
        }
        if k == key(e) {
            assert(key(after[n]) == k);
        }
    }
    assert forall|k: K| m1.contains_key(k) implies m1[k] == m2[k] by {
        let j = choose|j: int| 0 <= j < after.len() && key(#[trigger] after[j]) == k;
        lemma_by_key_at(after, key, j);
        if j < n {
            assert(after[j] == entries[j]);
            lemma_by_key_at(entries, key, j);
        }
    }
    assert(m1 =~= m2);
    assert(m1.dom() =~= by_key(entries, key).dom().insert(key(e)));
}

/// Removing an entry removes its key from the map.
pub proof fn lemma_by_key_remove<E, K>(entries: Seq<E>, key: spec_fn(E) -> K, i: int)
    requires
        distinct_keys(entries, key),
        0 <= i < entries.len(),
    ensures
        distinct_keys(entries.remove(i), key),
        by_key(entries.remove(i), key) == by_key(entries, key).remove(key(entries[i])),
        by_key(entries.remove(i), key).dom() == by_key(entries, key).dom().remove(
            key(entries[i]),
        ),
        by_key(entries, key).contains_key(key(entries[i])),
{
    let after = entries.remove(i);
    let rid = key(entries[i]);
    assert forall|a: int, b: int| 0 <= a < b < after.len() implies key(#[trigger] after[a]) != key(
        #[trigger] after[b],
    ) by {
        let a0 = if a < i { a } else { a + 1 };
        let b0 = if b < i { b } else { b + 1 };
        assert(after[a] == entries[a0] && after[b] == entries[b0]);
    }
    let m1 = by_key(after, key);
    let m2 = by_key(entries, key).remove(rid);
    assert forall|k: K| m1.contains_key(k) <==> m2.contains_key(k) by {
        if m1.contains_key(k) {
            let j = choose|j: int| 0 <= j < after.len() && key(#[trigger] after[j]) == k;
            let j0 = if j < i { j } else { j + 1 };
            assert(after[j] == entries[j0]);
            assert(key(entries[j0]) == k);
            if j0 < i {
                assert(key(entries[j0]) != key(entries[i]));
            } else {
                assert(key(entries[i]) != key(entries[j0]));
            }
        }
        if m2.contains_key(k) {
            let j = choose|j: int| 0 <= j < entries.len() && key(#[trigger] entries[j]) == k;
            let j1 = if j < i { j } else { j - 1 };
            assert(after[j1] == entries[j]);
            assert(key(after[j1]) == k);
        }
    }
    assert forall|k: K| m1.contains_key(k) implies m1[k] == m2[k] by {
        let j = choose|j: int| 0 <= j < after.len() && key(#[trigger] after[j]) == k;
        let j0 = if j < i { j } else { j + 1 };
        assert(after[j] == entries[j0]);
        lemma_by_key_at(after, key, j);
        lemma_by_key_at(entries, key, j0);
    }
    assert(m1 =~= m2);
    assert(m1.dom() =~= by_key(entries, key).dom().remove(rid));
    lemma_by_key_at(entries, key, i);
}

/// A list with distinct keys has as many keys as entries.
pub proof fn lemma_by_key_len<E, K>(entries: Seq<E>, key: spec_fn(E) -> K)
    requires
        distinct_keys(entries, key),
    ensures
        by_key(entries, key).dom().finite(),
        by_key(entries, key).dom().len() == entries.len(),
    decreases entries.len(),
{
    if entries.len() == 0 {
        assert(by_key(entries, key).dom() =~= Set::<K>::empty());
    } else {
        let init = entries.drop_last();
        let last = entries.last();
        assert forall|a: int, b: int| 0 <= a < b < init.len() implies key(#[trigger] init[a])
            != key(#[trigger] init[b]) by {
            assert(init[a] == entries[a] && init[b] == entries[b]);
        }
        lemma_by_key_len(init, key);
        if by_key(init, key).contains_key(key(last)) {
            let j = choose|j: int| 0 <= j < init.len() && key(#[trigger] init[j]) == key(last);
            assert(init[j] == entries[j]);
            assert(key(entries[j]) != key(entries[entries.len() - 1]));
        }
        assert(init.push(last) =~= entries);
        lemma_by_key_push(init, key, last);
    }
}

} // verus!
