//! The mathematical model shared by the registry's collections.
//!
//! Every collection in this crate is a vector of rows where each row carries
//! its own key.  Its model is the finite map built by inserting the rows in
//! order, so a later row with the same key overwrites an earlier one.  The
//! lemmas here relate that map to the vector operations the executable code
//! performs: reading a row, replacing a row in place, and appending a row.

use vstd::prelude::*;

verus! {

/// The map described by a sequence of keyed rows, later rows winning.
pub open spec fn table_map<K, V>(s: Seq<V>, key: spec_fn(V) -> K) -> Map<K, V>
    decreases s.len(),
{
    if s.len() == 0 {
        Map::empty()
    } else {
        table_map(s.drop_last(), key).insert(key(s.last()), s.last())
    }
}

/// No two rows of `s` carry the same key.
pub open spec fn distinct_keys<K, V>(s: Seq<V>, key: spec_fn(V) -> K) -> bool {
    forall|i: int, j: int| 0 <= i < j < s.len() ==> key(s[i]) != key(s[j])
}

/// A key is in the table's map exactly when some row carries it.
pub proof fn lemma_table_map_dom<K, V>(s: Seq<V>, key: spec_fn(V) -> K, k: K)
    ensures
        table_map(s, key).contains_key(k) <==> exists|i: int|
            0 <= i < s.len() && #[trigger] key(s[i]) == k,
    decreases s.len(),
{
    if s.len() == 0 {
    } else {
        lemma_table_map_dom(s.drop_last(), key, k);
        if key(s.last()) == k {
            assert(key(s[s.len() - 1]) == k);
        } else {
            if table_map(s, key).contains_key(k) {
                let i = choose|i: int| 0 <= i < s.drop_last().len() && #[trigger] key(
                    s.drop_last()[i],
                ) == k;
                assert(key(s[i]) == k);
            }
            if exists|i: int| 0 <= i < s.len() && #[trigger] key(s[i]) == k {
                let i = choose|i: int| 0 <= i < s.len() && #[trigger] key(s[i]) == k;
                assert(key(s.drop_last()[i]) == k);
            }
        }
    }
}

/// With distinct keys, the row carrying a key is the map's value at that key.
pub proof fn lemma_table_map_row<K, V>(s: Seq<V>, key: spec_fn(V) -> K, i: int)
    requires
        distinct_keys(s, key),
        0 <= i < s.len(),
    ensures
        table_map(s, key).contains_key(key(s[i])),
        table_map(s, key)[key(s[i])] == s[i],
    decreases s.len(),
{
    if i == s.len() - 1 {
    } else {
        assert(distinct_keys(s.drop_last(), key)) by {
            assert forall|m: int, n: int|
                0 <= m < n < s.drop_last().len() implies key(s.drop_last()[m]) != key(
                s.drop_last()[n],
            ) by {
                assert(key(s[m]) != key(s[n]));
            }
        }
        lemma_table_map_row(s.drop_last(), key, i);
        assert(s.drop_last()[i] == s[i]);
        assert(key(s[i]) != key(s[s.len() - 1]));
    }
}

/// Replacing the row that carries `key(v)` inserts `v` into the map.
pub proof fn lemma_table_map_update<K, V>(s: Seq<V>, key: spec_fn(V) -> K, j: int, v: V)
    requires
        distinct_keys(s, key),
        0 <= j < s.len(),
        key(s[j]) == key(v),
    ensures
        table_map(s.update(j, v), key) == table_map(s, key).insert(key(v), v),
        distinct_keys(s.update(j, v), key),
    decreases s.len(),
{
    assert forall|m: int, n: int|
        0 <= m < n < s.update(j, v).len() implies key(s.update(j, v)[m]) != key(
        s.update(j, v)[n],
    ) by {
        assert(key(s[m]) != key(s[n]));
    }
    if j == s.len() - 1 {
        assert(s.update(j, v).drop_last() =~= s.drop_last());
        assert(s.update(j, v).last() == v);
        assert(table_map(s.update(j, v), key) =~= table_map(s, key).insert(key(v), v));
    } else {
        assert(distinct_keys(s.drop_last(), key)) by {
            assert forall|m: int, n: int|
                0 <= m < n < s.drop_last().len() implies key(s.drop_last()[m]) != key(
                s.drop_last()[n],
            ) by {
                assert(key(s[m]) != key(s[n]));
            }
        }
        assert(s.drop_last()[j] == s[j]);
        lemma_table_map_update(s.drop_last(), key, j, v);
        assert(s.update(j, v).drop_last() =~= s.drop_last().update(j, v));
        assert(s.update(j, v).last() == s.last());
        // The two inserts commute: the last row's key differs from key(v).
        assert(key(s[j]) != key(s[s.len() - 1]));
        assert(table_map(s.update(j, v), key) =~= table_map(s, key).insert(key(v), v));
    }
}

/// Appending a row inserts it into the map.
pub proof fn lemma_table_map_push<K, V>(s: Seq<V>, key: spec_fn(V) -> K, v: V)
    ensures
        table_map(s.push(v), key) == table_map(s, key).insert(key(v), v),
{
    assert(s.push(v).drop_last() =~= s);
    assert(s.push(v).last() == v);
}

/// Appending a row with a fresh key keeps the keys distinct.
pub proof fn lemma_distinct_keys_push<K, V>(s: Seq<V>, key: spec_fn(V) -> K, v: V)
    requires
        distinct_keys(s, key),
        forall|i: int| 0 <= i < s.len() ==> #[trigger] key(s[i]) != key(v),
    ensures
        distinct_keys(s.push(v), key),
{
    assert forall|m: int, n: int|
        0 <= m < n < s.push(v).len() implies key(s.push(v)[m]) != key(s.push(v)[n]) by {
        if n < s.len() {
            assert(key(s[m]) != key(s[n]));
        } else {
            assert(key(s[m]) != key(v));
        }
    }
}

} // verus!
