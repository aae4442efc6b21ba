//! Association lists keyed by text, and the map that such a list stands for.
//!
//! The stores of this library keep their records in a `Vec` in which no key
//! occurs twice. The functions here give such a list its meaning as a `Map`
//! and say how pushing, replacing and removing an entry change that map.

use vstd::prelude::*;

verus! {

/// A key as the library compares it: its characters.
pub type Key = Seq<char>;

/// No key occurs at two positions.
pub open spec fn distinct_keys<V>(entries: Seq<(Key, V)>) -> bool {
    forall|i: int, j: int| 0 <= i < j < entries.len() ==> entries[i].0 != entries[j].0
}

/// Some entry has the key `key`.
pub open spec fn has_key<V>(entries: Seq<(Key, V)>, key: Key) -> bool {
    exists|i: int| 0 <= i < entries.len() && #[trigger] entries[i].0 == key
}

/// A position at which `key` stands, if there is one.
pub open spec fn position_of<V>(entries: Seq<(Key, V)>, key: Key) -> int {
    choose|i: int| 0 <= i < entries.len() && #[trigger] entries[i].0 == key
}

/// The map from each key of `entries` to its value.
pub open spec fn as_map<V>(entries: Seq<(Key, V)>) -> Map<Key, V> {
    Map::new(|key: Key| has_key(entries, key), |key: Key| entries[position_of(entries, key)].1)
}

/// The entry at position `i` is what the map holds under its key.
pub proof fn lemma_entry_at<V>(entries: Seq<(Key, V)>, i: int)
    requires
        distinct_keys(entries),
        0 <= i < entries.len(),
    ensures
        as_map(entries).contains_key(entries[i].0),
        as_map(entries)[entries[i].0] == entries[i].1,
{
    let key = entries[i].0;
    assert(has_key(entries, key));
    let p = position_of(entries, key);
    assert(0 <= p < entries.len() && entries[p].0 == key);
    if p < i {
        assert(entries[p].0 != entries[i].0);
    } else if i < p {
        assert(entries[i].0 != entries[p].0);
    }
}

/// A key that stands at no position is not in the map.
pub proof fn lemma_absent<V>(entries: Seq<(Key, V)>, key: Key)
    requires
        forall|i: int| 0 <= i < entries.len() ==> entries[i].0 != key,
    ensures
        !as_map(entries).contains_key(key),
{
}

/// Appending an entry under a new key inserts it into the map.
pub proof fn lemma_push<V>(entries: Seq<(Key, V)>, key: Key, value: V)
    requires
        distinct_keys(entries),
        !as_map(entries).contains_key(key),
    ensures
        distinct_keys(entries.push((key, value))),
        as_map(entries.push((key, value))) == as_map(entries).insert(key, value),
{
    let grown = entries.push((key, value));
    assert forall|i: int, j: int| 0 <= i < j < grown.len() implies grown[i].0 != grown[j].0 by {
        if j == entries.len() {
            assert(grown[i] == entries[i]);
            if entries[i].0 == key {
                assert(has_key(entries, key));
            }
        } else {
            assert(grown[i] == entries[i] && grown[j] == entries[j]);
        }
    }
    let target = as_map(entries).insert(key, value);
    assert forall|k: Key| as_map(grown).contains_key(k) <==> target.contains_key(k) by {
        if has_key(grown, k) {
            let p = position_of(grown, k);
            if p < entries.len() {
                assert(entries[p].0 == k);
            }
        }
        if has_key(entries, k) {
            let p = position_of(entries, k);
            assert(grown[p].0 == k);
        }
        if k == key {
            assert(grown[entries.len() as int].0 == k);
        }
    }
    assert forall|k: Key| as_map(grown).contains_key(k) implies as_map(grown)[k] == target[k] by {
        let p = position_of(grown, k);
        lemma_entry_at(grown, p);
        if p < entries.len() {
            assert(grown[p] == entries[p]);
            lemma_entry_at(entries, p);
        }
    }
    assert(as_map(grown) =~= target);
}

/// Replacing the value at position `i` replaces it in the map.
pub proof fn lemma_replace<V>(entries: Seq<(Key, V)>, i: int, value: V)
    requires
        distinct_keys(entries),
        0 <= i < entries.len(),
    ensures
        distinct_keys(entries.update(i, (entries[i].0, value))),
        as_map(entries.update(i, (entries[i].0, value))) == as_map(entries).insert(
            entries[i].0,
            value,
        ),
{
    let key = entries[i].0;
    let changed = entries.update(i, (key, value));
    assert forall|a: int, b: int| 0 <= a < b < changed.len() implies changed[a].0
        != changed[b].0 by {
        assert(changed[a].0 == entries[a].0 && changed[b].0 == entries[b].0);
    }
    let target = as_map(entries).insert(key, value);
    assert forall|k: Key| as_map(changed).contains_key(k) <==> target.contains_key(k) by {
        if has_key(changed, k) {
            let p = position_of(changed, k);
            assert(entries[p].0 == k);
        }
        if has_key(entries, k) {
            let p = position_of(entries, k);
            assert(changed[p].0 == k);
        }
        if k == key {
            assert(changed[i].0 == k);
        }
    }
    assert forall|k: Key| as_map(changed).contains_key(k) implies as_map(changed)[k]
        == target[k] by {
        let p = position_of(changed, k);
        lemma_entry_at(changed, p);
        if p != i {
            assert(changed[p] == entries[p]);
            lemma_entry_at(entries, p);
            if p < i {
                assert(entries[p].0 != entries[i].0);
            } else {
                assert(entries[i].0 != entries[p].0);
            }
        }
    }
    assert(as_map(changed) =~= target);
}

/// Taking out the entry at position `i` removes its key from the map.
pub proof fn lemma_remove<V>(entries: Seq<(Key, V)>, i: int)
    requires
        distinct_keys(entries),
        0 <= i < entries.len(),
    ensures
        distinct_keys(entries.remove(i)),
        as_map(entries.remove(i)) == as_map(entries).remove(entries[i].0),
{
    let key = entries[i].0;
    let rest = entries.remove(i);
    assert forall|a: int, b: int| 0 <= a < b < rest.len() implies rest[a].0 != rest[b].0 by {
        let first = if a < i { a } else { a + 1 };
        let second = if b < i { b } else { b + 1 };
        assert(rest[a] == entries[first] && rest[b] == entries[second]);
    }
    let target = as_map(entries).remove(key);
    assert forall|k: Key| as_map(rest).contains_key(k) <==> target.contains_key(k) by {
        if has_key(rest, k) {
            let p = position_of(rest, k);
            let origin = if p < i { p } else { p + 1 };
            assert(rest[p] == entries[origin]);
            assert(entries[origin].0 == k);
            if origin < i {
                assert(entries[origin].0 != entries[i].0);
            } else {
                assert(entries[i].0 != entries[origin].0);
            }
        }
        if has_key(entries, k) && k != key {
            let p = position_of(entries, k);
            let q = if p < i { p } else { p - 1 };
            assert(rest[q] == entries[p]);
            assert(rest[q].0 == k);
        }
    }
    assert forall|k: Key| as_map(rest).contains_key(k) implies as_map(rest)[k] == target[k] by {
        let p = position_of(rest, k);
        let origin = if p < i { p } else { p + 1 };
        lemma_entry_at(rest, p);
        assert(rest[p] == entries[origin]);
        lemma_entry_at(entries, origin);
    }
    assert(as_map(rest) =~= target);
}

} // verus!
