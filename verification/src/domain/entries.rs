//! Ordered maps from names to values: the contents of an `IndexMap` as a sequence of entries.

use vstd::prelude::*;

verus! {

/// The insertion-ordered hash map of the `indexmap` crate.
#[verifier::external_type_specification]
#[verifier::external_body]
#[verifier::reject_recursive_types(K)]
#[verifier::reject_recursive_types(V)]
#[verifier::reject_recursive_types(S)]
pub struct ExIndexMap<K, V, S>(indexmap::IndexMap<K, V, S>);

/// `IndexMap::clone` copies the map; nothing is claimed of the copies that `K` and `V` make.
pub assume_specification<K: Clone, V: Clone, S: Clone>[ <indexmap::IndexMap<K, V, S> as Clone>::clone ](
    map: &indexmap::IndexMap<K, V, S>,
) -> indexmap::IndexMap<K, V, S>;

/// The position of a key among entries, or the length where there is none.
pub open spec fn position<V>(entries: Seq<(Seq<char>, V)>, key: Seq<char>, from: int) -> int
    decreases entries.len() - from,
{
    if from >= entries.len() {
        entries.len() as int
    } else if entries[from].0 == key {
        from
    } else {
        position(entries, key, from + 1)
    }
}

pub open spec fn has<V>(entries: Seq<(Seq<char>, V)>, key: Seq<char>) -> bool {
    exists|i: int| 0 <= i < entries.len() && (#[trigger] entries[i]).0 == key
}

/// The value of a key.
pub open spec fn lookup<V>(entries: Seq<(Seq<char>, V)>, key: Seq<char>) -> Option<V> {
    let at = position(entries, key, 0);
    if at < entries.len() {
        Some(entries[at].1)
    } else {
        None
    }
}

/// The entries after an insertion: a known key keeps its place, a new one goes last.
pub open spec fn inserted<V>(entries: Seq<(Seq<char>, V)>, key: Seq<char>, value: V) -> Seq<
    (Seq<char>, V),
> {
    let at = position(entries, key, 0);
    if at < entries.len() {
        entries.update(at, (entries[at].0, value))
    } else {
        entries.push((key, value))
    }
}

/// No key occurs twice.
pub open spec fn distinct<V>(entries: Seq<(Seq<char>, V)>) -> bool {
    forall|i: int, j: int|
        0 <= i < j < entries.len() ==> (#[trigger] entries[i]).0 != (#[trigger] entries[j]).0
}

/// `count` entries with distinct keys.
pub open spec fn counts<V>(count: usize, entries: Seq<(Seq<char>, V)>) -> bool {
    count == entries.len() && distinct(entries)
}

pub proof fn lemma_position<V>(entries: Seq<(Seq<char>, V)>, key: Seq<char>, from: int)
    requires
        0 <= from <= entries.len(),
    ensures
        from <= position(entries, key, from) <= entries.len(),
        position(entries, key, from) < entries.len() ==> entries[position(entries, key, from)].0
            == key,
        forall|i: int| from <= i < position(entries, key, from) ==> (#[trigger] entries[i]).0 != key,
    decreases entries.len() - from,
{
    if from < entries.len() && entries[from].0 != key {
        lemma_position(entries, key, from + 1);
    }
}

/// A key is found exactly where it occurs.
pub proof fn lemma_lookup<V>(entries: Seq<(Seq<char>, V)>, key: Seq<char>)
    ensures
        lookup(entries, key) is Some <==> has(entries, key),
        forall|i: int|
            0 <= i < entries.len() && (#[trigger] entries[i]).0 == key && distinct(entries) ==> lookup(
                entries,
                key,
            ) == Some(entries[i].1),
{
    lemma_position(entries, key, 0);
    let at = position(entries, key, 0);
    if at < entries.len() {
        assert(entries[at].0 == key);
    }
    assert forall|i: int|
        0 <= i < entries.len() && (#[trigger] entries[i]).0 == key && distinct(
            entries,
        ) implies lookup(entries, key) == Some(entries[i].1) by {
        assert(at <= i);
        if at < i {
            assert(entries[at].0 != entries[i].0);
        }
    }
}

/// An insertion keeps keys distinct, sets its own key and leaves every other key as it was.
pub proof fn law_insert<V>(
    entries: Seq<(Seq<char>, V)>,
    key: Seq<char>,
    value: V,
    other: Seq<char>,
)
    requires
        distinct(entries),
    ensures
        distinct(inserted(entries, key, value)),
        lookup(inserted(entries, key, value), key) == Some(value),
        other != key ==> lookup(inserted(entries, key, value), other) == lookup(entries, other),
{
    let after = inserted(entries, key, value);
    lemma_position(entries, key, 0);
    let at = position(entries, key, 0);
    if at >= entries.len() {
        assert(after[entries.len() as int] == (key, value));
        assert forall|i: int, j: int| 0 <= i < j < after.len() implies (#[trigger] after[i]).0 != (
        #[trigger] after[j]).0 by {
            assert(after[i] == entries[i]);
        }
        lemma_lookup(after, key);
    } else {
        assert(after[at] == (entries[at].0, value));
        assert forall|i: int, j: int| 0 <= i < j < after.len() implies (#[trigger] after[i]).0 != (
        #[trigger] after[j]).0 by {
            assert(after[i].0 == entries[i].0);
            assert(after[j].0 == entries[j].0);
        }
        lemma_lookup(after, key);
    }
    if other != key {
        lemma_lookup(after, other);
        lemma_lookup(entries, other);
        if has(entries, other) {
            let i = choose|i: int| 0 <= i < entries.len() && (#[trigger] entries[i]).0 == other;
            assert(after[i] == entries[i]);
        }
        if has(after, other) {
            let i = choose|i: int| 0 <= i < after.len() && (#[trigger] after[i]).0 == other;
            assert(i < entries.len());
            assert(after[i] == entries[i]);
        }
    }
}

/// The entries without a key; the others keep their order.
pub open spec fn removed<V>(entries: Seq<(Seq<char>, V)>, key: Seq<char>) -> Seq<(Seq<char>, V)> {
    let at = position(entries, key, 0);
    if at < entries.len() {
        entries.remove(at)
    } else {
        entries
    }
}

/// A removal keeps keys distinct, takes its own key away and leaves every other key as it was.
pub proof fn law_remove<V>(entries: Seq<(Seq<char>, V)>, key: Seq<char>, other: Seq<char>)
    requires
        distinct(entries),
    ensures
        distinct(removed(entries, key)),
        lookup(removed(entries, key), key) is None,
        other != key ==> lookup(removed(entries, key), other) == lookup(entries, other),
{
    let after = removed(entries, key);
    lemma_position(entries, key, 0);
    let at = position(entries, key, 0);
    if at < entries.len() {
        assert forall|i: int| 0 <= i < after.len() implies #[trigger] after[i] == (if i < at {
            entries[i]
        } else {
            entries[i + 1]
        }) by {}
        assert forall|i: int, j: int| 0 <= i < j < after.len() implies (#[trigger] after[i]).0 != (
        #[trigger] after[j]).0 by {
            let a = if i < at { i } else { i + 1 };
            let b = if j < at { j } else { j + 1 };
            assert(entries[a].0 != entries[b].0);
        }
    }
    lemma_lookup(after, key);
    if has(after, key) {
        let i = choose|i: int| 0 <= i < after.len() && (#[trigger] after[i]).0 == key;
        if at < entries.len() {
            let a = if i < at { i } else { i + 1 };
            assert(entries[a].0 == key);
            assert(entries[at].0 == key);
        } else {
            assert(entries[i].0 == key);
        }
    }
    if other != key {
        lemma_lookup(after, other);
        lemma_lookup(entries, other);
        if has(entries, other) {
            let i = choose|i: int| 0 <= i < entries.len() && (#[trigger] entries[i]).0 == other;
            if at < entries.len() {
                let a = if i < at { i } else { i - 1 };
                assert(after[a] == entries[i]);
            } else {
                assert(after[i] == entries[i]);
            }
        }
        if has(after, other) {
            let i = choose|i: int| 0 <= i < after.len() && (#[trigger] after[i]).0 == other;
            if at < entries.len() {
                let a = if i < at { i } else { i + 1 };
                assert(entries[a] == after[i]);
            } else {
                assert(entries[i] == after[i]);
            }
        }
    }
}

} // verus!
