//! What a transaction over an ordered map stages, and what the staged operations amount
//! to: for the map in memory once they are committed, and for the store as a diff.

use vstd::prelude::*;
use crate::transactional::Change;

verus! {

/// What is staged for one key.
pub enum BTreeMapOp<V> {
    /// The key will hold this value.
    Insert(V),
    /// The key will be gone.
    Delete,
}

/// The map that results from `original` when each staged operation is applied to its key.
pub open spec fn merge<K, V>(original: Map<K, V>, staged: Map<K, BTreeMapOp<V>>) -> Map<K, V> {
    Map::new(
        |k: K|
            if staged.contains_key(k) {
                staged[k] is Insert
            } else {
                original.contains_key(k)
            },
        |k: K|
            if staged.contains_key(k) {
                staged[k]->Insert_0
            } else {
                original[k]
            },
    )
}

/// The store-level change that the operation staged for `key` implies: an upsert of a
/// staged value, a removal of the original value for a staged delete of a key that the
/// original map has, and nothing for a staged delete of a key that it never had.
pub open spec fn change_at<K, V>(
    original: Map<K, V>,
    staged: Map<K, BTreeMapOp<V>>,
    key: K,
) -> Option<Change<V>> {
    match staged[key] {
        BTreeMapOp::Insert(v) => Some(Change::Upsert(v)),
        BTreeMapOp::Delete => if original.contains_key(key) {
            Some(Change::Delete(original[key]))
        } else {
            None
        },
    }
}

/// The changes that the staged operations imply for `keys`, in the order of `keys`.
pub open spec fn changes_of<K, V>(
    original: Map<K, V>,
    staged: Map<K, BTreeMapOp<V>>,
    keys: Seq<K>,
) -> Seq<Change<V>>
    decreases keys.len(),
{
    if keys.len() == 0 {
        Seq::empty()
    } else {
        let rest = changes_of(original, staged, keys.drop_first());
        match change_at(original, staged, keys[0]) {
            Some(change) => seq![change] + rest,
            None => rest,
        }
    }
}

/// The store-level changes that staged operations imply, by ascending key.
pub open spec fn diff_of<K: Ord, V>(original: Map<K, V>, staged: Map<K, BTreeMapOp<V>>) -> Seq<
    Change<V>,
> {
    changes_of(original, staged, crate::btree_ext::ascending_keys(staged.dom()))
}

/// The map that results from `map` when `op` is applied to `key`.
pub open spec fn apply_op<K, V>(map: Map<K, V>, key: K, op: BTreeMapOp<V>) -> Map<K, V> {
    match op {
        BTreeMapOp::Insert(v) => map.insert(key, v),
        BTreeMapOp::Delete => map.remove(key),
    }
}

/// The map that results from `original` when the operations staged for `keys` are
/// applied to it one after the other, in the order of `keys`.
pub open spec fn replay<K, V>(
    original: Map<K, V>,
    staged: Map<K, BTreeMapOp<V>>,
    keys: Seq<K>,
) -> Map<K, V>
    decreases keys.len(),
{
    if keys.len() == 0 {
        original
    } else {
        apply_op(replay(original, staged, keys.drop_last()), keys.last(), staged[keys.last()])
    }
}

/// Applying the operations staged for some keys one after the other gives the original
/// map with exactly those staged operations merged in.
pub proof fn lemma_replay_is_merge<K, V>(
    original: Map<K, V>,
    staged: Map<K, BTreeMapOp<V>>,
    keys: Seq<K>,
)
    requires
        forall|i: int| 0 <= i < keys.len() ==> staged.contains_key(keys[i]),
    ensures
        replay(original, staged, keys) == merge(original, staged.restrict(keys.to_set())),
    decreases keys.len(),
{
    if keys.len() == 0 {
        assert(merge(original, staged.restrict(keys.to_set())) =~= original);
    } else {
        let shorter = keys.drop_last();
        lemma_replay_is_merge(original, staged, shorter);
        assert forall|k: K| keys.to_set().contains(k) <==> (shorter.to_set().contains(k) || k
            == keys.last()) by {
            if keys.contains(k) {
                let n = choose|n: int| 0 <= n < keys.len() && keys[n] == k;
                if n < shorter.len() {
                    assert(shorter[n] == k);
                }
            }
            if shorter.contains(k) {
                let n = choose|n: int| 0 <= n < shorter.len() && shorter[n] == k;
                assert(keys[n] == k);
            }
            assert(keys[keys.len() - 1] == keys.last());
        }
        assert(replay(original, staged, keys) =~= merge(
            original,
            staged.restrict(keys.to_set()),
        ));
    }
}

/// Committing is replaying: the map that a commit leaves is the map obtained by
/// applying every staged operation to a copy of the original map, one after the other,
/// in the order of any listing of the staged keys, their ascending order among them.
pub proof fn lemma_commit_is_replay<K, V>(
    original: Map<K, V>,
    staged: Map<K, BTreeMapOp<V>>,
    keys: Seq<K>,
)
    requires
        keys.to_set() == staged.dom(),
    ensures
        replay(original, staged, keys) == merge(original, staged),
{
    assert forall|i: int| 0 <= i < keys.len() implies staged.contains_key(keys[i]) by {
        assert(keys.to_set().contains(keys[i]));
    }
    lemma_replay_is_merge(original, staged, keys);
    assert(staged.restrict(keys.to_set()) =~= staged);
}

/// Committing is replaying in staging order: the map that a commit leaves is the map
/// obtained by applying every staged operation to a copy of the original map, one after
/// the other, by ascending key.
pub proof fn lemma_commit_is_replay_in_order<K: Ord, V>(
    original: Map<K, V>,
    staged: Map<K, BTreeMapOp<V>>,
)
    requires
        vstd::laws_cmp::obeys_cmp::<K>(),
        vstd::laws_eq::obeys_concrete_eq::<K>(),
        staged.dom().finite(),
    ensures
        replay(original, staged, crate::btree_ext::ascending_keys(staged.dom())) == merge(
            original,
            staged,
        ),
{
    crate::btree_ext::lemma_ascending_keys_exist(staged.dom());
    lemma_commit_is_replay(original, staged, crate::btree_ext::ascending_keys(staged.dom()));
}

/// The changes for one listing of keys and then another are the changes for the first
/// and then those for the second.
pub proof fn lemma_changes_of_concat<K, V>(
    original: Map<K, V>,
    staged: Map<K, BTreeMapOp<V>>,
    first: Seq<K>,
    second: Seq<K>,
)
    ensures
        changes_of(original, staged, first + second) == changes_of(original, staged, first)
            + changes_of(original, staged, second),
    decreases first.len(),
{
    if first.len() == 0 {
        assert(first + second =~= second);
        assert(changes_of(original, staged, first) + changes_of(original, staged, second)
            =~= changes_of(original, staged, second));
    } else {
        let all = first + second;
        assert(all[0] == first[0]);
        assert(all.drop_first() =~= first.drop_first() + second);
        lemma_changes_of_concat(original, staged, first.drop_first(), second);
        let rest_first = changes_of(original, staged, first.drop_first());
        let rest_second = changes_of(original, staged, second);
        match change_at(original, staged, first[0]) {
            Some(change) => {
                assert(seq![change] + (rest_first + rest_second) =~= (seq![change] + rest_first)
                    + rest_second);
            },
            None => {},
        }
    }
}

/// The changes for a listing of keys depend on what is staged for those keys only.
pub proof fn lemma_changes_of_agree<K, V>(
    original: Map<K, V>,
    staged: Map<K, BTreeMapOp<V>>,
    other: Map<K, BTreeMapOp<V>>,
    keys: Seq<K>,
)
    requires
        forall|i: int| 0 <= i < keys.len() ==> staged[keys[i]] == other[keys[i]],
    ensures
        changes_of(original, staged, keys) == changes_of(original, other, keys),
    decreases keys.len(),
{
    if keys.len() > 0 {
        let rest = keys.drop_first();
        assert forall|i: int| 0 <= i < rest.len() implies staged[rest[i]] == other[rest[i]] by {
            assert(rest[i] == keys[i + 1]);
        }
        lemma_changes_of_agree(original, staged, other, rest);
        assert(staged[keys[0]] == other[keys[0]]);
    }
}

/// What one staged key adds to the diff. With `keys` the ascending listing of the staged
/// keys and `key` at the place `at` in it, the diff is the changes for the keys before
/// `key`, then the one change that the operation staged for `key` implies, if it implies
/// any, then the changes for the keys behind `key`; and without that one change it is the
/// diff of the same staging with nothing staged for `key`.
pub proof fn lemma_diff_at_key<K: Ord, V>(
    original: Map<K, V>,
    staged: Map<K, BTreeMapOp<V>>,
    keys: Seq<K>,
    at: int,
)
    requires
        vstd::laws_cmp::obeys_cmp::<K>(),
        crate::btree_ext::lists_ascending(keys, staged.dom()),
        0 <= at < keys.len(),
    ensures
        diff_of(original, staged) == changes_of(original, staged, keys.take(at)) + (match change_at(
            original,
            staged,
            keys[at],
        ) {
            Some(change) => seq![change],
            None => Seq::empty(),
        }) + changes_of(original, staged, keys.skip(at + 1)),
        diff_of(original, staged.remove(keys[at])) == changes_of(original, staged, keys.take(at))
            + changes_of(original, staged, keys.skip(at + 1)),
{
    let key = keys[at];
    let before = keys.take(at);
    let after = keys.skip(at + 1);
    crate::btree_ext::lemma_ascending_keys_are(keys, staged.dom());
    crate::btree_ext::lemma_ascending_without(keys, staged.dom(), at);
    assert(keys =~= (before + seq![key]) + after);
    lemma_changes_of_concat(original, staged, before + seq![key], after);
    lemma_changes_of_concat(original, staged, before, seq![key]);
    let one = seq![key];
    assert(one.drop_first() =~= Seq::<K>::empty());
    assert(changes_of(original, staged, one.drop_first()) =~= Seq::<Change<V>>::empty());
    assert(changes_of(original, staged, one) =~= (match change_at(original, staged, key) {
        Some(change) => seq![change],
        None => Seq::empty(),
    }));
    let rest = before + after;
    let without = staged.remove(key);
    assert(without.dom() =~= staged.dom().remove(key));
    assert forall|i: int| 0 <= i < rest.len() implies staged[rest[i]] == without[rest[i]] by {
        if i < before.len() {
            assert(before[i] == rest[i]);
            assert(before.contains(rest[i]));
        } else {
            assert(after[i - before.len()] == rest[i]);
            assert(after.contains(rest[i]));
        }
    }
    lemma_changes_of_agree(original, staged, without, rest);
    lemma_changes_of_concat(original, staged, before, after);
}

/// A key that is inserted and then removed in one transaction, and that the original
/// map never had, leaves no trace in the diff: the diff is that of the staging without
/// the key.
pub proof fn lemma_insert_then_remove_of_new_key<K: Ord, V>(
    original: Map<K, V>,
    staged: Map<K, BTreeMapOp<V>>,
    keys: Seq<K>,
    key: K,
    value: V,
)
    requires
        vstd::laws_cmp::obeys_cmp::<K>(),
        !original.contains_key(key),
        crate::btree_ext::lists_ascending(
            keys,
            staged.insert(key, BTreeMapOp::Insert(value)).insert(key, BTreeMapOp::Delete).dom(),
        ),
    ensures
        diff_of(
            original,
            staged.insert(key, BTreeMapOp::Insert(value)).insert(key, BTreeMapOp::Delete),
        ) == diff_of(original, staged.remove(key)),
{
    let after = staged.insert(key, BTreeMapOp::Insert(value)).insert(key, BTreeMapOp::Delete);
    assert(keys.to_set().contains(key));
    assert(keys.contains(key));
    let at = choose|at: int| 0 <= at < keys.len() && keys[at] == key;
    lemma_diff_at_key(original, after, keys, at);
    assert(after.remove(key) =~= staged.remove(key));
    let before_changes = changes_of(original, after, keys.take(at));
    let after_changes = changes_of(original, after, keys.skip(at + 1));
    assert(before_changes + Seq::<Change<V>>::empty() + after_changes =~= before_changes
        + after_changes);
}

/// A key that is inserted twice in one transaction adds one change to the diff, the
/// upsert of the value inserted last: with `keys` the ascending listing of the staged
/// keys and the key at the place `at` in it, the diff is the changes for the keys before
/// it, that upsert, and the changes for the keys behind it, none of which is the key.
pub proof fn lemma_insert_twice_is_one_upsert<K: Ord, V>(
    original: Map<K, V>,
    staged: Map<K, BTreeMapOp<V>>,
    keys: Seq<K>,
    at: int,
    first: V,
    last: V,
)
    requires
        vstd::laws_cmp::obeys_cmp::<K>(),
        0 <= at < keys.len(),
        crate::btree_ext::lists_ascending(
            keys,
            staged.insert(keys[at], BTreeMapOp::Insert(first)).insert(
                keys[at],
                BTreeMapOp::Insert(last),
            ).dom(),
        ),
    ensures
        ({
            let twice = staged.insert(keys[at], BTreeMapOp::Insert(first)).insert(
                keys[at],
                BTreeMapOp::Insert(last),
            );
            &&& diff_of(original, twice) == changes_of(original, twice, keys.take(at))
                + seq![Change::Upsert(last)] + changes_of(original, twice, keys.skip(at + 1))
            &&& !keys.take(at).contains(keys[at])
            &&& !keys.skip(at + 1).contains(keys[at])
        }),
{
    let twice = staged.insert(keys[at], BTreeMapOp::Insert(first)).insert(
        keys[at],
        BTreeMapOp::Insert(last),
    );
    lemma_diff_at_key(original, twice, keys, at);
    crate::btree_ext::lemma_ascending_without(keys, twice.dom(), at);
}

} // verus!
