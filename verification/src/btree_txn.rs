//! A staged transaction over an ordered map.

use vstd::prelude::*;
use vstd::std_specs::iter::IteratorSpec;
use std::collections::BTreeMap;
use std::marker::PhantomData;
use crate::error::MetadataModelResult;
use crate::transactional::Change;
use crate::transactional::Transactional;
use crate::transactional::ValTransaction;
use crate::staging::BTreeMapOp;
use crate::storage::Transaction;
use crate::entry_txn::BTreeMapEntryTransaction;

verus! {

/// Where a guard writes: into the staging map under a key that has nothing staged yet,
/// or into the value of a staged insert.
enum BTreeMapTransactionStagingEntry<'a, K: Ord, V> {
    /// Nothing is staged for the key. A write stages a clone of the original value.
    Vacant { staging: &'a mut BTreeMap<K, BTreeMapOp<V>>, key: K },
    /// The key has a staged insert, and this is its value.
    Occupied(&'a mut V),
}

/// A handle on the value that a transaction shows under one key. Reading through it
/// clones nothing. The first write through it stages a clone of the original value,
/// unless the key had a staged insert already, and writes go to the staged value.
pub struct BTreeMapTransactionValueGuard<'a, K: Ord, V: Clone> {
    staging_entry: Option<BTreeMapTransactionStagingEntry<'a, K, V>>,
    orig_value: Option<&'a V>,
}

impl<'a, K: Ord, V: Clone> BTreeMapTransactionValueGuard<'a, K, V> {
    /// Whether the guard has something to read: a staged value or else an original one.
    pub closed spec fn inv(&self) -> bool {
        match self.staging_entry {
            Some(BTreeMapTransactionStagingEntry::Vacant { .. }) => self.orig_value is Some,
            Some(BTreeMapTransactionStagingEntry::Occupied(_)) => true,
            None => false,
        }
    }

    /// Whether the guard stands on a staged value.
    pub closed spec fn is_staged(&self) -> bool {
        self.staging_entry matches Some(BTreeMapTransactionStagingEntry::Occupied(_))
    }

    /// The value that the guard shows now.
    pub closed spec fn value(&self) -> V {
        match self.staging_entry {
            Some(BTreeMapTransactionStagingEntry::Occupied(v)) => *v,
            _ => *self.orig_value->Some_0,
        }
    }

    /// The key of a guard that does not stand on a staged value.
    pub closed spec fn key(&self) -> K {
        self.staging_entry->Some_0->Vacant_key
    }

    /// The staging map that a guard without a staged value will write to.
    pub closed spec fn staging_handle(&self) -> &'a mut BTreeMap<K, BTreeMapOp<V>> {
        self.staging_entry->Some_0->Vacant_staging
    }

    /// The staged value that the guard stands on.
    pub closed spec fn value_handle(&self) -> &'a mut V {
        self.staging_entry->Some_0->Occupied_0
    }

    fn new(
        staging_entry: BTreeMapTransactionStagingEntry<'a, K, V>,
        orig_value: Option<&'a V>,
    ) -> (r: Self)
        requires
            staging_entry is Occupied || orig_value is Some,
        ensures
            r.inv(),
            r.staging_entry == Some(staging_entry),
            r.orig_value == orig_value,
    {
        BTreeMapTransactionValueGuard { staging_entry: Some(staging_entry), orig_value }
    }

    /// Reads the value: the staged one if there is one, the original one otherwise.
    pub fn deref(&self) -> (r: &V)
        requires
            self.inv(),
        ensures
            *r == self.value(),
    {
        match &self.staging_entry {
            Some(BTreeMapTransactionStagingEntry::Occupied(v)) => &**v,
            Some(BTreeMapTransactionStagingEntry::Vacant { .. }) => match self.orig_value {
                Some(v) => v,
                None => unreached(),
            },
            None => unreached(),
        }
    }

    /// Borrows the staged value for writing. Where nothing is staged for the key yet, a
    /// clone of the original value is staged first.
    pub fn deref_mut(&mut self) -> (r: &mut V)
        requires
            old(self).inv(),
        ensures
            final(self).inv(),
            final(self).is_staged(),
            final(self).value() == *final(r),
            old(self).is_staged() ==> {
                &&& *r == old(self).value()
                &&& *final(final(self).value_handle()) == *final(old(self).value_handle())
            },
            !old(self).is_staged() ==> {
                &&& cloned(old(self).value(), *r)
                &&& vstd::laws_cmp::obeys_cmp::<K>() ==> final(old(self).staging_handle())@
                    == old(self).staging_handle()@.insert(
                    old(self).key(),
                    BTreeMapOp::Insert(*final(final(self).value_handle())),
                )
            },
    {
        let slot: &'a mut V = match self.staging_entry.take() {
            Some(BTreeMapTransactionStagingEntry::Vacant { staging, key }) => {
                let value = match self.orig_value {
                    Some(v) => v.clone(),
                    None => unreached(),
                };
                // The place is claimed first and filled then, so that it holds the clone
                // whatever the map made of the key.
                let place = crate::btree_ext::entry_or_insert(staging, key, BTreeMapOp::Delete);
                *place = BTreeMapOp::Insert(value);
                match place {
                    BTreeMapOp::Insert(v) => v,
                    BTreeMapOp::Delete => unreached(),
                }
            },
            Some(BTreeMapTransactionStagingEntry::Occupied(v)) => v,
            None => unreached(),
        };
        self.staging_entry = Some(BTreeMapTransactionStagingEntry::Occupied(slot));
        match &mut self.staging_entry {
            Some(BTreeMapTransactionStagingEntry::Occupied(v)) => &mut **v,
            _ => unreached(),
        }
    }

    /// Ends the guard, as dropping it does. What was written through it last stays
    /// staged; a guard that was not written through has staged nothing.
    pub fn finish(self)
        requires
            self.inv(),
        ensures
            self.is_staged() ==> *final(self.value_handle()) == self.value(),
            !self.is_staged() ==> *final(self.staging_handle()) == *self.staging_handle(),
    {
    }
}

/// Wraps an ordered map that lives elsewhere. Inserts and removals are staged beside the
/// map, one operation per key at most, and reads see the map with the staged operations
/// applied. `commit_memory` applies them to the map itself; dropping the transaction
/// leaves the map as it was.
///
/// What is said of the staged operations and of the map holds for keys whose order is a
/// total order that agrees with `==`, which is what `vstd::laws_cmp::obeys_cmp` states:
/// an ordered map promises nothing for other keys.
pub struct BTreeMapTransaction<'a, K: Ord, V, TXN = Transaction> {
    tree_ref: &'a mut BTreeMap<K, V>,
    staging: BTreeMap<K, BTreeMapOp<V>>,
    _phantom: PhantomData<TXN>,
}

impl<'a, K: Ord, V: Clone, TXN> BTreeMapTransaction<'a, K, V, TXN> {
    /// The borrowed map itself. Its content now is [`Self::original`]; its content once
    /// the transaction is gone is what `commit_memory` speaks of.
    pub closed spec fn mirror(&self) -> &'a mut BTreeMap<K, V> {
        self.tree_ref
    }

    /// The map as it was when the transaction began.
    pub open spec fn original(&self) -> Map<K, V> {
        (*self.mirror())@
    }

    /// The staged operations, by key.
    pub closed spec fn staged(&self) -> Map<K, BTreeMapOp<V>> {
        self.staging@
    }

    /// What reads through the transaction see.
    pub open spec fn view(&self) -> Map<K, V> {
        crate::staging::merge(self.original(), self.staged())
    }

    /// Starts a transaction over `tree_ref` with nothing staged.
    pub fn new(tree_ref: &'a mut BTreeMap<K, V>) -> (r: BTreeMapTransaction<'a, K, V, TXN>)
        ensures
            r.staged() == Map::<K, BTreeMapOp<V>>::empty(),
            r.original() == old(tree_ref)@,
            *final(r.mirror()) == *final(tree_ref),
    {
        BTreeMapTransaction { tree_ref, staging: BTreeMap::new(), _phantom: PhantomData }
    }

    /// Starts a transaction on the value that the original map holds under `key`, past
    /// the staged operations; none where the original map lacks the key.
    pub fn new_entry_txn(&mut self, key: K) -> (r: Option<BTreeMapEntryTransaction<'_, K, V, TXN>>)
        ensures
            final(self).staged() == old(self).staged(),
            *final(final(self).mirror()) == *final(old(self).mirror()),
            r is None ==> final(self).original() == old(self).original(),
            r matches Some(txn) ==> {
                &&& txn.original() == old(self).original()
                &&& final(txn.mirror())@ == final(self).original()
            },
            vstd::laws_cmp::obeys_cmp::<K>() ==> {
                &&& r is Some <==> old(self).original().contains_key(key)
                &&& r matches Some(txn) ==> txn.entry_key() == key && cloned(
                    old(self).original()[key],
                    txn.value(),
                )
            },
    {
        BTreeMapEntryTransaction::new(&mut *self.tree_ref, key, None)
    }

    /// Starts a transaction on the value that the original map holds under `key`, past
    /// the staged operations, or on `default_val` where the original map lacks the key.
    pub fn new_entry_txn_or_default(&mut self, key: K, default_val: V) -> (r:
        BTreeMapEntryTransaction<'_, K, V, TXN>)
        ensures
            final(self).staged() == old(self).staged(),
            *final(final(self).mirror()) == *final(old(self).mirror()),
            r.original() == old(self).original(),
            final(r.mirror())@ == final(self).original(),
            r.entry_key() == key,
            vstd::laws_cmp::obeys_cmp::<K>() ==> (if old(self).original().contains_key(key) {
                cloned(old(self).original()[key], r.value())
            } else {
                r.value() == default_val
            }),
    {
        match BTreeMapEntryTransaction::new(&mut *self.tree_ref, key, Some(default_val)) {
            Some(txn) => txn,
            None => unreached(),
        }
    }

    /// Starts a transaction that will put `val` under `key` in the original map, past
    /// the staged operations.
    pub fn new_entry_insert_txn(&mut self, key: K, val: V) -> (r: BTreeMapEntryTransaction<
        '_,
        K,
        V,
        TXN,
    >)
        ensures
            final(self).staged() == old(self).staged(),
            *final(final(self).mirror()) == *final(old(self).mirror()),
            r.entry_key() == key,
            r.value() == val,
            r.original() == old(self).original(),
            final(r.mirror())@ == final(self).original(),
    {
        BTreeMapEntryTransaction::new_insert(&mut *self.tree_ref, key, val)
    }

    /// The map as it was when the transaction began.
    pub fn tree_ref(&self) -> (r: &BTreeMap<K, V>)
        ensures
            r@ == self.original(),
    {
        &*self.tree_ref
    }

    /// The mirror itself, for writing past the transaction. What is written is what the
    /// transaction then takes for the original map.
    pub fn tree_mut(&mut self) -> (r: &mut BTreeMap<K, V>)
        ensures
            r@ == old(self).original(),
            final(self).original() == final(r)@,
            *final(final(self).mirror()) == *final(old(self).mirror()),
            final(self).staged() == old(self).staged(),
    {
        &mut *self.tree_ref
    }

    /// The value that the transaction shows under `key`: the staged one if the key has a
    /// staged insert, none if it has a staged delete, the original one otherwise.
    pub fn get(&self, key: &K) -> (r: Option<&V>)
        ensures
            vstd::laws_cmp::obeys_cmp::<K>() ==> r == (if self@.contains_key(*key) {
                Some(&self@[*key])
            } else {
                None
            }),
    {
        match self.staging.get(key) {
            Some(BTreeMapOp::Insert(v)) => Some(v),
            Some(BTreeMapOp::Delete) => None,
            None => self.tree_ref.get(key),
        }
    }

    /// Whether the transaction shows a value under `key`.
    pub fn contains_key(&self, key: &K) -> (r: bool)
        ensures
            vstd::laws_cmp::obeys_cmp::<K>() ==> r == self@.contains_key(*key),
    {
        self.get(key).is_some()
    }

    /// A guard on the value that the transaction shows under `key`, for reading and
    /// writing; none where the transaction shows no value there.
    ///
    /// Nothing is staged by the call itself. Where the key has a staged insert, the guard
    /// stands on the staged value. Where it has nothing staged, the first write through
    /// the guard stages a clone of the original value.
    pub fn get_mut(&mut self, key: K) -> (r: Option<BTreeMapTransactionValueGuard<'_, K, V>>)
        ensures
            final(self).mirror() == old(self).mirror(),
            r matches Some(guard) ==> guard.inv(),
            vstd::laws_cmp::obeys_cmp::<K>() ==> {
                &&& r is Some <==> old(self)@.contains_key(key)
                &&& r is None ==> final(self).staged() == old(self).staged()
                &&& r matches Some(guard) ==> {
                    &&& guard.value() == old(self)@[key]
                    &&& guard.is_staged() == old(self).staged().contains_key(key)
                    &&& guard.is_staged() ==> final(self).staged() == old(self).staged().insert(
                        key,
                        BTreeMapOp::Insert(*final(guard.value_handle())),
                    )
                    &&& !guard.is_staged() ==> {
                        &&& guard.key() == key
                        &&& guard.staging_handle()@ == old(self).staged()
                        &&& final(guard.staging_handle())@ == final(self).staged()
                    }
                }
            },
    {
        let orig_value = self.tree_ref.get(&key);
        let staged = match self.staging.get(&key) {
            Some(BTreeMapOp::Insert(_)) => true,
            Some(BTreeMapOp::Delete) => {
                return None;
            },
            None => false,
        };
        let staging_entry = if staged {
            match crate::btree_ext::get_mut(&mut self.staging, &key) {
                Some(BTreeMapOp::Insert(v)) => BTreeMapTransactionStagingEntry::Occupied(v),
                // The staged insert was there a moment ago: only keys without a lawful
                // order come here.
                _ => {
                    return None;
                },
            }
        } else {
            if orig_value.is_none() {
                return None;
            }
            BTreeMapTransactionStagingEntry::Vacant { staging: &mut self.staging, key }
        };
        Some(BTreeMapTransactionValueGuard::new(staging_entry, orig_value))
    }

    /// Stages an insert of `value` under `key`, in place of whatever was staged for it.
    pub fn insert(&mut self, key: K, value: V)
        ensures
            final(self).mirror() == old(self).mirror(),
            vstd::laws_cmp::obeys_cmp::<K>() ==> final(self).staged() == old(self).staged().insert(
                key,
                BTreeMapOp::Insert(value),
            ),
    {
        self.staging.insert(key, BTreeMapOp::Insert(value));
    }

    /// Removes `key` as the transaction shows it and returns the value it had there.
    ///
    /// A staged insert becomes a staged delete and gives its value back. A staged delete
    /// stays. A key with nothing staged gets a staged delete if the original map has it,
    /// and a clone of the original value is returned; if not, nothing is staged.
    pub fn remove(&mut self, key: K) -> (r: Option<V>)
        ensures
            final(self).mirror() == old(self).mirror(),
            vstd::laws_cmp::obeys_cmp::<K>() ==> {
                &&& r is Some <==> old(self)@.contains_key(key)
                &&& final(self).staged() == (if old(self)@.contains_key(key) {
                    old(self).staged().insert(key, BTreeMapOp::Delete)
                } else {
                    old(self).staged()
                })
                &&& r matches Some(v) ==> (if old(self).staged().contains_key(key) {
                    v == old(self)@[key]
                } else {
                    cloned(old(self)@[key], v)
                })
            },
    {
        if let Some(op) = self.staging.get(&key) {
            return match op {
                BTreeMapOp::Delete => None,
                BTreeMapOp::Insert(_) => match self.staging.insert(key, BTreeMapOp::Delete) {
                    Some(BTreeMapOp::Insert(v)) => Some(v),
                    // The staged insert was there a moment ago: only keys without a
                    // lawful order come here.
                    _ => None,
                },
            };
        }
        match self.tree_ref.get(&key) {
            Some(orig_value) => {
                let v = orig_value.clone();
                self.staging.insert(key, BTreeMapOp::Delete);
                Some(v)
            },
            None => None,
        }
    }

    /// Applies every staged operation to the map: a staged insert puts its value under
    /// the key, a staged delete removes the key.
    pub fn commit_memory(self)
        ensures
            vstd::laws_cmp::obeys_cmp::<K>() ==> final(self.mirror())@ == self@,
    {
        let ghost before = self@;
        let BTreeMapTransaction { tree_ref, staging, _phantom } = self;
        let mut staging = staging;
        loop
            invariant
                vstd::laws_cmp::obeys_cmp::<K>() ==> crate::staging::merge(tree_ref@, staging@)
                    == before,
            ensures
                vstd::laws_cmp::obeys_cmp::<K>() ==> tree_ref@ == before,
            decreases vstd::std_specs::btree::spec_btree_map_len(&staging),
        {
            let ghost tree_before = tree_ref@;
            let ghost staging_before = staging@;
            match crate::btree_ext::pop_first(&mut staging) {
                Some((k, BTreeMapOp::Insert(v))) => {
                    tree_ref.insert(k, v);
                },
                Some((k, BTreeMapOp::Delete)) => {
                    tree_ref.remove(&k);
                },
                None => {
                    proof {
                        if vstd::laws_cmp::obeys_cmp::<K>() {
                            assert(crate::staging::merge(tree_ref@, staging@) =~= tree_ref@);
                        }
                    }
                    break ;
                },
            }
            proof {
                if vstd::laws_cmp::obeys_cmp::<K>() {
                    assert(crate::staging::merge(tree_ref@, staging@) =~= crate::staging::merge(
                        tree_before,
                        staging_before,
                    ));
                }
            }
        }
    }
}

impl<'a, K: Ord, V: Transactional<TXN> + Clone, TXN: View> BTreeMapTransaction<'a, K, V, TXN> {
    /// The store-level changes that the staged operations imply, by ascending key.
    pub open spec fn diff(&self) -> Seq<Change<V>> {
        crate::staging::diff_of(self.original(), self.staged())
    }
}

impl<'a, K, V, TXN> ValTransaction for BTreeMapTransaction<'a, K, V, TXN> where
    K: Ord,
    V: Transactional<TXN> + Clone,
    TXN: View,
 {
    type TXN = TXN;

    open spec fn is_described(&self) -> bool {
        vstd::laws_cmp::obeys_cmp::<K>() && V::obeys_transactional_spec()
    }

    open spec fn described(&self, txn: TXN::V) -> (MetadataModelResult<()>, TXN::V) {
        crate::transactional::describe::<TXN, V>(self.diff(), txn)
    }

    fn commit(self)
        ensures
            vstd::laws_cmp::obeys_cmp::<K>() ==> final(self.mirror())@ == self@,
    {
        self.commit_memory();
    }

    fn apply_to_txn(&self, txn: &mut TXN) -> (r: MetadataModelResult<()>)
        ensures
            vstd::laws_cmp::obeys_cmp::<K>() ==> crate::btree_ext::lists_ascending(
                crate::btree_ext::ascending_keys(self.staged().dom()),
                self.staged().dom(),
            ),
    {
        let ghost lawful = vstd::laws_cmp::obeys_cmp::<K>();
        let ghost faithful = V::obeys_transactional_spec();
        let ghost original = self.original();
        let ghost staged = self.staged();
        let ghost goal = crate::transactional::describe::<TXN, V>(self.diff(), old(txn)@);
        let mut iter = self.staging.iter();
        let ghost all = iter.remaining();
        let ghost keys = all.map_values(|kv: (&K, &BTreeMapOp<V>)| *kv.0);
        let ghost mut keys_left = keys;
        let ghost mut at: int = 0;
        proof {
            if lawful {
                vstd::std_specs::btree::axiom_increasing_seq_meaning(keys);
                assert(keys.to_set() =~= staged.dom()) by {
                    assert forall|k: K| staged.dom().contains(k) implies keys.to_set().contains(
                        k,
                    ) by {
                        assert(all.contains((&k, &staged[k])));
                        let i = choose|i: int| 0 <= i < all.len() && all[i] == (&k, &staged[k]);
                        assert(keys[i] == k);
                    }
                }
                crate::btree_ext::lemma_ascending_keys_are(keys, staged.dom());
            }
        }
        let mut left = self.staging.len();
        while left > 0
            invariant
                lawful == vstd::laws_cmp::obeys_cmp::<K>(),
                faithful == V::obeys_transactional_spec(),
                iter.obeys_prophetic_iter_laws(),
                goal == crate::transactional::describe::<TXN, V>(self.diff(), old(txn)@),
                keys == all.map_values(|kv: (&K, &BTreeMapOp<V>)| *kv.0),
                original == self.original(),
                staged == self.staged(),
                lawful ==> {
                    &&& 0 <= at
                    &&& at + left == all.len()
                    &&& iter.remaining() == all.skip(at)
                    &&& keys_left == keys.skip(at)
                    &&& forall|i: int|
                        0 <= i < all.len() ==> staged.contains_key(*(#[trigger] all[i]).0)
                            && staged[*all[i].0] == *all[i].1
                    &&& faithful ==> goal == crate::transactional::describe::<TXN, V>(
                        crate::staging::changes_of(original, staged, keys_left),
                        txn@,
                    )
                    &&& crate::btree_ext::lists_ascending(
                        crate::btree_ext::ascending_keys(staged.dom()),
                        staged.dom(),
                    )
                },
            decreases left,
        {
            let ghost rest = crate::staging::changes_of(original, staged, keys_left.drop_first());
            let ghost before = txn@;
            let (k, op) = match crate::btree_ext::next_of(&mut iter) {
                Some(entry) => entry,
                // The map counts more entries than it hands out: only keys without a
                // lawful order come here.
                None => {
                    return Ok(());
                },
            };
            proof {
                if lawful {
                    assert(all.skip(at)[0] == all[at]);
                    assert(all.skip(at).drop_first() =~= all.skip(at + 1));
                    assert(keys_left[0] == keys[at]);
                    assert(keys_left[0] == *k);
                    assert(keys_left.drop_first() =~= keys.skip(at + 1));
                    assert(staged[*k] == *op);
                    match crate::staging::change_at(original, staged, *k) {
                        Some(change) => {
                            crate::transactional::lemma_describe_first::<TXN, V>(
                                change,
                                rest,
                                before,
                            );
                        },
                        None => {},
                    }
                    keys_left = keys_left.drop_first();
                    at = at + 1;
                }
            }
            match op {
                BTreeMapOp::Insert(v) => {
                    let res = v.upsert_in_transaction(txn);
                    if res.is_err() {
                        return res;
                    }
                },
                BTreeMapOp::Delete => {
                    if let Some(v) = self.tree_ref.get(k) {
                        let res = v.delete_in_transaction(txn);
                        if res.is_err() {
                            return res;
                        }
                    }
                },
            }
            left = left - 1;
        }
        Ok(())
    }

    fn abort(self)
        ensures
            *final(self.mirror()) == *self.mirror(),
    {
    }
}

} // verus!
