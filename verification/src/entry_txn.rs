//! A staged transaction over the value of one key of an ordered map.

use vstd::prelude::*;
use vstd::std_specs::cmp::PartialEqSpec;
use std::collections::BTreeMap;
use std::marker::PhantomData;
use std::ops::Deref;
use std::ops::DerefMut;
use crate::error::MetadataModelResult;
use crate::transactional::Change;
use crate::transactional::Transactional;
use crate::transactional::ValTransaction;

verus! {

/// Wraps an ordered map that lives elsewhere, for a change to the value under one key.
/// The new value is held beside the map; `commit` puts it into the map under the key,
/// and dropping the transaction leaves the map as it was.
pub struct BTreeMapEntryTransaction<'a, K: Ord, V, TXN> {
    tree_ref: &'a mut BTreeMap<K, V>,
    pub key: K,
    pub new_value: V,
    _phantom: PhantomData<TXN>,
}

impl<'a, K: Ord, V, TXN> BTreeMapEntryTransaction<'a, K, V, TXN> {
    /// The borrowed map itself. Its content now is [`Self::original`]; its content once
    /// the transaction is gone is what `commit` speaks of.
    pub closed spec fn mirror(&self) -> &'a mut BTreeMap<K, V> {
        self.tree_ref
    }

    /// The map as it was when the transaction began.
    pub open spec fn original(&self) -> Map<K, V> {
        (*self.mirror())@
    }

    /// The key that the transaction is about.
    pub closed spec fn entry_key(&self) -> K {
        self.key
    }

    /// The value that `commit` will put under the key.
    pub closed spec fn value(&self) -> V {
        self.new_value
    }
}

impl<'a, K: Ord, V: Clone, TXN> BTreeMapEntryTransaction<'a, K, V, TXN> {
    /// Starts a transaction that will put `value` under `key`, whatever the map holds
    /// there.
    pub fn new_insert(tree_ref: &'a mut BTreeMap<K, V>, key: K, value: V) -> (r:
        BTreeMapEntryTransaction<'a, K, V, TXN>)
        ensures
            r.entry_key() == key,
            r.value() == value,
            r.original() == old(tree_ref)@,
            *final(r.mirror()) == *final(tree_ref),
    {
        BTreeMapEntryTransaction {
            new_value: value,
            tree_ref,
            key,
            _phantom: PhantomData,
        }
    }

    /// Starts a transaction on the value under `key`. It begins with a clone of the
    /// value that the map holds there or, where the map lacks the key, with `default_val`.
    /// There is no transaction where the map lacks the key and no default is given.
    pub fn new(tree_ref: &'a mut BTreeMap<K, V>, key: K, default_val: Option<V>) -> (r: Option<
        BTreeMapEntryTransaction<'a, K, V, TXN>,
    >)
        ensures
            default_val is Some ==> r is Some,
            r is None ==> *final(tree_ref) == *old(tree_ref),
            r matches Some(txn) ==> {
                &&& txn.entry_key() == key
                &&& txn.original() == old(tree_ref)@
                &&& *final(txn.mirror()) == *final(tree_ref)
            },
            vstd::laws_cmp::obeys_cmp::<K>() ==> {
                &&& r is Some <==> old(tree_ref)@.contains_key(key) || default_val is Some
                &&& r matches Some(txn) ==> (if old(tree_ref)@.contains_key(key) {
                    cloned(old(tree_ref)@[key], txn.value())
                } else {
                    default_val == Some(txn.value())
                })
            },
    {
        let orig_value = match tree_ref.get(&key) {
            Some(v) => Some(v.clone()),
            None => default_val,
        };
        match orig_value {
            Some(orig_value) => Some(
                BTreeMapEntryTransaction {
                    new_value: orig_value,
                    tree_ref,
                    key,
                            _phantom: PhantomData,
                },
            ),
            None => None,
        }
    }
}

impl<'a, K: Ord, V: PartialEq + Transactional<TXN>, TXN: View> BTreeMapEntryTransaction<
    'a,
    K,
    V,
    TXN,
> {
    /// The store-level changes that the transaction implies: one upsert of the new value,
    /// unless the map holds under the key a value that `==` takes for the same.
    pub open spec fn diff(&self) -> Seq<Change<V>> {
        let key = self.entry_key();
        if self.original().contains_key(key) && self.original()[key].eq_spec(&self.value()) {
            Seq::empty()
        } else {
            seq![Change::Upsert(self.value())]
        }
    }
}

impl<'a, K: Ord, V, TXN> Deref for BTreeMapEntryTransaction<'a, K, V, TXN> {
    type Target = V;

    fn deref(&self) -> (r: &V)
        ensures
            *r == self.value(),
    {
        &self.new_value
    }
}

impl<'a, K: Ord, V, TXN> DerefMut for BTreeMapEntryTransaction<'a, K, V, TXN> {
    fn deref_mut(&mut self) -> (r: &mut V)
        ensures
            *r == old(self).value(),
            final(self).value() == *final(r),
            final(self).entry_key() == old(self).entry_key(),
            final(self).mirror() == old(self).mirror(),
    {
        &mut self.new_value
    }
}

impl<'a, K, V, TXN> ValTransaction for BTreeMapEntryTransaction<'a, K, V, TXN> where
    K: Ord,
    V: PartialEq + Transactional<TXN>,
    TXN: View,
 {
    type TXN = TXN;

    open spec fn is_described(&self) -> bool {
        vstd::laws_cmp::obeys_cmp::<K>() && V::obeys_eq_spec() && V::obeys_transactional_spec()
    }

    open spec fn described(&self, txn: TXN::V) -> (MetadataModelResult<()>, TXN::V) {
        crate::transactional::describe::<TXN, V>(self.diff(), txn)
    }

    fn commit(self)
        ensures
            vstd::laws_cmp::obeys_cmp::<K>() ==> final(self.mirror())@ == self.original().insert(
                self.entry_key(),
                self.value(),
            ),
    {
        let BTreeMapEntryTransaction { tree_ref, key, new_value, _phantom } = self;
        tree_ref.insert(key, new_value);
    }

    fn apply_to_txn(&self, txn: &mut TXN) -> (r: MetadataModelResult<()>)
        ensures
            V::obeys_transactional_spec() ==> (r, final(txn)@) == (
                Ok::<(), crate::error::MetadataModelError>(()),
                old(txn)@,
            ) || (r, final(txn)@) == self.value().upsert_spec(old(txn)@),
    {
        proof {
            crate::transactional::lemma_describe_one::<TXN, V>(
                Change::Upsert(self.new_value),
                old(txn)@,
            );
            crate::transactional::lemma_describe_none::<TXN, V>(old(txn)@);
        }
        let changed = match self.tree_ref.get(&self.key) {
            Some(orig_value) => *orig_value != self.new_value,
            None => true,
        };
        crate::transactional::upsert_if(changed, &self.new_value, txn)
    }

    fn abort(self)
        ensures
            *final(self.mirror()) == *self.mirror(),
    {
    }
}

} // verus!
