//! Staged transactions against either of the two backing transactions. Each wrapper holds
//! one of the two and hands every operation on to it.

use vstd::prelude::*;
use std::collections::BTreeMap;
use std::ops::Deref;
use std::ops::DerefMut;
use crate::btree_txn::BTreeMapTransaction;
use crate::btree_txn::BTreeMapTransactionValueGuard;
use crate::entry_txn::BTreeMapEntryTransaction;
use crate::staging::BTreeMapOp;
use crate::storage::Transaction;
use crate::storage::TransactionV2;
use crate::transactional::Transactional;
use crate::var_txn::VarTransaction;

verus! {

/// A staged transaction over an ordered map, against the legacy (`V1`) or the current
/// (`V2`) backing transaction.
pub enum BTreeMapTransactionWrapper<'a, K: Ord, V> {
    V1(BTreeMapTransaction<'a, K, V, Transaction>),
    V2(BTreeMapTransaction<'a, K, V, TransactionV2>),
}

impl<'a, K: Ord, V: Clone> BTreeMapTransactionWrapper<'a, K, V> {
    /// The borrowed map of the transaction inside.
    pub open spec fn mirror(&self) -> &'a mut BTreeMap<K, V> {
        match *self {
            BTreeMapTransactionWrapper::V1(v) => v.mirror(),
            BTreeMapTransactionWrapper::V2(v) => v.mirror(),
        }
    }

    /// The map as it was when the transaction inside began.
    pub open spec fn original(&self) -> Map<K, V> {
        (*self.mirror())@
    }

    /// The staged operations of the transaction inside.
    pub open spec fn staged(&self) -> Map<K, BTreeMapOp<V>> {
        match *self {
            BTreeMapTransactionWrapper::V1(v) => v.staged(),
            BTreeMapTransactionWrapper::V2(v) => v.staged(),
        }
    }

    /// What reads through the transaction inside see.
    pub open spec fn view(&self) -> Map<K, V> {
        crate::staging::merge(self.original(), self.staged())
    }

    pub fn tree_ref(&self) -> (r: &BTreeMap<K, V>)
        ensures
            r@ == self.original(),
    {
        match self {
            BTreeMapTransactionWrapper::V1(v) => v.tree_ref(),
            BTreeMapTransactionWrapper::V2(v) => v.tree_ref(),
        }
    }

    pub fn tree_mut(&mut self) -> (r: &mut BTreeMap<K, V>)
        ensures
            r@ == old(self).original(),
            final(self).original() == final(r)@,
            *final(final(self).mirror()) == *final(old(self).mirror()),
            final(self).staged() == old(self).staged(),
            *final(self) is V1 <==> *old(self) is V1,
    {
        match self {
            BTreeMapTransactionWrapper::V1(v) => v.tree_mut(),
            BTreeMapTransactionWrapper::V2(v) => v.tree_mut(),
        }
    }

    /// The value that the transaction inside shows under `key`.
    pub fn get(&self, key: &K) -> (r: Option<&V>)
        ensures
            vstd::laws_cmp::obeys_cmp::<K>() ==> r == (if self@.contains_key(*key) {
                Some(&self@[*key])
            } else {
                None
            }),
    {
        match self {
            BTreeMapTransactionWrapper::V1(v) => v.get(key),
            BTreeMapTransactionWrapper::V2(v) => v.get(key),
        }
    }

    pub fn contains_key(&self, key: &K) -> (r: bool)
        ensures
            vstd::laws_cmp::obeys_cmp::<K>() ==> r == self@.contains_key(*key),
    {
        match self {
            BTreeMapTransactionWrapper::V1(v) => v.contains_key(key),
            BTreeMapTransactionWrapper::V2(v) => v.contains_key(key),
        }
    }

    /// A guard on the value that the transaction inside shows under `key`.
    pub fn get_mut(&mut self, key: K) -> (r: Option<BTreeMapTransactionValueGuard<'_, K, V>>)
        ensures
            final(self).mirror() == old(self).mirror(),
            *final(self) is V1 <==> *old(self) is V1,
            r matches Some(guard) ==> guard.inv(),
            vstd::laws_cmp::obeys_cmp::<K>() ==> {
                &&& r is Some <==> old(self)@.contains_key(key)
                &&& r is None ==> final(self).staged() == old(self).staged()
                &&& r matches Some(guard) ==> {
                    &&& guard.value() == old(self)@[key]
                    &&& guard.is_staged() == old(self).staged().contains_key(key)
                    &&& guard.is_staged() ==> final(self).staged() == old(self).staged().insert(
                        key,
                        BTreeMapOp::Insert(*final(guard.value_handle())),
                    )
                    &&& !guard.is_staged() ==> {
                        &&& guard.key() == key
                        &&& guard.staging_handle()@ == old(self).staged()
                        &&& final(guard.staging_handle())@ == final(self).staged()
                    }
                }
            },
    {
        match self {
            BTreeMapTransactionWrapper::V1(v) => v.get_mut(key),
            BTreeMapTransactionWrapper::V2(v) => v.get_mut(key),
        }
    }

    pub fn insert(&mut self, key: K, value: V)
        ensures
            final(self).mirror() == old(self).mirror(),
            *final(self) is V1 <==> *old(self) is V1,
            vstd::laws_cmp::obeys_cmp::<K>() ==> final(self).staged() == old(self).staged().insert(
                key,
                BTreeMapOp::Insert(value),
            ),
    {
        match self {
            BTreeMapTransactionWrapper::V1(v) => v.insert(key, value),
            BTreeMapTransactionWrapper::V2(v) => v.insert(key, value),
        }
    }

    pub fn remove(&mut self, key: K) -> (r: Option<V>)
        ensures
            final(self).mirror() == old(self).mirror(),
            *final(self) is V1 <==> *old(self) is V1,
            vstd::laws_cmp::obeys_cmp::<K>() ==> {
                &&& r is Some <==> old(self)@.contains_key(key)
                &&& final(self).staged() == (if old(self)@.contains_key(key) {
                    old(self).staged().insert(key, BTreeMapOp::Delete)
                } else {
                    old(self).staged()
                })
                &&& r matches Some(v) ==> (if old(self).staged().contains_key(key) {
                    v == old(self)@[key]
                } else {
                    cloned(old(self)@[key], v)
                })
            },
    {
        match self {
            BTreeMapTransactionWrapper::V1(v) => v.remove(key),
            BTreeMapTransactionWrapper::V2(v) => v.remove(key),
        }
    }

    pub fn commit_memory(self)
        ensures
            vstd::laws_cmp::obeys_cmp::<K>() ==> final(self.mirror())@ == self@,
    {
        match self {
            BTreeMapTransactionWrapper::V1(v) => v.commit_memory(),
            BTreeMapTransactionWrapper::V2(v) => v.commit_memory(),
        }
    }

    pub fn new_entry_txn_or_default(&mut self, key: K, default_val: V) -> (r:
        BTreeMapEntryTransactionWrapper<'_, K, V>)
        ensures
            final(self).staged() == old(self).staged(),
            *final(final(self).mirror()) == *final(old(self).mirror()),
            *final(self) is V1 <==> *old(self) is V1,
            r is V1 <==> *old(self) is V1,
            r.entry_key() == key,
            r.original() == old(self).original(),
            final(r.mirror())@ == final(self).original(),
            vstd::laws_cmp::obeys_cmp::<K>() ==> (if old(self).original().contains_key(key) {
                cloned(old(self).original()[key], r.value())
            } else {
                r.value() == default_val
            }),
    {
        match self {
            BTreeMapTransactionWrapper::V1(v) => BTreeMapEntryTransactionWrapper::V1(
                v.new_entry_txn_or_default(key, default_val),
            ),
            BTreeMapTransactionWrapper::V2(v) => BTreeMapEntryTransactionWrapper::V2(
                v.new_entry_txn_or_default(key, default_val),
            ),
        }
    }

    pub fn new_entry_insert_txn(&mut self, key: K, val: V) -> (r: BTreeMapEntryTransactionWrapper<
        '_,
        K,
        V,
    >)
        ensures
            final(self).staged() == old(self).staged(),
            *final(final(self).mirror()) == *final(old(self).mirror()),
            *final(self) is V1 <==> *old(self) is V1,
            r is V1 <==> *old(self) is V1,
            r.entry_key() == key,
            r.value() == val,
            r.original() == old(self).original(),
            final(r.mirror())@ == final(self).original(),
    {
        match self {
            BTreeMapTransactionWrapper::V1(v) => BTreeMapEntryTransactionWrapper::V1(
                v.new_entry_insert_txn(key, val),
            ),
            BTreeMapTransactionWrapper::V2(v) => BTreeMapEntryTransactionWrapper::V2(
                v.new_entry_insert_txn(key, val),
            ),
        }
    }

    /// The transaction inside, which must be one against the legacy backing transaction.
    pub fn into_v1(self) -> (r: BTreeMapTransaction<'a, K, V, Transaction>)
        requires
            self is V1,
        ensures
            r == self->V1_0,
    {
        match self {
            BTreeMapTransactionWrapper::V1(v) => v,
            BTreeMapTransactionWrapper::V2(_) => unreached(),
        }
    }

    /// The transaction inside, which must be one against the legacy backing transaction.
    pub fn as_v1_ref(&self) -> (r: &BTreeMapTransaction<'a, K, V, Transaction>)
        requires
            self is V1,
        ensures
            *r == self->V1_0,
    {
        match self {
            BTreeMapTransactionWrapper::V1(v) => v,
            BTreeMapTransactionWrapper::V2(_) => unreached(),
        }
    }

    /// The transaction inside, which must be one against the current backing transaction.
    pub fn into_v2(self) -> (r: BTreeMapTransaction<'a, K, V, TransactionV2>)
        requires
            self is V2,
        ensures
            r == self->V2_0,
    {
        match self {
            BTreeMapTransactionWrapper::V1(_) => unreached(),
            BTreeMapTransactionWrapper::V2(v) => v,
        }
    }

    /// The transaction inside, which must be one against the current backing transaction.
    pub fn as_v2_ref(&self) -> (r: &BTreeMapTransaction<'a, K, V, TransactionV2>)
        requires
            self is V2,
        ensures
            *r == self->V2_0,
    {
        match self {
            BTreeMapTransactionWrapper::V1(_) => unreached(),
            BTreeMapTransactionWrapper::V2(v) => v,
        }
    }
}

/// A staged transaction over one key of an ordered map, against the legacy (`V1`) or the
/// current (`V2`) backing transaction.
pub enum BTreeMapEntryTransactionWrapper<'a, K: Ord, V> {
    V1(BTreeMapEntryTransaction<'a, K, V, Transaction>),
    V2(BTreeMapEntryTransaction<'a, K, V, TransactionV2>),
}

impl<'a, K: Ord, V: Clone> BTreeMapEntryTransactionWrapper<'a, K, V> {
    /// The borrowed map of the transaction inside.
    pub open spec fn mirror(&self) -> &'a mut BTreeMap<K, V> {
        match *self {
            BTreeMapEntryTransactionWrapper::V1(v) => v.mirror(),
            BTreeMapEntryTransactionWrapper::V2(v) => v.mirror(),
        }
    }

    /// The map as it was when the transaction inside began.
    pub open spec fn original(&self) -> Map<K, V> {
        (*self.mirror())@
    }

    /// The key that the transaction inside is about.
    pub open spec fn entry_key(&self) -> K {
        match *self {
            BTreeMapEntryTransactionWrapper::V1(v) => v.entry_key(),
            BTreeMapEntryTransactionWrapper::V2(v) => v.entry_key(),
        }
    }

    /// The value that the transaction inside will put under its key.
    pub open spec fn value(&self) -> V {
        match *self {
            BTreeMapEntryTransactionWrapper::V1(v) => v.value(),
            BTreeMapEntryTransactionWrapper::V2(v) => v.value(),
        }
    }

    /// The transaction inside, which must be one against the legacy backing transaction.
    pub fn as_v1_ref(&self) -> (r: &BTreeMapEntryTransaction<'a, K, V, Transaction>)
        requires
            self is V1,
        ensures
            *r == self->V1_0,
    {
        match self {
            BTreeMapEntryTransactionWrapper::V1(v) => v,
            BTreeMapEntryTransactionWrapper::V2(_) => unreached(),
        }
    }

    /// The transaction inside, which must be one against the legacy backing transaction.
    pub fn into_v1(self) -> (r: BTreeMapEntryTransaction<'a, K, V, Transaction>)
        requires
            self is V1,
        ensures
            r == self->V1_0,
    {
        match self {
            BTreeMapEntryTransactionWrapper::V1(v) => v,
            BTreeMapEntryTransactionWrapper::V2(_) => unreached(),
        }
    }

    /// The transaction inside, which must be one against the current backing transaction.
    pub fn as_v2_ref(&self) -> (r: &BTreeMapEntryTransaction<'a, K, V, TransactionV2>)
        requires
            self is V2,
        ensures
            *r == self->V2_0,
    {
        match self {
            BTreeMapEntryTransactionWrapper::V1(_) => unreached(),
            BTreeMapEntryTransactionWrapper::V2(v) => v,
        }
    }

    /// The transaction inside, which must be one against the current backing transaction.
    pub fn into_v2(self) -> (r: BTreeMapEntryTransaction<'a, K, V, TransactionV2>)
        requires
            self is V2,
        ensures
            r == self->V2_0,
    {
        match self {
            BTreeMapEntryTransactionWrapper::V1(_) => unreached(),
            BTreeMapEntryTransactionWrapper::V2(v) => v,
        }
    }
}

impl<'a, K: Ord, V: Clone> Deref for BTreeMapEntryTransactionWrapper<'a, K, V> {
    type Target = V;

    fn deref(&self) -> (r: &V)
        ensures
            *r == self.value(),
    {
        match self {
            BTreeMapEntryTransactionWrapper::V1(v) => v.deref(),
            BTreeMapEntryTransactionWrapper::V2(v) => v.deref(),
        }
    }
}

impl<'a, K: Ord, V: Clone> DerefMut for BTreeMapEntryTransactionWrapper<'a, K, V> {
    fn deref_mut(&mut self) -> (r: &mut V)
        ensures
            *r == old(self).value(),
            final(self).value() == *final(r),
            final(self).entry_key() == old(self).entry_key(),
            final(self).mirror() == old(self).mirror(),
            *final(self) is V1 <==> *old(self) is V1,
    {
        match self {
            BTreeMapEntryTransactionWrapper::V1(v) => v.deref_mut(),
            BTreeMapEntryTransactionWrapper::V2(v) => v.deref_mut(),
        }
    }
}

/// A staged transaction over a single value, against the legacy (`V1`) or the current
/// (`V2`) backing transaction.
pub enum VarTransactionWrapper<'a, T: Transactional<Transaction> + Transactional<TransactionV2>> {
    V1(VarTransaction<'a, Transaction, T>),
    V2(VarTransaction<'a, TransactionV2, T>),
}

impl<'a, T> VarTransactionWrapper<'a, T> where
    T: Transactional<Transaction> + Transactional<TransactionV2>,
 {
    /// The borrowed value of the transaction inside.
    pub open spec fn mirror(&self) -> &'a mut T {
        match *self {
            VarTransactionWrapper::V1(v) => v.mirror(),
            VarTransactionWrapper::V2(v) => v.mirror(),
        }
    }

    /// The shadow of the transaction inside, if anything was written.
    pub open spec fn staged(&self) -> Option<T> {
        match *self {
            VarTransactionWrapper::V1(v) => v.staged(),
            VarTransactionWrapper::V2(v) => v.staged(),
        }
    }

    /// What a read through the transaction inside sees.
    pub open spec fn value(&self) -> T {
        match self.staged() {
            Some(v) => v,
            None => *self.mirror(),
        }
    }

    /// The transaction inside, which must be one against the legacy backing transaction.
    pub fn as_v1_ref(&self) -> (r: &VarTransaction<'a, Transaction, T>)
        requires
            self is V1,
        ensures
            *r == self->V1_0,
    {
        match self {
            VarTransactionWrapper::V1(v) => v,
            VarTransactionWrapper::V2(_) => unreached(),
        }
    }

    /// The transaction inside, which must be one against the legacy backing transaction.
    pub fn into_v1(self) -> (r: VarTransaction<'a, Transaction, T>)
        requires
            self is V1,
        ensures
            r == self->V1_0,
    {
        match self {
            VarTransactionWrapper::V1(v) => v,
            VarTransactionWrapper::V2(_) => unreached(),
        }
    }

    /// The transaction inside, which must be one against the current backing transaction.
    pub fn as_v2_ref(&self) -> (r: &VarTransaction<'a, TransactionV2, T>)
        requires
            self is V2,
        ensures
            *r == self->V2_0,
    {
        match self {
            VarTransactionWrapper::V1(_) => unreached(),
            VarTransactionWrapper::V2(v) => v,
        }
    }

    /// The transaction inside, which must be one against the current backing transaction.
    pub fn into_v2(self) -> (r: VarTransaction<'a, TransactionV2, T>)
        requires
            self is V2,
        ensures
            r == self->V2_0,
    {
        match self {
            VarTransactionWrapper::V1(_) => unreached(),
            VarTransactionWrapper::V2(v) => v,
        }
    }
}

impl<'a, T> Deref for VarTransactionWrapper<'a, T> where
    T: Transactional<Transaction> + Transactional<TransactionV2>,
 {
    type Target = T;

    fn deref(&self) -> (r: &T)
        ensures
            *r == self.value(),
    {
        match self {
            VarTransactionWrapper::V1(v) => v.deref(),
            VarTransactionWrapper::V2(v) => v.deref(),
        }
    }
}

impl<'a, T> DerefMut for VarTransactionWrapper<'a, T> where
    T: Transactional<Transaction> + Transactional<TransactionV2> + Clone,
 {
    fn deref_mut(&mut self) -> (r: &mut T)
        ensures
            old(self).staged() matches Some(v) ==> *r == v,
            old(self).staged() is None ==> cloned(*old(self).mirror(), *r),
            final(self).staged() == Some(*final(r)),
            final(self).mirror() == old(self).mirror(),
            *final(self) is V1 <==> *old(self) is V1,
    {
        match self {
            VarTransactionWrapper::V1(v) => v.deref_mut(),
            VarTransactionWrapper::V2(v) => v.deref_mut(),
        }
    }
}

} // verus!
