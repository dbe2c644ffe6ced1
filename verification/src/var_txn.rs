//! A staged transaction over a single value.

use vstd::prelude::*;
use vstd::std_specs::cmp::PartialEqSpec;
use std::marker::PhantomData;
use std::ops::Deref;
use std::ops::DerefMut;
use crate::error::MetadataModelResult;
use crate::transactional::Change;
use crate::transactional::Transactional;
use crate::transactional::ValTransaction;

verus! {

/// Wraps a value that lives elsewhere. The first write clones the value into a shadow
/// and every later write goes to the shadow; `commit` puts the shadow in the value's
/// place, `abort` leaves the value alone.
pub struct VarTransaction<'a, TXN: View, T: Transactional<TXN>> {
    orig_value_ref: &'a mut T,
    new_value: Option<T>,
    _phantom: PhantomData<TXN>,
}

impl<'a, TXN: View, T: Transactional<TXN>> VarTransaction<'a, TXN, T> {
    /// The borrowed value itself. Its content now is [`Self::original`]; its content once
    /// the transaction is gone is what `commit` and `abort` speak of.
    pub closed spec fn mirror(&self) -> &'a mut T {
        self.orig_value_ref
    }

    /// The value as it was when the transaction began.
    pub open spec fn original(&self) -> T {
        *self.mirror()
    }

    /// The shadow, if anything was written.
    pub closed spec fn staged(&self) -> Option<T> {
        self.new_value
    }

    /// What a read through the transaction sees.
    pub open spec fn value(&self) -> T {
        match self.staged() {
            Some(v) => v,
            None => self.original(),
        }
    }

    /// Starts a transaction over `val_ref` with nothing staged.
    pub fn new(val_ref: &'a mut T) -> (r: VarTransaction<'a, TXN, T>)
        ensures
            r.staged() is None,
            r.original() == *old(val_ref),
            *final(r.mirror()) == *final(val_ref),
    {
        VarTransaction { new_value: None, orig_value_ref: val_ref, _phantom: PhantomData }
    }
}

impl<'a, TXN: View, T: Transactional<TXN> + PartialEq> VarTransaction<'a, TXN, T> {
    /// The store-level changes that the staged value implies: one upsert of the shadow if
    /// it is there and `==` tells it apart from the original, nothing otherwise.
    pub open spec fn diff(&self) -> Seq<Change<T>> {
        match self.staged() {
            Some(v) => if self.original().eq_spec(&v) {
                Seq::empty()
            } else {
                seq![Change::Upsert(v)]
            },
            None => Seq::empty(),
        }
    }
}

impl<'a, TXN: View, T: Transactional<TXN>> Deref for VarTransaction<'a, TXN, T> {
    type Target = T;

    fn deref(&self) -> (r: &T)
        ensures
            *r == self.value(),
    {
        match &self.new_value {
            Some(new_value) => new_value,
            None => &*self.orig_value_ref,
        }
    }
}

impl<'a, TXN: View, T: Clone + Transactional<TXN>> DerefMut for VarTransaction<'a, TXN, T> {
    fn deref_mut(&mut self) -> (r: &mut T)
        ensures
            old(self).staged() matches Some(v) ==> *r == v,
            old(self).staged() is None ==> cloned(old(self).original(), *r),
            final(self).staged() == Some(*final(r)),
            final(self).mirror() == old(self).mirror(),
    {
        if self.new_value.is_none() {
            self.new_value = Some(self.orig_value_ref.clone());
        }
        self.new_value.as_mut().unwrap()
    }
}

impl<'a, TXN: View, T: Transactional<TXN> + PartialEq> ValTransaction for VarTransaction<
    'a,
    TXN,
    T,
> {
    type TXN = TXN;

    open spec fn is_described(&self) -> bool {
        T::obeys_eq_spec() && T::obeys_transactional_spec()
    }

    open spec fn described(&self, txn: TXN::V) -> (MetadataModelResult<()>, TXN::V) {
        crate::transactional::describe::<TXN, T>(self.diff(), txn)
    }

    fn commit(self)
        ensures
            *final(self.mirror()) == self.value(),
    {
        let VarTransaction { orig_value_ref, new_value, _phantom } = self;
        if let Some(new_value) = new_value {
            *orig_value_ref = new_value;
        }
    }

    fn apply_to_txn(&self, txn: &mut TXN) -> (r: MetadataModelResult<()>)
        ensures
            T::obeys_transactional_spec() ==> (r, final(txn)@) == (
                Ok::<(), crate::error::MetadataModelError>(()),
                old(txn)@,
            ) || (self.staged() matches Some(v) && (r, final(txn)@) == v.upsert_spec(old(txn)@)),
    {
        if let Some(new_value) = &self.new_value {
            let changed = *self.orig_value_ref != *new_value;
            let r = crate::transactional::upsert_if(changed, new_value, txn);
            proof {
                if T::obeys_eq_spec() && T::obeys_transactional_spec() {
                    crate::transactional::lemma_describe_one::<TXN, T>(
                        Change::Upsert(*new_value),
                        old(txn)@,
                    );
                    crate::transactional::lemma_describe_none::<TXN, T>(old(txn)@);
                }
            }
            r
        } else {
            proof {
                crate::transactional::lemma_describe_none::<TXN, T>(old(txn)@);
            }
            Ok(())
        }
    }

    fn abort(self)
        ensures
            *final(self.mirror()) == self.original(),
    {
    }
}

} // verus!
