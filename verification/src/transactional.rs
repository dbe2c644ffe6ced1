//! The contract a record type meets to take part in staged transactions, and the
//! contract of a staged transaction itself.

use vstd::prelude::*;
use crate::error::MetadataModelError;
use crate::error::MetadataModelResult;

verus! {

/// A record that can describe its own upsert or removal into a backing transaction of
/// type `TXN`.
///
/// Describing is a function of the record and of what the transaction already holds. A
/// record type that wants its transactions reasoned about says what the function is: it
/// defines `upsert_spec` and `delete_spec` and declares with `obeys_transactional_spec`
/// that its two methods do as they say. Of a record type that leaves the three as they
/// are, nothing is taken for granted.
pub trait Transactional<TXN: View>: Sized {
    /// Whether the two methods do what `upsert_spec` and `delete_spec` say.
    open spec fn obeys_transactional_spec() -> bool {
        false
    }

    /// The outcome of describing an upsert of `self` into a transaction that holds `txn`,
    /// and what the transaction holds then.
    open spec fn upsert_spec(&self, txn: TXN::V) -> (MetadataModelResult<()>, TXN::V) {
        arbitrary()
    }

    /// The outcome of describing a removal of `self` from a transaction that holds `txn`,
    /// and what the transaction holds then.
    open spec fn delete_spec(&self, txn: TXN::V) -> (MetadataModelResult<()>, TXN::V) {
        arbitrary()
    }

    /// Appends to `trx` what persists this record.
    fn upsert_in_transaction(&self, trx: &mut TXN) -> (r: MetadataModelResult<()>)
        ensures
            Self::obeys_transactional_spec() ==> (r, final(trx)@) == self.upsert_spec(old(trx)@),
    ;

    /// Appends to `trx` what removes this record from the store.
    fn delete_in_transaction(&self, trx: &mut TXN) -> (r: MetadataModelResult<()>)
        ensures
            Self::obeys_transactional_spec() ==> (r, final(trx)@) == self.delete_spec(old(trx)@),
    ;
}

/// One store-level change that a staged transaction implies.
pub enum Change<V> {
    /// The record is written.
    Upsert(V),
    /// The record, as the mirror held it, is removed.
    Delete(V),
}

/// Describes `changes` one after the other into a transaction that holds `txn`, and stops
/// at the first change that fails.
pub open spec fn describe<TXN: View, V: Transactional<TXN>>(
    changes: Seq<Change<V>>,
    txn: TXN::V,
) -> (MetadataModelResult<()>, TXN::V)
    decreases changes.len(),
{
    if changes.len() == 0 {
        (Ok(()), txn)
    } else {
        let (res, next) = match changes[0] {
            Change::Upsert(v) => v.upsert_spec(txn),
            Change::Delete(v) => v.delete_spec(txn),
        };
        if res is Err {
            (res, next)
        } else {
            describe::<TXN, V>(changes.drop_first(), next)
        }
    }
}

/// A success without a value is the one success there is.
pub proof fn lemma_ok_is_unit(r: MetadataModelResult<()>)
    requires
        r is Ok,
    ensures
        r == Ok::<(), MetadataModelError>(()),
{
    let u = r->Ok_0;
    assert(u == ());
    assert(r == Ok::<(), MetadataModelError>(u));
}

/// Describing nothing succeeds and leaves the transaction as it is.
pub proof fn lemma_describe_none<TXN: View, V: Transactional<TXN>>(txn: TXN::V)
    ensures
        describe::<TXN, V>(Seq::empty(), txn) == (Ok::<(), MetadataModelError>(()), txn),
{
}

/// Describing a single change is describing that change.
pub proof fn lemma_describe_one<TXN: View, V: Transactional<TXN>>(change: Change<V>, txn: TXN::V)
    ensures
        describe::<TXN, V>(seq![change], txn) == (match change {
            Change::Upsert(v) => v.upsert_spec(txn),
            Change::Delete(v) => v.delete_spec(txn),
        }),
{
    let changes = seq![change];
    let (res, next) = match change {
        Change::Upsert(v) => v.upsert_spec(txn),
        Change::Delete(v) => v.delete_spec(txn),
    };
    assert(changes[0] == change);
    if res is Ok {
        lemma_describe_none::<TXN, V>(next);
        assert(changes.drop_first() =~= Seq::<Change<V>>::empty());
        lemma_ok_is_unit(res);
    }
}

/// Describing a change and then more changes is describing the first and, where that
/// succeeds, going on with the rest.
pub proof fn lemma_describe_first<TXN: View, V: Transactional<TXN>>(
    first: Change<V>,
    rest: Seq<Change<V>>,
    txn: TXN::V,
)
    ensures
        describe::<TXN, V>(seq![first] + rest, txn) == ({
            let (res, next) = match first {
                Change::Upsert(v) => v.upsert_spec(txn),
                Change::Delete(v) => v.delete_spec(txn),
            };
            if res is Err {
                (res, next)
            } else {
                describe::<TXN, V>(rest, next)
            }
        }),
{
    let changes = seq![first] + rest;
    assert(changes[0] == first);
    assert(changes.drop_first() =~= rest);
}

/// Describes an upsert of `value` into `txn` where `changed` says so, and nothing
/// otherwise.
pub fn upsert_if<TXN: View, T: Transactional<TXN>>(changed: bool, value: &T, txn: &mut TXN) -> (r:
    MetadataModelResult<()>)
    ensures
        changed && T::obeys_transactional_spec() ==> (r, final(txn)@) == value.upsert_spec(
            old(txn)@,
        ),
        !changed ==> (r, final(txn)@) == (Ok::<(), MetadataModelError>(()), old(txn)@),
{
    if changed {
        value.upsert_in_transaction(txn)
    } else {
        Ok(())
    }
}

/// A staged transaction over a value in memory: `commit` applies what was staged to the
/// value, `abort` leaves the value as it was.
pub trait ValTransaction: Sized {
    /// The backing transaction that the staged changes are described into.
    type TXN: View;

    /// Whether `apply_to_txn` does what `described` says. A staged transaction says so
    /// where its keys and its records keep to their own contracts.
    open spec fn is_described(&self) -> bool {
        false
    }

    /// The outcome of describing the staged changes into a transaction that holds `txn`,
    /// and what the transaction holds then.
    open spec fn described(&self, txn: <Self::TXN as View>::V) -> (
        MetadataModelResult<()>,
        <Self::TXN as View>::V,
    ) {
        arbitrary()
    }

    /// Applies the staged changes to the value in memory.
    fn commit(self);

    /// Describes the staged changes into `txn`.
    fn apply_to_txn(&self, txn: &mut Self::TXN) -> (r: MetadataModelResult<()>)
        ensures
            self.is_described() ==> (r, final(txn)@) == self.described(old(txn)@),
    ;

    /// Gives up the staged changes.
    fn abort(self) {
    }
}

} // verus!
