//! Records of the metadata store: what a record type provides, and what follows from it
//! for storing, loading and describing records.

use vstd::prelude::*;
use crate::codec::decode_value;
use crate::codec::encode_value;
use crate::error::MetaStoreError;
use crate::error::MetadataModelError;
use crate::error::MetadataModelResult;
use crate::storage::OperationView;
use crate::storage::Transaction;
use crate::transactional::Transactional;

verus! {

/// A record type of the metadata store. It names its column family, has a key, and goes
/// to and from its serialized form.
///
/// A record type that wants its records reasoned about says what its four methods
/// return: it defines the four spec functions beside them and declares with
/// `obeys_model_spec` that the methods do as they say. Of a record type that leaves them
/// as they are, nothing is taken for granted.
pub trait MetadataModel: Sized {
    /// Whether the four methods return what the four spec functions say.
    open spec fn obeys_model_spec() -> bool {
        false
    }

    /// The name of the column family of this record type.
    open spec fn spec_cf_name() -> Seq<char> {
        arbitrary()
    }

    /// The serialized form of the record.
    open spec fn spec_to_protobuf(&self) -> Seq<u8> {
        arbitrary()
    }

    /// The record that a serialized form stands for, or why it stands for none.
    open spec fn spec_from_protobuf(wire: Seq<u8>) -> MetadataModelResult<Self> {
        arbitrary()
    }

    /// The serialized key of the record, or why it has none.
    open spec fn spec_key(&self) -> MetadataModelResult<Seq<u8>> {
        arbitrary()
    }

    /// Column family for this model.
    fn cf_name() -> (r: String)
        ensures
            Self::obeys_model_spec() ==> r@ == Self::spec_cf_name(),
    ;

    /// Serializes the record.
    fn to_protobuf(&self) -> (r: Vec<u8>)
        ensures
            Self::obeys_model_spec() ==> r@ == self.spec_to_protobuf(),
    ;

    /// Deserializes a record.
    fn from_protobuf(wire: &[u8]) -> (r: MetadataModelResult<Self>)
        ensures
            Self::obeys_model_spec() ==> r == Self::spec_from_protobuf(wire@),
    ;

    /// The serialized key of the record.
    fn key(&self) -> (r: MetadataModelResult<Vec<u8>>)
        ensures
            Self::obeys_model_spec() ==> match r {
                Ok(key) => self.spec_key() == Ok::<Seq<u8>, MetadataModelError>(key@),
                Err(e) => self.spec_key() == Err::<Seq<u8>, MetadataModelError>(e),
            },
    ;
}

/// The bytes that are stored for `model`.
pub open spec fn stored_form<M: MetadataModel>(model: M) -> Seq<u8> {
    crate::codec::encoded(model.spec_to_protobuf())
}

/// The record that stored bytes stand for, or why they stand for none.
pub open spec fn record_of<M: MetadataModel>(stored: Seq<u8>) -> MetadataModelResult<M> {
    match crate::codec::decoded(stored) {
        Ok(wire) => M::spec_from_protobuf(wire),
        Err(e) => Err(MetadataModelError::DecodeError(e)),
    }
}

/// Whether the stored form of a serialized form can be told from a compressed one: it
/// is over the compression threshold, and so stored compressed, or it does not start
/// with a gzip header of its own. The serialized forms of protobuf messages are taken to
/// be of this kind.
pub open spec fn is_storable(wire: Seq<u8>) -> bool {
    wire.len() > crate::codec::MODEL_COMPRESSION_THRESHOLD || !crate::codec::has_gzip_header(wire)
}

/// The bytes to store for `model`.
///
/// [`decode_record`] reads from them what the serialized form of `model` stands for,
/// and so `model` itself where the record type reads its own serialized forms back;
/// unless the serialized form is not storable.
pub fn encode_record<M: MetadataModel>(model: &M) -> (r: Vec<u8>)
    ensures
        M::obeys_model_spec() ==> {
            &&& r@ == stored_form(*model)
            &&& is_storable(model.spec_to_protobuf()) ==> record_of::<M>(r@)
                == M::spec_from_protobuf(model.spec_to_protobuf())
            &&& is_storable(model.spec_to_protobuf()) && M::spec_from_protobuf(
                model.spec_to_protobuf(),
            ) == Ok::<M, MetadataModelError>(*model) ==> record_of::<M>(r@) == Ok::<
                M,
                MetadataModelError,
            >(*model)
        },
{
    encode_value(model.to_protobuf())
}

/// The record that stored bytes stand for.
pub fn decode_record<M: MetadataModel>(stored: &[u8]) -> (r: MetadataModelResult<M>)
    ensures
        M::obeys_model_spec() ==> r == record_of::<M>(stored@),
        crate::codec::decoded(stored@) matches Err(e) ==> r == Err::<M, MetadataModelError>(
            MetadataModelError::DecodeError(e),
        ),
{
    match decode_value(stored) {
        Ok(wire) => M::from_protobuf(wire.as_slice()),
        Err(e) => Err(MetadataModelError::DecodeError(e)),
    }
}

/// The records that the stored values of `entries` stand for, in their order, or the
/// failure of the first value that stands for none.
pub open spec fn records_of<M: MetadataModel>(
    entries: Seq<(Vec<u8>, Vec<u8>)>,
) -> MetadataModelResult<Seq<M>>
    decreases entries.len(),
{
    if entries.len() == 0 {
        Ok(Seq::empty())
    } else {
        match records_of::<M>(entries.drop_last()) {
            Ok(records) => match record_of::<M>(entries.last().1@) {
                Ok(record) => Ok(records.push(record)),
                Err(e) => Err(e),
            },
            Err(e) => Err(e),
        }
    }
}

/// Decodes every value of a listing of a column family, which pairs keys with values.
pub fn decode_all<M: MetadataModel>(entries: &Vec<(Vec<u8>, Vec<u8>)>) -> (r: MetadataModelResult<
    Vec<M>,
>)
    ensures
        M::obeys_model_spec() ==> match r {
            Ok(records) => records_of::<M>(entries@) == Ok::<Seq<M>, MetadataModelError>(records@),
            Err(e) => records_of::<M>(entries@) == Err::<Seq<M>, MetadataModelError>(e),
        },
{
    let mut records: Vec<M> = Vec::new();
    let mut i: usize = 0;
    while i < entries.len()
        invariant
            i <= entries.len(),
            M::obeys_model_spec() ==> records_of::<M>(entries@.take(i as int)) == Ok::<
                Seq<M>,
                MetadataModelError,
            >(records@),
        decreases entries.len() - i,
    {
        let ghost prefix = entries@.take(i + 1);
        assert(prefix.drop_last() =~= entries@.take(i as int));
        assert(prefix.last() == entries@[i as int]);
        match decode_record::<M>(entries[i].1.as_slice()) {
            Ok(record) => {
                records.push(record);
            },
            Err(e) => {
                proof {
                    if M::obeys_model_spec() {
                        lemma_records_of_fails::<M>(entries@, i + 1);
                    }
                }
                return Err(e);
            },
        }
        i = i + 1;
    }
    assert(entries@.take(i as int) =~= entries@);
    Ok(records)
}

/// Where a prefix of a listing fails to decode, the listing fails in the same way.
pub proof fn lemma_records_of_fails<M: MetadataModel>(entries: Seq<(Vec<u8>, Vec<u8>)>, n: int)
    requires
        0 <= n <= entries.len(),
        records_of::<M>(entries.take(n)) is Err,
    ensures
        records_of::<M>(entries) == records_of::<M>(entries.take(n)),
    decreases entries.len() - n,
{
    if n == entries.len() {
        assert(entries.take(n) =~= entries);
    } else {
        let longer = entries.take(n + 1);
        assert(longer.drop_last() =~= entries.take(n));
        lemma_records_of_fails::<M>(entries, n + 1);
    }
}

/// What to put into the store for `model`: its column family, its key and its stored
/// form.
pub fn insert_request<M: MetadataModel>(model: &M) -> (r: MetadataModelResult<
    (String, Vec<u8>, Vec<u8>),
>)
    ensures
        M::obeys_model_spec() ==> match r {
            Ok((cf, key, value)) => {
                &&& cf@ == M::spec_cf_name()
                &&& model.spec_key() == Ok::<Seq<u8>, MetadataModelError>(key@)
                &&& value@ == stored_form(*model)
            },
            Err(e) => model.spec_key() == Err::<Seq<u8>, MetadataModelError>(e),
        },
{
    match model.key() {
        Ok(key) => Ok((M::cf_name(), key, encode_record(model))),
        Err(e) => Err(e),
    }
}

/// What a lookup in the store amounts to: no record where the store has no item under
/// the key, the store's failure where it failed otherwise, and the decoded record where
/// it answered with bytes.
pub fn select_result<M: MetadataModel>(fetched: Result<Vec<u8>, MetaStoreError>) -> (r:
    MetadataModelResult<Option<M>>)
    ensures
        fetched matches Err(e) ==> r == (if e is ItemNotFound {
            Ok::<Option<M>, MetadataModelError>(None)
        } else {
            Err(MetadataModelError::MetaStoreError(e))
        }),
        M::obeys_model_spec() ==> (fetched matches Ok(stored) ==> r == (match record_of::<M>(
            stored@,
        ) {
            Ok(model) => Ok::<Option<M>, MetadataModelError>(Some(model)),
            Err(e) => Err(e),
        })),
{
    let stored = match fetched {
        Ok(stored) => stored,
        Err(err) => {
            if !err.is_not_found() {
                return Err(MetadataModelError::MetaStoreError(err));
            }
            return Ok(None);
        },
    };
    match decode_record::<M>(stored.as_slice()) {
        Ok(model) => Ok(Some(model)),
        Err(e) => Err(e),
    }
}

/// What describing `model` does to a legacy transaction that holds `txn`: a put of the
/// stored form under the key where `upsert` is set, a delete of the key otherwise; and
/// nothing but the failure where the record has no key.
pub open spec fn described<M: MetadataModel>(model: M, txn: Seq<OperationView>, upsert: bool) -> (
    MetadataModelResult<()>,
    Seq<OperationView>,
) {
    match model.spec_key() {
        Ok(key) => (
            Ok(()),
            txn.push(
                if upsert {
                    OperationView::Put { cf: M::spec_cf_name(), key, value: stored_form(model) }
                } else {
                    OperationView::Delete { cf: M::spec_cf_name(), key }
                },
            ),
        ),
        Err(e) => (Err(e), txn),
    }
}

impl<T: MetadataModel> Transactional<Transaction> for T {
    open spec fn obeys_transactional_spec() -> bool {
        T::obeys_model_spec()
    }

    open spec fn upsert_spec(&self, txn: Seq<OperationView>) -> (
        MetadataModelResult<()>,
        Seq<OperationView>,
    ) {
        described(*self, txn, true)
    }

    open spec fn delete_spec(&self, txn: Seq<OperationView>) -> (
        MetadataModelResult<()>,
        Seq<OperationView>,
    ) {
        described(*self, txn, false)
    }

    fn upsert_in_transaction(&self, trx: &mut Transaction) -> (r: MetadataModelResult<()>) {
        match self.key() {
            Ok(key) => {
                trx.put(T::cf_name(), key, encode_record(self));
                Ok(())
            },
            Err(e) => Err(e),
        }
    }

    fn delete_in_transaction(&self, trx: &mut Transaction) -> (r: MetadataModelResult<()>) {
        match self.key() {
            Ok(key) => {
                trx.delete(T::cf_name(), key);
                Ok(())
            },
            Err(e) => Err(e),
        }
    }
}

} // verus!
