use std::collections::BTreeMap;

use meta_model::codec::decode_value;
use meta_model::codec::decompressed;
use meta_model::codec::encode_value;
use meta_model::codec::is_over_threshold;
use meta_model::codec::MODEL_COMPRESSION_THRESHOLD;
use meta_model::error::DecodeError;
use meta_model::error::MetaStoreError;
use meta_model::error::MetadataModelError;
use meta_model::error::MetadataModelResult;
use meta_model::model::decode_all;
use meta_model::model::decode_record;
use meta_model::model::encode_record;
use meta_model::model::insert_request;
use meta_model::model::select_result;
use meta_model::model::MetadataModel;
use meta_model::storage::Operation;
use meta_model::storage::Transaction;
use meta_model::transactional::Transactional;
use prost::bytes::Buf;
use prost::bytes::BufMut;
use prost::encoding::DecodeContext;
use prost::encoding::WireType;
use prost::Message;

/// The message of a database of the catalog, with its id as the first field and its
/// name as the second.
#[derive(Clone, PartialEq, Debug, Default)]
struct Database {
    id: u32,
    name: String,
}

impl Message for Database {
    fn encode_raw(&self, buf: &mut impl BufMut) {
        if self.id != 0 {
            prost::encoding::uint32::encode(1, &self.id, buf);
        }
        if !self.name.is_empty() {
            prost::encoding::string::encode(2, &self.name, buf);
        }
    }

    fn merge_field(
        &mut self,
        tag: u32,
        wire_type: WireType,
        buf: &mut impl Buf,
        ctx: DecodeContext,
    ) -> Result<(), prost::DecodeError> {
        match tag {
            1 => prost::encoding::uint32::merge(wire_type, &mut self.id, buf, ctx),
            2 => prost::encoding::string::merge(wire_type, &mut self.name, buf, ctx),
            _ => prost::encoding::skip_field(wire_type, tag, buf, ctx),
        }
    }

    fn encoded_len(&self) -> usize {
        let id = if self.id != 0 {
            prost::encoding::uint32::encoded_len(1, &self.id)
        } else {
            0
        };
        let name = if !self.name.is_empty() {
            prost::encoding::string::encoded_len(2, &self.name)
        } else {
            0
        };
        id + name
    }

    fn clear(&mut self) {
        self.id = 0;
        self.name.clear();
    }
}

impl MetadataModel for Database {
    fn cf_name() -> String {
        "cf/database".to_string()
    }

    fn to_protobuf(&self) -> Vec<u8> {
        self.encode_to_vec()
    }

    fn from_protobuf(wire: &[u8]) -> MetadataModelResult<Self> {
        match Database::decode(wire) {
            Ok(database) => Ok(database),
            Err(_) => Err(MetadataModelError::DecodeError(DecodeError::Malformed)),
        }
    }

    fn key(&self) -> MetadataModelResult<Vec<u8>> {
        if self.id == u32::MAX {
            return Err(MetadataModelError::InternalError(
                "no id assigned".to_string(),
            ));
        }
        Ok(self.id.encode_to_vec())
    }
}

/// A store in memory: byte values under a column family and a key.
struct MemStore {
    items: BTreeMap<(String, Vec<u8>), Vec<u8>>,
}

impl MemStore {
    fn new() -> Self {
        MemStore {
            items: BTreeMap::new(),
        }
    }

    fn put_cf(&mut self, cf: String, key: Vec<u8>, value: Vec<u8>) {
        self.items.insert((cf, key), value);
    }

    fn get_cf(&self, cf: &str, key: &[u8]) -> Result<Vec<u8>, MetaStoreError> {
        match self.items.get(&(cf.to_string(), key.to_vec())) {
            Some(value) => Ok(value.clone()),
            None => Err(MetaStoreError::ItemNotFound(format!("{}/{:?}", cf, key))),
        }
    }

    fn list_cf(&self, cf: &str) -> Vec<(Vec<u8>, Vec<u8>)> {
        self.items
            .iter()
            .filter(|((item_cf, _), _)| item_cf == cf)
            .map(|((_, key), value)| (key.clone(), value.clone()))
            .collect()
    }
}

fn do_test(len: usize) {
    // Use `Database` as a test model.
    type Model = Database;

    let mut store = MemStore::new();
    let model = Model {
        name: "t".repeat(len),
        ..Default::default()
    };
    {
        let encoded_len = model.encoded_len();
        // Showing that the encoded length is larger than the original length.
        // So that a len greater than the threshold will hit the compression branch.
        assert!(encoded_len >= len, "encoded_len: {encoded_len}, len: {len}");
    }
    let (cf, key, value) = insert_request(&model).unwrap();
    store.put_cf(cf, key, value);

    // Test `list`
    let mut listed = decode_all::<Model>(&store.list_cf(&Model::cf_name())).unwrap();
    assert_eq!(1, listed.len());
    let decoded = listed.pop().unwrap();
    assert_eq!(model, decoded);

    // Test `select`
    let fetched = store.get_cf(&Model::cf_name(), &model.key().unwrap());
    let decoded = select_result::<Model>(fetched).unwrap().unwrap();
    assert_eq!(model, decoded);
}

#[test]
fn test_compress_decompress() {
    do_test(1);
    do_test(MODEL_COMPRESSION_THRESHOLD + 1);
}

#[test]
fn the_threshold_is_one_mebibyte() {
    assert_eq!(1 << 20, MODEL_COMPRESSION_THRESHOLD);
}

#[test]
fn bytes_up_to_the_threshold_are_stored_as_they_are() {
    let short = vec![7u8, 8, 9];
    assert_eq!(short, encode_value(short.clone()));
    assert_eq!(Vec::<u8>::new(), encode_value(Vec::new()));
    let at_threshold = vec![0x5au8; MODEL_COMPRESSION_THRESHOLD];
    assert_eq!(at_threshold, encode_value(at_threshold.clone()));
    assert_eq!(Ok(at_threshold.clone()), decode_value(&at_threshold));
}

#[test]
fn bytes_over_the_threshold_are_stored_as_a_gzip_stream() {
    let long: Vec<u8> = (0..MODEL_COMPRESSION_THRESHOLD + 1)
        .map(|i| (i % 251) as u8)
        .collect();
    let stored = encode_value(long.clone());
    assert_ne!(long, stored);
    assert!(stored.len() < long.len());
    assert_eq!(&[0x1f, 0x8b, 0x08], &stored[..3]);
    assert_eq!(Ok(long), decode_value(&stored));
}

#[test]
fn bytes_without_a_gzip_header_decode_to_themselves() {
    assert_eq!(Ok(vec![1, 2, 3]), decode_value(&[1, 2, 3]));
    assert_eq!(Ok(vec![]), decode_value(&[]));
    // the magic bytes alone are no header
    assert_eq!(Ok(vec![0x1f, 0x8b]), decode_value(&[0x1f, 0x8b]));
    // nor is a header with another compression method
    let other_method = vec![0x1f, 0x8b, 0x07, 0, 0, 0, 0, 0, 0, 0xff];
    assert_eq!(Ok(other_method.clone()), decode_value(&other_method));
}

#[test]
fn a_broken_gzip_stream_is_corrupt() {
    let long = vec![3u8; MODEL_COMPRESSION_THRESHOLD + 5];
    let stored = encode_value(long);
    let truncated = &stored[..stored.len() - 4];
    assert_eq!(Err(DecodeError::Corrupt), decode_value(truncated));
    let header_only = &stored[..10];
    assert_eq!(Err(DecodeError::Corrupt), decode_value(header_only));
    let mut flipped = stored.clone();
    let last = flipped.len() - 1;
    flipped[last] ^= 0xff;
    assert_eq!(Err(DecodeError::Corrupt), decode_value(&flipped));
}

#[test]
fn a_record_comes_back_from_its_stored_form() {
    let small = Database {
        id: 7,
        name: "dev".to_string(),
    };
    let stored = encode_record(&small);
    assert_eq!(small.encode_to_vec(), stored);
    assert_eq!(Ok(small), decode_record::<Database>(&stored));

    let large = Database {
        id: 8,
        name: "n".repeat(MODEL_COMPRESSION_THRESHOLD),
    };
    let stored = encode_record(&large);
    assert_eq!(&[0x1f, 0x8b], &stored[..2]);
    assert_eq!(Ok(large), decode_record::<Database>(&stored));
}

#[test]
fn a_malformed_payload_is_a_decode_failure() {
    // field 2 announces five bytes and brings one
    let malformed = vec![0x12, 0x05, b'x'];
    assert_eq!(
        Err(MetadataModelError::DecodeError(DecodeError::Malformed)),
        decode_record::<Database>(&malformed)
    );
    let stored = encode_value(vec![0xffu8; MODEL_COMPRESSION_THRESHOLD + 1]);
    assert_eq!(
        Err(MetadataModelError::DecodeError(DecodeError::Malformed)),
        decode_record::<Database>(&stored)
    );
    let corrupt = &stored[..20];
    assert_eq!(
        Err(MetadataModelError::DecodeError(DecodeError::Corrupt)),
        decode_record::<Database>(corrupt)
    );
}

#[test]
fn a_listing_decodes_in_order_and_fails_with_its_first_bad_value() {
    let first = Database {
        id: 1,
        name: "one".to_string(),
    };
    let second = Database {
        id: 2,
        name: "two".to_string(),
    };
    let entries = vec![
        (first.key().unwrap(), encode_record(&first)),
        (second.key().unwrap(), encode_record(&second)),
    ];
    assert_eq!(
        Ok(vec![first.clone(), second.clone()]),
        decode_all::<Database>(&entries)
    );
    assert_eq!(Ok(vec![]), decode_all::<Database>(&vec![]));

    let truncated_gzip = encode_value(vec![1u8; MODEL_COMPRESSION_THRESHOLD + 1])[..12].to_vec();
    let bad = vec![
        (first.key().unwrap(), encode_record(&first)),
        (vec![9], truncated_gzip),
        (vec![10], vec![0x12, 0x05, b'x']),
    ];
    assert_eq!(
        Err(MetadataModelError::DecodeError(DecodeError::Corrupt)),
        decode_all::<Database>(&bad)
    );
}

#[test]
fn a_lookup_without_an_item_is_no_record_and_no_failure() {
    let not_found = Err(MetaStoreError::ItemNotFound("cf/database/7".to_string()));
    assert_eq!(Ok(None), select_result::<Database>(not_found));
    assert_eq!(
        Err(MetadataModelError::MetaStoreError(
            MetaStoreError::TransactionAbort
        )),
        select_result::<Database>(Err(MetaStoreError::TransactionAbort))
    );
    assert_eq!(
        Err(MetadataModelError::MetaStoreError(MetaStoreError::Internal(
            "disk".to_string()
        ))),
        select_result::<Database>(Err(MetaStoreError::Internal("disk".to_string())))
    );
    assert_eq!(
        Err(MetadataModelError::DecodeError(DecodeError::Malformed)),
        select_result::<Database>(Ok(vec![0x12, 0x05, b'x']))
    );
    assert!(MetaStoreError::ItemNotFound(String::new()).is_not_found());
    assert!(!MetaStoreError::TransactionAbort.is_not_found());
}

#[test]
fn a_record_describes_itself_into_a_legacy_transaction() {
    let database = Database {
        id: 3,
        name: "three".to_string(),
    };
    let mut txn = Transaction::default();
    database.upsert_in_transaction(&mut txn).unwrap();
    database.delete_in_transaction(&mut txn).unwrap();
    assert_eq!(
        vec![
            Operation::Put {
                cf: "cf/database".to_string(),
                key: 3u32.encode_to_vec(),
                value: database.encode_to_vec(),
            },
            Operation::Delete {
                cf: "cf/database".to_string(),
                key: 3u32.encode_to_vec(),
            },
        ],
        txn.into_operations()
    );
}

#[test]
fn a_record_without_a_key_describes_nothing() {
    let database = Database {
        id: u32::MAX,
        name: "none".to_string(),
    };
    let mut txn = Transaction::new();
    let no_id = MetadataModelError::InternalError("no id assigned".to_string());
    assert_eq!(Err(no_id.clone_for_test()), database.upsert_in_transaction(&mut txn));
    assert_eq!(Err(no_id.clone_for_test()), database.delete_in_transaction(&mut txn));
    assert_eq!(Err(no_id), insert_request(&database));
    assert!(txn.get_operations().is_empty());
}

trait CloneForTest {
    fn clone_for_test(&self) -> Self;
}

impl CloneForTest for MetadataModelError {
    fn clone_for_test(&self) -> Self {
        match self {
            MetadataModelError::InternalError(reason) => {
                MetadataModelError::InternalError(reason.clone())
            }
            _ => unreachable!("only internal errors are cloned here"),
        }
    }
}

#[test]
fn compression_starts_above_the_threshold() {
    assert!(!is_over_threshold(0));
    assert!(!is_over_threshold(MODEL_COMPRESSION_THRESHOLD));
    assert!(is_over_threshold(MODEL_COMPRESSION_THRESHOLD + 1));
    assert_eq!(Ok(vec![1, 2]), decompressed(Ok(vec![1, 2])));
    let failure = std::io::Error::new(std::io::ErrorKind::UnexpectedEof, "short");
    assert_eq!(Err(DecodeError::Corrupt), decompressed(Err(failure)));
}
