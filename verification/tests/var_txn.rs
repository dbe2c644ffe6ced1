use meta_model::error::MetadataModelResult;
use meta_model::storage::Operation;
use meta_model::storage::Transaction;
use meta_model::transactional::Transactional;
use meta_model::transactional::ValTransaction;
use meta_model::var_txn::VarTransaction;

#[derive(PartialEq, Clone, Debug)]
struct TestTransactional {
    key: &'static str,
    value: &'static str,
}

const TEST_CF: &str = "test-cf";

impl Transactional<Transaction> for TestTransactional {
    fn upsert_in_transaction(&self, trx: &mut Transaction) -> MetadataModelResult<()> {
        trx.put(
            TEST_CF.to_string(),
            self.key.as_bytes().into(),
            self.value.as_bytes().into(),
        );
        Ok(())
    }

    fn delete_in_transaction(&self, trx: &mut Transaction) -> MetadataModelResult<()> {
        trx.delete(TEST_CF.to_string(), self.key.as_bytes().into());
        Ok(())
    }
}

#[test]
fn test_simple_var_transaction_commit() {
    let mut kv = TestTransactional {
        key: "key",
        value: "original",
    };
    let mut num_txn = VarTransaction::new(&mut kv);
    num_txn.value = "modified";
    assert_eq!(num_txn.value, "modified");
    let mut txn = Transaction::default();
    num_txn.apply_to_txn(&mut txn).unwrap();
    let txn_op = txn.get_operations();
    assert_eq!(1, txn_op.len());
    assert!(matches!(
        &txn_op[0],
        Operation::Put {
            cf: _,
            key: _,
            value: _
        }
    ));
    assert!(
        matches!(&txn_op[0], Operation::Put { cf, key, value } if *cf == TEST_CF && key == "key".as_bytes() && value == "modified".as_bytes())
    );
    num_txn.commit();
    assert_eq!("modified", kv.value);
}

#[test]
fn test_simple_var_transaction_abort() {
    let mut kv = TestTransactional {
        key: "key",
        value: "original",
    };
    let mut num_txn = VarTransaction::new(&mut kv);
    num_txn.value = "modified";
    num_txn.abort();
    assert_eq!("original", kv.value);
}

#[test]
fn reading_a_var_transaction_sees_the_original_until_a_write() {
    let mut kv = TestTransactional {
        key: "key",
        value: "original",
    };
    let mut txn: VarTransaction<'_, Transaction, TestTransactional> = VarTransaction::new(&mut kv);
    assert_eq!("original", txn.value);
    txn.value = "first";
    txn.value = "second";
    assert_eq!("second", txn.value);
    txn.commit();
    assert_eq!("second", kv.value);
}

#[test]
fn a_var_transaction_without_a_write_describes_nothing() {
    let mut kv = TestTransactional {
        key: "key",
        value: "original",
    };
    let txn: VarTransaction<'_, Transaction, TestTransactional> = VarTransaction::new(&mut kv);
    let mut backing = Transaction::default();
    txn.apply_to_txn(&mut backing).unwrap();
    assert!(backing.get_operations().is_empty());
    txn.commit();
    assert_eq!("original", kv.value);
}

#[test]
fn writing_back_the_same_value_describes_nothing() {
    let mut kv = TestTransactional {
        key: "key",
        value: "original",
    };
    let mut txn: VarTransaction<'_, Transaction, TestTransactional> = VarTransaction::new(&mut kv);
    txn.value = "modified";
    txn.value = "original";
    let mut backing = Transaction::default();
    txn.apply_to_txn(&mut backing).unwrap();
    assert!(backing.get_operations().is_empty());
}

#[test]
fn a_backing_transaction_keeps_its_operations_in_order() {
    let mut txn = Transaction::new();
    assert!(txn.get_operations().is_empty());
    txn.put("a".to_string(), vec![1], vec![2]);
    txn.delete("b".to_string(), vec![3]);
    assert_eq!(
        vec![
            Operation::Put {
                cf: "a".to_string(),
                key: vec![1],
                value: vec![2],
            },
            Operation::Delete {
                cf: "b".to_string(),
                key: vec![3],
            },
        ],
        txn.into_operations()
    );
}
