//! Backing transaction objects: batches of store operations that are submitted as one unit.

use vstd::prelude::*;

verus! {

/// One write of a batch, addressed by column family and key.
#[derive(Debug, PartialEq, Eq)]
pub enum Operation {
    Put { cf: String, key: Vec<u8>, value: Vec<u8> },
    Delete { cf: String, key: Vec<u8> },
}

/// What an [`Operation`] says, as plain sequences.
pub enum OperationView {
    Put { cf: Seq<char>, key: Seq<u8>, value: Seq<u8> },
    Delete { cf: Seq<char>, key: Seq<u8> },
}

impl View for Operation {
    type V = OperationView;

    open spec fn view(&self) -> OperationView {
        match *self {
            Operation::Put { cf, key, value } => OperationView::Put {
                cf: cf@,
                key: key@,
                value: value@,
            },
            Operation::Delete { cf, key } => OperationView::Delete { cf: cf@, key: key@ },
        }
    }
}

/// The legacy backing transaction: one list of operations in the order they were described.
#[derive(Debug)]
pub struct Transaction {
    operations: Vec<Operation>,
}

impl View for Transaction {
    type V = Seq<OperationView>;

    closed spec fn view(&self) -> Seq<OperationView> {
        self.operations@.map_values(|op: Operation| op@)
    }
}

impl Transaction {
    /// An empty batch.
    pub fn new() -> (r: Self)
        ensures
            r@ == Seq::<OperationView>::empty(),
    {
        let r = Transaction { operations: Vec::new() };
        assert(r@ =~= Seq::<OperationView>::empty());
        r
    }

    /// Appends a put of `value` under `key` in column family `cf`.
    pub fn put(&mut self, cf: String, key: Vec<u8>, value: Vec<u8>)
        ensures
            final(self)@ == old(self)@.push(
                OperationView::Put { cf: cf@, key: key@, value: value@ },
            ),
    {
        self.operations.push(Operation::Put { cf, key, value });
        assert(self@ =~= old(self)@.push(
            OperationView::Put { cf: cf@, key: key@, value: value@ },
        ));
    }

    /// Appends a delete of `key` in column family `cf`.
    pub fn delete(&mut self, cf: String, key: Vec<u8>)
        ensures
            final(self)@ == old(self)@.push(OperationView::Delete { cf: cf@, key: key@ }),
    {
        self.operations.push(Operation::Delete { cf, key });
        assert(self@ =~= old(self)@.push(OperationView::Delete { cf: cf@, key: key@ }));
    }

    /// The operations described so far, oldest first.
    pub fn get_operations(&self) -> (r: &Vec<Operation>)
        ensures
            r@.map_values(|op: Operation| op@) == self@,
    {
        &self.operations
    }

    /// Gives up the batch as its list of operations, oldest first.
    pub fn into_operations(self) -> (r: Vec<Operation>)
        ensures
            r@.map_values(|op: Operation| op@) == self@,
    {
        self.operations
    }
}

impl Default for Transaction {
    fn default() -> (r: Self)
        ensures
            r@ == Seq::<OperationView>::empty(),
    {
        Transaction::new()
    }
}

/// One statement of the current backing transaction: a row of a table is written, or it
/// is removed where no value is given.
#[derive(Debug, PartialEq, Eq)]
pub struct Statement {
    pub table: String,
    pub key: Vec<u8>,
    pub value: Option<Vec<u8>>,
}

/// What a [`Statement`] says, as plain sequences.
pub struct StatementView {
    pub table: Seq<char>,
    pub key: Seq<u8>,
    pub value: Option<Seq<u8>>,
}

impl View for Statement {
    type V = StatementView;

    open spec fn view(&self) -> StatementView {
        StatementView {
            table: self.table@,
            key: self.key@,
            value: match self.value {
                Some(value) => Some(value@),
                None => None,
            },
        }
    }
}

/// The current backing transaction: statements against tables, in the order they were
/// described.
#[derive(Debug)]
pub struct TransactionV2 {
    statements: Vec<Statement>,
}

impl View for TransactionV2 {
    type V = Seq<StatementView>;

    closed spec fn view(&self) -> Seq<StatementView> {
        self.statements@.map_values(|statement: Statement| statement@)
    }
}

impl TransactionV2 {
    /// An empty batch.
    pub fn new() -> (r: Self)
        ensures
            r@ == Seq::<StatementView>::empty(),
    {
        let r = TransactionV2 { statements: Vec::new() };
        assert(r@ =~= Seq::<StatementView>::empty());
        r
    }

    /// Appends a write of `value` to the row `key` of `table`.
    pub fn upsert(&mut self, table: String, key: Vec<u8>, value: Vec<u8>)
        ensures
            final(self)@ == old(self)@.push(
                StatementView { table: table@, key: key@, value: Some(value@) },
            ),
    {
        self.statements.push(Statement { table, key, value: Some(value) });
        assert(self@ =~= old(self)@.push(
            StatementView { table: table@, key: key@, value: Some(value@) },
        ));
    }

    /// Appends a removal of the row `key` of `table`.
    pub fn remove(&mut self, table: String, key: Vec<u8>)
        ensures
            final(self)@ == old(self)@.push(
                StatementView { table: table@, key: key@, value: None },
            ),
    {
        self.statements.push(Statement { table, key, value: None });
        assert(self@ =~= old(self)@.push(
            StatementView { table: table@, key: key@, value: None },
        ));
    }

    /// The statements described so far, oldest first.
    pub fn get_statements(&self) -> (r: &Vec<Statement>)
        ensures
            r@.map_values(|statement: Statement| statement@) == self@,
    {
        &self.statements
    }
}

impl Default for TransactionV2 {
    fn default() -> (r: Self)
        ensures
            r@ == Seq::<StatementView>::empty(),
    {
        TransactionV2::new()
    }
}

} // verus!
