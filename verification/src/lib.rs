//! Staged in-memory transactions over the mirrors of a metadata store.
//!
//! A service keeps parts of the store in memory, as single values and as ordered maps.
//! To change such a mirror it wraps it in a staged transaction, reads and writes through
//! the transaction, has the transaction describe its changes into a backing transaction
//! for the store, and commits the transaction to memory once the store has taken the
//! changes. A transaction that is dropped leaves the mirror as it was.
//!
//! - [`var_txn`], [`btree_txn`] and [`entry_txn`] hold the staged transactions over a
//!   value, over an ordered map, and over one key of an ordered map; [`wrapper`] holds
//!   each of them against either backing transaction.
//! - [`staging`] says what staged operations amount to, and [`btree_ext`] in which order
//!   an ordered map walks its keys.
//! - [`transactional`] holds the contracts between records and transactions,
//!   [`storage`] the backing transactions, [`model`] and [`codec`] the records and their
//!   stored form.
//! - [`vnode`] holds the virtual nodes that rows are spread over.

pub mod btree_ext;
pub mod btree_txn;
pub mod codec;
pub mod entry_txn;
pub mod error;
pub mod model;
pub mod staging;
pub mod storage;
pub mod transactional;
pub mod var_txn;
pub mod vnode;
pub mod wrapper;

pub use btree_txn::BTreeMapTransaction;
pub use btree_txn::BTreeMapTransactionValueGuard;
pub use entry_txn::BTreeMapEntryTransaction;
pub use error::MetadataModelError;
pub use error::MetadataModelResult;
pub use model::MetadataModel;
pub use storage::Transaction;
pub use storage::TransactionV2;
pub use transactional::Transactional;
pub use transactional::ValTransaction;
pub use var_txn::VarTransaction;
pub use vnode::VirtualNode;
pub use wrapper::BTreeMapEntryTransactionWrapper;
pub use wrapper::BTreeMapTransactionWrapper;
pub use wrapper::VarTransactionWrapper;
