//! Errors of the metadata model.

use vstd::prelude::*;

verus! {

/// Why stored bytes could not be turned back into a record.
#[derive(Debug, PartialEq, Eq)]
pub enum DecodeError {
    /// The bytes start like a compressed stream, but the stream is truncated or invalid.
    Corrupt,
    /// The bytes are not a valid wire-format payload of the record type.
    Malformed,
}

/// A failure reported by the backing store.
#[derive(Debug, PartialEq, Eq)]
pub enum MetaStoreError {
    /// No item is stored under the requested key.
    ItemNotFound(String),
    /// The store refused the batch.
    TransactionAbort,
    /// Any other store failure, with its message.
    Internal(String),
}

/// Everything that can go wrong in a model operation.
#[derive(Debug, PartialEq, Eq)]
pub enum MetadataModelError {
    /// The backing store failed; passed on unchanged.
    MetaStoreError(MetaStoreError),
    /// Stored bytes could not be decoded.
    DecodeError(DecodeError),
    /// A record could not describe itself, with the reason.
    InternalError(String),
}

pub type MetadataModelResult<T> = Result<T, MetadataModelError>;

impl MetaStoreError {
    /// Whether this is the store's "no such item" answer.
    pub fn is_not_found(&self) -> (r: bool)
        ensures
            r == (*self is ItemNotFound),
    {
        match self {
            MetaStoreError::ItemNotFound(_) => true,
            _ => false,
        }
    }
}

} // verus!
