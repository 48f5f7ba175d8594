//! Storage-side error types and the transactional database interfaces.
use vstd::prelude::*;

verus! {

/// A database that can open transactions over itself.
pub trait TransactionalDatabaseInterface {
    fn transaction<T, S>(&self) -> T where T: TransactionInterface<Self>;
}

/// A transaction over a database, readable as the database itself until committed.
pub trait TransactionInterface<T: ?Sized> {
    fn as_database(&self) -> &T;

    fn commit(self) -> Result<(), Error>;
}

/// Errors of the database layer.
#[derive(Debug)]
#[non_exhaustive]
pub enum Error {
    Codec,
    ChainAlreadyInitialized,
    ChainUninitialized,
    InvalidDatabaseVersion,
    /// An error of the underlying key-value store.
    DatabaseError(Box<KvStoreError>),
}

/// Errors of the key-value store.
#[derive(Debug)]
pub enum KvStoreError {
    /// Any failure other than a missing key.
    Error(Box<Error>),
    NotFound,
}

impl From<Error> for KvStoreError {
    fn from(e: Error) -> (r: Self)
        ensures
            r == KvStoreError::Error(Box::new(e)),
    {
        KvStoreError::Error(Box::new(e))
    }
}

impl vstd::std_specs::convert::FromSpecImpl<Error> for KvStoreError {
    open spec fn obeys_from_spec() -> bool {
        true
    }

    open spec fn from_spec(e: Error) -> KvStoreError {
        KvStoreError::Error(Box::new(e))
    }
}

impl From<KvStoreError> for Error {
    fn from(e: KvStoreError) -> (r: Self)
        ensures
            r == Error::DatabaseError(Box::new(e)),
    {
        Error::DatabaseError(Box::new(e))
    }
}

impl vstd::std_specs::convert::FromSpecImpl<KvStoreError> for Error {
    open spec fn obeys_from_spec() -> bool {
        true
    }

    open spec fn from_spec(e: KvStoreError) -> Error {
        Error::DatabaseError(Box::new(e))
    }
}

impl KvStoreError {
    /// Whether this is the error for a missing key.
    pub fn is_not_found(&self) -> (r: bool)
        ensures
            r <==> *self is NotFound,
    {
        match self {
            KvStoreError::NotFound => true,
            KvStoreError::Error(_) => false,
        }
    }
}

} // verus!
