//! How a call to the store can fail.

use vstd::prelude::*;

verus! {

/// A failure as the store client reports it, before the call that met it
/// has decided what it means.
#[derive(Clone, Debug, PartialEq, Eq)]
pub enum StoreFailure {
    /// The store knows no object under the key.
    NoSuchKey(String),
    /// Another error that the store names for this kind of call.
    Service(String),
    /// An answer that the client could not interpret, with its HTTP status.
    Unknown { status: u16, body: String },
    /// The request did not reach the store, or its answer did not come back
    /// whole: dispatch, credentials, validation, parsing.
    Other(String),
}

/// The error of a store call.
#[derive(Clone, Debug, PartialEq, Eq)]
pub enum StoreError {
    /// The store refused the call with an error of its own.
    Service(String),
    /// The store answered with a status that the client could not interpret.
    Rejected { status: u16, body: String },
    /// The request did not reach the store, or its answer did not come back
    /// whole.
    Failed(String),
    /// The store sent a timestamp that cannot be read; this is its text.
    MalformedTimestamp(String),
}

/// The HTTP status of an answer for a missing object.
pub const NOT_FOUND: u16 = 404;

impl StoreFailure {
    /// Whether the failure says that the object is not there.
    pub open spec fn is_not_found(self) -> bool {
        match self {
            StoreFailure::NoSuchKey(_) => true,
            StoreFailure::Unknown { status, .. } => status == NOT_FOUND,
            _ => false,
        }
    }

    /// The error that the failure stands for where it is not forgiven.
    pub open spec fn as_error(self) -> StoreError {
        match self {
            StoreFailure::NoSuchKey(message) => StoreError::Service(message),
            StoreFailure::Service(message) => StoreError::Service(message),
            StoreFailure::Unknown { status, body } => StoreError::Rejected { status, body },
            StoreFailure::Other(message) => StoreError::Failed(message),
        }
    }

    /// Whether the failure says that the object is not there.
    pub fn not_found(&self) -> (b: bool)
        ensures
            b == self.is_not_found(),
    {
        match self {
            StoreFailure::NoSuchKey(_) => true,
            StoreFailure::Unknown { status, .. } => *status == NOT_FOUND,
            _ => false,
        }
    }

    /// The error that the failure stands for where it is not forgiven.
    pub fn into_error(self) -> (e: StoreError)
        ensures
            e == self.as_error(),
    {
        match self {
            StoreFailure::NoSuchKey(message) => StoreError::Service(message),
            StoreFailure::Service(message) => StoreError::Service(message),
            StoreFailure::Unknown { status, body } => StoreError::Rejected { status, body },
            StoreFailure::Other(message) => StoreError::Failed(message),
        }
    }
}

} // verus!
