//! The ways in which a request can fail, and the response class of each.

use vstd::prelude::*;

verus! {

/// Why the relational store could not serve a request.
#[derive(Clone, Copy, Debug, PartialEq, Eq, Structural)]
pub enum StorageError {
    /// The store is unreachable, or it refused the credentials.
    ConnectionFailed,
    /// The store was reached and did not carry out a statement.
    QueryFailed,
}

/// Why a request was not served.
#[derive(Clone, Copy, Debug, PartialEq, Eq, Structural)]
pub enum ApiError {
    /// The relational store failed.
    Storage(StorageError),
    /// No row, or no image, goes by the id or name that the request gave.
    NotFound,
    /// The artist id that a vinyl was to refer to names no artist.
    InvalidArtist,
    /// The name that an artist was to get is empty.
    InvalidName,
    /// The image directory could not be read from or written to.
    IOError,
}

/// The HTTP status that answers `error`.
pub open spec fn status_of(error: ApiError) -> int {
    match error {
        ApiError::Storage(StorageError::ConnectionFailed) => 503,
        ApiError::Storage(StorageError::QueryFailed) => 500,
        ApiError::NotFound => 404,
        ApiError::InvalidArtist => 422,
        ApiError::InvalidName => 400,
        ApiError::IOError => 500,
    }
}

/// Whether the caller is to blame for `error`, as opposed to the server.
pub open spec fn is_client_fault(error: ApiError) -> bool {
    error is NotFound || error is InvalidArtist || error is InvalidName
}

impl ApiError {
    /// The HTTP status of the response that reports this error: in the 4xx
    /// class where the request was at fault, in the 5xx class otherwise.
    pub fn status(&self) -> (code: u16)
        ensures
            code == status_of(*self),
            is_client_fault(*self) <==> 400 <= code < 500,
            !is_client_fault(*self) <==> 500 <= code < 600,
    {
        match self {
            ApiError::Storage(StorageError::ConnectionFailed) => 503,
            ApiError::Storage(StorageError::QueryFailed) => 500,
            ApiError::NotFound => 404,
            ApiError::InvalidArtist => 422,
            ApiError::InvalidName => 400,
            ApiError::IOError => 500,
        }
    }
}

} // verus!
