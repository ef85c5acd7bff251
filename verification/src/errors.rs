//! The error taxonomy of the service.

use vstd::prelude::*;

verus! {

/// Why a request failed: a lookup or delete missed (`NotFound`), an insert
/// hit the unique-username constraint (`DuplicateKey`), the request body
/// did not parse into the expected shape (`MalformedRequest`), no storage
/// connection could be acquired (`StorageUnavailable`), or the storage
/// layer failed in a way not otherwise classified (`Unexpected`).
#[derive(Clone, Copy, Debug, PartialEq, Eq, Structural)]
pub enum ApiError {
    NotFound,
    DuplicateKey,
    MalformedRequest,
    StorageUnavailable,
    Unexpected,
}

impl ApiError {
    /// The one-line description of the error, as it appears in response
    /// bodies.  The duplicate-key text is the storage engine's own message
    /// for a violation of the unique constraint on `username`.
    pub open spec fn describe_spec(self) -> Seq<char> {
        match self {
            ApiError::NotFound => "NotFound"@,
            ApiError::DuplicateKey => "duplicate key value violates unique constraint \"users_username_key\""@,
            ApiError::MalformedRequest => "MalformedRequest"@,
            ApiError::StorageUnavailable => "StorageUnavailable"@,
            ApiError::Unexpected => "Unexpected"@,
        }
    }

    /// The one-line description of the error.
    pub fn describe(&self) -> (text: &'static str)
        ensures
            text@ == self.describe_spec(),
    {
        match self {
            ApiError::NotFound => "NotFound",
            ApiError::DuplicateKey => "duplicate key value violates unique constraint \"users_username_key\"",
            ApiError::MalformedRequest => "MalformedRequest",
            ApiError::StorageUnavailable => "StorageUnavailable",
            ApiError::Unexpected => "Unexpected",
        }
    }
}

} // verus!
