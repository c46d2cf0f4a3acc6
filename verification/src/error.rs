//! The closed failure taxonomy and the classifier that produces it.
//!
//! The store reports failures in exactly two categories: a lookup that
//! matched no row, and everything else. Classification of a backing-store
//! failure happens here, at one boundary, and nowhere else.

use vstd::prelude::*;

verus! {

/// Application-level failure, as surfaced to the HTTP boundary.
///
/// `RecordNotFound` is a client error (the referenced entity does not
/// exist); `Other` is a server error carrying the backend's own message.
#[derive(Debug)]
pub enum AppError {
    RecordNotFound,
    Other(String),
}

/// A backing-store failure as seen at the store boundary, reduced to the
/// one distinction the classifier reads: did a lookup match zero rows, or
/// did anything else go wrong (constraint violation, connectivity failure,
/// timeout, malformed query), with its message.
#[derive(Debug)]
pub enum BackendError {
    RowNotFound,
    Other(String),
}

impl AppError {
    /// The HTTP status that the boundary renders for this failure.
    pub open spec fn spec_status_code(self) -> u16 {
        match self {
            AppError::RecordNotFound => 404u16,
            AppError::Other(_) => 500u16,
        }
    }

    /// Map the failure to the status code the HTTP boundary must render:
    /// 404 for a missing record, 500 for every other failure.
    pub fn status_code(&self) -> (code: u16)
        ensures
            code == self.spec_status_code(),
            self is RecordNotFound <==> code == 404,
            self is Other <==> code == 500,
    {
        match self {
            AppError::RecordNotFound => 404,
            AppError::Other(_) => 500,
        }
    }
}

impl From<BackendError> for AppError {
    /// The classifier: a zero-row lookup becomes `RecordNotFound`; every
    /// other backend failure becomes `Other`, keeping its message.
    fn from(err: BackendError) -> (r: AppError) {
        match err {
            BackendError::RowNotFound => AppError::RecordNotFound,
            BackendError::Other(msg) => AppError::Other(msg),
        }
    }
}

impl vstd::std_specs::convert::FromSpecImpl<BackendError> for AppError {
    open spec fn obeys_from_spec() -> bool {
        true
    }

    open spec fn from_spec(err: BackendError) -> AppError {
        match err {
            BackendError::RowNotFound => AppError::RecordNotFound,
            BackendError::Other(msg) => AppError::Other(msg),
        }
    }
}

} // verus!
