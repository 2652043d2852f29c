//! Error types of the service layer and of image storage.

use vstd::prelude::*;
use vstd::string::*;

verus! {

/// Errors that the service layer reports to its callers.
#[derive(Debug)]
pub enum ServiceError {
    BadRequest(String),
    NotFound(String),
    Conflict(String),
    StaleVersion,
    Internal(String),
}

/// The mathematical view of a [`ServiceError`]: its kind and message text.
pub enum ErrorView {
    BadRequest(Seq<char>),
    NotFound(Seq<char>),
    Conflict(Seq<char>),
    StaleVersion,
    Internal(Seq<char>),
}

impl View for ServiceError {
    type V = ErrorView;

    open spec fn view(&self) -> ErrorView {
        match self {
            ServiceError::BadRequest(m) => ErrorView::BadRequest(m@),
            ServiceError::NotFound(m) => ErrorView::NotFound(m@),
            ServiceError::Conflict(m) => ErrorView::Conflict(m@),
            ServiceError::StaleVersion => ErrorView::StaleVersion,
            ServiceError::Internal(m) => ErrorView::Internal(m@),
        }
    }
}

/// The view of a unit outcome: `Ok(())` or the view of its error.
pub open spec fn outcome(r: Result<(), ServiceError>) -> Result<(), ErrorView> {
    match r {
        Ok(()) => Ok(()),
        Err(e) => Err(e@),
    }
}

/// The first failure of two checks run in order: `a` if it failed, else `b`.
pub open spec fn first_err(a: Result<(), ErrorView>, b: Result<(), ErrorView>) -> Result<(), ErrorView> {
    match a {
        Err(e) => Err(e),
        Ok(()) => b,
    }
}

/// The view of any outcome, forgetting the success value.
pub open spec fn err_of<T>(r: Result<T, ServiceError>) -> Result<(), ErrorView> {
    match r {
        Ok(_) => Ok(()),
        Err(e) => Err(e@),
    }
}

/// Errors reported by object storage.
#[derive(Debug)]
pub enum StorageError {
    NotFound(String),
    PermissionDenied(String),
    Internal(String),
}

impl StorageError {
    /// The human-readable description of this error.
    pub open spec fn spec_message(&self) -> Seq<char> {
        match self {
            StorageError::NotFound(m) => "Storage not found: "@ + m@,
            StorageError::PermissionDenied(m) => "Storage permission denied: "@ + m@,
            StorageError::Internal(m) => "Storage error: "@ + m@,
        }
    }

    /// The human-readable description of this error (its display text).
    pub fn message(&self) -> (s: String)
        ensures
            s@ == self.spec_message(),
    {
        match self {
            StorageError::NotFound(m) => String::from_str("Storage not found: ").concat(m.as_str()),
            StorageError::PermissionDenied(m) => String::from_str("Storage permission denied: ").concat(m.as_str()),
            StorageError::Internal(m) => String::from_str("Storage error: ").concat(m.as_str()),
        }
    }
}

} // verus!
