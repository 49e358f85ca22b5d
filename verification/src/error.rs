//! The error taxonomy shared by every operation.

use vstd::prelude::*;
use vstd::string::StringExecFns;
use vstd::std_specs::convert::FromSpecImpl;
use crate::store::{store_error_text, store_said};

verus! {

/// The stable, machine-readable kind of an error.
#[derive(Clone, Copy, Debug, PartialEq, Eq, Structural)]
pub enum ErrorKind {
    /// Malformed or out-of-range input, rejected before any store mutation.
    Validation,
    /// The referenced entity is absent.
    NotFound,
    /// A valid request refused because of the entity's state.
    Conflict,
    /// The underlying store failed.
    Storage,
    /// An invariant of the store was found violated.
    Internal,
}

/// An error of any operation of the library.
#[derive(Debug)]
pub enum AppError {
    /// The store reported a failure.
    Db(rusqlite::Error),
    /// The referenced entity is absent.
    NotFound(String),
    /// The input is malformed or out of range.
    BadRequest(String),
    /// The entity's state refuses the request.
    Conflict(String),
    /// The store answered what its invariants exclude.
    Internal(String),
}

impl AppError {
    /// The kind of this error.
    pub open spec fn spec_kind(&self) -> ErrorKind {
        match *self {
            AppError::Db(_) => ErrorKind::Storage,
            AppError::NotFound(_) => ErrorKind::NotFound,
            AppError::BadRequest(_) => ErrorKind::Validation,
            AppError::Conflict(_) => ErrorKind::Conflict,
            AppError::Internal(_) => ErrorKind::Internal,
        }
    }

    /// The HTTP status that stands for each kind.
    pub open spec fn spec_status_code(&self) -> u16 {
        match *self {
            AppError::Db(_) => 500,
            AppError::NotFound(_) => 404,
            AppError::BadRequest(_) => 400,
            AppError::Conflict(_) => 409,
            AppError::Internal(_) => 500,
        }
    }

    /// True when this is a validation error with exactly this message.
    pub open spec fn is_bad_request(&self, msg: Seq<char>) -> bool {
        *self matches AppError::BadRequest(m) && m@ == msg
    }

    /// True when this is a not-found error with exactly this message.
    pub open spec fn is_not_found(&self, msg: Seq<char>) -> bool {
        *self matches AppError::NotFound(m) && m@ == msg
    }

    /// True when this is a conflict error with exactly this message.
    pub open spec fn is_conflict(&self, msg: Seq<char>) -> bool {
        *self matches AppError::Conflict(m) && m@ == msg
    }

    /// True when this is an internal error with exactly this message.
    pub open spec fn is_internal(&self, msg: Seq<char>) -> bool {
        *self matches AppError::Internal(m) && m@ == msg
    }

    #[verifier::when_used_as_spec(spec_kind)]
    pub fn kind(&self) -> (k: ErrorKind)
        ensures
            k == self.spec_kind(),
    {
        match self {
            AppError::Db(_) => ErrorKind::Storage,
            AppError::NotFound(_) => ErrorKind::NotFound,
            AppError::BadRequest(_) => ErrorKind::Validation,
            AppError::Conflict(_) => ErrorKind::Conflict,
            AppError::Internal(_) => ErrorKind::Internal,
        }
    }

    /// The HTTP status under which the transport layer reports this error.
    #[verifier::when_used_as_spec(spec_status_code)]
    pub fn status_code(&self) -> (code: u16)
        ensures
            code == self.spec_status_code(),
    {
        match self {
            AppError::Db(_) => 500,
            AppError::NotFound(_) => 404,
            AppError::BadRequest(_) => 400,
            AppError::Conflict(_) => 409,
            AppError::Internal(_) => 500,
        }
    }

    /// What the transport layer tells the caller: the message of a
    /// validation error or a conflict, and no more than the kind of any other.
    pub open spec fn spec_public_message(&self) -> Seq<char> {
        match *self {
            AppError::Db(_) => "Database error"@,
            AppError::NotFound(_) => "Not found"@,
            AppError::BadRequest(msg) => msg@,
            AppError::Conflict(msg) => msg@,
            AppError::Internal(_) => "Internal error"@,
        }
    }

    /// What the transport layer tells the caller: the message of a
    /// validation error or a conflict, and no more than the kind of any other.
    pub fn public_message(&self) -> (text: String)
        ensures
            text@ == self.spec_public_message(),
    {
        match self {
            AppError::Db(_) => String::from_str("Database error"),
            AppError::NotFound(_) => String::from_str("Not found"),
            AppError::BadRequest(msg) => msg.clone(),
            AppError::Conflict(msg) => msg.clone(),
            AppError::Internal(_) => String::from_str("Internal error"),
        }
    }

    /// The full text of the error, for logs: the heading of its kind, then
    /// its message, or what the store said.
    pub open spec fn spec_message(&self) -> Seq<char> {
        match *self {
            AppError::Db(e) => "Database error: "@ + store_said(e),
            AppError::NotFound(msg) => "Not found: "@ + msg@,
            AppError::BadRequest(msg) => "Bad request: "@ + msg@,
            AppError::Conflict(msg) => "Conflict: "@ + msg@,
            AppError::Internal(msg) => "Internal error: "@ + msg@,
        }
    }

    /// The full text of the error, for logs: the heading of its kind, then
    /// its message, or what the store said.
    pub fn message(&self) -> (text: String)
        ensures
            text@ == self.spec_message(),
    {
        match self {
            AppError::Db(e) => {
                let said = store_error_text(e);
                String::from_str("Database error: ").concat(said.as_str())
            },
            AppError::NotFound(msg) => String::from_str("Not found: ").concat(msg.as_str()),
            AppError::BadRequest(msg) => String::from_str("Bad request: ").concat(msg.as_str()),
            AppError::Conflict(msg) => String::from_str("Conflict: ").concat(msg.as_str()),
            AppError::Internal(msg) => String::from_str("Internal error: ").concat(msg.as_str()),
        }
    }

    /// Builds a validation error from a literal message.
    pub fn bad_request(msg: &str) -> (e: AppError)
        ensures
            e.is_bad_request(msg@),
    {
        AppError::BadRequest(String::from_str(msg))
    }

    /// Builds a not-found error from a literal message.
    pub fn not_found(msg: &str) -> (e: AppError)
        ensures
            e.is_not_found(msg@),
    {
        AppError::NotFound(String::from_str(msg))
    }

    /// Builds a conflict error from a literal message.
    pub fn conflict(msg: &str) -> (e: AppError)
        ensures
            e.is_conflict(msg@),
    {
        AppError::Conflict(String::from_str(msg))
    }

    /// Builds an internal error from a literal message.
    pub fn internal(msg: &str) -> (e: AppError)
        ensures
            e.is_internal(msg@),
    {
        AppError::Internal(String::from_str(msg))
    }
}

impl From<rusqlite::Error> for AppError {
    /// A failure of the store is a storage error.
    fn from(e: rusqlite::Error) -> (r: AppError) {
        AppError::Db(e)
    }
}

impl FromSpecImpl<rusqlite::Error> for AppError {
    open spec fn obeys_from_spec() -> bool {
        true
    }

    open spec fn from_spec(e: rusqlite::Error) -> AppError {
        AppError::Db(e)
    }
}

} // verus!
