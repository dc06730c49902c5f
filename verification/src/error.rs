//! The single error type of the library.

use vstd::prelude::*;

verus! {

/// Why an operation failed.
#[derive(Clone, Copy, Debug, PartialEq, Eq, Structural)]
pub enum BackendError {
    /// Two identifiers that have to share a domain do not.
    DomainMismatch,
    /// An identifier that has to belong to another instance belongs to this one.
    ObjectIsLocal,
    /// A comment would sit deeper in its tree than the configured maximum.
    MaxDepthExceeded,
    /// A text is not a URL.
    InvalidUrl,
    /// No stored record matches.
    NotFound,
    /// The canonical identifier is already taken by another record.
    UniqueViolation,
    /// A table has handed out its last identifier.
    IdExhausted,
}

/// The stage of handling at which an error arises.
#[derive(Clone, Copy, Debug, PartialEq, Eq, Structural)]
pub enum ErrorClass {
    /// The document is rejected before anything is written.
    Verification,
    /// A referenced record cannot be had.
    Resolution,
    /// The store refused a write.
    Apply,
}

pub type BackendResult<T> = Result<T, BackendError>;

impl BackendError {
    /// The class of this error.
    pub open spec fn class_of(self) -> ErrorClass {
        match self {
            BackendError::DomainMismatch => ErrorClass::Verification,
            BackendError::ObjectIsLocal => ErrorClass::Verification,
            BackendError::MaxDepthExceeded => ErrorClass::Verification,
            BackendError::InvalidUrl => ErrorClass::Verification,
            BackendError::NotFound => ErrorClass::Resolution,
            BackendError::UniqueViolation => ErrorClass::Apply,
            BackendError::IdExhausted => ErrorClass::Apply,
        }
    }

    /// The class of this error.
    pub fn class(&self) -> (c: ErrorClass)
        ensures
            c == self.class_of(),
    {
        match self {
            BackendError::DomainMismatch => ErrorClass::Verification,
            BackendError::ObjectIsLocal => ErrorClass::Verification,
            BackendError::MaxDepthExceeded => ErrorClass::Verification,
            BackendError::InvalidUrl => ErrorClass::Verification,
            BackendError::NotFound => ErrorClass::Resolution,
            BackendError::UniqueViolation => ErrorClass::Apply,
            BackendError::IdExhausted => ErrorClass::Apply,
        }
    }
}

} // verus!
