//! Error types of the application layer: a domain refusal and an
//! infrastructure failure are kept apart, since callers act on them
//! differently.
use crate::vehicle_ownership::error::OwnershipError;
use crate::text::{decimal, push_decimal};
use crate::vehicle_ownership::error::ownership_error_message;
use vstd::string::StringExecFns;
use vstd::prelude::*;

verus! {

/// Top-level error of the application layer.
#[derive(Debug, Clone, PartialEq, Eq)]
pub enum ApplicationError {
    /// The operation could not be carried out due to a storage problem.
    Repository(RepositoryError),
    /// A vehicle-ownership business rule was violated.
    Ownership(OwnershipError),
}

/// Failures reported by a repository adapter; part of the port contract.
#[derive(Debug, Clone, PartialEq, Eq)]
pub enum RepositoryError {
    /// Optimistic-locking conflict: the aggregate changed under the writer.
    VersionConflict {
        /// Version the repository required for the write to be safe.
        expected: u64,
        /// Version the caller actually presented.
        actual: u64,
    },
    /// An aggregate with the same identifier was already persisted.
    AlreadyExists,
    /// The underlying storage failed; the text is diagnostic only and must
    /// not reach API clients.
    StorageFailure(String),
}

/// A repository's answer passed on as the result of a use case.
pub open spec fn passed_on<T>(answer: Result<T, RepositoryError>) -> Result<T, ApplicationError> {
    match answer {
        Ok(v) => Ok(v),
        Err(e) => Err(ApplicationError::Repository(e)),
    }
}

impl From<RepositoryError> for ApplicationError {
    fn from(e: RepositoryError) -> (r: ApplicationError) {
        ApplicationError::Repository(e)
    }
}

impl vstd::std_specs::convert::FromSpecImpl<RepositoryError> for ApplicationError {
    open spec fn obeys_from_spec() -> bool {
        true
    }

    open spec fn from_spec(e: RepositoryError) -> ApplicationError {
        ApplicationError::Repository(e)
    }
}

impl From<OwnershipError> for ApplicationError {
    fn from(e: OwnershipError) -> (r: ApplicationError) {
        ApplicationError::Ownership(e)
    }
}

impl vstd::std_specs::convert::FromSpecImpl<OwnershipError> for ApplicationError {
    open spec fn obeys_from_spec() -> bool {
        true
    }

    open spec fn from_spec(e: OwnershipError) -> ApplicationError {
        ApplicationError::Ownership(e)
    }
}

/// The diagnostic text of a repository failure.
pub open spec fn repository_error_message(e: RepositoryError) -> Seq<char> {
    match e {
        RepositoryError::VersionConflict { expected, actual } =>
            "optimistic lock conflict: expected version "@ + decimal(expected as nat) + ", found "@
                + decimal(actual as nat),
        RepositoryError::AlreadyExists => "aggregate already exists"@,
        RepositoryError::StorageFailure(detail) => "storage failure: "@ + detail@,
    }
}

impl RepositoryError {
    /// The diagnostic text; never shown to API clients.
    pub fn to_string(&self) -> (s: String)
        ensures
            s@ == repository_error_message(*self),
    {
        match self {
            RepositoryError::VersionConflict { expected, actual } => {
                let mut s = String::from_str("optimistic lock conflict: expected version ");
                push_decimal(&mut s, *expected);
                s.append(", found ");
                push_decimal(&mut s, *actual);
                s
            },
            RepositoryError::AlreadyExists => String::from_str("aggregate already exists"),
            RepositoryError::StorageFailure(detail) => {
                let mut s = String::from_str("storage failure: ");
                s.append(detail.as_str());
                s
            },
        }
    }
}

impl ApplicationError {
    /// The text of the underlying error.
    pub fn to_string(&self) -> (s: String)
        ensures
            s@ == match *self {
                ApplicationError::Repository(e) => repository_error_message(e),
                ApplicationError::Ownership(e) => ownership_error_message(e),
            },
    {
        match self {
            ApplicationError::Repository(e) => e.to_string(),
            ApplicationError::Ownership(e) => e.to_string(),
        }
    }
}

} // verus!
