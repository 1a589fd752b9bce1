//! The public form of API errors: an HTTP status, a machine-readable code
//! and a safe message. Every conversion discards the inner error's text and
//! substitutes a fixed message, so storage diagnostics never reach
//! a client.
//!
//! | Source                                       | status | code                              |
//! |----------------------------------------------|--------|-----------------------------------|
//! | `RepositoryError::VersionConflict`           | 409    | `version_conflict`                |
//! | `RepositoryError::AlreadyExists`             | 409    | `already_exists`                  |
//! | `RepositoryError::StorageFailure`            | 500    | `internal`                        |
//! | `OwnershipError::ActiveOwnershipAlreadyExists` | 409  | `active_ownership_already_exists` |
//! | `OwnershipError::StatusDoesNotAllow`         | 409    | `ownership_status_does_not_allow` |
//! | `OwnershipError::PeriodEndBeforeStart`       | 422    | `ownership_period_invalid`        |
//! | customer not found                           | 404    | `customer_not_found`              |
//! | vehicle not found                            | 404    | `vehicle_not_found`               |
//! | ownership not found                          | 404    | `ownership_not_found`             |
use crate::application::error::{ApplicationError, RepositoryError};
use crate::vehicle_ownership::error::OwnershipError;
use crate::vehicle_ownership::state::{ownership_status_kind_name, OwnershipStatusKind};
use vstd::prelude::*;
use vstd::string::StringExecFns;

verus! {

/// The body of an error response: `{ "error": ..., "message": ... }`.
#[derive(Debug)]
struct ErrorBody {
    /// Stable machine-readable code for API clients to branch on.
    error: String,
    /// Safe message that exposes no internal detail.
    message: String,
}

/// An error as the API shows it. Every constructor is specific to one case
/// and bakes in both the status and the code.
#[derive(Debug)]
pub struct ApiError {
    status: u16,
    body: ErrorBody,
}

/// What an API error shows: status, code and message.
pub struct ApiErrorView {
    pub status: u16,
    pub error: Seq<char>,
    pub message: Seq<char>,
}

impl View for ApiError {
    type V = ApiErrorView;

    closed spec fn view(&self) -> ApiErrorView {
        ApiErrorView { status: self.status, error: self.body.error@, message: self.body.message@ }
    }
}

/// `500 Internal Server Error`.
pub open spec fn status_internal_server_error() -> u16 {
    500
}

/// `409 Conflict`.
pub open spec fn status_conflict() -> u16 {
    409
}

/// `422 Unprocessable Entity`.
pub open spec fn status_unprocessable_entity() -> u16 {
    422
}

/// `404 Not Found`.
pub open spec fn status_not_found() -> u16 {
    404
}

/// The message shown when an ownership's status refuses a command.
pub open spec fn status_does_not_allow_message(status: OwnershipStatusKind) -> Seq<char> {
    "Ownership status '"@ + ownership_status_kind_name(status) + "' does not allow this operation."@
}

/// How an application error is shown.
pub open spec fn api_error_of(e: ApplicationError) -> ApiErrorView {
    match e {
        ApplicationError::Repository(RepositoryError::VersionConflict { .. }) => ApiErrorView {
            status: status_conflict(),
            error: "version_conflict"@,
            message: "Conflict occurred while processing the request."@,
        },
        ApplicationError::Repository(RepositoryError::AlreadyExists) => ApiErrorView {
            status: status_conflict(),
            error: "already_exists"@,
            message: "An aggregate with this identifier already exists."@,
        },
        ApplicationError::Repository(RepositoryError::StorageFailure(_)) => ApiErrorView {
            status: status_internal_server_error(),
            error: "internal"@,
            message: "Internal server error occurred while processing the request."@,
        },
        ApplicationError::Ownership(OwnershipError::ActiveOwnershipAlreadyExists) => ApiErrorView {
            status: status_conflict(),
            error: "active_ownership_already_exists"@,
            message: "Active ownership already exists for this vehicle."@,
        },
        ApplicationError::Ownership(OwnershipError::PeriodEndBeforeStart) => ApiErrorView {
            status: status_unprocessable_entity(),
            error: "ownership_period_invalid"@,
            message: "Ownership period end date is before start date."@,
        },
        ApplicationError::Ownership(OwnershipError::StatusDoesNotAllow(status)) => ApiErrorView {
            status: status_conflict(),
            error: "ownership_status_does_not_allow"@,
            message: status_does_not_allow_message(status),
        },
    }
}

impl ApiError {
    fn with(status: u16, error: &str, message: &str) -> (r: ApiError)
        ensures
            r@ == (ApiErrorView { status, error: error@, message: message@ }),
    {
        ApiError {
            status,
            body: ErrorBody { error: String::from_str(error), message: String::from_str(message) },
        }
    }

    /// `500` / `internal`, for a storage failure; the repository's own text
    /// is never forwarded.
    fn internal() -> (r: ApiError)
        ensures
            r@ == (ApiErrorView {
                status: status_internal_server_error(),
                error: "internal"@,
                message: "Internal server error occurred while processing the request."@,
            }),
    {
        ApiError::with(500, "internal", "Internal server error occurred while processing the request.")
    }

    /// `409` / `version_conflict`: an existing aggregate was modified
    /// concurrently, so the caller's version is stale.
    fn version_conflict() -> (r: ApiError)
        ensures
            r@ == (ApiErrorView {
                status: status_conflict(),
                error: "version_conflict"@,
                message: "Conflict occurred while processing the request."@,
            }),
    {
        ApiError::with(409, "version_conflict", "Conflict occurred while processing the request.")
    }

    /// `409` / `active_ownership_already_exists`.
    fn active_ownership_already_exists() -> (r: ApiError)
        ensures
            r@ == api_error_of(
                ApplicationError::Ownership(OwnershipError::ActiveOwnershipAlreadyExists),
            ),
    {
        ApiError::with(
            409,
            "active_ownership_already_exists",
            "Active ownership already exists for this vehicle.",
        )
    }

    /// `409` / `ownership_status_does_not_allow`; the status is named in the
    /// message, while the code stays the same for every status.
    fn ownership_status_does_not_allow(status: OwnershipStatusKind) -> (r: ApiError)
        ensures
            r@ == api_error_of(ApplicationError::Ownership(OwnershipError::StatusDoesNotAllow(status))),
    {
        let name = status.to_string();
        let mut message = String::from_str("Ownership status '");
        message.append(name.as_str());
        message.append("' does not allow this operation.");
        ApiError {
            status: 409,
            body: ErrorBody { error: String::from_str("ownership_status_does_not_allow"), message },
        }
    }

    /// `422` / `ownership_period_invalid`.
    fn ownership_period_invalid() -> (r: ApiError)
        ensures
            r@ == api_error_of(ApplicationError::Ownership(OwnershipError::PeriodEndBeforeStart)),
    {
        ApiError::with(422, "ownership_period_invalid", "Ownership period end date is before start date.")
    }

    /// `409` / `already_exists`: the identifier itself is taken, so retrying
    /// the same create never succeeds.
    fn already_exists() -> (r: ApiError)
        ensures
            r@ == api_error_of(ApplicationError::Repository(RepositoryError::AlreadyExists)),
    {
        ApiError::with(409, "already_exists", "An aggregate with this identifier already exists.")
    }

    /// `404` / `customer_not_found`.
    pub fn customer_not_found() -> (r: ApiError)
        ensures
            r@ == (ApiErrorView {
                status: status_not_found(),
                error: "customer_not_found"@,
                message: "Customer not found."@,
            }),
    {
        ApiError::with(404, "customer_not_found", "Customer not found.")
    }

    /// `404` / `vehicle_not_found`.
    pub fn vehicle_not_found() -> (r: ApiError)
        ensures
            r@ == (ApiErrorView {
                status: status_not_found(),
                error: "vehicle_not_found"@,
                message: "Vehicle not found."@,
            }),
    {
        ApiError::with(404, "vehicle_not_found", "Vehicle not found.")
    }

    /// `404` / `ownership_not_found`.
    pub fn ownership_not_found() -> (r: ApiError)
        ensures
            r@ == (ApiErrorView {
                status: status_not_found(),
                error: "ownership_not_found"@,
                message: "Ownership not found."@,
            }),
    {
        ApiError::with(404, "ownership_not_found", "Ownership not found.")
    }

    /// Maps an application error to its public form, in one place.
    pub fn from(e: ApplicationError) -> (r: ApiError)
        ensures
            r@ == api_error_of(e),
    {
        match e {
            ApplicationError::Repository(repo_err) => match repo_err {
                RepositoryError::VersionConflict { .. } => ApiError::version_conflict(),
                RepositoryError::AlreadyExists => ApiError::already_exists(),
                RepositoryError::StorageFailure(_) => ApiError::internal(),
            },
            ApplicationError::Ownership(ownership_error) => match ownership_error {
                OwnershipError::ActiveOwnershipAlreadyExists => {
                    ApiError::active_ownership_already_exists()
                },
                OwnershipError::PeriodEndBeforeStart => ApiError::ownership_period_invalid(),
                OwnershipError::StatusDoesNotAllow(status) => {
                    ApiError::ownership_status_does_not_allow(status)
                },
            },
        }
    }

    /// The HTTP status code.
    pub fn status(&self) -> (s: u16)
        ensures
            s == self@.status,
    {
        self.status
    }

    /// The machine-readable code.
    pub fn error(&self) -> (s: &str)
        ensures
            s@ == self@.error,
    {
        self.body.error.as_str()
    }

    /// The safe message.
    pub fn message(&self) -> (s: &str)
        ensures
            s@ == self@.message,
    {
        self.body.message.as_str()
    }
}

/// A storage failure's diagnostic text never reaches the client: whatever
/// the text, the public error is the same.
pub proof fn lemma_storage_failure_text_not_shown(a: String, b: String)
    ensures
        api_error_of(ApplicationError::Repository(RepositoryError::StorageFailure(a))) == api_error_of(
            ApplicationError::Repository(RepositoryError::StorageFailure(b)),
        ),
{
}

/// Clients branch on the code: a refused status yields the same code and
/// status whichever status it was, and a duplicate create and a stale write
/// share the status but not the code.
pub proof fn lemma_codes_are_fixed(a: OwnershipStatusKind, b: OwnershipStatusKind, expected: u64, actual: u64)
    ensures
        api_error_of(ApplicationError::Ownership(OwnershipError::StatusDoesNotAllow(a))).error
            == api_error_of(ApplicationError::Ownership(OwnershipError::StatusDoesNotAllow(b))).error,
        api_error_of(ApplicationError::Ownership(OwnershipError::StatusDoesNotAllow(a))).status
            == api_error_of(ApplicationError::Ownership(OwnershipError::StatusDoesNotAllow(b))).status,
        api_error_of(ApplicationError::Repository(RepositoryError::AlreadyExists)).status
            == api_error_of(
            ApplicationError::Repository(RepositoryError::VersionConflict { expected, actual }),
        ).status,
        api_error_of(ApplicationError::Repository(RepositoryError::AlreadyExists)).error
            != api_error_of(
            ApplicationError::Repository(RepositoryError::VersionConflict { expected, actual }),
        ).error,
{
    reveal_strlit("already_exists");
    reveal_strlit("version_conflict");
    assert("already_exists"@[0] != "version_conflict"@[0]);
}

/// The public error table: storage failures are `500 internal`; stale writes
/// are `409 version_conflict`; duplicate creates `409 already_exists`; an
/// occupied vehicle `409 active_ownership_already_exists`; a status refusal
/// `409 ownership_status_does_not_allow`, naming the status in the message;
/// an end before the start `422 ownership_period_invalid`.
pub proof fn lemma_api_error_table(e: ApplicationError)
    ensures
        e matches ApplicationError::Repository(RepositoryError::StorageFailure(_)) ==> api_error_of(
            e,
        ).status == 500 && api_error_of(e).error == "internal"@,
        e matches ApplicationError::Repository(RepositoryError::VersionConflict { .. })
            ==> api_error_of(e).status == 409 && api_error_of(e).error == "version_conflict"@,
        e == ApplicationError::Repository(RepositoryError::AlreadyExists) ==> api_error_of(e).status
            == 409 && api_error_of(e).error == "already_exists"@,
        e == ApplicationError::Ownership(OwnershipError::ActiveOwnershipAlreadyExists)
            ==> api_error_of(e).status == 409 && api_error_of(e).error
            == "active_ownership_already_exists"@,
        e matches ApplicationError::Ownership(OwnershipError::StatusDoesNotAllow(k))
            ==> api_error_of(e).status == 409 && api_error_of(e).error
            == "ownership_status_does_not_allow"@ && api_error_of(e).message == "Ownership status '"@
            + ownership_status_kind_name(k) + "' does not allow this operation."@,
        e == ApplicationError::Ownership(OwnershipError::PeriodEndBeforeStart) ==> api_error_of(
            e,
        ).status == 422 && api_error_of(e).error == "ownership_period_invalid"@,
{
}

} // verus!
