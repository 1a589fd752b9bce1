use pitgo::application::error::{ApplicationError, RepositoryError};
use pitgo::backend::error::ApiError;
use pitgo::backend::routers::vehicle_ownership::OwnershipTypeDto;
use pitgo::vehicle_ownership::error::OwnershipError;
use pitgo::vehicle_ownership::state::{OwnershipStatusKind, OwnershipType};

#[test]
fn api_version_conflict_maps_to_409() {
    let err = ApiError::from(ApplicationError::Repository(RepositoryError::VersionConflict {
        expected: 2,
        actual: 1,
    }));
    assert_eq!(err.status(), 409);
    assert_eq!(err.error(), "version_conflict");
    assert_eq!(err.message(), "Conflict occurred while processing the request.");
}

#[test]
fn api_already_exists_maps_to_409() {
    let err = ApiError::from(ApplicationError::Repository(RepositoryError::AlreadyExists));
    assert_eq!(err.status(), 409);
    assert_eq!(err.error(), "already_exists");
}

#[test]
fn api_storage_failure_maps_to_500_internal_without_detail() {
    let err = ApiError::from(ApplicationError::Repository(RepositoryError::StorageFailure(
        "secret detail".to_string(),
    )));
    assert_eq!(err.status(), 500);
    assert_eq!(err.error(), "internal");
    assert!(!err.message().contains("secret detail"));
}

#[test]
fn api_active_ownership_already_exists_maps_to_409() {
    let err = ApiError::from(ApplicationError::Ownership(
        OwnershipError::ActiveOwnershipAlreadyExists,
    ));
    assert_eq!(err.status(), 409);
    assert_eq!(err.error(), "active_ownership_already_exists");
}

#[test]
fn api_ownership_status_does_not_allow_maps_to_409() {
    let err = ApiError::from(ApplicationError::Ownership(OwnershipError::StatusDoesNotAllow(
        OwnershipStatusKind::Ended,
    )));
    assert_eq!(err.status(), 409);
    assert_eq!(err.error(), "ownership_status_does_not_allow");
    assert_eq!(err.message(), "Ownership status 'Ended' does not allow this operation.");
    let pending = ApiError::from(ApplicationError::Ownership(OwnershipError::StatusDoesNotAllow(
        OwnershipStatusKind::PendingVerification,
    )));
    assert_eq!(pending.error(), "ownership_status_does_not_allow");
    assert_eq!(
        pending.message(),
        "Ownership status 'PendingVerification' does not allow this operation."
    );
}

#[test]
fn api_ownership_period_before_start_maps_to_422() {
    let err = ApiError::from(ApplicationError::Ownership(OwnershipError::PeriodEndBeforeStart));
    assert_eq!(err.status(), 422);
    assert_eq!(err.error(), "ownership_period_invalid");
}

#[test]
fn api_not_found_codes() {
    let customer = ApiError::customer_not_found();
    assert_eq!((customer.status(), customer.error()), (404, "customer_not_found"));
    assert_eq!(customer.message(), "Customer not found.");
    let vehicle = ApiError::vehicle_not_found();
    assert_eq!((vehicle.status(), vehicle.error()), (404, "vehicle_not_found"));
    let ownership = ApiError::ownership_not_found();
    assert_eq!((ownership.status(), ownership.error()), (404, "ownership_not_found"));
}

#[test]
fn ownership_type_dto_maps_to_the_same_variant() {
    assert_eq!(OwnershipTypeDto::Private.into_domain(), OwnershipType::Private);
    assert_eq!(OwnershipTypeDto::Company.into_domain(), OwnershipType::Company);
    assert_eq!(OwnershipTypeDto::Leasing.into_domain(), OwnershipType::Leasing);
    assert_eq!(OwnershipTypeDto::Fleet.into_domain(), OwnershipType::Fleet);
    assert_eq!(OwnershipTypeDto::Unknown.into_domain(), OwnershipType::Unknown);
}
