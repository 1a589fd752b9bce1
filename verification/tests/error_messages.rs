use pitgo::application::error::{ApplicationError, RepositoryError};
use pitgo::customer::error::{CustomerActivationError, CustomerError};
use pitgo::customer::state::CustomerStatusKind;
use pitgo::customer_contact_book::error::{CustomerContactBookError, PhoneNumberError};
use pitgo::vehicle::error::{VehicleActivationError, VehicleError};
use pitgo::vehicle::state::VehicleStatusKind;
use pitgo::vehicle_ownership::error::OwnershipError;
use pitgo::vehicle_ownership::state::OwnershipStatusKind;

#[test]
fn repository_messages() {
    assert_eq!(
        RepositoryError::VersionConflict { expected: 2, actual: 1 }.to_string(),
        "optimistic lock conflict: expected version 2, found 1"
    );
    assert_eq!(
        RepositoryError::VersionConflict { expected: 10, actual: u64::MAX }.to_string(),
        "optimistic lock conflict: expected version 10, found 18446744073709551615"
    );
    assert_eq!(
        RepositoryError::VersionConflict { expected: 0, actual: 109 }.to_string(),
        "optimistic lock conflict: expected version 0, found 109"
    );
    assert_eq!(
        RepositoryError::StorageFailure("disk full".to_string()).to_string(),
        "storage failure: disk full"
    );
    assert_eq!(RepositoryError::AlreadyExists.to_string(), "aggregate already exists");
}

#[test]
fn application_errors_show_their_cause() {
    assert_eq!(
        ApplicationError::Repository(RepositoryError::StorageFailure("x".to_string())).to_string(),
        "storage failure: x"
    );
    assert_eq!(
        ApplicationError::Ownership(OwnershipError::StatusDoesNotAllow(OwnershipStatusKind::Ended))
            .to_string(),
        "статус Ended не допускает данную операцию"
    );
}

#[test]
fn domain_messages() {
    assert_eq!(
        CustomerError::Activation(CustomerActivationError::PermitExpired).to_string(),
        "срок действия ActivationPermit истёк"
    );
    assert_eq!(
        CustomerActivationError::StatusDoesNotAllow(CustomerStatusKind::Draft).to_string(),
        "статус Draft не допускает активацию"
    );
    assert_eq!(
        VehicleError::Activation(VehicleActivationError::PermitVehicleIdMismatch).to_string(),
        "VehicleActivationPermit выдан для другого vehicle_id"
    );
    assert_eq!(
        VehicleActivationError::StatusDoesNotAllow(VehicleStatusKind::Active).to_string(),
        "статус Active не допускает активацию"
    );
    assert_eq!(
        OwnershipError::PeriodEndBeforeStart.to_string(),
        "дата завершения периода владения не может быть раньше даты начала"
    );
    assert_eq!(PhoneNumberError::Empty.to_string(), "phone number is empty");
    assert_eq!(
        PhoneNumberError::InvalidFormat.to_string(),
        "invalid Belarus phone number format"
    );
    assert_eq!(
        CustomerContactBookError::PhoneAlreadyExists.to_string(),
        "phone contact already exists"
    );
}
