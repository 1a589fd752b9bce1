use pitgo::aggregate::AggregateVersion;
use pitgo::application::error::RepositoryError;
use pitgo::backend::routers::vehicle_ownership::{ownership_status_wire_name, ownership_under_vehicle};
use pitgo::ids::{CustomerId, VehicleId, VehicleOwnershipId};
use pitgo::persistence::{check_save, has_open_ownership_among};
use pitgo::time::Timestamp;
use pitgo::vehicle_ownership::aggregate::VehicleOwnership;
use pitgo::vehicle_ownership::snapshot::OwnershipEligibilitySnapshot;
use pitgo::vehicle_ownership::state::{OwnershipStatus, OwnershipType};

fn v(n: u64) -> AggregateVersion {
    AggregateVersion::from(n)
}

fn ownership(id: u128, vehicle: u128) -> VehicleOwnership {
    VehicleOwnership::start(
        VehicleOwnershipId::from_u128(id),
        VehicleId::from_u128(vehicle),
        CustomerId::from_u128(1),
        OwnershipType::Private,
        OwnershipEligibilitySnapshot::new(VehicleId::from_u128(vehicle), false),
        Timestamp::from_unix(0, 0),
    )
    .unwrap()
}

#[test]
fn new_aggregate_is_saved_at_version_one() {
    assert_eq!(check_save(None, v(1)), Ok(()));
    assert_eq!(
        check_save(None, v(2)),
        Err(RepositoryError::VersionConflict { expected: 1, actual: 2 })
    );
}

#[test]
fn duplicate_create_is_already_exists() {
    assert_eq!(check_save(Some(v(1)), v(1)), Err(RepositoryError::AlreadyExists));
    assert_eq!(check_save(Some(v(2)), v(1)), Err(RepositoryError::AlreadyExists));
}

#[test]
fn stale_write_is_a_version_conflict() {
    assert_eq!(check_save(Some(v(1)), v(2)), Ok(()));
    assert_eq!(
        check_save(Some(v(2)), v(2)),
        Err(RepositoryError::VersionConflict { expected: 3, actual: 2 })
    );
}

#[test]
fn pending_and_active_records_occupy_their_vehicle() {
    let mut ended = ownership(1, 10);
    ended.verify(Timestamp::from_unix(1, 0)).unwrap();
    ended.end(Timestamp::from_unix(2, 0)).unwrap();
    let pending = ownership(2, 20);
    let records = vec![ended, pending];
    assert!(!has_open_ownership_among(&records, VehicleId::from_u128(10)));
    assert!(has_open_ownership_among(&records, VehicleId::from_u128(20)));
    assert!(!has_open_ownership_among(&records, VehicleId::from_u128(30)));
    assert!(!has_open_ownership_among(&Vec::new(), VehicleId::from_u128(20)));
}

#[test]
fn ownership_is_only_found_under_its_vehicle() {
    let found = ownership_under_vehicle(Some(ownership(3, 22)), VehicleId::from_u128(22)).unwrap();
    assert_eq!(found.id(), VehicleOwnershipId::from_u128(3));
    let wrong = ownership_under_vehicle(Some(ownership(3, 22)), VehicleId::from_u128(77)).unwrap_err();
    assert_eq!((wrong.status(), wrong.error()), (404, "ownership_not_found"));
    let missing = ownership_under_vehicle(None, VehicleId::from_u128(22)).unwrap_err();
    assert_eq!(missing.error(), "ownership_not_found");
}

#[test]
fn ownership_status_wire_names_are_snake_case() {
    assert_eq!(ownership_status_wire_name(&OwnershipStatus::PendingVerification), "pending_verification");
    assert_eq!(ownership_status_wire_name(&OwnershipStatus::Active), "active");
    assert_eq!(ownership_status_wire_name(&OwnershipStatus::Ended), "ended");
}
