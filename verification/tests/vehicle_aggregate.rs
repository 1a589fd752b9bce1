use chrono::Duration;

use pitgo::aggregate::ChangeOutcome;
use pitgo::ids::VehicleId;
use pitgo::time::Timestamp;
use pitgo::vehicle::aggregate::Vehicle;
use pitgo::vehicle::error::{VehicleActivationError, VehicleError};
use pitgo::vehicle::event::VehicleEvent;
use pitgo::vehicle::permit::VehicleActivationPermit;
use pitgo::vehicle::state::VehicleStatus;

fn ts(dt: chrono::DateTime<chrono::Utc>) -> Timestamp {
    Timestamp::from_unix(dt.timestamp(), dt.timestamp_subsec_nanos())
}

fn now() -> chrono::DateTime<chrono::Utc> {
    chrono::Utc::now()
}

fn valid_permit(vehicle: &Vehicle, now: chrono::DateTime<chrono::Utc>) -> VehicleActivationPermit {
    VehicleActivationPermit::new(vehicle.id(), ts(now), ts(now + Duration::minutes(5)))
}

#[test]
fn aggregate_tests_create_sets_draft_status() {
    let vehicle = Vehicle::create(VehicleId::new(), ts(now()));
    assert_eq!(vehicle.status(), &VehicleStatus::Draft);
}

#[test]
fn aggregate_tests_create_assigns_correct_id() {
    let id = VehicleId::new();
    let vehicle = Vehicle::create(id, ts(now()));
    assert_eq!(vehicle.id(), id);
}

#[test]
fn create_raises_vehicle_created_event() {
    let mut vehicle = Vehicle::create(VehicleId::new(), ts(now()));
    let events = vehicle.pull_pending_events();
    assert_eq!(events.len(), 1);
    assert!(matches!(events[0].payload, VehicleEvent::Created(_)));
}

#[test]
fn aggregate_tests_create_sets_version_to_one() {
    let vehicle = Vehicle::create(VehicleId::new(), ts(now()));
    assert_eq!(vehicle.version().value(), 1);
}

#[test]
fn aggregate_tests_activate_from_draft_returns_changed() {
    let now = now();
    let mut vehicle = Vehicle::create(VehicleId::new(), ts(now));
    let permit = valid_permit(&vehicle, now);
    let outcome = vehicle.activate(permit, ts(now)).unwrap();
    assert_eq!(outcome, ChangeOutcome::Changed);
}

#[test]
fn aggregate_tests_activate_from_draft_sets_active_status() {
    let now = now();
    let mut vehicle = Vehicle::create(VehicleId::new(), ts(now));
    let permit = valid_permit(&vehicle, now);
    vehicle.activate(permit, ts(now)).unwrap();
    assert_eq!(vehicle.status(), &VehicleStatus::Active);
}

#[test]
fn aggregate_tests_activate_increments_version() {
    let now = now();
    let mut vehicle = Vehicle::create(VehicleId::new(), ts(now));
    let version_before = vehicle.version();
    let permit = valid_permit(&vehicle, now);
    vehicle.activate(permit, ts(now)).unwrap();
    assert_eq!(vehicle.version(), version_before.next());
}

#[test]
fn activate_raises_vehicle_activated_event() {
    let now = now();
    let mut vehicle = Vehicle::create(VehicleId::new(), ts(now));
    vehicle.pull_pending_events();
    let permit = valid_permit(&vehicle, now);
    vehicle.activate(permit, ts(now)).unwrap();
    let events = vehicle.pull_pending_events();
    assert_eq!(events.len(), 1);
    assert!(matches!(events[0].payload, VehicleEvent::Activated(_)));
}

#[test]
fn aggregate_tests_activate_updates_updated_at() {
    let created_at = now();
    let mut vehicle = Vehicle::create(VehicleId::new(), ts(created_at));
    let activated_at = created_at + Duration::seconds(10);
    let permit = valid_permit(&vehicle, activated_at);
    vehicle.activate(permit, ts(activated_at)).unwrap();
    assert_eq!(vehicle.updated_at(), ts(activated_at));
}

#[test]
fn aggregate_tests_activate_already_active_returns_no_change() {
    let now = now();
    let mut vehicle = Vehicle::create(VehicleId::new(), ts(now));
    let permit = valid_permit(&vehicle, now);
    vehicle.activate(permit, ts(now)).unwrap();

    let version_after = vehicle.version();
    let permit2 = valid_permit(&vehicle, now);
    let outcome = vehicle.activate(permit2, ts(now)).unwrap();

    assert_eq!(outcome, ChangeOutcome::NoChange);
    assert_eq!(vehicle.version(), version_after);
}

#[test]
fn aggregate_tests_activate_no_change_emits_no_events() {
    let now = now();
    let mut vehicle = Vehicle::create(VehicleId::new(), ts(now));
    let permit = valid_permit(&vehicle, now);
    vehicle.activate(permit, ts(now)).unwrap();
    vehicle.pull_pending_events();

    let permit2 = valid_permit(&vehicle, now);
    vehicle.activate(permit2, ts(now)).unwrap();
    assert!(vehicle.pull_pending_events().is_empty());
}

#[test]
fn activate_with_wrong_vehicle_id_returns_error() {
    let now = now();
    let mut vehicle = Vehicle::create(VehicleId::new(), ts(now));
    let wrong_permit =
        VehicleActivationPermit::new(VehicleId::new(), ts(now), ts(now + Duration::minutes(5)));
    let err = vehicle.activate(wrong_permit, ts(now)).unwrap_err();
    assert!(matches!(
        err,
        VehicleError::Activation(VehicleActivationError::PermitVehicleIdMismatch)
    ));
}

#[test]
fn aggregate_tests_activate_with_expired_permit_returns_error() {
    let now = now();
    let mut vehicle = Vehicle::create(VehicleId::new(), ts(now));
    let expired_permit = VehicleActivationPermit::new(
        vehicle.id(),
        ts(now - Duration::minutes(10)),
        ts(now - Duration::minutes(5)),
    );
    let err = vehicle.activate(expired_permit, ts(now)).unwrap_err();
    assert!(matches!(
        err,
        VehicleError::Activation(VehicleActivationError::PermitExpired)
    ));
}

#[test]
fn pull_pending_events_drains_buffer() {
    let now = now();
    let mut vehicle = Vehicle::create(VehicleId::new(), ts(now));
    let permit = valid_permit(&vehicle, now);
    vehicle.activate(permit, ts(now)).unwrap();

    let events = vehicle.pull_pending_events();
    assert_eq!(events.len(), 2);
    assert!(vehicle.pull_pending_events().is_empty());
}

// ── Further cases ───────────────────────────────────────────────────────────

#[test]
fn vehicle_identity_is_checked_before_expiry() {
    let t = Timestamp::from_unix(100, 0);
    let mut vehicle = Vehicle::create(VehicleId::from_u128(1), t);
    let permit = VehicleActivationPermit::new(
        VehicleId::from_u128(2),
        Timestamp::from_unix(0, 0),
        Timestamp::from_unix(50, 0),
    );
    assert_eq!(
        vehicle.activate(permit, t),
        Err(VehicleError::Activation(VehicleActivationError::PermitVehicleIdMismatch))
    );
    assert_eq!(vehicle.version().value(), 1);
}

#[test]
fn vehicle_permit_is_not_bound_to_a_version() {
    let t = Timestamp::from_unix(100, 0);
    let id = VehicleId::from_u128(3);
    let mut vehicle = Vehicle::create(id, t);
    let permit = VehicleActivationPermit::new(id, t, Timestamp::from_unix(101, 0));
    assert_eq!(permit.vehicle_id(), id);
    assert_eq!(permit.issued_at(), t);
    assert_eq!(permit.expires_at(), Timestamp::from_unix(101, 0));
    vehicle.pull_pending_events();
    assert_eq!(vehicle.activate(permit.clone(), t), Ok(ChangeOutcome::Changed));
    assert_eq!(vehicle.activate(permit, t), Ok(ChangeOutcome::NoChange));
    assert_eq!(vehicle.version().value(), 2);
    assert_eq!(vehicle.created_at(), t);
}
