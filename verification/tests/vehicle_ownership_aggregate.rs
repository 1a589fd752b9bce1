use chrono::Duration;

use pitgo::aggregate::ChangeOutcome;
use pitgo::ids::{CustomerId, VehicleId, VehicleOwnershipId};
use pitgo::time::Timestamp;
use pitgo::vehicle_ownership::aggregate::VehicleOwnership;
use pitgo::vehicle_ownership::error::OwnershipError;
use pitgo::vehicle_ownership::event::VehicleOwnershipEvent;
use pitgo::vehicle_ownership::snapshot::OwnershipEligibilitySnapshot;
use pitgo::vehicle_ownership::state::{
    OwnershipPeriod, OwnershipStatus, OwnershipStatusKind, OwnershipType,
};

fn ts(dt: chrono::DateTime<chrono::Utc>) -> Timestamp {
    Timestamp::from_unix(dt.timestamp(), dt.timestamp_subsec_nanos())
}

fn now() -> chrono::DateTime<chrono::Utc> {
    chrono::Utc::now()
}

fn free_snapshot(vehicle_id: VehicleId) -> OwnershipEligibilitySnapshot {
    OwnershipEligibilitySnapshot::new(vehicle_id, false)
}

fn occupied_snapshot(vehicle_id: VehicleId) -> OwnershipEligibilitySnapshot {
    OwnershipEligibilitySnapshot::new(vehicle_id, true)
}

fn start_ownership(vehicle_id: VehicleId) -> VehicleOwnership {
    VehicleOwnership::start(
        VehicleOwnershipId::new(),
        vehicle_id,
        CustomerId::new(),
        OwnershipType::Private,
        free_snapshot(vehicle_id),
        ts(now()),
    )
    .unwrap()
}

#[test]
fn start_creates_pending_verification_status() {
    let ownership = start_ownership(VehicleId::new());
    assert_eq!(ownership.status(), &OwnershipStatus::PendingVerification);
}

#[test]
fn start_raises_ownership_started_event() {
    let mut ownership = start_ownership(VehicleId::new());
    let events = ownership.pull_pending_events();
    assert_eq!(events.len(), 1);
    assert!(matches!(
        events[0].payload,
        VehicleOwnershipEvent::Started(_)
    ));
}

#[test]
fn start_sets_version_to_one() {
    let ownership = start_ownership(VehicleId::new());
    assert_eq!(ownership.version().value(), 1);
}

#[test]
fn start_with_active_ownership_returns_error() {
    let vehicle_id = VehicleId::new();
    let err = VehicleOwnership::start(
        VehicleOwnershipId::new(),
        vehicle_id,
        CustomerId::new(),
        OwnershipType::Private,
        occupied_snapshot(vehicle_id),
        ts(now()),
    )
    .unwrap_err();
    assert!(matches!(err, OwnershipError::ActiveOwnershipAlreadyExists));
}

#[test]
fn verify_changes_pending_to_active() {
    let mut ownership = start_ownership(VehicleId::new());
    ownership.verify(ts(now())).unwrap();
    assert_eq!(ownership.status(), &OwnershipStatus::Active);
}

#[test]
fn verify_returns_changed() {
    let mut ownership = start_ownership(VehicleId::new());
    let outcome = ownership.verify(ts(now())).unwrap();
    assert_eq!(outcome, ChangeOutcome::Changed);
}

#[test]
fn verify_raises_verified_event() {
    let mut ownership = start_ownership(VehicleId::new());
    ownership.pull_pending_events();
    ownership.verify(ts(now())).unwrap();
    let events = ownership.pull_pending_events();
    assert_eq!(events.len(), 1);
    assert!(matches!(
        events[0].payload,
        VehicleOwnershipEvent::Verified(_)
    ));
}

#[test]
fn verify_increments_version() {
    let mut ownership = start_ownership(VehicleId::new());
    let version_before = ownership.version();
    ownership.verify(ts(now())).unwrap();
    assert_eq!(ownership.version(), version_before.next());
}

#[test]
fn verify_active_returns_no_change() {
    let now = now();
    let mut ownership = start_ownership(VehicleId::new());
    ownership.verify(ts(now)).unwrap();
    let version_after = ownership.version();

    let outcome = ownership.verify(ts(now)).unwrap();
    assert_eq!(outcome, ChangeOutcome::NoChange);
    assert_eq!(ownership.version(), version_after);
}

#[test]
fn verify_active_no_change_emits_no_events() {
    let now = now();
    let mut ownership = start_ownership(VehicleId::new());
    ownership.verify(ts(now)).unwrap();
    ownership.pull_pending_events();

    ownership.verify(ts(now)).unwrap();
    assert!(ownership.pull_pending_events().is_empty());
}

#[test]
fn end_active_changes_to_ended() {
    let mut ownership = start_ownership(VehicleId::new());
    ownership.verify(ts(now())).unwrap();
    ownership.end(ts(now())).unwrap();
    assert_eq!(ownership.status(), &OwnershipStatus::Ended);
}

#[test]
fn end_active_returns_changed() {
    let mut ownership = start_ownership(VehicleId::new());
    ownership.verify(ts(now())).unwrap();
    let outcome = ownership.end(ts(now())).unwrap();
    assert_eq!(outcome, ChangeOutcome::Changed);
}

#[test]
fn end_raises_ended_event() {
    let mut ownership = start_ownership(VehicleId::new());
    ownership.verify(ts(now())).unwrap();
    ownership.pull_pending_events();

    ownership.end(ts(now())).unwrap();
    let events = ownership.pull_pending_events();
    assert_eq!(events.len(), 1);
    assert!(matches!(events[0].payload, VehicleOwnershipEvent::Ended(_)));
}

#[test]
fn end_closes_period() {
    let started_at = now();
    let vehicle_id = VehicleId::new();
    let mut ownership = VehicleOwnership::start(
        VehicleOwnershipId::new(),
        vehicle_id,
        CustomerId::new(),
        OwnershipType::Private,
        free_snapshot(vehicle_id),
        ts(started_at),
    )
    .unwrap();
    ownership.verify(ts(started_at)).unwrap();

    let ended_at = started_at + Duration::days(30);
    ownership.end(ts(ended_at)).unwrap();

    assert_eq!(ownership.period().ended_at, Some(ts(ended_at)));
}

#[test]
fn end_ended_returns_no_change() {
    let mut ownership = start_ownership(VehicleId::new());
    ownership.verify(ts(now())).unwrap();
    ownership.end(ts(now())).unwrap();
    let version_after = ownership.version();

    let outcome = ownership.end(ts(now())).unwrap();
    assert_eq!(outcome, ChangeOutcome::NoChange);
    assert_eq!(ownership.version(), version_after);
}

#[test]
fn end_ended_emits_no_events() {
    let mut ownership = start_ownership(VehicleId::new());
    ownership.verify(ts(now())).unwrap();
    ownership.end(ts(now())).unwrap();
    ownership.pull_pending_events();

    ownership.end(ts(now())).unwrap();
    assert!(ownership.pull_pending_events().is_empty());
}

#[test]
fn end_pending_verification_returns_error() {
    let mut ownership = start_ownership(VehicleId::new());
    let err = ownership.end(ts(now())).unwrap_err();
    assert!(matches!(err, OwnershipError::StatusDoesNotAllow(_)));
}

#[test]
fn aggregate_tests_pull_pending_events_drains_buffer() {
    let mut ownership = start_ownership(VehicleId::new());
    let events = ownership.pull_pending_events();
    assert_eq!(events.len(), 1);
    assert!(ownership.pull_pending_events().is_empty());
}

#[test]
fn full_lifecycle_emits_three_events() {
    let mut ownership = start_ownership(VehicleId::new());
    let now = now();
    ownership.verify(ts(now)).unwrap();
    ownership.end(ts(now)).unwrap();

    let events = ownership.pull_pending_events();
    assert_eq!(events.len(), 3);
    assert!(matches!(
        events[0].payload,
        VehicleOwnershipEvent::Started(_)
    ));
    assert!(matches!(
        events[1].payload,
        VehicleOwnershipEvent::Verified(_)
    ));
    assert!(matches!(events[2].payload, VehicleOwnershipEvent::Ended(_)));
}

// ── Further cases ───────────────────────────────────────────────────────────

fn started_at_100() -> VehicleOwnership {
    let vehicle_id = VehicleId::from_u128(5);
    VehicleOwnership::start(
        VehicleOwnershipId::from_u128(9),
        vehicle_id,
        CustomerId::from_u128(4),
        OwnershipType::Leasing,
        free_snapshot(vehicle_id),
        Timestamp::from_unix(100, 0),
    )
    .unwrap()
}

#[test]
fn end_before_start_is_refused_and_changes_nothing() {
    let mut ownership = started_at_100();
    ownership.verify(Timestamp::from_unix(150, 0)).unwrap();
    let err = ownership.end(Timestamp::from_unix(99, 999_999_999)).unwrap_err();
    assert_eq!(err, OwnershipError::PeriodEndBeforeStart);
    assert_eq!(ownership.status(), &OwnershipStatus::Active);
    assert_eq!(ownership.period().ended_at, None);
    assert_eq!(ownership.version().value(), 2);
    assert_eq!(ownership.updated_at(), Timestamp::from_unix(150, 0));
}

#[test]
fn end_at_the_start_instant_is_allowed() {
    let mut ownership = started_at_100();
    ownership.verify(Timestamp::from_unix(100, 0)).unwrap();
    assert_eq!(ownership.end(Timestamp::from_unix(100, 0)), Ok(ChangeOutcome::Changed));
    assert_eq!(
        *ownership.period(),
        OwnershipPeriod {
            started_at: Timestamp::from_unix(100, 0),
            ended_at: Some(Timestamp::from_unix(100, 0)),
        }
    );
}

#[test]
fn ended_ownership_cannot_be_verified_again() {
    let mut ownership = started_at_100();
    ownership.verify(Timestamp::from_unix(110, 0)).unwrap();
    ownership.end(Timestamp::from_unix(120, 0)).unwrap();
    assert_eq!(
        ownership.verify(Timestamp::from_unix(130, 0)),
        Err(OwnershipError::StatusDoesNotAllow(OwnershipStatusKind::Ended))
    );
    assert_eq!(ownership.status(), &OwnershipStatus::Ended);
    assert_eq!(ownership.version().value(), 3);
}

#[test]
fn started_event_carries_the_whole_relationship() {
    let mut ownership = started_at_100();
    assert_eq!(ownership.id(), VehicleOwnershipId::from_u128(9));
    assert_eq!(ownership.vehicle_id(), VehicleId::from_u128(5));
    assert_eq!(ownership.owner_customer_id(), CustomerId::from_u128(4));
    assert_eq!(ownership.ownership_type(), &OwnershipType::Leasing);
    assert_eq!(ownership.created_at(), Timestamp::from_unix(100, 0));
    let events = ownership.pull_pending_events();
    match &events[0].payload {
        VehicleOwnershipEvent::Started(started) => {
            assert_eq!(started.ownership_id, VehicleOwnershipId::from_u128(9));
            assert_eq!(started.vehicle_id, VehicleId::from_u128(5));
            assert_eq!(started.owner_customer_id, CustomerId::from_u128(4));
            assert_eq!(started.ownership_type, OwnershipType::Leasing);
        }
        other => panic!("unexpected event {other:?}"),
    }
}

#[test]
fn snapshot_reports_what_it_was_given() {
    let occupied = occupied_snapshot(VehicleId::from_u128(1));
    assert_eq!(occupied.vehicle_id(), VehicleId::from_u128(1));
    assert!(!occupied.no_open_ownership_exists());
    assert!(free_snapshot(VehicleId::from_u128(1)).no_open_ownership_exists());
}

#[test]
fn period_close_refuses_an_earlier_end() {
    let start = Timestamp::from_unix(10, 5);
    let period = OwnershipPeriod::new(start);
    assert!(period.is_open());
    assert_eq!(period.close(Timestamp::from_unix(10, 4)), None);
    let closed = period.close(Timestamp::from_unix(10, 5)).unwrap();
    assert!(!closed.is_open());
    assert_eq!(closed.ended_at, Some(Timestamp::from_unix(10, 5)));
}

#[test]
fn status_kinds_and_names() {
    assert_eq!(OwnershipStatus::PendingVerification.kind(), OwnershipStatusKind::PendingVerification);
    assert_eq!(OwnershipStatus::Active.kind(), OwnershipStatusKind::Active);
    assert_eq!(OwnershipStatus::Ended.kind(), OwnershipStatusKind::Ended);
    assert_eq!(OwnershipStatusKind::PendingVerification.to_string(), "PendingVerification");
    assert_eq!(OwnershipStatusKind::Active.to_string(), "Active");
    assert_eq!(OwnershipStatusKind::Ended.to_string(), "Ended");
}

#[test]
fn open_statuses_are_classified_correctly() {
    assert!(OwnershipStatus::PendingVerification.is_open());
    assert!(OwnershipStatus::Active.is_open());
    assert!(!OwnershipStatus::Ended.is_open());
}
