use std::sync::{Arc, Mutex};

use pitgo::application::customer::commands::CreateCustomerCommand;
use pitgo::application::customer::handlers::{CreateCustomerHandler, GetCustomerHandler};
use pitgo::application::customer::ports::CustomerRepository;
use pitgo::application::error::{ApplicationError, RepositoryError};
use pitgo::application::vehicle::commands::CreateVehicleCommand;
use pitgo::application::vehicle::handlers::{CreateVehicleHandler, GetVehicleHandler};
use pitgo::application::vehicle::ports::VehicleRepository;
use pitgo::customer::aggregate::Customer;
use pitgo::customer::state::CustomerStatus;
use pitgo::ids::{CustomerId, VehicleId};
use pitgo::vehicle::aggregate::Vehicle;

struct MockCustomerRepository {
    saved: Mutex<Vec<Customer>>,
    save_error: Option<RepositoryError>,
}

impl MockCustomerRepository {
    fn ok() -> Arc<Self> {
        Arc::new(Self { saved: Mutex::new(Vec::new()), save_error: None })
    }

    fn failing(error: RepositoryError) -> Arc<Self> {
        Arc::new(Self { saved: Mutex::new(Vec::new()), save_error: Some(error) })
    }

    fn saved_ids(&self) -> Vec<CustomerId> {
        self.saved.lock().unwrap().iter().map(|c| c.id()).collect()
    }
}

impl CustomerRepository for MockCustomerRepository {
    fn save(&self, customer: &Customer) -> Result<(), RepositoryError> {
        if let Some(error) = &self.save_error {
            return Err(error.clone());
        }
        self.saved.lock().unwrap().push(customer.clone());
        Ok(())
    }

    fn find_by_id(&self, id: CustomerId) -> Result<Option<Customer>, RepositoryError> {
        Ok(self.saved.lock().unwrap().iter().find(|c| c.id() == id).cloned())
    }
}

struct MockVehicleRepository {
    saved_ids: Mutex<Vec<VehicleId>>,
    save_error: Option<RepositoryError>,
}

impl MockVehicleRepository {
    fn ok() -> Arc<Self> {
        Arc::new(Self { saved_ids: Mutex::new(vec![]), save_error: None })
    }

    fn failing(error: RepositoryError) -> Arc<Self> {
        Arc::new(Self { saved_ids: Mutex::new(vec![]), save_error: Some(error) })
    }

    fn saved_ids(&self) -> Vec<VehicleId> {
        self.saved_ids.lock().unwrap().clone()
    }
}

impl VehicleRepository for MockVehicleRepository {
    fn save(&self, vehicle: &Vehicle) -> Result<(), RepositoryError> {
        if let Some(ref err) = self.save_error {
            return Err(err.clone());
        }
        self.saved_ids.lock().unwrap().push(vehicle.id());
        Ok(())
    }

    fn find_by_id(&self, _id: VehicleId) -> Result<Option<Vehicle>, RepositoryError> {
        Ok(None)
    }
}

#[test]
fn customer_handle_returns_ok_on_success() {
    let repo = MockCustomerRepository::ok();
    let handler = CreateCustomerHandler::new(Arc::clone(&repo) as Arc<dyn CustomerRepository>);
    let result = handler.handle(CreateCustomerCommand { customer_id: CustomerId::new() });
    assert!(result.is_ok());
}

#[test]
fn handle_saves_customer_with_correct_id() {
    let repo = MockCustomerRepository::ok();
    let handler = CreateCustomerHandler::new(Arc::clone(&repo) as Arc<dyn CustomerRepository>);
    let id = CustomerId::new();
    handler
        .handle(CreateCustomerCommand { customer_id: id })
        .expect("customer creation should succeed");
    assert_eq!(repo.saved_ids(), vec![id]);
}

#[test]
fn customer_handle_does_not_save_on_repository_error() {
    let repo = MockCustomerRepository::failing(RepositoryError::StorageFailure("io error".into()));
    let handler = CreateCustomerHandler::new(Arc::clone(&repo) as Arc<dyn CustomerRepository>);
    let result = handler.handle(CreateCustomerCommand { customer_id: CustomerId::new() });
    assert!(result.is_err());
    assert!(repo.saved_ids().is_empty());
}

#[test]
fn customer_handle_propagates_storage_failure() {
    let repo = MockCustomerRepository::failing(RepositoryError::StorageFailure("disk full".into()));
    let handler = CreateCustomerHandler::new(repo as Arc<dyn CustomerRepository>);
    let error = handler
        .handle(CreateCustomerCommand { customer_id: CustomerId::new() })
        .expect_err("handler should propagate repository error");
    assert!(matches!(
        error,
        ApplicationError::Repository(RepositoryError::StorageFailure(_))
    ));
}

#[test]
fn customer_handle_propagates_version_conflict() {
    let repo = MockCustomerRepository::failing(RepositoryError::VersionConflict {
        expected: 1,
        actual: 2,
    });
    let handler = CreateCustomerHandler::new(repo as Arc<dyn CustomerRepository>);
    let error = handler
        .handle(CreateCustomerCommand { customer_id: CustomerId::new() })
        .expect_err("handler should propagate version conflict");
    assert!(matches!(
        error,
        ApplicationError::Repository(RepositoryError::VersionConflict { expected: 1, actual: 2 })
    ));
}

#[test]
fn created_customer_can_be_fetched_as_draft() {
    let repo = MockCustomerRepository::ok();
    let id = CustomerId::from_u128(0x1111_1111_1111_4111_8111_1111_1111_1111);
    CreateCustomerHandler::new(Arc::clone(&repo) as Arc<dyn CustomerRepository>)
        .handle(CreateCustomerCommand { customer_id: id })
        .unwrap();
    let found = GetCustomerHandler::new(Arc::clone(&repo) as Arc<dyn CustomerRepository>)
        .handle(id)
        .unwrap()
        .unwrap();
    assert_eq!(found.id(), id);
    assert_eq!(found.status(), &CustomerStatus::Draft);
    // Stamped with the current time read from the system clock.
    assert!(found.created_at().seconds > 1_600_000_000);
    assert!(found.created_at().nanos < 1_000_000_000);
    assert_eq!(found.created_at(), found.updated_at());
    let missing = GetCustomerHandler::new(repo as Arc<dyn CustomerRepository>)
        .handle(CustomerId::from_u128(1))
        .unwrap();
    assert!(missing.is_none());
}

#[test]
fn vehicle_handle_returns_ok_on_success() {
    let repo = MockVehicleRepository::ok();
    let handler = CreateVehicleHandler::new(Arc::clone(&repo) as Arc<dyn VehicleRepository>);
    assert!(handler.handle(CreateVehicleCommand { vehicle_id: VehicleId::new() }).is_ok());
}

#[test]
fn handle_saves_vehicle_with_correct_id() {
    let repo = MockVehicleRepository::ok();
    let handler = CreateVehicleHandler::new(Arc::clone(&repo) as Arc<dyn VehicleRepository>);
    let id = VehicleId::new();
    handler
        .handle(CreateVehicleCommand { vehicle_id: id })
        .expect("vehicle creation should succeed");
    assert_eq!(repo.saved_ids(), vec![id]);
}

#[test]
fn vehicle_handle_does_not_save_on_repository_error() {
    let repo = MockVehicleRepository::failing(RepositoryError::StorageFailure("io error".into()));
    let handler = CreateVehicleHandler::new(Arc::clone(&repo) as Arc<dyn VehicleRepository>);
    let _ = handler.handle(CreateVehicleCommand { vehicle_id: VehicleId::new() });
    assert!(repo.saved_ids().is_empty());
}

#[test]
fn vehicle_handle_propagates_storage_failure() {
    let repo = MockVehicleRepository::failing(RepositoryError::StorageFailure("disk full".into()));
    let handler = CreateVehicleHandler::new(repo as Arc<dyn VehicleRepository>);
    let err = handler.handle(CreateVehicleCommand { vehicle_id: VehicleId::new() }).unwrap_err();
    assert!(matches!(
        err,
        ApplicationError::Repository(RepositoryError::StorageFailure(_))
    ));
}

#[test]
fn vehicle_handle_propagates_version_conflict() {
    let repo = MockVehicleRepository::failing(RepositoryError::VersionConflict {
        expected: 1,
        actual: 2,
    });
    let handler = CreateVehicleHandler::new(repo as Arc<dyn VehicleRepository>);
    let err = handler.handle(CreateVehicleCommand { vehicle_id: VehicleId::new() }).unwrap_err();
    assert!(matches!(
        err,
        ApplicationError::Repository(RepositoryError::VersionConflict { expected: 1, actual: 2 })
    ));
}

#[test]
fn missing_vehicle_is_none() {
    let repo = MockVehicleRepository::ok();
    let found = GetVehicleHandler::new(repo as Arc<dyn VehicleRepository>)
        .handle(VehicleId::new())
        .unwrap();
    assert!(found.is_none());
}
