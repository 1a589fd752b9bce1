//! `ActivationPermit`: the capability object that lets a customer activate.
use crate::aggregate::AggregateVersion;
use crate::customer::error::CustomerActivationError;
use crate::ids::CustomerId;
use crate::time::Timestamp;
use vstd::prelude::*;

verus! {

/// Permission to activate one customer in one exact version, until it expires.
///
/// Fields are private so that a permit cannot be edited after issue.
#[derive(Debug, Clone)]
pub struct ActivationPermit {
    customer_id: CustomerId,
    customer_version: AggregateVersion,
    issued_at: Timestamp,
    expires_at: Timestamp,
}

/// What a permit says.
pub struct ActivationPermitView {
    pub customer_id: CustomerId,
    pub customer_version: nat,
    pub issued_at: Timestamp,
    pub expires_at: Timestamp,
}

impl View for ActivationPermit {
    type V = ActivationPermitView;

    closed spec fn view(&self) -> ActivationPermitView {
        ActivationPermitView {
            customer_id: self.customer_id,
            customer_version: self.customer_version@,
            issued_at: self.issued_at,
            expires_at: self.expires_at,
        }
    }
}

/// The local checks of a permit presented by customer `customer_id` at
/// version `current_version` at time `now`, in the order they are made:
/// expiry (strictly after `expires_at`), then the customer, then the version.
pub open spec fn permit_local_check(
    permit: ActivationPermitView,
    customer_id: CustomerId,
    current_version: nat,
    now: Timestamp,
) -> Result<(), CustomerActivationError> {
    if permit.expires_at.precedes(now) {
        Err(CustomerActivationError::PermitExpired)
    } else if permit.customer_id != customer_id {
        Err(CustomerActivationError::PermitCustomerIdMismatch)
    } else if permit.customer_version != current_version {
        Err(CustomerActivationError::PermitVersionMismatch)
    } else {
        Ok(())
    }
}

impl ActivationPermit {
    /// Issues a permit for `customer_id` at `customer_version`.
    pub fn new(
        customer_id: CustomerId,
        customer_version: AggregateVersion,
        issued_at: Timestamp,
        expires_at: Timestamp,
    ) -> (p: ActivationPermit)
        ensures
            p@ == (ActivationPermitView {
                customer_id,
                customer_version: customer_version@,
                issued_at,
                expires_at,
            }),
    {
        ActivationPermit { customer_id, customer_version, issued_at, expires_at }
    }

    pub fn customer_id(&self) -> (id: CustomerId)
        ensures
            id == self@.customer_id,
    {
        self.customer_id
    }

    pub fn customer_version(&self) -> (v: AggregateVersion)
        ensures
            v@ == self@.customer_version,
    {
        self.customer_version
    }

    pub fn issued_at(&self) -> (t: Timestamp)
        ensures
            t == self@.issued_at,
    {
        self.issued_at
    }

    pub fn expires_at(&self) -> (t: Timestamp)
        ensures
            t == self@.expires_at,
    {
        self.expires_at
    }

    /// Local checks performed by the aggregate before it changes state.
    pub fn validate_local(
        &self,
        customer_id: CustomerId,
        current_version: AggregateVersion,
        now: Timestamp,
    ) -> (r: Result<(), CustomerActivationError>)
        ensures
            r == permit_local_check(self@, customer_id, current_version@, now),
    {
        if now.is_after(&self.expires_at) {
            return Err(CustomerActivationError::PermitExpired);
        }
        if self.customer_id != customer_id {
            return Err(CustomerActivationError::PermitCustomerIdMismatch);
        }
        if self.customer_version != current_version {
            proof {
                AggregateVersion::lemma_view_determines(self.customer_version, current_version);
            }
            return Err(CustomerActivationError::PermitVersionMismatch);
        }
        Ok(())
    }
}

/// A permit is accepted exactly when `now` is not strictly after its expiry,
/// it names the customer, and it was issued for the customer's current
/// version; when it was issued plays no part. Expiry is reported first, then
/// the customer, then the version.
pub proof fn lemma_customer_permit_acceptance(
    permit: ActivationPermitView,
    customer_id: CustomerId,
    current_version: nat,
    now: Timestamp,
    other_issued_at: Timestamp,
)
    ensures
        permit_local_check(permit, customer_id, current_version, now) is Ok <==> (
        !permit.expires_at.precedes(now) && permit.customer_id == customer_id
            && permit.customer_version == current_version),
        permit.expires_at.precedes(now) ==> permit_local_check(
            permit,
            customer_id,
            current_version,
            now,
        ) == Err::<(), CustomerActivationError>(CustomerActivationError::PermitExpired),
        !permit.expires_at.precedes(now) && permit.customer_id != customer_id
            ==> permit_local_check(permit, customer_id, current_version, now) == Err::<
            (),
            CustomerActivationError,
        >(CustomerActivationError::PermitCustomerIdMismatch),
        !permit.expires_at.precedes(now) && permit.customer_id == customer_id
            && permit.customer_version != current_version ==> permit_local_check(
            permit,
            customer_id,
            current_version,
            now,
        ) == Err::<(), CustomerActivationError>(CustomerActivationError::PermitVersionMismatch),
        permit_local_check(
            ActivationPermitView { issued_at: other_issued_at, ..permit },
            customer_id,
            current_version,
            now,
        ) == permit_local_check(permit, customer_id, current_version, now),
{
}

} // verus!
