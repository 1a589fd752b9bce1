//! Building blocks shared by every aggregate: its optimistic-locking version
//! and the outcome of an idempotent command.
use vstd::prelude::*;

verus! {

/// Version of an aggregate, advanced by exactly one for every event the
/// aggregate raises. Repositories compare it for optimistic locking.
#[derive(Debug, Clone, Copy, PartialEq, Eq, Structural)]
pub struct AggregateVersion {
    value: u64,
}

impl View for AggregateVersion {
    type V = nat;

    closed spec fn view(&self) -> nat {
        self.value as nat
    }
}

impl AggregateVersion {
    /// The version of an aggregate before its first event.
    pub fn initial() -> (v: AggregateVersion)
        ensures
            v@ == 0,
    {
        AggregateVersion { value: 0 }
    }

    /// The version that follows this one.
    pub fn next(&self) -> (v: AggregateVersion)
        requires
            self@ < u64::MAX,
        ensures
            v@ == self@ + 1,
    {
        AggregateVersion { value: self.value + 1 }
    }

    /// The version as a number.
    pub fn value(&self) -> (n: u64)
        ensures
            n == self@,
    {
        self.value
    }

    /// Two versions are equal exactly when their numbers are.
    pub proof fn lemma_view_determines(a: AggregateVersion, b: AggregateVersion)
        ensures
            a@ == b@ <==> a == b,
    {
    }
}

impl From<u64> for AggregateVersion {
    fn from(value: u64) -> (v: AggregateVersion) {
        AggregateVersion { value }
    }
}

impl vstd::std_specs::convert::FromSpecImpl<u64> for AggregateVersion {
    open spec fn obeys_from_spec() -> bool {
        true
    }

    closed spec fn from_spec(value: u64) -> AggregateVersion {
        AggregateVersion { value }
    }
}

/// The version converted from `value` has number `value`.
pub broadcast proof fn lemma_from_u64(value: u64)
    ensures
        #[trigger] <AggregateVersion as vstd::std_specs::convert::FromSpec<u64>>::from_spec(value)@ == value,
{
}

/// Whether an idempotent command changed the aggregate.
#[derive(Debug, Clone, Copy, PartialEq, Eq, Structural)]
pub enum ChangeOutcome {
    /// The command changed state and raised an event.
    Changed,
    /// The aggregate already was in the requested state; nothing changed.
    NoChange,
}

} // verus!
