//! A customer's phone contact together with its verification status.
use crate::aggregate::ChangeOutcome;
use crate::customer_contact_book::value_objects::phone_number::PhoneNumber;
use crate::time::Timestamp;
use vstd::prelude::*;

verus! {

/// A phone number and whether it has been verified.
#[derive(Debug)]
pub struct PhoneContact {
    number: PhoneNumber,
    verification: VerificationStatus,
}

/// The trust state of a phone contact.
#[derive(Debug, Clone, Copy, PartialEq, Eq, Structural)]
pub enum VerificationStatus {
    /// Not verified yet.
    Unverified,
    /// The number was verified at the given time.
    Verified { verified_at: Timestamp },
}

/// What a phone contact holds.
pub struct PhoneContactView {
    pub number: Seq<char>,
    pub verification: VerificationStatus,
}

impl View for PhoneContact {
    type V = PhoneContactView;

    closed spec fn view(&self) -> PhoneContactView {
        PhoneContactView { number: self.number@, verification: self.verification }
    }
}

/// The contact and the outcome after `verify(now)`: the first verification
/// records `now`; any later one changes nothing.
pub open spec fn phone_contact_after_verify(c: PhoneContactView, now: Timestamp) -> (
    PhoneContactView,
    ChangeOutcome,
) {
    match c.verification {
        VerificationStatus::Unverified => (
            PhoneContactView { verification: VerificationStatus::Verified { verified_at: now }, ..c },
            ChangeOutcome::Changed,
        ),
        VerificationStatus::Verified { .. } => (c, ChangeOutcome::NoChange),
    }
}

impl PhoneContact {
    /// Creates a new unverified phone contact.
    pub fn new(number: PhoneNumber) -> (c: PhoneContact)
        ensures
            c@ == (PhoneContactView {
                number: number@,
                verification: VerificationStatus::Unverified,
            }),
    {
        PhoneContact { number, verification: VerificationStatus::Unverified }
    }

    /// Verifies the contact if it has not been verified already; repeating
    /// the verification changes nothing, so a redelivered command is safe.
    pub fn verify(&mut self, now: Timestamp) -> (r: ChangeOutcome)
        ensures
            (final(self)@, r) == phone_contact_after_verify(old(self)@, now),
    {
        match &self.verification {
            VerificationStatus::Unverified => {
                self.verification = VerificationStatus::Verified { verified_at: now };
                ChangeOutcome::Changed
            },
            VerificationStatus::Verified { .. } => ChangeOutcome::NoChange,
        }
    }

    /// Returns the normalized phone number.
    pub fn number(&self) -> (n: &PhoneNumber)
        ensures
            n@ == self@.number,
    {
        &self.number
    }

    /// Returns the current verification status.
    pub fn verification(&self) -> (v: &VerificationStatus)
        ensures
            *v == self@.verification,
    {
        &self.verification
    }
}

/// Verification is idempotent: verifying twice keeps the first moment and
/// the second attempt answers `NoChange`.
pub proof fn lemma_phone_contact_verify_idempotent(c: PhoneContactView, t1: Timestamp, t2: Timestamp)
    ensures
        ({
            let (once, _) = phone_contact_after_verify(c, t1);
            let (twice, r) = phone_contact_after_verify(once, t2);
            twice == once && r == ChangeOutcome::NoChange
        }),
{
}

/// The first verification records `now` and answers `Changed`, keeping the
/// number; a verified contact answers `NoChange` and stays as it is.
pub proof fn lemma_phone_contact_verify_rules(c: PhoneContactView, now: Timestamp)
    ensures
        c.verification == VerificationStatus::Unverified ==> phone_contact_after_verify(c, now) == (
            PhoneContactView {
                number: c.number,
                verification: VerificationStatus::Verified { verified_at: now },
            },
            ChangeOutcome::Changed,
        ),
        c.verification != VerificationStatus::Unverified ==> phone_contact_after_verify(c, now) == (
            c,
            ChangeOutcome::NoChange,
        ),
{
}

} // verus!
