//! The `CustomerContactBook` aggregate: the customer's contact boundary.
use crate::aggregate::{AggregateVersion, ChangeOutcome};
use crate::customer_contact_book::error::CustomerContactBookError;
use crate::customer_contact_book::event::{
    contact_book_event_view, ContactBookEventView, CustomerContactBookCreatedV1,
    CustomerContactBookEvent, PhoneAddedV1,
};
use crate::customer_contact_book::value_objects::phone_contact::{
    PhoneContact, PhoneContactView, VerificationStatus,
};
use crate::customer_contact_book::value_objects::phone_number::PhoneNumber;
use crate::event::{payloads, PendingEvent};
use crate::ids::CustomerId;
use crate::time::Timestamp;
use vstd::prelude::*;

verus! {

/// Customer contact book aggregate root. It starts without contacts;
/// contact state changes only through its methods, and the version
/// increases exactly once for every raised event.
#[derive(Debug)]
pub struct CustomerContactBook {
    customer_id: CustomerId,
    phone_contact: Option<PhoneContact>,
    aggregate_version: AggregateVersion,
    pending_events: Vec<PendingEvent<CustomerContactBookEvent>>,
}

/// The state of a contact book; events are taken by what they say.
pub struct CustomerContactBookView {
    pub customer_id: CustomerId,
    pub phone_contact: Option<PhoneContactView>,
    pub version: nat,
    pub pending_events: Seq<PendingEvent<ContactBookEventView>>,
}

/// What a buffered event says, with its moment.
pub open spec fn pending_event_view(e: PendingEvent<CustomerContactBookEvent>) -> PendingEvent<
    ContactBookEventView,
> {
    PendingEvent { payload: contact_book_event_view(e.payload), occurred_at: e.occurred_at }
}

impl View for CustomerContactBook {
    type V = CustomerContactBookView;

    closed spec fn view(&self) -> CustomerContactBookView {
        CustomerContactBookView {
            customer_id: self.customer_id,
            phone_contact: match self.phone_contact {
                Some(c) => Some(c@),
                None => None,
            },
            version: self.aggregate_version@,
            pending_events: self.pending_events@.map_values(
                |e: PendingEvent<CustomerContactBookEvent>| pending_event_view(e),
            ),
        }
    }
}

/// Every event a contact book in this state has raised, in order.
pub open spec fn contact_book_history(
    customer_id: CustomerId,
    phone_contact: Option<PhoneContactView>,
) -> Seq<ContactBookEventView> {
    let created = seq![ContactBookEventView::Created { customer_id }];
    match phone_contact {
        None => created,
        Some(c) => created.push(
            ContactBookEventView::PhoneAdded { customer_id, phone_number: c.number },
        ),
    }
}

impl CustomerContactBookView {
    /// The version counts every event raised so far, and the buffered events
    /// are the latest of them, in order.
    pub open spec fn wf(self) -> bool {
        &&& self.version == contact_book_history(self.customer_id, self.phone_contact).len()
        &&& payloads(self.pending_events).is_suffix_of(
            contact_book_history(self.customer_id, self.phone_contact),
        )
    }
}

/// A contact book just created at `now`.
pub open spec fn created_contact_book(customer_id: CustomerId, now: Timestamp) -> CustomerContactBookView {
    CustomerContactBookView {
        customer_id,
        phone_contact: None,
        version: 1,
        pending_events: seq![
            PendingEvent {
                payload: ContactBookEventView::Created { customer_id },
                occurred_at: now,
            },
        ],
    }
}

/// The contact book and the result after adding `phone_number` at `now`:
/// only the first phone is accepted.
pub open spec fn contact_book_after_add_phone(
    b: CustomerContactBookView,
    phone_number: Seq<char>,
    now: Timestamp,
) -> (CustomerContactBookView, Result<ChangeOutcome, CustomerContactBookError>) {
    if b.phone_contact is Some {
        (b, Err(CustomerContactBookError::PhoneAlreadyExists))
    } else {
        (
            CustomerContactBookView {
                phone_contact: Some(
                    PhoneContactView {
                        number: phone_number,
                        verification: VerificationStatus::Unverified,
                    },
                ),
                version: b.version + 1,
                pending_events: b.pending_events.push(
                    PendingEvent {
                        payload: ContactBookEventView::PhoneAdded {
                            customer_id: b.customer_id,
                            phone_number,
                        },
                        occurred_at: now,
                    },
                ),
                ..b
            },
            Ok(ChangeOutcome::Changed),
        )
    }
}

impl CustomerContactBook {
    /// Creates an empty contact book, raising `Created`; its version is 1.
    pub fn new(customer_id: CustomerId, now: Timestamp) -> (b: CustomerContactBook)
        ensures
            b@ == created_contact_book(customer_id, now),
            b@.wf(),
    {
        let mut contact_book = CustomerContactBook {
            customer_id,
            phone_contact: None,
            aggregate_version: AggregateVersion::initial(),
            pending_events: Vec::new(),
        };
        contact_book.raise(
            CustomerContactBookEvent::Created(CustomerContactBookCreatedV1 { customer_id }),
            now,
        );
        proof {
            assert(contact_book@.pending_events =~= created_contact_book(customer_id, now).pending_events);
            assert(payloads(contact_book@.pending_events) =~= contact_book_history(customer_id, None));
        }
        contact_book
    }

    /// Adds the first phone contact, unverified. A second phone is refused
    /// with `PhoneAlreadyExists` and the contact book stays as it is.
    pub fn add_phone(&mut self, phone_number: PhoneNumber, now: Timestamp) -> (r: Result<
        ChangeOutcome,
        CustomerContactBookError,
    >)
        requires
            old(self)@.wf(),
        ensures
            (final(self)@, r) == contact_book_after_add_phone(old(self)@, phone_number@, now),
            final(self)@.wf(),
    {
        if self.phone_contact.is_some() {
            return Err(CustomerContactBookError::PhoneAlreadyExists);
        }
        let ghost before = self@;
        let event_phone_number = phone_number.duplicate();
        self.phone_contact = Some(PhoneContact::new(phone_number));
        self.raise(
            CustomerContactBookEvent::PhoneAdded(
                PhoneAddedV1 { customer_id: self.customer_id, phone_number: event_phone_number },
            ),
            now,
        );
        proof {
            let expected = contact_book_after_add_phone(before, phone_number@, now).0;
            assert(self@.pending_events =~= expected.pending_events);
            let h = contact_book_history(before.customer_id, self@.phone_contact);
            assert(payloads(self@.pending_events) =~= payloads(before.pending_events).push(h.last()));
            assert(h.drop_last() =~= contact_book_history(before.customer_id, None));
        }
        Ok(ChangeOutcome::Changed)
    }

    /// Returns the buffered events, oldest first, and empties the buffer.
    pub fn pull_pending_events(&mut self) -> (events: Vec<PendingEvent<CustomerContactBookEvent>>)
        requires
            old(self)@.wf(),
        ensures
            events@.map_values(|e: PendingEvent<CustomerContactBookEvent>| pending_event_view(e))
                == old(self)@.pending_events,
            final(self)@ == (CustomerContactBookView { pending_events: Seq::empty(), ..old(self)@ }),
            final(self)@.wf(),
    {
        let mut events = Vec::new();
        std::mem::swap(&mut events, &mut self.pending_events);
        proof {
            assert(self@.pending_events =~= Seq::<PendingEvent<ContactBookEventView>>::empty());
            assert(payloads(self@.pending_events) =~= Seq::<ContactBookEventView>::empty());
        }
        events
    }

    /// Returns the customer identifier that owns this contact book.
    pub fn customer_id(&self) -> (id: CustomerId)
        ensures
            id == self@.customer_id,
    {
        self.customer_id
    }

    /// Returns the phone contact if one has been added.
    pub fn phone_contact(&self) -> (c: Option<&PhoneContact>)
        ensures
            match c {
                Some(c) => self@.phone_contact == Some(c@),
                None => self@.phone_contact is None,
            },
    {
        match &self.phone_contact {
            Some(c) => Some(c),
            None => None,
        }
    }

    /// Returns the current version, for optimistic concurrency checks.
    pub fn version(&self) -> (v: AggregateVersion)
        ensures
            v@ == self@.version,
    {
        self.aggregate_version
    }

    /// Buffers an event and advances the version: one event, one increment.
    fn raise(&mut self, event: CustomerContactBookEvent, occurred_at: Timestamp)
        requires
            old(self)@.version < u64::MAX,
        ensures
            final(self)@ == (CustomerContactBookView {
                version: old(self)@.version + 1,
                pending_events: old(self)@.pending_events.push(
                    pending_event_view(PendingEvent { payload: event, occurred_at }),
                ),
                ..old(self)@
            }),
    {
        let ghost before = self@;
        self.pending_events.push(PendingEvent::new(event, occurred_at));
        self.aggregate_version = self.aggregate_version.next();
        proof {
            assert(self@.pending_events =~= before.pending_events.push(
                pending_event_view(PendingEvent { payload: event, occurred_at }),
            ));
        }
    }
}

/// Only the first phone is accepted: once a phone was added, every further
/// `add_phone` is refused and changes nothing.
pub proof fn lemma_contact_book_single_phone(
    b: CustomerContactBookView,
    first: Seq<char>,
    second: Seq<char>,
    t1: Timestamp,
    t2: Timestamp,
)
    requires
        b.phone_contact is None,
    ensures
        ({
            let (after_first, r1) = contact_book_after_add_phone(b, first, t1);
            let (after_second, r2) = contact_book_after_add_phone(after_first, second, t2);
            &&& r1 == Ok::<ChangeOutcome, CustomerContactBookError>(ChangeOutcome::Changed)
            &&& r2 == Err::<ChangeOutcome, CustomerContactBookError>(
                CustomerContactBookError::PhoneAlreadyExists,
            )
            &&& after_second == after_first
        }),
{
}

/// A new contact book has no phone, is at version 1, and buffers one
/// `Created` event for its customer raised at `now`.
pub proof fn lemma_contact_book_new_shape(customer_id: CustomerId, now: Timestamp)
    ensures
        ({
            let b = created_contact_book(customer_id, now);
            &&& b.customer_id == customer_id
            &&& b.phone_contact is None
            &&& b.version == 1
            &&& b.pending_events == seq![
                PendingEvent {
                    payload: ContactBookEventView::Created { customer_id },
                    occurred_at: now,
                },
            ]
            &&& b.wf()
        }),
{
    let b = created_contact_book(customer_id, now);
    assert(payloads(b.pending_events) =~= contact_book_history(customer_id, None));
}

/// Adding a phone to a book without one records exactly that number,
/// unverified, raises one `PhoneAdded` event naming the customer and the
/// number at `now`, and advances the version by one; a book that already has
/// a phone refuses and stays as it is.
pub proof fn lemma_contact_book_add_phone_rules(
    b: CustomerContactBookView,
    number: Seq<char>,
    now: Timestamp,
)
    ensures
        b.phone_contact is None ==> {
            let (after, r) = contact_book_after_add_phone(b, number, now);
            &&& r == Ok::<ChangeOutcome, CustomerContactBookError>(ChangeOutcome::Changed)
            &&& after.customer_id == b.customer_id
            &&& after.phone_contact == Some(
                PhoneContactView { number, verification: VerificationStatus::Unverified },
            )
            &&& after.version == b.version + 1
            &&& after.pending_events == b.pending_events.push(
                PendingEvent {
                    payload: ContactBookEventView::PhoneAdded {
                        customer_id: b.customer_id,
                        phone_number: number,
                    },
                    occurred_at: now,
                },
            )
        },
        b.phone_contact is Some ==> contact_book_after_add_phone(b, number, now) == (
            b,
            Err::<ChangeOutcome, CustomerContactBookError>(
                CustomerContactBookError::PhoneAlreadyExists,
            ),
        ),
{
}

} // verus!
