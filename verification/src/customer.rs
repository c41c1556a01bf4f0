//! The side table of a user's identifiers at the providers of payments,
//! and how an identifier is recorded.

use vstd::prelude::*;

use crate::bytes::copy_bytes;
use crate::error::Error;
use crate::id::Id;
use crate::text::texts;

verus! {

/// What a provider knows a user as, keyed by `(uid, provider)`.
#[derive(Debug)]
pub struct Customer {
    pub uid: Id,
    pub provider: String,
    pub created_at: i64,
    pub updated_at: i64,
    /// The user's identifier at the provider.
    pub customer: String,
    pub payload: Vec<u8>,
    /// The identifiers that the user had before.
    pub customers: Vec<String>,
}

/// What a customer row holds, as mathematical values.
pub ghost struct CustomerView {
    pub uid: Id,
    pub provider: Seq<char>,
    pub created_at: int,
    pub updated_at: int,
    pub customer: Seq<char>,
    pub payload: Seq<u8>,
    pub customers: Seq<Seq<char>>,
}

impl View for Customer {
    type V = CustomerView;

    open spec fn view(&self) -> CustomerView {
        CustomerView {
            uid: self.uid,
            provider: self.provider@,
            created_at: self.created_at as int,
            updated_at: self.updated_at as int,
            customer: self.customer@,
            payload: self.payload@,
            customers: texts(self.customers@),
        }
    }
}

impl CustomerView {
    /// An empty row with its key.
    pub open spec fn empty(uid: Id, provider: Seq<char>) -> CustomerView {
        CustomerView {
            uid,
            provider,
            created_at: 0,
            updated_at: 0,
            customer: Seq::empty(),
            payload: Seq::empty(),
            customers: Seq::empty(),
        }
    }
}

/// One operation on the customer table.
#[derive(Debug)]
pub enum CustomerRequest {
    /// Read a row.
    Get { uid: Id, provider: String },
    /// Insert a row unless its key is taken.
    Insert { row: Customer },
    /// Write a new identifier with its payload and the time, and add the
    /// former identifier to those the user had before, if the stored
    /// identifier is still the former one.
    Replace { uid: Id, provider: String, updated_at: i64, customer: String, payload: Vec<u8>, former: String },
}

pub ghost enum CustomerRequestView {
    Get { uid: Id, provider: Seq<char> },
    Insert { row: CustomerView },
    Replace {
        uid: Id,
        provider: Seq<char>,
        updated_at: int,
        customer: Seq<char>,
        payload: Seq<u8>,
        former: Seq<char>,
    },
}

impl View for CustomerRequest {
    type V = CustomerRequestView;

    open spec fn view(&self) -> CustomerRequestView {
        match self {
            CustomerRequest::Get { uid, provider } => CustomerRequestView::Get {
                uid: *uid,
                provider: provider@,
            },
            CustomerRequest::Insert { row } => CustomerRequestView::Insert { row: row@ },
            CustomerRequest::Replace {
                uid,
                provider,
                updated_at,
                customer,
                payload,
                former,
            } => CustomerRequestView::Replace {
                uid: *uid,
                provider: provider@,
                updated_at: *updated_at as int,
                customer: customer@,
                payload: payload@,
                former: former@,
            },
        }
    }
}

/// What the store answers.
#[derive(Debug)]
pub enum CustomerReply {
    Row(Customer),
    Applied(bool),
    NotFound,
    Failed,
}

pub ghost enum CustomerReplyView {
    Row(CustomerView),
    Applied(bool),
    NotFound,
    Failed,
}

impl View for CustomerReply {
    type V = CustomerReplyView;

    open spec fn view(&self) -> CustomerReplyView {
        match self {
            CustomerReply::Row(c) => CustomerReplyView::Row(c@),
            CustomerReply::Applied(b) => CustomerReplyView::Applied(*b),
            CustomerReply::NotFound => CustomerReplyView::NotFound,
            CustomerReply::Failed => CustomerReplyView::Failed,
        }
    }
}

/// The view of a request that may be absent.
pub open spec fn customer_request_view(r: Option<CustomerRequest>) -> Option<CustomerRequestView> {
    match r {
        Some(q) => Some(q@),
        None => None,
    }
}

/// Where the recording of an identifier stands.
#[derive(Clone, Copy, Debug)]
pub enum UpsertPhase {
    /// The row was asked for.
    Reading,
    /// There was no row and its insertion was asked for.
    Inserting,
    /// The insertion did not apply and the row was asked for again.
    Rereading,
    /// The replacement of the identifier was asked for.
    Replacing,
    /// The identifier is recorded; the flag tells whether anything was
    /// written.
    Succeeded(bool),
    /// The recording gave up.
    Failed(Error),
}

/// The recording of one identifier.
#[derive(Debug)]
pub struct UpsertMachine {
    pub phase: UpsertPhase,
    /// The row as far as it is known.
    pub row: Customer,
    /// The identifier to record.
    pub customer: String,
    /// The payload to record with it.
    pub payload: Vec<u8>,
    /// The time of the operation, in milliseconds.
    pub now: i64,
}

pub ghost struct UpsertView {
    pub phase: UpsertPhase,
    pub row: CustomerView,
    pub customer: Seq<char>,
    pub payload: Seq<u8>,
    pub now: int,
}

impl View for UpsertMachine {
    type V = UpsertView;

    open spec fn view(&self) -> UpsertView {
        UpsertView {
            phase: self.phase,
            row: self.row@,
            customer: self.customer@,
            payload: self.payload@,
            now: self.now as int,
        }
    }
}

impl UpsertView {
    pub open spec fn fail(self, e: Error) -> (UpsertView, Option<CustomerRequestView>) {
        (UpsertView { phase: UpsertPhase::Failed(e), ..self }, None)
    }

    pub open spec fn get_request(self) -> Option<CustomerRequestView> {
        Some(CustomerRequestView::Get { uid: self.row.uid, provider: self.row.provider })
    }

    /// The row as a new one with the identifier to record.
    pub open spec fn fresh_row(self) -> CustomerView {
        CustomerView {
            created_at: self.now,
            updated_at: self.now,
            customer: self.customer,
            payload: self.payload,
            ..self.row
        }
    }

    /// The recording at its start, and its first request.
    pub open spec fn spec_start(
        uid: Id,
        provider: Seq<char>,
        customer: Seq<char>,
        payload: Seq<u8>,
        now: int,
    ) -> (UpsertView, Option<CustomerRequestView>) {
        let m = UpsertView {
            phase: UpsertPhase::Reading,
            row: CustomerView::empty(uid, provider),
            customer,
            payload,
            now,
        };
        (m, m.get_request())
    }

    /// What follows the reading of a row that is there: nothing where it
    /// holds the identifier already, else the replacement.
    pub open spec fn found(self, c: CustomerView) -> (UpsertView, Option<CustomerRequestView>) {
        let m = UpsertView { row: c, ..self };
        if c.uid != self.row.uid || c.provider != self.row.provider {
            self.fail(Error::StoreUnavailable)
        } else if c.customer == self.customer {
            (UpsertView { phase: UpsertPhase::Succeeded(false), ..m }, None)
        } else {
            (
                UpsertView { phase: UpsertPhase::Replacing, ..m },
                Some(
                    CustomerRequestView::Replace {
                        uid: c.uid,
                        provider: c.provider,
                        updated_at: self.now,
                        customer: self.customer,
                        payload: self.payload,
                        former: c.customer,
                    },
                ),
            )
        }
    }

    /// The recording after an answer, and its next request if it goes on.
    pub open spec fn spec_step(self, reply: CustomerReplyView) -> (
        UpsertView,
        Option<CustomerRequestView>,
    ) {
        match self.phase {
            UpsertPhase::Reading => match reply {
                CustomerReplyView::Row(c) => self.found(c),
                CustomerReplyView::Failed => self.fail(Error::StoreUnavailable),
                _ => {
                    let row = self.fresh_row();
                    (
                        UpsertView { phase: UpsertPhase::Inserting, row, ..self },
                        Some(CustomerRequestView::Insert { row }),
                    )
                },
            },
            UpsertPhase::Inserting => match reply {
                CustomerReplyView::Applied(applied) => if applied {
                    (UpsertView { phase: UpsertPhase::Succeeded(true), ..self }, None)
                } else {
                    (UpsertView { phase: UpsertPhase::Rereading, ..self }, self.get_request())
                },
                _ => self.fail(Error::StoreUnavailable),
            },
            UpsertPhase::Rereading => match reply {
                CustomerReplyView::Row(c) => self.found(c),
                CustomerReplyView::NotFound => self.fail(Error::NotFound),
                _ => self.fail(Error::StoreUnavailable),
            },
            UpsertPhase::Replacing => match reply {
                CustomerReplyView::Applied(applied) => if applied {
                    (
                        UpsertView {
                            phase: UpsertPhase::Succeeded(true),
                            row: CustomerView {
                                updated_at: self.now,
                                customer: self.customer,
                                payload: self.payload,
                                customers: self.row.customers.push(self.row.customer),
                                ..self.row
                            },
                            ..self
                        },
                        None,
                    )
                } else {
                    self.fail(Error::StatusConflict)
                },
                _ => self.fail(Error::StoreUnavailable),
            },
            _ => (self, None),
        }
    }

    /// How the recording ended: whether anything was written, or why not.
    pub open spec fn outcome(self) -> Result<bool, Error> {
        match self.phase {
            UpsertPhase::Succeeded(written) => Ok(written),
            UpsertPhase::Failed(e) => Err(e),
            _ => Err(Error::StoreUnavailable),
        }
    }
}

impl Customer {
    /// An empty row with its key.
    pub fn with_pk(uid: Id, provider: String) -> (r: Customer)
        ensures
            r@ == CustomerView::empty(uid, provider@),
    {
        let r = Customer {
            uid,
            provider,
            created_at: 0,
            updated_at: 0,
            customer: String::new(),
            payload: Vec::new(),
            customers: Vec::new(),
        };
        assert(texts(r.customers@) =~= Seq::<Seq<char>>::empty());
        r
    }

    fn copy(&self) -> (r: Customer)
        ensures
            r@ == self@,
    {
        let mut former: Vec<String> = Vec::new();
        let mut i: usize = 0;
        while i < self.customers.len()
            invariant
                i <= self.customers@.len(),
                former@.len() == i,
                forall|j: int| 0 <= j < i ==> former@[j]@ == self.customers@[j]@,
            decreases self.customers@.len() - i,
        {
            former.push(self.customers[i].clone());
            i += 1;
        }
        assert(texts(former@) =~= texts(self.customers@));
        Customer {
            uid: self.uid,
            provider: self.provider.clone(),
            created_at: self.created_at,
            updated_at: self.updated_at,
            customer: self.customer.clone(),
            payload: copy_bytes(self.payload.as_slice()),
            customers: former,
        }
    }
}

impl UpsertMachine {
    /// Begins the recording of `customer` as the identifier of `uid` at
    /// `provider`, with its payload, at the time `now`.
    pub fn start(uid: Id, provider: String, customer: String, payload: Vec<u8>, now: i64) -> (r: (
        UpsertMachine,
        Option<CustomerRequest>,
    ))
        ensures
            (r.0@, customer_request_view(r.1)) == UpsertView::spec_start(
                uid,
                provider@,
                customer@,
                payload@,
                now as int,
            ),
    {
        let request = CustomerRequest::Get { uid, provider: provider.clone() };
        (
            UpsertMachine {
                phase: UpsertPhase::Reading,
                row: Customer::with_pk(uid, provider),
                customer,
                payload,
                now,
            },
            Some(request),
        )
    }

    fn give_up(&mut self, e: Error) -> (next: Option<CustomerRequest>)
        ensures
            (final(self)@, customer_request_view(next)) == old(self)@.fail(e),
    {
        self.phase = UpsertPhase::Failed(e);
        None
    }

    fn get_request(&self) -> (next: Option<CustomerRequest>)
        ensures
            customer_request_view(next) == self@.get_request(),
    {
        Some(CustomerRequest::Get { uid: self.row.uid, provider: self.row.provider.clone() })
    }

    fn found(&mut self, c: Customer) -> (next: Option<CustomerRequest>)
        ensures
            (final(self)@, customer_request_view(next)) == old(self)@.found(c@),
    {
        if c.uid != self.row.uid || c.provider != self.row.provider {
            return self.give_up(Error::StoreUnavailable);
        }
        self.row = c;
        if self.row.customer == self.customer {
            self.phase = UpsertPhase::Succeeded(false);
            return None;
        }
        self.phase = UpsertPhase::Replacing;
        Some(
            CustomerRequest::Replace {
                uid: self.row.uid,
                provider: self.row.provider.clone(),
                updated_at: self.now,
                customer: self.customer.clone(),
                payload: copy_bytes(self.payload.as_slice()),
                former: self.row.customer.clone(),
            },
        )
    }

    /// Takes the store's answer to the last request and says what to ask
    /// next; `None` once the recording has ended.
    pub fn step(&mut self, reply: CustomerReply) -> (next: Option<CustomerRequest>)
        ensures
            (final(self)@, customer_request_view(next)) == old(self)@.spec_step(reply@),
    {
        match self.phase {
            UpsertPhase::Reading => match reply {
                CustomerReply::Row(c) => self.found(c),
                CustomerReply::Failed => self.give_up(Error::StoreUnavailable),
                _ => {
                    self.row.created_at = self.now;
                    self.row.updated_at = self.now;
                    self.row.customer = self.customer.clone();
                    self.row.payload = copy_bytes(self.payload.as_slice());
                    self.phase = UpsertPhase::Inserting;
                    Some(CustomerRequest::Insert { row: self.row.copy() })
                },
            },
            UpsertPhase::Inserting => match reply {
                CustomerReply::Applied(applied) => {
                    if applied {
                        self.phase = UpsertPhase::Succeeded(true);
                        None
                    } else {
                        self.phase = UpsertPhase::Rereading;
                        self.get_request()
                    }
                },
                _ => self.give_up(Error::StoreUnavailable),
            },
            UpsertPhase::Rereading => match reply {
                CustomerReply::Row(c) => self.found(c),
                CustomerReply::NotFound => self.give_up(Error::NotFound),
                _ => self.give_up(Error::StoreUnavailable),
            },
            UpsertPhase::Replacing => match reply {
                CustomerReply::Applied(applied) => {
                    if applied {
                        let ghost before = texts(self.row.customers@);
                        let former: String = self.row.customer.clone();
                        self.row.customers.push(former);
                        assert(texts(self.row.customers@) =~= before.push(former@));
                        self.row.updated_at = self.now;
                        self.row.customer = self.customer.clone();
                        self.row.payload = copy_bytes(self.payload.as_slice());
                        self.phase = UpsertPhase::Succeeded(true);
                        None
                    } else {
                        self.give_up(Error::StatusConflict)
                    }
                },
                _ => self.give_up(Error::StoreUnavailable),
            },
            _ => None,
        }
    }

    /// How the recording ended: whether anything was written, or why not.
    pub fn outcome(&self) -> (r: Result<bool, Error>)
        ensures
            r == self@.outcome(),
    {
        match self.phase {
            UpsertPhase::Succeeded(written) => Ok(written),
            UpsertPhase::Failed(e) => Err(e),
            _ => Err(Error::StoreUnavailable),
        }
    }
}

} // verus!
