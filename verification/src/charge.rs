//! The charge: one attempt to turn outside funds into a top-up.

use vstd::prelude::*;

use crate::bytes::copy_bytes;
use crate::id::{sys_id, Id};

verus! {

/// A charge was created and waits for the provider to be asked.
pub const CHARGE_INITIALIZED: i8 = 0;

/// The provider was asked and has not answered.
pub const CHARGE_AWAITING: i8 = 1;

/// The provider confirmed the payment.
pub const CHARGE_CONFIRMED: i8 = 2;

/// The top-up is in the ledger.
pub const CHARGE_COMMITTED: i8 = 3;

/// Kept for failures; no update may set it.
pub const CHARGE_FAILED: i8 = -1;

/// The charge ran out of time before the provider confirmed it.
pub const CHARGE_EXPIRED: i8 = -2;

/// How long a new charge waits for the provider: a day, in milliseconds.
pub const CHARGE_WINDOW_MS: i64 = 86_400_000;

/// A charge as it is stored, keyed by `(uid, id)`.
#[derive(Debug)]
pub struct Charge {
    pub uid: Id,
    pub id: Id,
    pub status: i8,
    pub updated_at: i64,
    pub expire_at: i64,
    pub quantity: i64,
    pub currency: String,
    pub amount: i64,
    pub amount_refunded: i64,
    pub provider: String,
    pub charge_id: String,
    pub charge_payload: Vec<u8>,
    pub txn: Option<Id>,
    pub txn_refunded: Option<Id>,
    pub failure_code: String,
    pub failure_msg: String,
}

/// What a charge holds, as mathematical values.
pub ghost struct ChargeView {
    pub uid: Id,
    pub id: Id,
    pub status: int,
    pub updated_at: int,
    pub expire_at: int,
    pub quantity: int,
    pub currency: Seq<char>,
    pub amount: int,
    pub amount_refunded: int,
    pub provider: Seq<char>,
    pub charge_id: Seq<char>,
    pub charge_payload: Seq<u8>,
    pub txn: Option<Id>,
    pub txn_refunded: Option<Id>,
    pub failure_code: Seq<char>,
    pub failure_msg: Seq<char>,
}

/// The columns of a charge that an update may write, each present or not.
#[derive(Debug)]
pub struct ChargeUpdate {
    pub status: Option<i8>,
    pub currency: Option<String>,
    pub amount: Option<i64>,
    pub amount_refunded: Option<i64>,
    pub charge_id: Option<String>,
    pub charge_payload: Option<Vec<u8>>,
    pub txn: Option<Id>,
    pub txn_refunded: Option<Id>,
    pub failure_code: Option<String>,
    pub failure_msg: Option<String>,
}

/// What an update holds, as mathematical values.
pub ghost struct ChargeUpdateView {
    pub status: Option<int>,
    pub currency: Option<Seq<char>>,
    pub amount: Option<int>,
    pub amount_refunded: Option<int>,
    pub charge_id: Option<Seq<char>>,
    pub charge_payload: Option<Seq<u8>>,
    pub txn: Option<Id>,
    pub txn_refunded: Option<Id>,
    pub failure_code: Option<Seq<char>>,
    pub failure_msg: Option<Seq<char>>,
}

impl ChargeUpdateView {
    /// The update that writes nothing.
    pub open spec fn none() -> ChargeUpdateView {
        ChargeUpdateView {
            status: None,
            currency: None,
            amount: None,
            amount_refunded: None,
            charge_id: None,
            charge_payload: None,
            txn: None,
            txn_refunded: None,
            failure_code: None,
            failure_msg: None,
        }
    }

    pub open spec fn is_empty(self) -> bool {
        self == Self::none()
    }
}

impl ChargeView {
    pub open spec fn key(self) -> (Id, Id) {
        (self.uid, self.id)
    }

    /// An empty charge with its key.
    pub open spec fn empty(uid: Id, id: Id) -> ChargeView {
        ChargeView {
            uid,
            id,
            status: 0,
            updated_at: 0,
            expire_at: 0,
            quantity: 0,
            currency: Seq::empty(),
            amount: 0,
            amount_refunded: 0,
            provider: Seq::empty(),
            charge_id: Seq::empty(),
            charge_payload: Seq::empty(),
            txn: None,
            txn_refunded: None,
            failure_code: Seq::empty(),
            failure_msg: Seq::empty(),
        }
    }

    /// Whether a reader at time `now` finds the charge run out: it still
    /// waits, it has an expiry, and the expiry is not after `now`.
    pub open spec fn expired_at(self, now: int) -> bool {
        (self.status == 0 || self.status == 1) && 0 < self.expire_at <= now
    }

    /// The charge as a reader at time `now` sees it: one that has run out
    /// shows as expired, whatever its stored status; nothing is written.
    pub open spec fn observed_at(self, now: int) -> ChargeView {
        if self.expired_at(now) {
            ChargeView { status: -2, failure_msg: "checkout.expired"@, ..self }
        } else {
            self
        }
    }

    /// The charge after an update at time `now`: every column that the
    /// update holds is written, the others stay, and the time is recorded.
    pub open spec fn updated(self, u: ChargeUpdateView, now: int) -> ChargeView {
        ChargeView {
            uid: self.uid,
            id: self.id,
            status: if u.status is Some { u.status->0 } else { self.status },
            updated_at: now,
            expire_at: self.expire_at,
            quantity: self.quantity,
            currency: if u.currency is Some { u.currency->0 } else { self.currency },
            amount: if u.amount is Some { u.amount->0 } else { self.amount },
            amount_refunded: if u.amount_refunded is Some {
                u.amount_refunded->0
            } else {
                self.amount_refunded
            },
            provider: self.provider,
            charge_id: if u.charge_id is Some { u.charge_id->0 } else { self.charge_id },
            charge_payload: if u.charge_payload is Some {
                u.charge_payload->0
            } else {
                self.charge_payload
            },
            txn: if u.txn is Some { u.txn } else { self.txn },
            txn_refunded: if u.txn_refunded is Some { u.txn_refunded } else { self.txn_refunded },
            failure_code: if u.failure_code is Some { u.failure_code->0 } else { self.failure_code },
            failure_msg: if u.failure_msg is Some { u.failure_msg->0 } else { self.failure_msg },
        }
    }
}

impl View for Charge {
    type V = ChargeView;

    open spec fn view(&self) -> ChargeView {
        ChargeView {
            uid: self.uid,
            id: self.id,
            status: self.status as int,
            updated_at: self.updated_at as int,
            expire_at: self.expire_at as int,
            quantity: self.quantity as int,
            currency: self.currency@,
            amount: self.amount as int,
            amount_refunded: self.amount_refunded as int,
            provider: self.provider@,
            charge_id: self.charge_id@,
            charge_payload: self.charge_payload@,
            txn: self.txn,
            txn_refunded: self.txn_refunded,
            failure_code: self.failure_code@,
            failure_msg: self.failure_msg@,
        }
    }
}

impl View for ChargeUpdate {
    type V = ChargeUpdateView;

    open spec fn view(&self) -> ChargeUpdateView {
        ChargeUpdateView {
            status: match self.status {
                Some(s) => Some(s as int),
                None => None,
            },
            currency: match self.currency {
                Some(s) => Some(s@),
                None => None,
            },
            amount: match self.amount {
                Some(s) => Some(s as int),
                None => None,
            },
            amount_refunded: match self.amount_refunded {
                Some(s) => Some(s as int),
                None => None,
            },
            charge_id: match self.charge_id {
                Some(s) => Some(s@),
                None => None,
            },
            charge_payload: match self.charge_payload {
                Some(s) => Some(s@),
                None => None,
            },
            txn: self.txn,
            txn_refunded: self.txn_refunded,
            failure_code: match self.failure_code {
                Some(s) => Some(s@),
                None => None,
            },
            failure_msg: match self.failure_msg {
                Some(s) => Some(s@),
                None => None,
            },
        }
    }
}

fn clone_text(s: &Option<String>) -> (r: Option<String>)
    ensures
        r == *s,
{
    match s {
        Some(t) => Some(t.clone()),
        None => None,
    }
}

impl Clone for ChargeUpdate {
    fn clone(&self) -> (r: ChargeUpdate)
        ensures
            r@ == self@,
    {
        ChargeUpdate {
            status: self.status,
            currency: clone_text(&self.currency),
            amount: self.amount,
            amount_refunded: self.amount_refunded,
            charge_id: clone_text(&self.charge_id),
            charge_payload: match &self.charge_payload {
                Some(p) => Some(copy_bytes(p.as_slice())),
                None => None,
            },
            txn: self.txn,
            txn_refunded: self.txn_refunded,
            failure_code: clone_text(&self.failure_code),
            failure_msg: clone_text(&self.failure_msg),
        }
    }
}

impl Default for ChargeUpdate {
    fn default() -> (r: ChargeUpdate)
        ensures
            r@ == ChargeUpdateView::none(),
    {
        ChargeUpdate {
            status: None,
            currency: None,
            amount: None,
            amount_refunded: None,
            charge_id: None,
            charge_payload: None,
            txn: None,
            txn_refunded: None,
            failure_code: None,
            failure_msg: None,
        }
    }
}

impl Default for Charge {
    fn default() -> (r: Charge)
        ensures
            r@ == ChargeView::empty(sys_id(), sys_id()),
    {
        Charge::with_pk(sys_id(), sys_id())
    }
}

impl Clone for Charge {
    fn clone(&self) -> (r: Charge)
        ensures
            r@ == self@,
    {
        Charge {
            uid: self.uid,
            id: self.id,
            status: self.status,
            updated_at: self.updated_at,
            expire_at: self.expire_at,
            quantity: self.quantity,
            currency: self.currency.clone(),
            amount: self.amount,
            amount_refunded: self.amount_refunded,
            provider: self.provider.clone(),
            charge_id: self.charge_id.clone(),
            charge_payload: copy_bytes(self.charge_payload.as_slice()),
            txn: self.txn,
            txn_refunded: self.txn_refunded,
            failure_code: self.failure_code.clone(),
            failure_msg: self.failure_msg.clone(),
        }
    }
}

impl Charge {
    /// An empty charge with its key.
    pub fn with_pk(uid: Id, id: Id) -> (r: Charge)
        ensures
            r@ == ChargeView::empty(uid, id),
    {
        Charge {
            uid,
            id,
            status: 0,
            updated_at: 0,
            expire_at: 0,
            quantity: 0,
            currency: String::new(),
            amount: 0,
            amount_refunded: 0,
            provider: String::new(),
            charge_id: String::new(),
            charge_payload: Vec::new(),
            txn: None,
            txn_refunded: None,
            failure_code: String::new(),
            failure_msg: String::new(),
        }
    }

    /// Shows the charge as a reader at time `now` is to see it: if it has
    /// run out it becomes expired, with the reason as its failure message.
    /// Nothing is written to the store.
    pub fn observe(&mut self, now: i64)
        ensures
            final(self)@ == old(self)@.observed_at(now as int),
    {
        if (self.status == 0 || self.status == 1) && self.expire_at > 0 && self.expire_at <= now {
            self.status = -2;
            self.failure_msg = "checkout.expired".to_owned();
        }
    }

    /// What a sweeper writes to a charge that has run out at the time
    /// `now`: the expiry and its reason; nothing for any other charge. The
    /// write is to be made on condition that the status is still the one
    /// this charge has.
    pub fn expiry(&self, now: i64) -> (r: Option<ChargeUpdate>)
        ensures
            r is Some <==> self@.expired_at(now as int),
            r is Some ==> r->0@ == (ChargeUpdateView {
                status: Some(CHARGE_EXPIRED as int),
                failure_msg: Some("checkout.expired"@),
                ..ChargeUpdateView::none()
            }),
    {
        if (self.status == 0 || self.status == 1) && self.expire_at > 0 && self.expire_at <= now {
            let mut u: ChargeUpdate = ChargeUpdate::default();
            u.status = Some(CHARGE_EXPIRED);
            u.failure_msg = Some("checkout.expired".to_owned());
            Some(u)
        } else {
            None
        }
    }

    /// Writes the columns of an update into this charge and records the
    /// time, as the store does when the update applies.
    pub fn fill(&mut self, u: ChargeUpdate, now: i64)
        ensures
            final(self)@ == old(self)@.updated(u@, now as int),
    {
        self.updated_at = now;
        if let Some(s) = u.status {
            self.status = s;
        }
        if let Some(s) = u.currency {
            self.currency = s;
        }
        if let Some(s) = u.amount {
            self.amount = s;
        }
        if let Some(s) = u.amount_refunded {
            self.amount_refunded = s;
        }
        if let Some(s) = u.charge_id {
            self.charge_id = s;
        }
        if let Some(s) = u.charge_payload {
            self.charge_payload = s;
        }
        if let Some(s) = u.txn {
            self.txn = Some(s);
        }
        if let Some(s) = u.txn_refunded {
            self.txn_refunded = Some(s);
        }
        if let Some(s) = u.failure_code {
            self.failure_code = s;
        }
        if let Some(s) = u.failure_msg {
            self.failure_msg = s;
        }
    }
}

} // verus!
