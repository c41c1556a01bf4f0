//! Completing a charge: the provider's confirmation is recorded, the
//! top-up is prepared and committed in the ledger, and the charge is
//! marked as committed with the transaction that did it.

use vstd::prelude::*;
use vstd::string::StringExecFns;

use crate::charge::{Charge, ChargeUpdate, ChargeUpdateView, ChargeView};
use crate::commit::{CommitMachine, CommitView};
use crate::error::Error;
use crate::id::{sys_id, Id};
use crate::kind::TransactionKind;
use crate::mac::HMacTag;
use crate::prepare::{PrepareMachine, PrepareView};
use crate::store::{MemStore, Reply, ReplyView, Request, RequestView, StoreView, request_view};
use crate::task::MAX_ATTEMPTS;
use crate::transaction::{Transaction, TransactionView};

verus! {

/// Where the completing of a charge stands.
#[derive(Clone, Copy, Debug)]
pub enum CompletePhase {
    /// The stored charge was asked for.
    Reading,
    /// The move from awaiting to confirmed was asked for.
    Confirming,
    /// The top-up is being prepared.
    Preparing,
    /// The top-up is being committed.
    Committing,
    /// The move from confirmed to committed was asked for.
    Finalizing,
    /// The charge is committed, by this call or before it.
    Succeeded,
    /// The completing gave up.
    Failed(Error),
}

/// The completing of one charge.
#[derive(Debug)]
pub struct CompleteMachine {
    pub phase: CompletePhase,
    /// The charge as far as it is known.
    pub charge: Charge,
    /// What the provider confirmed: currency, amount and payload, with the
    /// status that records it.
    pub confirm: ChargeUpdate,
    /// The provider's identifier of the charge, as the caller has it.
    pub charge_id: String,
    /// The draft of the top-up: paid by the system, with its payload.
    pub draft: Transaction,
    /// The identifier of the top-up.
    pub txn_id: Id,
    pub prepare: PrepareMachine,
    pub commit: CommitMachine,
    /// How many times the last move was asked for again.
    pub attempts: u8,
    /// The time of the operation, in milliseconds.
    pub now: i64,
}

pub ghost struct CompleteView {
    pub phase: CompletePhase,
    pub charge: ChargeView,
    pub confirm: ChargeUpdateView,
    pub charge_id: Seq<char>,
    pub draft: TransactionView,
    pub txn_id: Id,
    pub prepare: PrepareView,
    pub commit: CommitView,
    pub attempts: u8,
    pub now: int,
}

impl View for CompleteMachine {
    type V = CompleteView;

    open spec fn view(&self) -> CompleteView {
        CompleteView {
            phase: self.phase,
            charge: self.charge@,
            confirm: self.confirm@,
            charge_id: self.charge_id@,
            draft: self.draft@,
            txn_id: self.txn_id,
            prepare: self.prepare@,
            commit: self.commit@,
            attempts: self.attempts,
            now: self.now as int,
        }
    }
}

/// The columns that record the provider's confirmation.
pub open spec fn confirmation(currency: Seq<char>, amount: int, payload: Seq<u8>) -> ChargeUpdateView {
    ChargeUpdateView {
        status: Some(2),
        currency: Some(currency),
        amount: Some(amount),
        charge_payload: Some(payload),
        ..ChargeUpdateView::none()
    }
}

/// The columns that record the committed top-up.
pub open spec fn finalization(txn: Id) -> ChargeUpdateView {
    ChargeUpdateView { status: Some(3), txn: Some(txn), ..ChargeUpdateView::none() }
}

/// The error of a result that is one, else a failure of the store.
pub open spec fn error_of(r: Result<(), Error>) -> Error {
    match r {
        Err(e) => e,
        Ok(_) => Error::StoreUnavailable,
    }
}

impl CompleteView {
    pub open spec fn fail(self, e: Error) -> (CompleteView, Option<RequestView>) {
        (CompleteView { phase: CompletePhase::Failed(e), ..self }, None)
    }

    /// The request for the last move, with the transaction to record.
    pub open spec fn finalize_request(self) -> Option<RequestView> {
        Some(
            RequestView::UpdateCharge {
                uid: self.charge.uid,
                id: self.charge.id,
                expected_status: 2,
                changes: finalization(self.txn_id),
                updated_at: self.now,
            },
        )
    }

    /// The completing at its start, and its first request.
    pub open spec fn spec_start(
        uid: Id,
        id: Id,
        currency: Seq<char>,
        amount: int,
        charge_id: Seq<char>,
        charge_payload: Seq<u8>,
        txn_payload: Seq<u8>,
        txn_id: Id,
        now: int,
    ) -> (CompleteView, Option<RequestView>) {
        let draft = TransactionView { payload: txn_payload, ..TransactionView::empty(sys_id(), sys_id()) };
        (
            CompleteView {
                phase: CompletePhase::Reading,
                charge: ChargeView::empty(uid, id),
                confirm: confirmation(currency, amount, charge_payload),
                charge_id,
                draft,
                txn_id,
                prepare: PrepareView::spec_start(draft, uid, TransactionKind::Topup, 0, txn_id).0,
                commit: CommitView::spec_start(TransactionView::empty(sys_id(), sys_id())).0,
                attempts: 0,
                now,
            },
            Some(RequestView::GetCharge { uid, id }),
        )
    }

    /// What follows the reading of the charge. The provider's identifier
    /// must be the stored one. A charge that is committed already needs
    /// nothing; one that is confirmed and names its transaction needs only
    /// the last move; one that awaits the provider is confirmed; any other
    /// is refused.
    pub open spec fn read(self, c: ChargeView) -> (CompleteView, Option<RequestView>) {
        let m = CompleteView { charge: c, ..self };
        if c.uid != self.charge.uid || c.id != self.charge.id {
            self.fail(Error::StoreUnavailable)
        } else if c.charge_id != self.charge_id {
            m.fail(Error::InvalidArgument)
        } else if c.status == 3 {
            (CompleteView { phase: CompletePhase::Succeeded, ..m }, None)
        } else if c.status == 2 && c.txn is Some {
            let f = CompleteView { phase: CompletePhase::Finalizing, txn_id: c.txn->0, ..m };
            (f, f.finalize_request())
        } else if c.status != 1 {
            m.fail(Error::StatusConflict)
        } else {
            (
                CompleteView { phase: CompletePhase::Confirming, ..m },
                Some(
                    RequestView::UpdateCharge {
                        uid: c.uid,
                        id: c.id,
                        expected_status: 1,
                        changes: self.confirm,
                        updated_at: self.now,
                    },
                ),
            )
        }
    }

    /// What follows the confirmation: the preparation of a top-up of the
    /// charge's quantity, paid by the system to the user, described by the
    /// provider's name.
    pub open spec fn confirmed(self) -> (CompleteView, Option<RequestView>) {
        let charge = self.charge.updated(self.confirm, self.now);
        let draft = TransactionView { description: charge.provider + ".topup"@, ..self.draft };
        let started = PrepareView::spec_start(
            draft,
            charge.uid,
            TransactionKind::Topup,
            charge.quantity,
            self.txn_id,
        );
        let m = CompleteView { charge, draft, prepare: started.0, ..self };
        if started.1 is None {
            m.fail(error_of(started.0.outcome()))
        } else {
            (CompleteView { phase: CompletePhase::Preparing, ..m }, started.1)
        }
    }

    /// What follows the preparation: the committing of the top-up.
    pub open spec fn prepared(self) -> (CompleteView, Option<RequestView>) {
        let txn = self.prepare.txn;
        if self.prepare.outcome() is Err {
            self.fail(error_of(self.prepare.outcome()))
        } else if txn.sub_shares > 0 && txn.sub_payee is None {
            self.fail(Error::InvalidArgument)
        } else {
            let started = CommitView::spec_start(txn);
            let m = CompleteView { commit: started.0, ..self };
            if started.1 is None {
                m.fail(error_of(started.0.outcome()))
            } else {
                (CompleteView { phase: CompletePhase::Committing, ..m }, started.1)
            }
        }
    }

    /// The completing after an answer, and its next request if it goes on.
    pub open spec fn spec_step(self, reply: ReplyView, key: Seq<u8>) -> (
        CompleteView,
        Option<RequestView>,
    ) {
        match self.phase {
            CompletePhase::Reading => match reply {
                ReplyView::Charge(c) => self.read(c),
                ReplyView::NotFound => self.fail(Error::NotFound),
                _ => self.fail(Error::StoreUnavailable),
            },
            CompletePhase::Confirming => match reply {
                ReplyView::Applied(applied) => if applied {
                    self.confirmed()
                } else {
                    self.fail(Error::StatusConflict)
                },
                _ => self.fail(Error::StoreUnavailable),
            },
            CompletePhase::Preparing => {
                let stepped = self.prepare.spec_step(reply, key);
                let m = CompleteView { prepare: stepped.0, ..self };
                if stepped.1 is Some {
                    (m, stepped.1)
                } else {
                    m.prepared()
                }
            },
            CompletePhase::Committing => {
                let stepped = self.commit.spec_step(reply, key);
                let m = CompleteView { commit: stepped.0, ..self };
                if stepped.1 is Some {
                    (m, stepped.1)
                } else if stepped.0.outcome() is Err {
                    m.fail(error_of(stepped.0.outcome()))
                } else {
                    (CompleteView { phase: CompletePhase::Finalizing, ..m }, m.finalize_request())
                }
            },
            CompletePhase::Finalizing => if reply == ReplyView::Applied(true) {
                (
                    CompleteView {
                        phase: CompletePhase::Succeeded,
                        charge: self.charge.updated(finalization(self.txn_id), self.now),
                        ..self
                    },
                    None,
                )
            } else if self.attempts + 1 < MAX_ATTEMPTS {
                (
                    CompleteView { attempts: (self.attempts + 1) as u8, ..self },
                    self.finalize_request(),
                )
            } else {
                self.fail(Error::StatusConflict)
            },
            _ => (self, None),
        }
    }

    /// How the completing ended.
    pub open spec fn outcome(self) -> Result<(), Error> {
        match self.phase {
            CompletePhase::Succeeded => Ok(()),
            CompletePhase::Failed(e) => Err(e),
            _ => Err(Error::StoreUnavailable),
        }
    }
}

/// The store and the completing after the store has answered, one after
/// the other, up to `fuel` requests, with nobody else writing.
pub open spec fn complete_run(
    store: StoreView,
    key: Seq<u8>,
    m: CompleteView,
    request: Option<RequestView>,
    fuel: nat,
) -> (StoreView, CompleteView)
    decreases fuel,
{
    if request is None || fuel == 0 {
        (store, m)
    } else {
        let answered = store.apply(request->0);
        let stepped = m.spec_step(answered.1, key);
        complete_run(answered.0, key, stepped.0, stepped.1, (fuel - 1) as nat)
    }
}

/// More requests than a completing ever makes.
pub const COMPLETE_FUEL: u8 = 64;

fn error_in(r: Result<(), Error>) -> (e: Error)
    ensures
        e == error_of(r),
{
    match r {
        Err(e) => e,
        Ok(_) => Error::StoreUnavailable,
    }
}

impl CompleteMachine {
    /// Begins the completing of the charge `(uid, id)` with what the
    /// provider confirmed. The top-up gets the identifier `txn_id` and the
    /// payload `txn_payload`.
    pub fn start(
        uid: Id,
        id: Id,
        currency: String,
        amount: i64,
        charge_id: String,
        charge_payload: Vec<u8>,
        txn_payload: Vec<u8>,
        txn_id: Id,
        now: i64,
    ) -> (r: (CompleteMachine, Option<Request>))
        ensures
            (r.0@, request_view(r.1)) == CompleteView::spec_start(
                uid,
                id,
                currency@,
                amount as int,
                charge_id@,
                charge_payload@,
                txn_payload@,
                txn_id,
                now as int,
            ),
    {
        let mut draft: Transaction = Transaction::with_pk(sys_id(), sys_id());
        draft.payload = txn_payload;
        let mut confirm: ChargeUpdate = ChargeUpdate::default();
        confirm.status = Some(2);
        confirm.currency = Some(currency);
        confirm.amount = Some(amount);
        confirm.charge_payload = Some(charge_payload);
        let prepare = PrepareMachine::start(draft.clone(), uid, TransactionKind::Topup, 0, txn_id).0;
        let commit = CommitMachine::start(Transaction::with_pk(sys_id(), sys_id())).0;
        (
            CompleteMachine {
                phase: CompletePhase::Reading,
                charge: Charge::with_pk(uid, id),
                confirm,
                charge_id,
                draft,
                txn_id,
                prepare,
                commit,
                attempts: 0,
                now,
            },
            Some(Request::GetCharge { uid, id }),
        )
    }

    fn give_up(&mut self, e: Error) -> (next: Option<Request>)
        ensures
            (final(self)@, request_view(next)) == old(self)@.fail(e),
    {
        self.phase = CompletePhase::Failed(e);
        None
    }

    fn finalize_request(&self) -> (next: Option<Request>)
        ensures
            request_view(next) == self@.finalize_request(),
    {
        let mut changes: ChargeUpdate = ChargeUpdate::default();
        changes.status = Some(3);
        changes.txn = Some(self.txn_id);
        Some(
            Request::UpdateCharge {
                uid: self.charge.uid,
                id: self.charge.id,
                expected_status: 2,
                changes,
                updated_at: self.now,
            },
        )
    }

    fn read(&mut self, c: Charge) -> (next: Option<Request>)
        ensures
            (final(self)@, request_view(next)) == old(self)@.read(c@),
    {
        if c.uid != self.charge.uid || c.id != self.charge.id {
            return self.give_up(Error::StoreUnavailable);
        }
        self.charge = c;
        if self.charge.charge_id != self.charge_id {
            return self.give_up(Error::InvalidArgument);
        }
        if self.charge.status == 3 {
            self.phase = CompletePhase::Succeeded;
            return None;
        }
        if self.charge.status == 2 {
            if let Some(t) = self.charge.txn {
                self.txn_id = t;
                self.phase = CompletePhase::Finalizing;
                return self.finalize_request();
            }
        }
        if self.charge.status != 1 {
            return self.give_up(Error::StatusConflict);
        }
        self.phase = CompletePhase::Confirming;
        Some(
            Request::UpdateCharge {
                uid: self.charge.uid,
                id: self.charge.id,
                expected_status: 1,
                changes: self.confirm.clone(),
                updated_at: self.now,
            },
        )
    }

    fn confirmed(&mut self) -> (next: Option<Request>)
        ensures
            (final(self)@, request_view(next)) == old(self)@.confirmed(),
    {
        let confirm: ChargeUpdate = self.confirm.clone();
        self.charge.fill(confirm, self.now);
        self.draft.description = self.charge.provider.clone().concat(".topup");
        let started = PrepareMachine::start(
            self.draft.clone(),
            self.charge.uid,
            TransactionKind::Topup,
            self.charge.quantity,
            self.txn_id,
        );
        self.prepare = started.0;
        match started.1 {
            None => {
                let e: Error = error_in(self.prepare.outcome());
                self.give_up(e)
            },
            Some(request) => {
                self.phase = CompletePhase::Preparing;
                Some(request)
            },
        }
    }

    fn prepared(&mut self) -> (next: Option<Request>)
        ensures
            (final(self)@, request_view(next)) == old(self)@.prepared(),
    {
        let r = self.prepare.outcome();
        if r.is_err() {
            return self.give_up(error_in(r));
        }
        if self.prepare.txn.sub_shares > 0 && self.prepare.txn.sub_payee.is_none() {
            return self.give_up(Error::InvalidArgument);
        }
        let started = CommitMachine::start(self.prepare.txn.clone());
        self.commit = started.0;
        match started.1 {
            None => {
                let e: Error = error_in(self.commit.outcome());
                self.give_up(e)
            },
            Some(request) => {
                self.phase = CompletePhase::Committing;
                Some(request)
            },
        }
    }

    /// Takes the store's answer to the last request and says what to ask
    /// next; `None` once the completing has ended.
    pub fn step(&mut self, reply: Reply, mac: &HMacTag) -> (next: Option<Request>)
        ensures
            (final(self)@, request_view(next)) == old(self)@.spec_step(reply@, mac@),
    {
        match self.phase {
            CompletePhase::Reading => match reply {
                Reply::Charge(c) => self.read(c),
                Reply::NotFound => self.give_up(Error::NotFound),
                _ => self.give_up(Error::StoreUnavailable),
            },
            CompletePhase::Confirming => match reply {
                Reply::Applied(applied) => {
                    if applied {
                        self.confirmed()
                    } else {
                        self.give_up(Error::StatusConflict)
                    }
                },
                _ => self.give_up(Error::StoreUnavailable),
            },
            CompletePhase::Preparing => {
                let next = self.prepare.step(reply, mac);
                if next.is_some() {
                    next
                } else {
                    self.prepared()
                }
            },
            CompletePhase::Committing => {
                let next = self.commit.step(reply, mac);
                if next.is_some() {
                    return next;
                }
                let r = self.commit.outcome();
                if r.is_err() {
                    return self.give_up(error_in(r));
                }
                self.phase = CompletePhase::Finalizing;
                self.finalize_request()
            },
            CompletePhase::Finalizing => {
                let applied: bool = match reply {
                    Reply::Applied(a) => a,
                    _ => false,
                };
                if applied {
                    let mut changes: ChargeUpdate = ChargeUpdate::default();
                    changes.status = Some(3);
                    changes.txn = Some(self.txn_id);
                    self.charge.fill(changes, self.now);
                    self.phase = CompletePhase::Succeeded;
                    None
                } else if self.attempts < MAX_ATTEMPTS - 1 {
                    self.attempts = self.attempts + 1;
                    self.finalize_request()
                } else {
                    self.give_up(Error::StatusConflict)
                }
            },
            _ => None,
        }
    }

    /// How the completing ended.
    pub fn outcome(&self) -> (r: Result<(), Error>)
        ensures
            r == self@.outcome(),
    {
        match self.phase {
            CompletePhase::Succeeded => Ok(()),
            CompletePhase::Failed(e) => Err(e),
            _ => Err(Error::StoreUnavailable),
        }
    }

    /// Runs the completing on a store in memory, request by request, from
    /// its first request to its end.
    pub fn run(&mut self, db: &mut MemStore, mac: &HMacTag, first: Option<Request>)
        requires
            old(db).wf(),
        ensures
            final(db).wf(),
            (final(db)@, final(self)@) == complete_run(
                old(db)@,
                mac@,
                old(self)@,
                request_view(first),
                COMPLETE_FUEL as nat,
            ),
    {
        let mut request: Option<Request> = first;
        let mut fuel: u8 = COMPLETE_FUEL;
        while fuel > 0 && request.is_some()
            invariant
                db.wf(),
                complete_run(db@, mac@, self@, request_view(request), fuel as nat) == complete_run(
                    old(db)@,
                    mac@,
                    old(self)@,
                    request_view(first),
                    COMPLETE_FUEL as nat,
                ),
            decreases fuel,
        {
            let reply: Reply = db.execute(request.unwrap());
            request = self.step(reply, mac);
            fuel = fuel - 1;
        }
    }
}

/// The store, the charge and the result after a whole completing on a
/// store that nobody else writes to.
pub open spec fn spec_complete(
    store: StoreView,
    key: Seq<u8>,
    uid: Id,
    id: Id,
    currency: Seq<char>,
    amount: int,
    charge_id: Seq<char>,
    charge_payload: Seq<u8>,
    txn_payload: Seq<u8>,
    txn_id: Id,
    now: int,
) -> (StoreView, ChargeView, Result<(), Error>) {
    let started = CompleteView::spec_start(
        uid,
        id,
        currency,
        amount,
        charge_id,
        charge_payload,
        txn_payload,
        txn_id,
        now,
    );
    let ended = complete_run(store, key, started.0, started.1, COMPLETE_FUEL as nat);
    (ended.0, ended.1.charge, ended.1.outcome())
}

/// Completes the charge `(uid, id)` on a store in memory with what the
/// provider confirmed, the top-up under the identifier `txn_id`, and gives
/// the charge as it then is.
pub fn complete_as(
    db: &mut MemStore,
    mac: &HMacTag,
    uid: Id,
    id: Id,
    currency: String,
    amount: i64,
    charge_id: String,
    charge_payload: Vec<u8>,
    txn_payload: Vec<u8>,
    txn_id: Id,
    now: i64,
) -> (r: Result<Charge, Error>)
    requires
        old(db).wf(),
    ensures
        final(db).wf(),
        ({
            let s = spec_complete(
                old(db)@,
                mac@,
                uid,
                id,
                currency@,
                amount as int,
                charge_id@,
                charge_payload@,
                txn_payload@,
                txn_id,
                now as int,
            );
            &&& final(db)@ == s.0
            &&& match r {
                Ok(charge) => s.2 is Ok && charge@ == s.1,
                Err(e) => s.2 == Err::<(), Error>(e),
            }
        }),
{
    let started = CompleteMachine::start(
        uid,
        id,
        currency,
        amount,
        charge_id,
        charge_payload,
        txn_payload,
        txn_id,
        now,
    );
    let mut m: CompleteMachine = started.0;
    m.run(db, mac, started.1);
    match m.outcome() {
        Ok(_) => Ok(m.charge),
        Err(e) => Err(e),
    }
}

/// Completes the charge `(uid, id)` on a store in memory with what the
/// provider confirmed, the top-up under a fresh identifier from the
/// generator.
pub fn complete(
    db: &mut MemStore,
    mac: &HMacTag,
    uid: Id,
    id: Id,
    currency: String,
    amount: i64,
    charge_id: String,
    charge_payload: Vec<u8>,
    txn_payload: Vec<u8>,
    now: i64,
) -> (r: Result<Charge, Error>)
    requires
        old(db).wf(),
    ensures
        final(db).wf(),
        exists|txn_id: Id|
            {
                let s = #[trigger] spec_complete(
                    old(db)@,
                    mac@,
                    uid,
                    id,
                    currency@,
                    amount as int,
                    charge_id@,
                    charge_payload@,
                    txn_payload@,
                    txn_id,
                    now as int,
                );
                &&& final(db)@ == s.0
                &&& match r {
                    Ok(charge) => s.2 is Ok && charge@ == s.1,
                    Err(e) => s.2 == Err::<(), Error>(e),
                }
            },
{
    let txn_id: Id = Id::new();
    complete_as(
        db,
        mac,
        uid,
        id,
        currency,
        amount,
        charge_id,
        charge_payload,
        txn_payload,
        txn_id,
        now,
    )
}

} // verus!
