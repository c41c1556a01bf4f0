//! Cancelling a prepared transaction: the row moves to cancelling, the
//! amount goes back to the payer's wallet, and the row moves to cancelled.

use vstd::prelude::*;

use crate::balance::{rollback_bucket, Bucket};
use crate::error::Error;
use crate::id::Id;
use crate::kind::TransactionKind;
use crate::mac::HMacTag;
use crate::store::{MemStore, Reply, ReplyView, Request, RequestView, StoreView, request_view};
use crate::task::{TaskPhase, WalletTask};
use crate::transaction::{Transaction, TransactionView};

verus! {

/// Where the cancelling of a transaction stands.
#[derive(Clone, Copy, Debug)]
pub enum CancelPhase {
    /// The move from prepared to cancelling was asked for.
    Marking,
    /// The move did not apply and the status was asked for.
    Rereading,
    /// The amount is on its way back to the payer's wallet.
    Rolling,
    /// The move from cancelling to cancelled was asked for.
    Closing,
    /// That move did not apply and the status was asked for.
    ClosingReread,
    /// The transaction is cancelled, by this call or before it.
    Succeeded,
    /// The cancelling gave up.
    Failed(Error),
}

/// The cancelling of one transaction.
#[derive(Debug)]
pub struct CancelMachine {
    pub phase: CancelPhase,
    pub txn: Transaction,
    /// The write that gives the amount back.
    pub task: WalletTask,
}

pub ghost struct CancelView {
    pub phase: CancelPhase,
    pub txn: TransactionView,
    pub task: WalletTask,
}

impl View for CancelMachine {
    type V = CancelView;

    open spec fn view(&self) -> CancelView {
        CancelView { phase: self.phase, txn: self.txn@, task: self.task }
    }
}

/// The write that gives `amount` back to the payer of a cancelled
/// transaction of this kind. A missing wallet is not created.
pub open spec fn rollback_task(kind: TransactionKind, uid: Id, id: Id, amount: i64) -> WalletTask {
    let bucket = rollback_bucket(kind);
    WalletTask::spec_start(
        uid,
        id,
        if bucket == Bucket::Award { amount } else { 0 },
        if bucket == Bucket::Topup { amount } else { 0 },
        if bucket == Bucket::Income { amount } else { 0 },
        false,
    ).0
}

impl CancelView {
    pub open spec fn fail(self, e: Error) -> (CancelView, Option<RequestView>) {
        (CancelView { phase: CancelPhase::Failed(e), ..self }, None)
    }

    pub open spec fn with_status(self, s: int) -> CancelView {
        CancelView { txn: TransactionView { status: s, ..self.txn }, ..self }
    }

    pub open spec fn status_request(self) -> Option<RequestView> {
        Some(RequestView::GetTransactionStatus { uid: self.txn.uid, id: self.txn.id })
    }

    /// The cancelling at its start, and its first request. Only a prepared
    /// transaction of a known kind and a positive amount is cancelled.
    pub open spec fn spec_start(txn: TransactionView) -> (CancelView, Option<RequestView>) {
        let kind = TransactionKind::parse(txn.kind);
        let idle = WalletTask::spec_start(txn.uid, txn.id, 0, 0, 0, false).0;
        let m = CancelView { phase: CancelPhase::Marking, txn, task: idle };
        if kind is None {
            m.fail(Error::InvalidArgument)
        } else if txn.status != 1 {
            m.fail(Error::StatusConflict)
        } else if txn.amount <= 0 {
            m.fail(Error::InvalidArgument)
        } else {
            (
                CancelView {
                    task: rollback_task(kind->0, txn.uid, txn.id, txn.amount as i64),
                    ..m
                },
                Some(
                    RequestView::SetTransactionStatus { uid: txn.uid, id: txn.id, from: 1, to: -1 },
                ),
            )
        }
    }

    /// The cancelling after an answer, and its next request if it goes on.
    pub open spec fn spec_step(self, reply: ReplyView, key: Seq<u8>) -> (
        CancelView,
        Option<RequestView>,
    ) {
        match self.phase {
            CancelPhase::Marking => match reply {
                ReplyView::Applied(applied) => if applied {
                    (
                        CancelView { phase: CancelPhase::Rolling, ..self.with_status(-1) },
                        Some(RequestView::GetWallet { uid: self.task.uid }),
                    )
                } else {
                    (CancelView { phase: CancelPhase::Rereading, ..self }, self.status_request())
                },
                _ => self.fail(Error::StoreUnavailable),
            },
            CancelPhase::Rereading => match reply {
                ReplyView::Status(s) => if s < 0 {
                    (CancelView { phase: CancelPhase::Succeeded, ..self.with_status(s) }, None)
                } else {
                    self.with_status(s).fail(Error::StatusConflict)
                },
                ReplyView::NotFound => self.fail(Error::NotFound),
                _ => self.fail(Error::StoreUnavailable),
            },
            CancelPhase::Rolling => {
                let stepped = self.task.spec_step(reply, key);
                let m = CancelView { task: stepped.0, ..self };
                match stepped.0.phase {
                    TaskPhase::Succeeded => (
                        CancelView { phase: CancelPhase::Closing, ..m },
                        Some(
                            RequestView::SetTransactionStatus {
                                uid: self.txn.uid,
                                id: self.txn.id,
                                from: -1,
                                to: -2,
                            },
                        ),
                    ),
                    TaskPhase::Failed(e) => m.fail(
                        if e == Error::Contention {
                            Error::CancelStuck
                        } else {
                            e
                        },
                    ),
                    _ => (m, stepped.1),
                }
            },
            CancelPhase::Closing => match reply {
                ReplyView::Applied(applied) => if applied {
                    (CancelView { phase: CancelPhase::Succeeded, ..self.with_status(-2) }, None)
                } else {
                    (
                        CancelView { phase: CancelPhase::ClosingReread, ..self },
                        self.status_request(),
                    )
                },
                _ => self.fail(Error::StoreUnavailable),
            },
            CancelPhase::ClosingReread => match reply {
                ReplyView::Status(s) => if s == -2 {
                    (CancelView { phase: CancelPhase::Succeeded, ..self.with_status(s) }, None)
                } else {
                    self.with_status(s).fail(Error::StatusConflict)
                },
                ReplyView::NotFound => self.fail(Error::NotFound),
                _ => self.fail(Error::StoreUnavailable),
            },
            _ => (self, None),
        }
    }

    /// How the cancelling ended.
    pub open spec fn outcome(self) -> Result<(), Error> {
        match self.phase {
            CancelPhase::Succeeded => Ok(()),
            CancelPhase::Failed(e) => Err(e),
            _ => Err(Error::StoreUnavailable),
        }
    }
}

/// The store and the cancelling after the store has answered, one after
/// the other, up to `fuel` requests, with nobody else writing.
pub open spec fn cancel_run(
    store: StoreView,
    key: Seq<u8>,
    m: CancelView,
    request: Option<RequestView>,
    fuel: nat,
) -> (StoreView, CancelView)
    decreases fuel,
{
    if request is None || fuel == 0 {
        (store, m)
    } else {
        let answered = store.apply(request->0);
        let stepped = m.spec_step(answered.1, key);
        cancel_run(answered.0, key, stepped.0, stepped.1, (fuel - 1) as nat)
    }
}

/// More requests than a cancelling ever makes.
pub const CANCEL_FUEL: u8 = 16;

/// The store, the transaction and the result after a whole cancelling on a
/// store that nobody else writes to.
pub open spec fn spec_cancel(store: StoreView, key: Seq<u8>, txn: TransactionView) -> (
    StoreView,
    TransactionView,
    Result<(), Error>,
) {
    let started = CancelView::spec_start(txn);
    let ended = cancel_run(store, key, started.0, started.1, CANCEL_FUEL as nat);
    (ended.0, ended.1.txn, ended.1.outcome())
}

impl CancelMachine {
    /// Begins the cancelling of a transaction as it was read from the
    /// store.
    pub fn start(txn: Transaction) -> (r: (CancelMachine, Option<Request>))
        ensures
            (r.0@, request_view(r.1)) == CancelView::spec_start(txn@),
    {
        let idle = WalletTask::start(txn.uid, txn.id, 0, 0, 0, false).0;
        let mut m = CancelMachine { phase: CancelPhase::Marking, txn, task: idle };
        let kind: TransactionKind = match TransactionKind::from_str(m.txn.kind.as_str()) {
            Ok(k) => k,
            Err(_) => {
                m.phase = CancelPhase::Failed(Error::InvalidArgument);
                return (m, None);
            },
        };
        if m.txn.status != 1 {
            m.phase = CancelPhase::Failed(Error::StatusConflict);
            return (m, None);
        }
        if m.txn.amount <= 0 {
            m.phase = CancelPhase::Failed(Error::InvalidArgument);
            return (m, None);
        }
        let amount: i64 = m.txn.amount;
        let task = match kind {
            TransactionKind::Award => WalletTask::start(m.txn.uid, m.txn.id, amount, 0, 0, false),
            TransactionKind::Withdraw => WalletTask::start(m.txn.uid, m.txn.id, 0, 0, amount, false),
            _ => WalletTask::start(m.txn.uid, m.txn.id, 0, amount, 0, false),
        };
        m.task = task.0;
        let request = Request::SetTransactionStatus {
            uid: m.txn.uid,
            id: m.txn.id,
            from: 1,
            to: -1,
        };
        (m, Some(request))
    }

    fn give_up(&mut self, e: Error) -> (next: Option<Request>)
        ensures
            (final(self)@, request_view(next)) == old(self)@.fail(e),
    {
        self.phase = CancelPhase::Failed(e);
        None
    }

    fn ask_status(&self) -> (next: Option<Request>)
        ensures
            request_view(next) == self@.status_request(),
    {
        Some(Request::GetTransactionStatus { uid: self.txn.uid, id: self.txn.id })
    }

    /// Takes the store's answer to the last request and says what to ask
    /// next; `None` once the cancelling has ended.
    pub fn step(&mut self, reply: Reply, mac: &HMacTag) -> (next: Option<Request>)
        ensures
            (final(self)@, request_view(next)) == old(self)@.spec_step(reply@, mac@),
    {
        match self.phase {
            CancelPhase::Marking => match reply {
                Reply::Applied(applied) => {
                    if applied {
                        self.txn.status = -1;
                        self.phase = CancelPhase::Rolling;
                        Some(Request::GetWallet { uid: self.task.uid })
                    } else {
                        self.phase = CancelPhase::Rereading;
                        self.ask_status()
                    }
                },
                _ => self.give_up(Error::StoreUnavailable),
            },
            CancelPhase::Rereading => match reply {
                Reply::Status(s) => {
                    self.txn.status = s;
                    if s < 0 {
                        self.phase = CancelPhase::Succeeded;
                        None
                    } else {
                        self.give_up(Error::StatusConflict)
                    }
                },
                Reply::NotFound => self.give_up(Error::NotFound),
                _ => self.give_up(Error::StoreUnavailable),
            },
            CancelPhase::Rolling => {
                let mut task: WalletTask = self.task;
                let next = task.step(reply, mac);
                self.task = task;
                match task.phase {
                    TaskPhase::Succeeded => {
                        self.phase = CancelPhase::Closing;
                        Some(
                            Request::SetTransactionStatus {
                                uid: self.txn.uid,
                                id: self.txn.id,
                                from: -1,
                                to: -2,
                            },
                        )
                    },
                    TaskPhase::Failed(e) => match e {
                        Error::Contention => self.give_up(Error::CancelStuck),
                        _ => self.give_up(e),
                    },
                    _ => next,
                }
            },
            CancelPhase::Closing => match reply {
                Reply::Applied(applied) => {
                    if applied {
                        self.txn.status = -2;
                        self.phase = CancelPhase::Succeeded;
                        None
                    } else {
                        self.phase = CancelPhase::ClosingReread;
                        self.ask_status()
                    }
                },
                _ => self.give_up(Error::StoreUnavailable),
            },
            CancelPhase::ClosingReread => match reply {
                Reply::Status(s) => {
                    self.txn.status = s;
                    if s == -2 {
                        self.phase = CancelPhase::Succeeded;
                        None
                    } else {
                        self.give_up(Error::StatusConflict)
                    }
                },
                Reply::NotFound => self.give_up(Error::NotFound),
                _ => self.give_up(Error::StoreUnavailable),
            },
            _ => None,
        }
    }

    /// How the cancelling ended.
    pub fn outcome(&self) -> (r: Result<(), Error>)
        ensures
            r == self@.outcome(),
    {
        match self.phase {
            CancelPhase::Succeeded => Ok(()),
            CancelPhase::Failed(e) => Err(e),
            _ => Err(Error::StoreUnavailable),
        }
    }
}

impl Transaction {
    /// Cancels the transaction on a store in memory: the whole cancelling,
    /// request by request.
    pub fn cancel(&mut self, db: &mut MemStore, mac: &HMacTag) -> (r: Result<(), Error>)
        requires
            old(db).wf(),
        ensures
            final(db).wf(),
            (final(db)@, final(self)@, r) == spec_cancel(old(db)@, mac@, old(self)@),
    {
        let started = CancelMachine::start(self.clone());
        let mut m: CancelMachine = started.0;
        let mut request: Option<Request> = started.1;
        let mut fuel: u8 = CANCEL_FUEL;
        while fuel > 0 && request.is_some()
            invariant
                db.wf(),
                cancel_run(db@, mac@, m@, request_view(request), fuel as nat) == cancel_run(
                    old(db)@,
                    mac@,
                    started.0@,
                    request_view(started.1),
                    CANCEL_FUEL as nat,
                ),
            decreases fuel,
        {
            let reply: Reply = db.execute(request.unwrap());
            request = m.step(reply, mac);
            fuel = fuel - 1;
        }
        let r = m.outcome();
        *self = m.txn;
        r
    }
}

} // verus!
